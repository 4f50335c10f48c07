//! Open Charge Map: the request for a region's stations, and the database
//! records that a returned station gives.

use vstd::prelude::*;
use crate::stations::{
    clone_opt, merge_station_fields, merged_spec, opt_view, NearbyStation, StationFields,
    StationFieldsView,
};
use crate::text::{decimal, has_substring, has_suffix, u32_to_string, str_eq};

verus! {

/// The request URL for the stations within `distance_km` of a point: the
/// query parameters the service sends, in this order, and
/// `modifiedsince` when only changes since a moment are wanted.
pub open spec fn request_url_spec(
    base_url: Seq<char>,
    latitude: Seq<char>,
    longitude: Seq<char>,
    distance_km: u32,
    api_key: Seq<char>,
    modified_since: Option<Seq<char>>,
) -> Seq<char> {
    let url = base_url + "?output=json&latitude="@ + latitude + "&longitude="@ + longitude
        + "&distance="@ + decimal(distance_km as nat)
        + "&distanceunit=KM&maxresults=1000&compact=false&verbose=true&key="@ + api_key;
    match modified_since {
        Some(since) => url + "&modifiedsince="@ + since,
        None => url,
    }
}

/// The view of an optional string slice.
pub open spec fn opt_str_view(o: Option<&str>) -> Option<Seq<char>> {
    match o {
        Some(s) => Some(s@),
        None => None,
    }
}

/// Builds the request URL for the stations around a point. The coordinates
/// arrive as the text of their decimal form.
pub fn ocm_request_url(
    base_url: &str,
    latitude: &str,
    longitude: &str,
    distance_km: u32,
    api_key: &str,
    modified_since: Option<&str>,
) -> (r: String)
    ensures
        r@ == request_url_spec(
            base_url@,
            latitude@,
            longitude@,
            distance_km,
            api_key@,
            opt_str_view(modified_since),
        ),
{
    let mut url = base_url.to_owned();
    url.append("?output=json&latitude=");
    url.append(latitude);
    url.append("&longitude=");
    url.append(longitude);
    url.append("&distance=");
    let distance = u32_to_string(distance_km);
    url.append(distance.as_str());
    url.append("&distanceunit=KM&maxresults=1000&compact=false&verbose=true&key=");
    url.append(api_key);
    match modified_since {
        Some(since) => {
            url.append("&modifiedsince=");
            url.append(since);
        },
        None => {},
    }
    url
}

/// A station's operator.
pub struct OcmOperator {
    pub id: Option<i64>,
    pub title: Option<String>,
}

/// How a station may be used (public, members only, ...).
pub struct OcmUsageType {
    pub id: Option<i64>,
    pub title: Option<String>,
}

/// Whether a station or connection is in service.
pub struct OcmStatusType {
    pub id: Option<i64>,
    pub title: Option<String>,
    pub is_operational: Option<bool>,
}

/// A station's country.
pub struct OcmCountry {
    pub iso_code: Option<String>,
}

/// A station's address. The coordinates are carried as the IEEE-754 bit
/// patterns of the numbers received.
pub struct OcmAddress {
    pub title: Option<String>,
    pub address_line1: Option<String>,
    pub town: Option<String>,
    pub state_or_province: Option<String>,
    pub postcode: Option<String>,
    pub country: Option<OcmCountry>,
    pub latitude_bits: u64,
    pub longitude_bits: u64,
    pub access_comments: Option<String>,
    pub related_url: Option<String>,
    pub contact_telephone1: Option<String>,
}

/// A connector's type.
pub struct OcmConnectionType {
    pub id: Option<i64>,
    pub title: Option<String>,
    pub formal_name: Option<String>,
}

/// A connector's charging level.
pub struct OcmLevel {
    pub id: Option<i64>,
    pub title: Option<String>,
    pub is_fast_charge_capable: Option<bool>,
}

/// A connector's current type (AC, DC, ...).
pub struct OcmCurrentType {
    pub id: Option<i64>,
    pub title: Option<String>,
}

/// One connector of a station. Amps, voltage and power are carried as the
/// IEEE-754 bit patterns of the numbers received.
pub struct OcmConnection {
    pub id: i64,
    pub connection_type: Option<OcmConnectionType>,
    pub level: Option<OcmLevel>,
    pub current_type: Option<OcmCurrentType>,
    pub status_type: Option<OcmStatusType>,
    pub amps_bits: Option<u64>,
    pub voltage_bits: Option<u64>,
    pub power_kw_bits: Option<u64>,
    pub quantity: Option<i64>,
    pub comments: Option<String>,
}

/// A station as Open Charge Map returns it.
pub struct OcmStation {
    pub id: i64,
    pub uuid: String,
    pub operator_info: Option<OcmOperator>,
    pub usage_type: Option<OcmUsageType>,
    pub usage_cost: Option<String>,
    pub status_type: Option<OcmStatusType>,
    pub address_info: OcmAddress,
    pub connections: Option<Vec<OcmConnection>>,
    pub number_of_points: Option<i64>,
    pub general_comments: Option<String>,
    pub is_recently_verified: Option<bool>,
    pub date_last_verified: Option<String>,
    pub date_last_status_update: Option<String>,
    pub date_created: Option<String>,
}

/// The columns of a station's database record.
pub struct OcmStationRow {
    pub id: i64,
    pub uuid: String,
    pub operator_id: Option<i64>,
    pub operator_title: Option<String>,
    pub usage_type_id: Option<i64>,
    pub usage_type_title: Option<String>,
    pub usage_cost: Option<String>,
    pub status_type_id: Option<i64>,
    pub is_operational: Option<bool>,
    pub address_title: Option<String>,
    pub address_line1: Option<String>,
    pub town: Option<String>,
    pub state_or_province: Option<String>,
    pub postcode: Option<String>,
    pub country_iso: Option<String>,
    pub latitude_bits: u64,
    pub longitude_bits: u64,
    pub access_comments: Option<String>,
    pub related_url: Option<String>,
    pub contact_telephone: Option<String>,
    pub number_of_points: Option<i64>,
    pub general_comments: Option<String>,
    pub is_recently_verified: Option<bool>,
    pub date_last_verified: Option<String>,
    pub date_last_status_update: Option<String>,
    pub date_created: Option<String>,
}

/// The columns of a connector's database record.
pub struct OcmConnectionRow {
    pub id: i64,
    pub station_id: i64,
    pub connection_type_id: Option<i64>,
    pub connection_type: Option<String>,
    pub formal_name: Option<String>,
    pub level_id: Option<i64>,
    pub level_title: Option<String>,
    pub is_fast_charge: Option<bool>,
    pub current_type_id: Option<i64>,
    pub current_type: Option<String>,
    pub amps_bits: Option<u64>,
    pub voltage_bits: Option<u64>,
    pub power_kw_bits: Option<u64>,
    pub quantity: Option<i64>,
    pub status_type_id: Option<i64>,
    pub is_operational: Option<bool>,
    pub comments: Option<String>,
}

/// The operator's title as recorded: the placeholder `(Unknown Operator)`
/// counts as no title.
pub open spec fn operator_title_spec(op: Option<OcmOperator>) -> Option<Seq<char>> {
    match op {
        Some(o) => match o.title {
            Some(t) => if t@ == "(Unknown Operator)"@ {
                None
            } else {
                Some(t@)
            },
            None => None,
        },
        None => None,
    }
}

/// Whether `r` is the record of station `s`: its fields, with the nested
/// parts flattened to their ids and titles and the unknown-operator
/// placeholder dropped.
pub open spec fn is_station_row(r: OcmStationRow, s: OcmStation) -> bool {
    &&& r.id == s.id
    &&& r.uuid@ == s.uuid@
    &&& r.operator_id == match s.operator_info {
        Some(o) => o.id,
        None => None,
    }
    &&& opt_view(r.operator_title) == operator_title_spec(s.operator_info)
    &&& r.usage_type_id == match s.usage_type {
        Some(u) => u.id,
        None => None,
    }
    &&& opt_view(r.usage_type_title) == match s.usage_type {
        Some(u) => opt_view(u.title),
        None => None,
    }
    &&& opt_view(r.usage_cost) == opt_view(s.usage_cost)
    &&& r.status_type_id == match s.status_type {
        Some(t) => t.id,
        None => None,
    }
    &&& r.is_operational == match s.status_type {
        Some(t) => t.is_operational,
        None => None,
    }
    &&& opt_view(r.address_title) == opt_view(s.address_info.title)
    &&& opt_view(r.address_line1) == opt_view(s.address_info.address_line1)
    &&& opt_view(r.town) == opt_view(s.address_info.town)
    &&& opt_view(r.state_or_province) == opt_view(s.address_info.state_or_province)
    &&& opt_view(r.postcode) == opt_view(s.address_info.postcode)
    &&& opt_view(r.country_iso) == match s.address_info.country {
        Some(c) => opt_view(c.iso_code),
        None => None,
    }
    &&& r.latitude_bits == s.address_info.latitude_bits
    &&& r.longitude_bits == s.address_info.longitude_bits
    &&& opt_view(r.access_comments) == opt_view(s.address_info.access_comments)
    &&& opt_view(r.related_url) == opt_view(s.address_info.related_url)
    &&& opt_view(r.contact_telephone) == opt_view(s.address_info.contact_telephone1)
    &&& r.number_of_points == s.number_of_points
    &&& opt_view(r.general_comments) == opt_view(s.general_comments)
    &&& r.is_recently_verified == s.is_recently_verified
    &&& opt_view(r.date_last_verified) == opt_view(s.date_last_verified)
    &&& opt_view(r.date_last_status_update) == opt_view(s.date_last_status_update)
    &&& opt_view(r.date_created) == opt_view(s.date_created)
}

/// The record of a station ([`is_station_row`]).
pub fn ocm_station_row(s: &OcmStation) -> (r: OcmStationRow)
    ensures
        is_station_row(r, *s),
{
    let operator_id = match &s.operator_info {
        Some(o) => o.id,
        None => None,
    };
    let operator_title = match &s.operator_info {
        Some(o) => match &o.title {
            Some(t) => if str_eq(t.as_str(), "(Unknown Operator)") {
                None
            } else {
                Some(t.clone())
            },
            None => None,
        },
        None => None,
    };
    let usage_type_id = match &s.usage_type {
        Some(u) => u.id,
        None => None,
    };
    let usage_type_title = match &s.usage_type {
        Some(u) => clone_opt(&u.title),
        None => None,
    };
    let status_type_id = match &s.status_type {
        Some(t) => t.id,
        None => None,
    };
    let is_operational = match &s.status_type {
        Some(t) => t.is_operational,
        None => None,
    };
    let country_iso = match &s.address_info.country {
        Some(c) => clone_opt(&c.iso_code),
        None => None,
    };
    let a = &s.address_info;
    OcmStationRow {
        id: s.id,
        uuid: s.uuid.clone(),
        operator_id,
        operator_title,
        usage_type_id,
        usage_type_title,
        usage_cost: clone_opt(&s.usage_cost),
        status_type_id,
        is_operational,
        address_title: clone_opt(&a.title),
        address_line1: clone_opt(&a.address_line1),
        town: clone_opt(&a.town),
        state_or_province: clone_opt(&a.state_or_province),
        postcode: clone_opt(&a.postcode),
        country_iso,
        latitude_bits: a.latitude_bits,
        longitude_bits: a.longitude_bits,
        access_comments: clone_opt(&a.access_comments),
        related_url: clone_opt(&a.related_url),
        contact_telephone: clone_opt(&a.contact_telephone1),
        number_of_points: s.number_of_points,
        general_comments: clone_opt(&s.general_comments),
        is_recently_verified: s.is_recently_verified,
        date_last_verified: clone_opt(&s.date_last_verified),
        date_last_status_update: clone_opt(&s.date_last_status_update),
        date_created: clone_opt(&s.date_created),
    }
}

/// Whether `r` is the record of connection `c` of station `station_id`.
pub open spec fn is_connection_row(r: OcmConnectionRow, c: OcmConnection, station_id: i64) -> bool {
    &&& r.id == c.id
    &&& r.station_id == station_id
    &&& r.connection_type_id == match c.connection_type {
        Some(t) => t.id,
        None => None,
    }
    &&& opt_view(r.connection_type) == match c.connection_type {
        Some(t) => opt_view(t.title),
        None => None,
    }
    &&& opt_view(r.formal_name) == match c.connection_type {
        Some(t) => opt_view(t.formal_name),
        None => None,
    }
    &&& r.level_id == match c.level {
        Some(l) => l.id,
        None => None,
    }
    &&& opt_view(r.level_title) == match c.level {
        Some(l) => opt_view(l.title),
        None => None,
    }
    &&& r.is_fast_charge == match c.level {
        Some(l) => l.is_fast_charge_capable,
        None => None,
    }
    &&& r.current_type_id == match c.current_type {
        Some(t) => t.id,
        None => None,
    }
    &&& opt_view(r.current_type) == match c.current_type {
        Some(t) => opt_view(t.title),
        None => None,
    }
    &&& r.amps_bits == c.amps_bits
    &&& r.voltage_bits == c.voltage_bits
    &&& r.power_kw_bits == c.power_kw_bits
    &&& r.quantity == c.quantity
    &&& r.status_type_id == match c.status_type {
        Some(t) => t.id,
        None => None,
    }
    &&& r.is_operational == match c.status_type {
        Some(t) => t.is_operational,
        None => None,
    }
    &&& opt_view(r.comments) == opt_view(c.comments)
}

/// The record of one connection of station `station_id`.
pub fn ocm_connection_row(c: &OcmConnection, station_id: i64) -> (r: OcmConnectionRow)
    ensures
        is_connection_row(r, *c, station_id),
{
    let (connection_type_id, connection_type, formal_name) = match &c.connection_type {
        Some(t) => (t.id, clone_opt(&t.title), clone_opt(&t.formal_name)),
        None => (None, None, None),
    };
    let (level_id, level_title, is_fast_charge) = match &c.level {
        Some(l) => (l.id, clone_opt(&l.title), l.is_fast_charge_capable),
        None => (None, None, None),
    };
    let (current_type_id, current_type) = match &c.current_type {
        Some(t) => (t.id, clone_opt(&t.title)),
        None => (None, None),
    };
    let (status_type_id, is_operational) = match &c.status_type {
        Some(t) => (t.id, t.is_operational),
        None => (None, None),
    };
    OcmConnectionRow {
        id: c.id,
        station_id,
        connection_type_id,
        connection_type,
        formal_name,
        level_id,
        level_title,
        is_fast_charge,
        current_type_id,
        current_type,
        amps_bits: c.amps_bits,
        voltage_bits: c.voltage_bits,
        power_kw_bits: c.power_kw_bits,
        quantity: c.quantity,
        status_type_id,
        is_operational,
        comments: clone_opt(&c.comments),
    }
}

/// The records of all of a station's connections, in order; none when the
/// station lists no connections.
pub fn ocm_connection_rows(s: &OcmStation) -> (rows: Vec<OcmConnectionRow>)
    ensures
        match s.connections {
            Some(conns) => {
                &&& rows@.len() == conns@.len()
                &&& forall|i: int|
                    0 <= i < rows@.len() ==> is_connection_row(#[trigger] rows@[i], conns@[i], s.id)
            },
            None => rows@.len() == 0,
        },
{
    let mut rows: Vec<OcmConnectionRow> = Vec::new();
    match &s.connections {
        Some(conns) => {
            let mut i: usize = 0;
            while i < conns.len()
                invariant
                    i <= conns@.len(),
                    rows@.len() == i,
                    forall|j: int|
                        0 <= j < i ==> is_connection_row(#[trigger] rows@[j], conns@[j], s.id),
                decreases conns@.len() - i,
            {
                rows.push(ocm_connection_row(&conns[i], s.id));
                i = i + 1;
            }
        },
        None => {},
    }
    rows
}

/// Asking for changes since a moment puts `&modifiedsince=` and the moment
/// into the request, at its end; asking for everything ends the request with
/// the API key.
pub proof fn lemma_modified_since_in_url(
    base_url: Seq<char>,
    latitude: Seq<char>,
    longitude: Seq<char>,
    distance_km: u32,
    api_key: Seq<char>,
    modified_since: Option<Seq<char>>,
)
    ensures
        modified_since matches Some(since) ==> has_substring(
            request_url_spec(base_url, latitude, longitude, distance_km, api_key, modified_since),
            "&modifiedsince="@ + since,
        ),
        modified_since matches Some(since) ==> has_suffix(
            request_url_spec(base_url, latitude, longitude, distance_km, api_key, modified_since),
            "&modifiedsince="@ + since,
        ),
        modified_since is None ==> has_suffix(
            request_url_spec(base_url, latitude, longitude, distance_km, api_key, modified_since),
            api_key,
        ),
{
    let url = request_url_spec(base_url, latitude, longitude, distance_km, api_key, None);
    let head = base_url + "?output=json&latitude="@ + latitude + "&longitude="@ + longitude
        + "&distance="@ + decimal(distance_km as nat)
        + "&distanceunit=KM&maxresults=1000&compact=false&verbose=true&key="@;
    assert(url == head + api_key);
    assert(url.skip(url.len() - api_key.len()) =~= api_key);
    if let Some(since) = modified_since {
        let url = request_url_spec(base_url, latitude, longitude, distance_km, api_key, None);
        let full = request_url_spec(
            base_url,
            latitude,
            longitude,
            distance_km,
            api_key,
            modified_since,
        );
        let tail = "&modifiedsince="@ + since;
        assert(full == url + tail);
        assert(full.subrange(url.len() as int, (url.len() + tail.len()) as int) =~= tail);
        assert(full.skip(full.len() - tail.len()) =~= tail);
    }
}

/// What the cache remembers of Open Charge Map syncs: when the last one
/// began, if any has finished.
pub struct OcmSyncState {
    pub last_synced_at: Option<String>,
}

/// The moment a sync asks for changes since: none before the first sync,
/// so that everything is fetched, and afterwards the moment recorded by the
/// previous one.
pub open spec fn sync_moment(last_synced_at: Option<Seq<char>>) -> Option<Seq<char>> {
    last_synced_at
}

impl OcmSyncState {
    /// The state of a cache that has never synced.
    pub fn new() -> (r: OcmSyncState)
        ensures
            r.last_synced_at is None,
    {
        OcmSyncState { last_synced_at: None }
    }

    /// The moment the next sync asks for changes since.
    pub fn modified_since(&self) -> (r: Option<String>)
        ensures
            opt_view(r) == sync_moment(opt_view(self.last_synced_at)),
    {
        clone_opt(&self.last_synced_at)
    }

    /// Records that a sync begun at `at` has finished.
    pub fn record_sync(&mut self, at: String)
        ensures
            opt_view(final(self).last_synced_at) == Some(at@),
    {
        self.last_synced_at = Some(at);
    }
}

/// Over two syncs: the first fetches everything, and once a sync begun at
/// `at` has been recorded, the next asks only for the changes since `at`.
pub proof fn lemma_incremental_sync(at: Seq<char>)
    ensures
        sync_moment(None) is None,
        sync_moment(Some(at)) == Some(at),
{
}

/// The descriptive station fields of a record.
pub open spec fn record_fields_spec(r: OcmStationRow) -> StationFieldsView {
    StationFieldsView {
        address_title: opt_view(r.address_title),
        address_line1: opt_view(r.address_line1),
        town: opt_view(r.town),
        postcode: opt_view(r.postcode),
        operator_title: opt_view(r.operator_title),
        number_of_points: r.number_of_points,
    }
}

/// The descriptive station fields of a record.
pub fn record_station_fields(r: &OcmStationRow) -> (f: StationFields)
    ensures
        f@ == record_fields_spec(*r),
{
    StationFields {
        address_title: clone_opt(&r.address_title),
        address_line1: clone_opt(&r.address_line1),
        town: clone_opt(&r.town),
        postcode: clone_opt(&r.postcode),
        operator_title: clone_opt(&r.operator_title),
        number_of_points: r.number_of_points,
    }
}

/// The writes that one Open Charge Map station calls for.
pub enum OcmPlan {
    /// No station of another source lies within reach: the station's record
    /// is written under its own id, replacing what an earlier sync wrote.
    Upsert { row: OcmStationRow },
    /// A station of another source lies within reach: it becomes this
    /// station's record. Its descriptive fields become `merged`, where Open
    /// Charge Map's values take priority and the cached ones fill what Open
    /// Charge Map leaves empty; every other column is Open Charge Map's.
    MergeInto { station_id: i64, row: OcmStationRow, merged: StationFields },
}

/// Decides the writes for a returned station, given the station of another
/// source found within reach of it, if any.
pub fn plan_ocm_station(s: &OcmStation, nearby: Option<&NearbyStation>) -> (plan: OcmPlan)
    ensures
        match (nearby, plan) {
            (None, OcmPlan::Upsert { row }) => is_station_row(row, *s),
            (Some(near), OcmPlan::MergeInto { station_id, row, merged }) => {
                &&& station_id == near.id
                &&& is_station_row(row, *s)
                &&& merged@ == merged_spec(record_fields_spec(row), near.fields@)
            },
            _ => false,
        },
{
    let row = ocm_station_row(s);
    match nearby {
        None => OcmPlan::Upsert { row },
        Some(near) => {
            let own = record_station_fields(&row);
            let merged = merge_station_fields(&own, &near.fields);
            OcmPlan::MergeInto { station_id: near.id, row, merged }
        },
    }
}

/// When Open Charge Map merges into a cached station, every field it has
/// wins, and a field stays empty only when both sides leave it empty.
pub proof fn lemma_ocm_priority(own: StationFieldsView, cached: StationFieldsView)
    ensures
        !crate::stations::is_blank(own.operator_title) ==> merged_spec(own, cached).operator_title
            == own.operator_title,
        !crate::stations::is_blank(own.address_line1) ==> merged_spec(own, cached).address_line1
            == own.address_line1,
        own.number_of_points is Some ==> merged_spec(own, cached).number_of_points
            == own.number_of_points,
        crate::stations::is_blank(merged_spec(own, cached).town) <==> crate::stations::is_blank(
            own.town,
        ) && crate::stations::is_blank(cached.town),
{
}

/// A connection's record carries the connection's own id, power, amps,
/// voltage and quantity unchanged, under the station it is given.
pub proof fn lemma_connection_row_carries_numbers(r: OcmConnectionRow, c: OcmConnection, station_id: i64)
    requires
        is_connection_row(r, c, station_id),
    ensures
        r.id == c.id,
        r.station_id == station_id,
        r.power_kw_bits == c.power_kw_bits,
        r.amps_bits == c.amps_bits,
        r.voltage_bits == c.voltage_bits,
        r.quantity == c.quantity,
        c.level matches Some(l) ==> r.is_fast_charge == l.is_fast_charge_capable,
        c.connection_type is None ==> r.connection_type is None && r.connection_type_id is None,
{
}

/// A station's record carries its id, coordinates and number of points
/// unchanged, and its operator title unless that is the unknown-operator
/// placeholder.
pub proof fn lemma_station_row_carries_fields(r: OcmStationRow, s: OcmStation)
    requires
        is_station_row(r, s),
    ensures
        r.id == s.id,
        r.latitude_bits == s.address_info.latitude_bits,
        r.longitude_bits == s.address_info.longitude_bits,
        r.number_of_points == s.number_of_points,
        s.operator_info matches Some(o) ==> o.title matches Some(t) ==> t@ != "(Unknown Operator)"@
            ==> opt_view(r.operator_title) == Some(t@),
        s.operator_info matches Some(o) ==> o.title matches Some(t) ==> t@ == "(Unknown Operator)"@
            ==> r.operator_title is None,
{
}

} // verus!
