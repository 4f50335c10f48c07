//! The regional CSV dataset: one row per charge point, grouped into stations.

use vstd::prelude::*;
use crate::stations::{
    clone_opt, merge_station_fields, merged_spec, opt_view, NearbyStation, StationFields,
    StationFieldsView,
};
use crate::text::{lowercase, to_lowercase, trim, trimmed};
use crate::utils::{connector_pairs, lemma_filter_take_step, pairs_view, split_connector_pairs};

verus! {

/// One charge point of the dataset. Coordinates and power are carried as the
/// IEEE-754 bit patterns of the numbers read from the file; the library
/// stores and hands them on but never computes with them.
pub struct FlandersRow {
    pub source_id: String,
    pub operator: Option<String>,
    pub address_line1: String,
    pub postcode: String,
    pub town: String,
    pub latitude_bits: u64,
    pub longitude_bits: u64,
    pub power_kw_bits: Option<u64>,
    pub connector: String,
    pub current_type: String,
}

/// The mathematical value of a [`FlandersRow`].
pub struct FlandersRowView {
    pub source_id: Seq<char>,
    pub operator: Option<Seq<char>>,
    pub address_line1: Seq<char>,
    pub postcode: Seq<char>,
    pub town: Seq<char>,
    pub latitude_bits: u64,
    pub longitude_bits: u64,
    pub power_kw_bits: Option<u64>,
    pub connector: Seq<char>,
    pub current_type: Seq<char>,
}

impl View for FlandersRow {
    type V = FlandersRowView;

    open spec fn view(&self) -> FlandersRowView {
        FlandersRowView {
            source_id: self.source_id@,
            operator: opt_view(self.operator),
            address_line1: self.address_line1@,
            postcode: self.postcode@,
            town: self.town@,
            latitude_bits: self.latitude_bits,
            longitude_bits: self.longitude_bits,
            power_kw_bits: self.power_kw_bits,
            connector: self.connector@,
            current_type: self.current_type@,
        }
    }
}

impl FlandersRow {
    /// A copy of the row.
    pub fn copy_row(&self) -> (r: FlandersRow)
        ensures
            r@ == self@,
    {
        FlandersRow {
            source_id: self.source_id.clone(),
            operator: clone_opt(&self.operator),
            address_line1: self.address_line1.clone(),
            postcode: self.postcode.clone(),
            town: self.town.clone(),
            latitude_bits: self.latitude_bits,
            longitude_bits: self.longitude_bits,
            power_kw_bits: self.power_kw_bits,
            connector: self.connector.clone(),
            current_type: self.current_type.clone(),
        }
    }
}

/// The views of a list of rows.
pub open spec fn rows_view(rows: Seq<FlandersRow>) -> Seq<FlandersRowView> {
    rows.map_values(|r: FlandersRow| r@)
}

/// The operator as text, empty when there is none.
pub open spec fn operator_text(op: Option<Seq<char>>) -> Seq<char> {
    match op {
        Some(o) => o,
        None => Seq::empty(),
    }
}

/// The key that decides which rows form one station: the lower-cased street
/// address, the postcode and the lower-cased operator, each trimmed, joined
/// by `|`.
pub open spec fn group_key_spec(row: FlandersRowView) -> Seq<char> {
    trimmed(lowercase(row.address_line1)) + "|"@ + trimmed(row.postcode) + "|"@ + trimmed(
        lowercase(operator_text(row.operator)),
    )
}

/// Computes a row's station key.
pub fn group_key(row: &FlandersRow) -> (r: String)
    ensures
        r@ == group_key_spec(row@),
{
    proof {
        reveal_strlit("");
        assert(""@ =~= Seq::<char>::empty());
    }
    let address = to_lowercase(row.address_line1.as_str());
    let mut key = trim(address.as_str());
    key.append("|");
    key.append(trim(row.postcode.as_str()).as_str());
    key.append("|");
    let operator = match &row.operator {
        Some(o) => to_lowercase(o.as_str()),
        None => to_lowercase(""),
    };
    key.append(trim(operator.as_str()).as_str());
    key
}

/// The rows of one station, under their common key.
pub struct StationGroup {
    pub key: String,
    pub rows: Vec<FlandersRow>,
}

/// Whether a row belongs under `key`.
pub open spec fn has_key(key: Seq<char>) -> spec_fn(FlandersRowView) -> bool {
    |r: FlandersRowView| group_key_spec(r) == key
}

/// Whether one of the groups has `key`.
pub open spec fn is_group_key(groups: Seq<StationGroup>, key: Seq<char>) -> bool {
    exists|i: int| 0 <= i < groups.len() && (#[trigger] groups[i]).key@ == key
}

/// Whether `key` is the key of one of the rows.
pub open spec fn is_row_key(rows: Seq<FlandersRowView>, key: Seq<char>) -> bool {
    exists|k: int| 0 <= k < rows.len() && group_key_spec(#[trigger] rows[k]) == key
}

/// Groups rows into stations by their key ([`group_key_spec`]). Every row
/// lands in the one group whose key is its own, in the order of the input;
/// no two groups share a key and no group is empty.
pub fn group_into_stations(rows: Vec<FlandersRow>) -> (groups: Vec<StationGroup>)
    ensures
        is_station_grouping(rows_view(rows@), groups@),
{
    let ghost rv = rows_view(rows@);
    let n = rows.len();
    // The key of every row.
    let mut keys: Vec<String> = Vec::new();
    let mut k: usize = 0;
    while k < n
        invariant
            k <= n,
            n == rows@.len(),
            rv == rows_view(rows@),
            keys@.len() == k,
            forall|j: int| 0 <= j < k ==> #[trigger] keys@[j]@ == group_key_spec(rv[j]),
        decreases n - k,
    {
        keys.push(group_key(&rows[k]));
        k = k + 1;
    }
    // The distinct keys, in the order of their first row.
    let mut distinct: Vec<String> = Vec::new();
    k = 0;
    while k < n
        invariant
            k <= n,
            n == rows@.len(),
            rv == rows_view(rows@),
            keys@.len() == n,
            forall|j: int| 0 <= j < n ==> #[trigger] keys@[j]@ == group_key_spec(rv[j]),
            forall|i: int, j: int|
                0 <= i < distinct@.len() && 0 <= j < distinct@.len() && i != j ==> distinct@[i]@
                    != distinct@[j]@,
            forall|i: int| 0 <= i < distinct@.len() ==> is_row_key(rv, #[trigger] distinct@[i]@),
            forall|j: int|
                #![trigger keys@[j]]
                0 <= j < k ==> exists|i: int|
                    #![trigger distinct@[i]]
                    0 <= i < distinct@.len() && distinct@[i]@ == keys@[j]@,
        decreases n - k,
    {
        let mut found = false;
        let mut i: usize = 0;
        while i < distinct.len()
            invariant
                i <= distinct@.len(),
                found ==> exists|m: int| 0 <= m < distinct@.len() && #[trigger] distinct@[m]@ == keys@[k as int]@,
                !found ==> forall|m: int| 0 <= m < i ==> #[trigger] distinct@[m]@ != keys@[k as int]@,
                k < keys@.len(),
            decreases distinct@.len() - i,
        {
            if distinct[i] == keys[k] {
                found = true;
            }
            i = i + 1;
        }
        if !found {
            let ghost old_distinct = distinct@;
            distinct.push(keys[k].clone());
            assert forall|j: int| #![trigger keys@[j]] 0 <= j <= k implies exists|i: int|
                #![trigger distinct@[i]]
                0 <= i < distinct@.len() && distinct@[i]@ == keys@[j]@ by {
                if j < k {
                    let i0 = choose|i: int| #![trigger old_distinct[i]] 0 <= i < old_distinct.len() && old_distinct[i]@ == keys@[j]@;
                    assert(distinct@[i0] == old_distinct[i0]);
                } else {
                    assert(distinct@[distinct@.len() - 1]@ == keys@[j]@);
                }
            }
        }
        k = k + 1;
    }
    // One group per distinct key.
    let mut groups: Vec<StationGroup> = Vec::new();
    let mut g: usize = 0;
    while g < distinct.len()
        invariant
            g <= distinct@.len(),
            n == rows@.len(),
            rv == rows_view(rows@),
            keys@.len() == n,
            forall|j: int| 0 <= j < n ==> #[trigger] keys@[j]@ == group_key_spec(rv[j]),
            groups@.len() == g,
            forall|i: int| 0 <= i < g ==> #[trigger] groups@[i].key@ == distinct@[i]@,
            forall|i: int|
                0 <= i < g ==> rows_view(#[trigger] groups@[i].rows@) == rv.filter(
                    has_key(groups@[i].key@),
                ),
        decreases distinct@.len() - g,
    {
        let mut members: Vec<FlandersRow> = Vec::new();
        let mut j: usize = 0;
        while j < n
            invariant
                j <= n,
                n == rows@.len(),
                rv == rows_view(rows@),
                keys@.len() == n,
                g < distinct@.len(),
                forall|m: int| 0 <= m < n ==> #[trigger] keys@[m]@ == group_key_spec(rv[m]),
                rows_view(members@) == rv.take(j as int).filter(has_key(distinct@[g as int]@)),
            decreases n - j,
        {
            proof {
                lemma_filter_take_step(rv, has_key(distinct@[g as int]@), j as int);
            }
            if keys[j] == distinct[g] {
                let row = rows[j].copy_row();
                members.push(row);
                assert(rows_view(members@) =~= rv.take(j as int).filter(
                    has_key(distinct@[g as int]@),
                ).push(rv[j as int]));
            }
            j = j + 1;
        }
        assert(rv.take(n as int) =~= rv);
        let ghost old_groups = groups@;
        let key = distinct[g].clone();
        assert(rows_view(members@) == rv.filter(has_key(key@)));
        groups.push(StationGroup { key, rows: members });
        assert forall|i: int|
            0 <= i < g + 1 implies rows_view(#[trigger] groups@[i].rows@) == rv.filter(
                has_key(groups@[i].key@),
            ) by {
            if i < g {
                assert(groups@[i] == old_groups[i]);
                assert(rows_view(old_groups[i].rows@) == rv.filter(has_key(old_groups[i].key@)));
            } else {
                assert(rows_view(groups@[g as int].rows@) == rv.filter(has_key(groups@[g as int].key@)));
            }
        }
        g = g + 1;
    }
    assert forall|k: int| 0 <= k < rows@.len() implies is_group_key(
        groups@,
        group_key_spec(#[trigger] rows@[k]@),
    ) by {
        assert(keys@[k]@ == group_key_spec(rv[k]));
        let i0 = choose|i: int| #![trigger distinct@[i]] 0 <= i < distinct@.len() && distinct@[i]@ == keys@[k]@;
        assert(groups@[i0].key@ == distinct@[i0]@);
    }
    assert forall|i: int|
        0 <= i < groups@.len() implies is_row_key(rows_view(rows@), #[trigger] groups@[i].key@) by {
        assert(groups@[i].key@ == distinct@[i]@);
    }
    groups
}

/// What [`group_into_stations`] gives for `rows`: groups with pairwise
/// different keys, each holding, in input order, exactly the rows with its
/// key; each key that of some row, and each row's key that of some group.
pub open spec fn is_station_grouping(rows: Seq<FlandersRowView>, groups: Seq<StationGroup>) -> bool {
    &&& forall|i: int, j: int|
        0 <= i < groups.len() && 0 <= j < groups.len() && i != j ==> groups[i].key@
            != groups[j].key@
    &&& forall|i: int|
        0 <= i < groups.len() ==> rows_view(#[trigger] groups[i].rows@) == rows.filter(
            has_key(groups[i].key@),
        )
    &&& forall|i: int| 0 <= i < groups.len() ==> is_row_key(rows, #[trigger] groups[i].key@)
    &&& forall|k: int| 0 <= k < rows.len() ==> is_group_key(groups, group_key_spec(#[trigger] rows[k]))
}

/// Whether `row` is one of the group's rows.
pub open spec fn in_group(group: StationGroup, row: FlandersRowView) -> bool {
    rows_view(group.rows@).contains(row)
}

/// Two rows of the dataset fall into a common station exactly when their
/// keys (address, postcode and operator, compared without case and
/// surrounding white space) are equal.
pub proof fn lemma_same_station_iff_same_key(
    rows: Seq<FlandersRowView>,
    groups: Seq<StationGroup>,
    a: int,
    b: int,
)
    requires
        is_station_grouping(rows, groups),
        0 <= a < rows.len(),
        0 <= b < rows.len(),
    ensures
        (exists|i: int|
            0 <= i < groups.len() && in_group(#[trigger] groups[i], rows[a]) && in_group(
                groups[i],
                rows[b],
            )) <==> group_key_spec(rows[a]) == group_key_spec(rows[b]),
{
    broadcast use Seq::lemma_filter_contains, Seq::lemma_filter_pred;

    if group_key_spec(rows[a]) == group_key_spec(rows[b]) {
        assert(is_group_key(groups, group_key_spec(rows[a])));
        let i = choose|i: int| 0 <= i < groups.len() && (#[trigger] groups[i]).key@ == group_key_spec(rows[a]);
        let p = has_key(groups[i].key@);
        assert(rows_view(groups[i].rows@) == rows.filter(p));
        rows.lemma_filter_contains(p, a);
        rows.lemma_filter_contains(p, b);
        assert(in_group(groups[i], rows[a]) && in_group(groups[i], rows[b]));
    }
    if exists|i: int|
        0 <= i < groups.len() && in_group(#[trigger] groups[i], rows[a]) && in_group(
            groups[i],
            rows[b],
        ) {
        let i = choose|i: int|
            0 <= i < groups.len() && in_group(#[trigger] groups[i], rows[a]) && in_group(
                groups[i],
                rows[b],
            );
        let p = has_key(groups[i].key@);
        let f = rows.filter(p);
        assert(rows_view(groups[i].rows@) == f);
        let ia = choose|x: int| 0 <= x < f.len() && f[x] == rows[a];
        let ib = choose|x: int| 0 <= x < f.len() && f[x] == rows[b];
        rows.lemma_filter_pred(p, ia);
        rows.lemma_filter_pred(p, ib);
    }
}

/// Every station group holds at least one row.
pub proof fn lemma_groups_nonempty(rows: Seq<FlandersRowView>, groups: Seq<StationGroup>, i: int)
    requires
        is_station_grouping(rows, groups),
        0 <= i < groups.len(),
    ensures
        groups[i].rows@.len() > 0,
{
    assert(is_row_key(rows, groups[i].key@));
    let k = choose|k: int| 0 <= k < rows.len() && group_key_spec(#[trigger] rows[k]) == groups[i].key@;
    let p = has_key(groups[i].key@);
    rows.lemma_filter_contains(p, k);
    assert(rows_view(groups[i].rows@) == rows.filter(p));
}

/// The text of field `i` of a CSV record, empty when the record is shorter.
pub open spec fn record_field(fields: Seq<String>, i: int) -> Seq<char> {
    if 0 <= i < fields.len() {
        fields[i]@
    } else {
        Seq::empty()
    }
}

/// The row that a CSV record gives, or none when the record lacks
/// coordinates, an identifier, a street address or a postcode. The columns
/// are: 1 identifier, 2 operator, 6 current type, 7 connector, 8 street
/// address, 9 postcode, 10 municipality (4, 12 and 13, power and coordinates,
/// arrive already read as numbers).
pub open spec fn row_from_record_spec(
    fields: Seq<String>,
    power_kw_bits: Option<u64>,
    latitude_bits: Option<u64>,
    longitude_bits: Option<u64>,
) -> Option<FlandersRowView> {
    let source_id = trimmed(record_field(fields, 1));
    let operator = trimmed(record_field(fields, 2));
    let address = trimmed(record_field(fields, 8));
    let postcode = trimmed(record_field(fields, 9));
    match (latitude_bits, longitude_bits) {
        (Some(lat), Some(lon)) => if source_id.len() == 0 || address.len() == 0 || postcode.len()
            == 0 {
            None
        } else {
            Some(
                FlandersRowView {
                    source_id,
                    operator: if operator.len() == 0 {
                        None
                    } else {
                        Some(operator)
                    },
                    address_line1: address,
                    postcode,
                    town: trimmed(record_field(fields, 10)),
                    latitude_bits: lat,
                    longitude_bits: lon,
                    power_kw_bits,
                    connector: trimmed(record_field(fields, 7)),
                    current_type: trimmed(record_field(fields, 6)),
                },
            )
        },
        _ => None,
    }
}

/// The view of an optional row.
pub open spec fn opt_row_view(r: Option<FlandersRow>) -> Option<FlandersRowView> {
    match r {
        Some(row) => Some(row@),
        None => None,
    }
}

/// Field `i` of a record, trimmed; empty when the record is shorter.
fn trimmed_field(fields: &Vec<String>, i: usize) -> (r: String)
    ensures
        r@ == trimmed(record_field(fields@, i as int)),
{
    if i < fields.len() {
        trim(fields[i].as_str())
    } else {
        proof {
            reveal_strlit("");
            assert(""@ =~= Seq::<char>::empty());
        }
        trim("")
    }
}

/// Reads one CSV record into a row; records without coordinates, an
/// identifier, a street address or a postcode give none.
pub fn flanders_row_from_record(
    fields: &Vec<String>,
    power_kw_bits: Option<u64>,
    latitude_bits: Option<u64>,
    longitude_bits: Option<u64>,
) -> (r: Option<FlandersRow>)
    ensures
        opt_row_view(r) == row_from_record_spec(fields@, power_kw_bits, latitude_bits, longitude_bits),
{
    let lat = match latitude_bits {
        Some(v) => v,
        None => return None,
    };
    let lon = match longitude_bits {
        Some(v) => v,
        None => return None,
    };
    let source_id = trimmed_field(fields, 1);
    let operator = trimmed_field(fields, 2);
    let address = trimmed_field(fields, 8);
    let postcode = trimmed_field(fields, 9);
    if source_id.as_str().is_empty() || address.as_str().is_empty() || postcode.as_str().is_empty() {
        return None;
    }
    let operator = if operator.as_str().is_empty() {
        None
    } else {
        Some(operator)
    };
    Some(
        FlandersRow {
            source_id,
            operator,
            address_line1: address,
            postcode,
            town: trimmed_field(fields, 10),
            latitude_bits: lat,
            longitude_bits: lon,
            power_kw_bits,
            connector: trimmed_field(fields, 7),
            current_type: trimmed_field(fields, 6),
        },
    )
}

/// One CSV record: its fields, and the numbers read from its power (column
/// 4) and coordinate (columns 12 and 13) fields, as bit patterns.
pub struct FlandersRecord {
    pub fields: Vec<String>,
    pub power_kw_bits: Option<u64>,
    pub latitude_bits: Option<u64>,
    pub longitude_bits: Option<u64>,
}

/// The row of a record, if it gives one.
pub open spec fn record_row(rec: FlandersRecord) -> Option<FlandersRowView> {
    row_from_record_spec(rec.fields@, rec.power_kw_bits, rec.latitude_bits, rec.longitude_bits)
}

/// Reads every record, keeping the rows of those that give one, in order.
pub fn flanders_rows(records: &Vec<FlandersRecord>) -> (rows: Vec<FlandersRow>)
    ensures
        rows_view(rows@) == records@.filter_map(|rec: FlandersRecord| record_row(rec)),
{
    let mut rows: Vec<FlandersRow> = Vec::new();
    let mut k: usize = 0;
    while k < records.len()
        invariant
            k <= records@.len(),
            rows_view(rows@) == records@.take(k as int).filter_map(
                |rec: FlandersRecord| record_row(rec),
            ),
        decreases records@.len() - k,
    {
        let rec = &records[k];
        let r = flanders_row_from_record(
            &rec.fields,
            rec.power_kw_bits,
            rec.latitude_bits,
            rec.longitude_bits,
        );
        assert(records@.take(k + 1).drop_last() =~= records@.take(k as int));
        match r {
            Some(row) => {
                rows.push(row);
                assert(rows_view(rows@) =~= records@.take(k + 1).filter_map(
                    |rec: FlandersRecord| record_row(rec),
                ));
            },
            None => {},
        }
        k = k + 1;
    }
    assert(records@.take(records@.len() as int) =~= records@);
    rows
}

/// A charge point to record for a new station: its identifier, its power and
/// its (connector, current type) pairs.
pub struct FlandersSource {
    pub source_id: String,
    pub power_kw_bits: Option<u64>,
    pub connections: Vec<(String, String)>,
}

/// The writes that one station group calls for.
pub enum FlandersPlan {
    /// A station already lies within reach: each row's identifier is recorded
    /// as a source of it, and its fields become `fields`, the merge of the
    /// group's first row into them.
    LinkExisting { station_id: i64, source_ids: Vec<String>, fields: StationFields },
    /// A new station, made from the group's first row, with each row as a
    /// source and each row's connector pairs as connections.
    NewStation { station: FlandersRow, sources: Vec<FlandersSource> },
}

/// The station fields that a row of the dataset supplies.
pub open spec fn row_fields_spec(row: FlandersRowView) -> StationFieldsView {
    StationFieldsView {
        address_title: None,
        address_line1: Some(row.address_line1),
        town: Some(row.town),
        postcode: Some(row.postcode),
        operator_title: row.operator,
        number_of_points: None,
    }
}

/// The station fields that a row supplies.
pub fn row_station_fields(row: &FlandersRow) -> (r: StationFields)
    ensures
        r@ == row_fields_spec(row@),
{
    StationFields {
        address_title: None,
        address_line1: Some(row.address_line1.clone()),
        town: Some(row.town.clone()),
        postcode: Some(row.postcode.clone()),
        operator_title: clone_opt(&row.operator),
        number_of_points: None,
    }
}

/// Decides the writes for one station group, given the station found within
/// reach of its first row, if any.
pub fn plan_flanders_station(group: &StationGroup, nearby: Option<&NearbyStation>) -> (plan:
    FlandersPlan)
    requires
        group.rows@.len() > 0,
    ensures
        match (nearby, plan) {
            (Some(near), FlandersPlan::LinkExisting { station_id, source_ids, fields }) => {
                &&& station_id == near.id
                &&& fields@ == fields_after_plan(group.rows@[0]@, Some(near.fields@))
                &&& source_ids@.len() == group.rows@.len()
                &&& forall|i: int|
                    0 <= i < source_ids@.len() ==> #[trigger] source_ids@[i]@
                        == group.rows@[i].source_id@
            },
            (None, FlandersPlan::NewStation { station, sources }) => {
                &&& station@ == group.rows@[0]@
                &&& sources@.len() == group.rows@.len()
                &&& forall|i: int|
                    0 <= i < sources@.len() ==> {
                        &&& (#[trigger] sources@[i]).source_id@ == group.rows@[i].source_id@
                        &&& sources@[i].power_kw_bits == group.rows@[i].power_kw_bits
                        &&& pairs_view(sources@[i].connections@) == connector_pairs(
                            group.rows@[i].connector@,
                            group.rows@[i].current_type@,
                        )
                    }
            },
            _ => false,
        },
{
    let n = group.rows.len();
    match nearby {
        Some(near) => {
            let mut source_ids: Vec<String> = Vec::new();
            let mut i: usize = 0;
            while i < n
                invariant
                    i <= n,
                    n == group.rows@.len(),
                    source_ids@.len() == i,
                    forall|j: int|
                        0 <= j < i ==> #[trigger] source_ids@[j]@ == group.rows@[j].source_id@,
                decreases n - i,
            {
                source_ids.push(group.rows[i].source_id.clone());
                i = i + 1;
            }
            let incoming = row_station_fields(&group.rows[0]);
            let fields = merge_station_fields(&near.fields, &incoming);
            FlandersPlan::LinkExisting { station_id: near.id, source_ids, fields }
        },
        None => {
            let mut sources: Vec<FlandersSource> = Vec::new();
            let mut i: usize = 0;
            while i < n
                invariant
                    i <= n,
                    n == group.rows@.len(),
                    sources@.len() == i,
                    forall|j: int|
                        0 <= j < i ==> {
                            &&& (#[trigger] sources@[j]).source_id@ == group.rows@[j].source_id@
                            &&& sources@[j].power_kw_bits == group.rows@[j].power_kw_bits
                            &&& pairs_view(sources@[j].connections@) == connector_pairs(
                                group.rows@[j].connector@,
                                group.rows@[j].current_type@,
                            )
                        },
                decreases n - i,
            {
                let row = &group.rows[i];
                let connections = split_connector_pairs(
                    row.connector.as_str(),
                    row.current_type.as_str(),
                );
                sources.push(
                    FlandersSource {
                        source_id: row.source_id.clone(),
                        power_kw_bits: row.power_kw_bits,
                        connections,
                    },
                );
                i = i + 1;
            }
            FlandersPlan::NewStation { station: group.rows[0].copy_row(), sources }
        },
    }
}

/// A record gives a row exactly when both coordinates were read and its
/// identifier, street address and postcode are not blank, and the row
/// carries the power and coordinates read for that record unchanged.
pub proof fn lemma_record_row_carries_numbers(
    fields: Seq<String>,
    power_kw_bits: Option<u64>,
    latitude_bits: Option<u64>,
    longitude_bits: Option<u64>,
)
    ensures
        row_from_record_spec(fields, power_kw_bits, latitude_bits, longitude_bits) matches Some(r)
            ==> {
            &&& r.power_kw_bits == power_kw_bits
            &&& latitude_bits == Some(r.latitude_bits)
            &&& longitude_bits == Some(r.longitude_bits)
            &&& r.source_id.len() > 0
            &&& r.address_line1.len() > 0
            &&& r.postcode.len() > 0
        },
        (latitude_bits is None || longitude_bits is None) ==> row_from_record_spec(
            fields,
            power_kw_bits,
            latitude_bits,
            longitude_bits,
        ) is None,
        (latitude_bits is Some && longitude_bits is Some && trimmed(record_field(fields, 1)).len()
            > 0 && trimmed(record_field(fields, 8)).len() > 0 && trimmed(
            record_field(fields, 9),
        ).len() > 0) ==> row_from_record_spec(
            fields,
            power_kw_bits,
            latitude_bits,
            longitude_bits,
        ) is Some,
{
}

/// The fields a group's plan leaves on its station: those of its first row
/// when it makes a new station, their merge into the cached fields when a
/// station already lies within reach.
pub open spec fn fields_after_plan(first: FlandersRowView, cached: Option<StationFieldsView>) -> StationFieldsView {
    match cached {
        Some(c) => merged_spec(c, row_fields_spec(first)),
        None => row_fields_spec(first),
    }
}

/// Syncing the same dataset again changes no station: when the station a
/// group's first run left is the one found within reach on the second run,
/// the second run's merge leaves its fields as they are.
pub proof fn lemma_flanders_resync_stable(first: FlandersRowView, cached: Option<StationFieldsView>)
    ensures
        fields_after_plan(first, Some(fields_after_plan(first, cached))) == fields_after_plan(
            first,
            cached,
        ),
{
    crate::stations::lemma_merge_idempotent(
        match cached {
            Some(c) => c,
            None => row_fields_spec(first),
        },
        row_fields_spec(first),
    );
}

/// The records of a CSV file with a header line, as the `csv` crate reads
/// them with records of differing lengths allowed: each record's fields, or
/// none when the file does not read as CSV.
pub uninterp spec fn csv_records(bytes: Seq<u8>) -> Option<Seq<Seq<Seq<char>>>>;

/// The view of read records.
pub open spec fn records_view(r: Option<Vec<Vec<String>>>) -> Option<Seq<Seq<Seq<char>>>> {
    match r {
        Some(recs) => Some(
            recs@.map_values(|rec: Vec<String>| rec@.map_values(|f: String| f@)),
        ),
        None => None,
    }
}

/// `csv::ReaderBuilder` with headers and flexible record lengths, reading
/// every record of `bytes`; none when a record fails to read. The records
/// are named by [`csv_records`].
#[verifier::external_body]
fn read_csv_records(bytes: &[u8]) -> (r: Option<Vec<Vec<String>>>)
    ensures
        records_view(r) == csv_records(bytes@),
{
    let mut reader = csv::ReaderBuilder::new().has_headers(true).flexible(true).from_reader(bytes);
    let records: Result<Vec<Vec<String>>, csv::Error> = reader
        .records()
        .map(|r| r.map(|rec| rec.iter().map(|f| f.to_string()).collect()))
        .collect();
    records.ok()
}

/// Reads the dataset file's bytes into the fields of its records, which
/// [`flanders_row_from_record`] turns into rows.
pub fn flanders_csv_fields(bytes: &[u8]) -> (r: Option<Vec<Vec<String>>>)
    ensures
        records_view(r) == csv_records(bytes@),
{
    read_csv_records(bytes)
}

} // verus!
