//! The station listing: addresses, connector filters and the assembly of
//! connectors under their stations.

use vstd::prelude::*;
use crate::error::AppError;
use crate::text::{contains, has_substring, lowercase, signed_decimal, to_lowercase};
use crate::utils::lemma_filter_take_step;

verus! {

/// The view of an optional string.
pub open spec fn opt_view(o: Option<String>) -> Option<Seq<char>> {
    match o {
        Some(s) => Some(s@),
        None => None,
    }
}

/// The address shown for a station: street, town and postcode joined by
/// `", "` as far as they are known; the street alone when the town is not;
/// the station's title when the street is not.
pub open spec fn address_spec(
    line1: Option<Seq<char>>,
    town: Option<Seq<char>>,
    post: Option<Seq<char>>,
    title: Option<Seq<char>>,
) -> Option<Seq<char>> {
    match (line1, town, post) {
        (Some(a), Some(t), Some(p)) => Some(a + ", "@ + t + ", "@ + p),
        (Some(a), Some(t), None) => Some(a + ", "@ + t),
        (Some(a), None, _) => Some(a),
        _ => title,
    }
}

/// A copy of an optional string.
pub fn clone_opt(o: &Option<String>) -> (r: Option<String>)
    ensures
        opt_view(r) == opt_view(*o),
{
    match o {
        Some(s) => Some(s.clone()),
        None => None,
    }
}

/// Formats a station's address from its parts, falling back to its title.
pub fn format_address(
    line1: &Option<String>,
    town: &Option<String>,
    post: &Option<String>,
    title: &Option<String>,
) -> (r: Option<String>)
    ensures
        opt_view(r) == address_spec(opt_view(*line1), opt_view(*town), opt_view(*post), opt_view(*title)),
{
    match (line1, town, post) {
        (Some(a), Some(t), Some(p)) => {
            let mut s = a.clone();
            s.append(", ");
            s.append(t.as_str());
            s.append(", ");
            s.append(p.as_str());
            Some(s)
        },
        (Some(a), Some(t), None) => {
            let mut s = a.clone();
            s.append(", ");
            s.append(t.as_str());
            Some(s)
        },
        (Some(a), None, _) => Some(a.clone()),
        _ => clone_opt(title),
    }
}

/// Whether a connector passes the text and fast-charge filters of a station
/// query: an empty connector-type filter passes every connector, another
/// passes those whose type contains it, both compared in lower case; asking
/// for fast chargers only passes those flagged `1`.
pub open spec fn connector_filters_spec(
    connection_type: Option<Seq<char>>,
    is_fast_charge: Option<i64>,
    connector_type: Seq<char>,
    fast_charge_only: Option<bool>,
) -> bool {
    &&& (connector_type.len() == 0 || match connection_type {
        Some(t) => has_substring(lowercase(t), lowercase(connector_type)),
        None => false,
    })
    &&& !(fast_charge_only == Some(true) && is_fast_charge != Some(1i64))
}

/// Applies the connector-type and fast-charge filters to one connector.
pub fn connector_matches_filters(
    connection_type: &Option<String>,
    is_fast_charge: Option<i64>,
    connector_type: &str,
    fast_charge_only: Option<bool>,
) -> (r: bool)
    ensures
        r == connector_filters_spec(
            opt_view(*connection_type),
            is_fast_charge,
            connector_type@,
            fast_charge_only,
        ),
{
    if !connector_type.is_empty() {
        let matches = match connection_type {
            Some(t) => {
                let lower = to_lowercase(t.as_str());
                let wanted = to_lowercase(connector_type);
                contains(lower.as_str(), wanted.as_str())
            },
            None => false,
        };
        if !matches {
            return false;
        }
    }
    if fast_charge_only == Some(true) && is_fast_charge != Some(1i64) {
        return false;
    }
    true
}

/// A database flag as a boolean: any non-zero value is true.
pub fn flag(v: Option<i64>) -> (r: Option<bool>)
    ensures
        r == match v {
            Some(x) => Some(x != 0),
            None => None,
        },
{
    match v {
        Some(x) => Some(x != 0),
        None => None,
    }
}

/// The payloads of the items that belong to station `id`, in order.
pub open spec fn items_of<T>(items: Seq<(i64, T)>, id: i64) -> Seq<T> {
    items.filter(of_station(id)).map_values(|p: (i64, T)| p.1)
}

/// Whether an item belongs to station `id`.
pub open spec fn of_station<T>(id: i64) -> spec_fn((i64, T)) -> bool {
    |p: (i64, T)| p.0 == id
}

/// Whether position `p` holds the first occurrence of its id.
pub open spec fn is_first_occurrence(ids: Seq<i64>, p: int) -> bool {
    forall|q: int| 0 <= q < p ==> ids[q] != ids[p]
}

/// The stations in query order, each with its items, leaving out repeated
/// ids and, unless `keep_empty`, stations without items.
pub open spec fn grouped_spec<T>(ids: Seq<i64>, items: Seq<(i64, T)>, keep_empty: bool) -> Seq<
    (i64, Seq<T>),
>
    decreases ids.len(),
{
    if ids.len() == 0 {
        Seq::empty()
    } else {
        let prev = grouped_spec(ids.drop_last(), items, keep_empty);
        let id = ids.last();
        if ids.drop_last().contains(id) || (!keep_empty && items_of(items, id).len() == 0) {
            prev
        } else {
            prev.push((id, items_of(items, id)))
        }
    }
}

/// The view of a grouping.
pub open spec fn grouped_view<T>(g: Seq<(i64, Vec<T>)>) -> Seq<(i64, Seq<T>)> {
    g.map_values(|p: (i64, Vec<T>)| (p.0, p.1@))
}

proof fn lemma_items_of_step<T>(items: Seq<(i64, T)>, id: i64, k: int)
    requires
        0 <= k < items.len(),
    ensures
        items_of(items.take(k + 1), id) == if items[k].0 == id {
            items_of(items.take(k), id).push(items[k].1)
        } else {
            items_of(items.take(k), id)
        },
{
    let pred = of_station::<T>(id);
    lemma_filter_take_step(items, pred, k);
    if items[k].0 == id {
        assert(items_of(items.take(k + 1), id) =~= items_of(items.take(k), id).push(items[k].1));
    }
}

/// Whether position `p` of `ids` holds the first occurrence of its id.
fn is_first_occurrence_exec(ids: &Vec<i64>, p: usize) -> (r: bool)
    requires
        p < ids@.len(),
    ensures
        r == is_first_occurrence(ids@, p as int),
{
    let mut q: usize = 0;
    while q < p
        invariant
            q <= p,
            p < ids@.len(),
            forall|m: int| 0 <= m < q ==> ids@[m] != ids@[p as int],
        decreases p - q,
    {
        if ids[q] == ids[p] {
            return false;
        }
        q = q + 1;
    }
    true
}

/// Puts each item under the first station with its id, keeping the
/// stations' order and the items' order; a station that gets no item is
/// kept, with none, when `keep_empty` and left out otherwise. Items of no
/// listed station are dropped.
pub fn group_by_station<T>(station_ids: &Vec<i64>, items: Vec<(i64, T)>, keep_empty: bool) -> (r:
    Vec<(i64, Vec<T>)>)
    ensures
        grouped_view(r@) == grouped_spec(station_ids@, items@, keep_empty),
{
    let ghost all = items@;
    let ids = station_ids;
    let n = ids.len();
    let mut buckets: Vec<Vec<T>> = Vec::new();
    let mut p: usize = 0;
    while p < n
        invariant
            p <= n,
            n == ids@.len(),
            buckets@.len() == p,
            forall|q: int| 0 <= q < p ==> (#[trigger] buckets@[q])@ == Seq::<T>::empty(),
        decreases n - p,
    {
        buckets.push(Vec::new());
        p = p + 1;
    }
    assert forall|q: int| 0 <= q < n implies (#[trigger] buckets@[q])@ == if is_first_occurrence(
        ids@,
        q,
    ) {
        items_of(all.take(0), ids@[q])
    } else {
        Seq::empty()
    } by {
        assert(all.take(0) =~= Seq::<(i64, T)>::empty());
        reveal_with_fuel(Seq::filter, 1);
        assert(items_of(all.take(0), ids@[q]) =~= Seq::<T>::empty());
    }
    for item in it: items.into_iter()
        invariant
            it.seq() == all,
            n == ids@.len(),
            buckets@.len() == n,
            forall|q: int|
                0 <= q < n ==> (#[trigger] buckets@[q])@ == if is_first_occurrence(ids@, q) {
                    items_of(all.take(it.index() as int), ids@[q])
                } else {
                    Seq::empty()
                },
    {
        let ghost k = it.index() as int;
        let ghost old_buckets = buckets@;
        assert(all[k] == item);
        let (id, payload) = item;
        let mut found: Option<usize> = None;
        let mut q: usize = 0;
        while q < n
            invariant
                q <= n,
                n == ids@.len(),
                match found {
                    Some(f) => f < q && ids@[f as int] == id && is_first_occurrence(ids@, f as int),
                    None => forall|m: int| 0 <= m < q ==> ids@[m] != id,
                },
            decreases n - q,
        {
            if found.is_none() && ids[q] == id {
                found = Some(q);
            }
            q = q + 1;
        }
        proof {
            assert forall|m: int| 0 <= m < n implies items_of(all.take(k + 1), #[trigger] ids@[m])
                == if ids@[m] == id {
                items_of(all.take(k), ids@[m]).push(payload)
            } else {
                items_of(all.take(k), ids@[m])
            } by {
                lemma_items_of_step(all, ids@[m], k);
            }
        }
        match found {
            Some(f) => {
                let mut bucket = buckets.remove(f);
                bucket.push(payload);
                buckets.insert(f, bucket);
                assert forall|m: int| 0 <= m < n implies (#[trigger] buckets@[m])@ == if is_first_occurrence(ids@, m) {
                    items_of(all.take(k + 1), ids@[m])
                } else {
                    Seq::empty()
                } by {
                    if m == f {
                    } else {
                        assert(buckets@[m] == old_buckets[m]);
                        if ids@[m] == id && is_first_occurrence(ids@, m) {
                            if m < f {
                                assert(ids@[m] != ids@[f as int]);
                            } else {
                                assert(ids@[f as int] != ids@[m]);
                            }
                        }
                    }
                }
            },
            None => {
            },
        }
    }
    let mut out: Vec<(i64, Vec<T>)> = Vec::new();
    let ghost bv = buckets@;
    assert(all.take(all.len() as int) =~= all);
    assert(ids@.take(0) =~= Seq::<i64>::empty());
    let mut pos: usize = 0;
    for bucket in bit: buckets.into_iter()
        invariant
            pos == bit.index(),
            bit.seq() == bv,
            bv.len() == n,
            n == ids@.len(),
            forall|q: int|
                0 <= q < n ==> (#[trigger] bv[q])@ == if is_first_occurrence(ids@, q) {
                    items_of(all, ids@[q])
                } else {
                    Seq::empty()
                },
            grouped_view(out@) == grouped_spec(ids@.take(bit.index() as int), all, keep_empty),
    {
        let ghost p = bit.index() as int;
        assert(bv[p] == bucket);
        assert(ids@.take(p + 1).drop_last() =~= ids@.take(p));
        assert(ids@.take(p + 1).last() == ids@[p]);
        assert(is_first_occurrence(ids@, p) <==> !ids@.take(p).contains(ids@[p])) by {
            if !is_first_occurrence(ids@, p) {
                let q = choose|q: int| 0 <= q < p && ids@[q] == ids@[p];
                assert(ids@.take(p)[q] == ids@[p]);
            }
        }
        if is_first_occurrence_exec(ids, pos) && (keep_empty || bucket.len() > 0) {
            let ghost old_out = out@;
            out.push((ids[pos], bucket));
            assert(grouped_view(out@) =~= grouped_view(old_out).push((ids@[p], bv[p]@)));
        }
        pos = pos + 1;
    }
    assert(ids@.take(n as int) =~= ids@);
    out
}

/// The elements of a JSON array of integers, separated by commas.
pub open spec fn json_int_items(ids: Seq<i64>) -> Seq<char>
    decreases ids.len(),
{
    if ids.len() == 0 {
        Seq::empty()
    } else if ids.len() == 1 {
        signed_decimal(ids[0] as int)
    } else {
        json_int_items(ids.drop_last()) + seq![','] + signed_decimal(ids.last() as int)
    }
}

/// The compact JSON array of a list of integers, such as `[3,-1,42]`.
pub open spec fn json_int_array(ids: Seq<i64>) -> Seq<char> {
    seq!['['] + json_int_items(ids) + seq![']']
}

/// `serde_json::to_string` on a list of `i64`: the compact JSON array of the
/// numbers in decimal. It succeeds: the crate documents failure only where a
/// `Serialize` impl decides to fail or a map has non-string keys, and neither
/// `Vec<i64>` nor `i64` does either (their impls write into a `Vec<u8>`).
#[verifier::external_body]
fn json_of_ids(ids: &Vec<i64>) -> (r: Result<String, serde_json::Error>)
    ensures
        r is Ok,
        r matches Ok(s) ==> s@ == json_int_array(ids@),
{
    serde_json::to_string(ids)
}

/// The JSON array of station ids with which the connectors of the listed
/// stations are fetched in one query; it is always produced.
pub fn station_ids_json(ids: &Vec<i64>) -> (r: Result<String, AppError>)
    ensures
        r is Ok,
        r matches Ok(s) ==> s@ == json_int_array(ids@),
{
    match json_of_ids(ids) {
        Ok(s) => Ok(s),
        Err(e) => Err(AppError::from_json(e)),
    }
}

/// Every station of a listing comes from the query's stations, once, and
/// carries exactly the connectors with its id; when stations without
/// connectors are left out, each listed one has at least one.
pub proof fn lemma_grouped_stations<T>(ids: Seq<i64>, items: Seq<(i64, T)>, keep_empty: bool, i: int)
    requires
        0 <= i < grouped_spec(ids, items, keep_empty).len(),
    ensures
        !keep_empty ==> grouped_spec(ids, items, keep_empty)[i].1.len() > 0,
        grouped_spec(ids, items, keep_empty)[i].1 == items_of(
            items,
            grouped_spec(ids, items, keep_empty)[i].0,
        ),
        ids.contains(grouped_spec(ids, items, keep_empty)[i].0),
    decreases ids.len(),
{
    let prev = grouped_spec(ids.drop_last(), items, keep_empty);
    if i < prev.len() {
        lemma_grouped_stations(ids.drop_last(), items, keep_empty, i);
        let id = prev[i].0;
        let k = choose|k: int| 0 <= k < ids.drop_last().len() && ids.drop_last()[k] == id;
        assert(ids[k] == id);
    } else {
        assert(ids[ids.len() - 1] == ids.last());
    }
}

/// When stations without connectors are kept, every station of the query
/// is listed.
pub proof fn lemma_all_stations_listed<T>(ids: Seq<i64>, items: Seq<(i64, T)>, k: int)
    requires
        0 <= k < ids.len(),
    ensures
        exists|i: int|
            0 <= i < grouped_spec(ids, items, true).len() && (#[trigger] grouped_spec(
                ids,
                items,
                true,
            )[i]).0 == ids[k],
    decreases ids.len(),
{
    let g = grouped_spec(ids, items, true);
    let prev = grouped_spec(ids.drop_last(), items, true);
    if k < ids.len() - 1 {
        lemma_all_stations_listed(ids.drop_last(), items, k);
        let i = choose|i: int| 0 <= i < prev.len() && (#[trigger] prev[i]).0 == ids.drop_last()[k];
        assert(g[i] == prev[i]);
    } else if ids.drop_last().contains(ids.last()) {
        let k2 = choose|k2: int| 0 <= k2 < ids.drop_last().len() && ids.drop_last()[k2] == ids.last();
        lemma_all_stations_listed(ids.drop_last(), items, k2);
        let i = choose|i: int| 0 <= i < prev.len() && (#[trigger] prev[i]).0 == ids.drop_last()[k2];
        assert(g[i] == prev[i]);
    } else {
        assert(g[g.len() - 1].0 == ids[k]);
    }
}

/// Whether a station query filters connectors: by a power bound, a
/// connector type or fast chargers only.
pub open spec fn filters_connectors_spec(
    min_power_given: bool,
    connector_type: Seq<char>,
    fast_charge_only: Option<bool>,
) -> bool {
    min_power_given || connector_type.len() > 0 || fast_charge_only == Some(true)
}

/// Whether a station query filters connectors. A query that does not lists
/// every cached station, with or without connectors; one that does lists
/// only the stations with a connector that passes.
pub fn filters_connectors(min_power_given: bool, connector_type: &str, fast_charge_only: Option<
    bool,
>) -> (r: bool)
    ensures
        r == filters_connectors_spec(min_power_given, connector_type@, fast_charge_only),
{
    min_power_given || !connector_type.is_empty() || fast_charge_only == Some(true)
}

/// Without a connector-type filter and without asking for fast chargers
/// only, every connector passes.
pub proof fn lemma_no_filter_passes_all(connection_type: Option<Seq<char>>, is_fast_charge: Option<i64>)
    ensures
        connector_filters_spec(connection_type, is_fast_charge, Seq::empty(), None),
{
}

/// The descriptive fields of a cached station that a merge may fill.
pub struct StationFields {
    pub address_title: Option<String>,
    pub address_line1: Option<String>,
    pub town: Option<String>,
    pub postcode: Option<String>,
    pub operator_title: Option<String>,
    pub number_of_points: Option<i64>,
}

/// The mathematical value of [`StationFields`].
pub struct StationFieldsView {
    pub address_title: Option<Seq<char>>,
    pub address_line1: Option<Seq<char>>,
    pub town: Option<Seq<char>>,
    pub postcode: Option<Seq<char>>,
    pub operator_title: Option<Seq<char>>,
    pub number_of_points: Option<i64>,
}

impl View for StationFields {
    type V = StationFieldsView;

    open spec fn view(&self) -> StationFieldsView {
        StationFieldsView {
            address_title: opt_view(self.address_title),
            address_line1: opt_view(self.address_line1),
            town: opt_view(self.town),
            postcode: opt_view(self.postcode),
            operator_title: opt_view(self.operator_title),
            number_of_points: self.number_of_points,
        }
    }
}

/// A cached station found within reach of incoming data: its id and fields.
pub struct NearbyStation {
    pub id: i64,
    pub fields: StationFields,
}

/// Whether a text field holds nothing: absent or empty.
pub open spec fn is_blank(o: Option<Seq<char>>) -> bool {
    match o {
        Some(t) => t.len() == 0,
        None => true,
    }
}

/// One text field after a merge: the cached value stays unless it is blank
/// and the incoming value is not.
pub open spec fn fill_text(cached: Option<Seq<char>>, incoming: Option<Seq<char>>) -> Option<Seq<char>> {
    if is_blank(cached) && !is_blank(incoming) {
        incoming
    } else {
        cached
    }
}

/// A cached station's fields after merging a nearby source into it, field by
/// field: every field the cached station already has is kept (the data
/// already held, Open Charge Map's included, wins), and every empty one takes
/// the incoming value.
pub open spec fn merged_spec(cached: StationFieldsView, incoming: StationFieldsView) -> StationFieldsView {
    StationFieldsView {
        address_title: fill_text(cached.address_title, incoming.address_title),
        address_line1: fill_text(cached.address_line1, incoming.address_line1),
        town: fill_text(cached.town, incoming.town),
        postcode: fill_text(cached.postcode, incoming.postcode),
        operator_title: fill_text(cached.operator_title, incoming.operator_title),
        number_of_points: match cached.number_of_points {
            Some(n) => Some(n),
            None => incoming.number_of_points,
        },
    }
}

/// Whether an optional text is blank.
fn text_is_blank(o: &Option<String>) -> (r: bool)
    ensures
        r == is_blank(opt_view(*o)),
{
    match o {
        Some(t) => t.as_str().is_empty(),
        None => true,
    }
}

/// One text field after a merge.
fn fill_field(cached: &Option<String>, incoming: &Option<String>) -> (r: Option<String>)
    ensures
        opt_view(r) == fill_text(opt_view(*cached), opt_view(*incoming)),
{
    if text_is_blank(cached) && !text_is_blank(incoming) {
        clone_opt(incoming)
    } else {
        clone_opt(cached)
    }
}

/// Merges an incoming source's fields into a cached station's, field by
/// field ([`merged_spec`]).
pub fn merge_station_fields(cached: &StationFields, incoming: &StationFields) -> (r: StationFields)
    ensures
        r@ == merged_spec(cached@, incoming@),
{
    StationFields {
        address_title: fill_field(&cached.address_title, &incoming.address_title),
        address_line1: fill_field(&cached.address_line1, &incoming.address_line1),
        town: fill_field(&cached.town, &incoming.town),
        postcode: fill_field(&cached.postcode, &incoming.postcode),
        operator_title: fill_field(&cached.operator_title, &incoming.operator_title),
        number_of_points: match cached.number_of_points {
            Some(n) => Some(n),
            None => incoming.number_of_points,
        },
    }
}

/// Each text field of a merge keeps what the cached station holds, and is
/// blank afterwards only when both the cached and the incoming value are.
pub proof fn lemma_fill_keeps_and_fills(cached: Option<Seq<char>>, incoming: Option<Seq<char>>)
    ensures
        !is_blank(cached) ==> fill_text(cached, incoming) == cached,
        is_blank(fill_text(cached, incoming)) <==> is_blank(cached) && is_blank(incoming),
{
}

/// Merging the same source again changes nothing, and merging a station's
/// own fields into it changes nothing.
pub proof fn lemma_merge_idempotent(cached: StationFieldsView, incoming: StationFieldsView)
    ensures
        merged_spec(merged_spec(cached, incoming), incoming) == merged_spec(cached, incoming),
        merged_spec(cached, cached) == cached,
{
}

/// A joined row's connector, when the row has one: its type and payload.
pub open spec fn joined_connector<T>(row: (Option<String>, T)) -> Option<(Seq<char>, T)> {
    match row.0 {
        Some(t) => Some((t@, row.1)),
        None => None,
    }
}

/// The view of a list of typed connectors.
pub open spec fn typed_view<T>(v: Seq<(String, T)>) -> Seq<(Seq<char>, T)> {
    v.map_values(|p: (String, T)| (p.0@, p.1))
}

/// The connectors of a station read through an outer join: the rows that
/// carry a connector type, in order; a station without connectors gives one
/// row without a type, and so no connector.
pub fn joined_connectors<T>(rows: Vec<(Option<String>, T)>) -> (r: Vec<(String, T)>)
    ensures
        typed_view(r@) == rows@.filter_map(|row: (Option<String>, T)| joined_connector(row)),
{
    let ghost all = rows@;
    let mut out: Vec<(String, T)> = Vec::new();
    for row in it: rows.into_iter()
        invariant
            it.seq() == all,
            typed_view(out@) == all.take(it.index() as int).filter_map(
                |row: (Option<String>, T)| joined_connector(row),
            ),
    {
        let ghost k = it.index() as int;
        assert(all[k] == row);
        assert(all.take(k + 1).drop_last() =~= all.take(k));
        let (connection_type, payload) = row;
        match connection_type {
            Some(t) => {
                let ghost old_out = out@;
                out.push((t, payload));
                assert(typed_view(out@) =~= typed_view(old_out).push((t@, payload)));
            },
            None => {},
        }
    }
    assert(all.take(all.len() as int) =~= all);
    out
}

/// Asking for fast chargers only drops every connector not flagged `1`,
/// whatever connector-type filter is given; a connector-type filter drops
/// every connector whose lower-cased type does not contain it, and every
/// connector without a type, whatever the fast-charge flag.
pub proof fn lemma_filters_each_exclude(
    connection_type: Option<Seq<char>>,
    is_fast_charge: Option<i64>,
    connector_type: Seq<char>,
    fast_charge_only: Option<bool>,
)
    ensures
        fast_charge_only == Some(true) && is_fast_charge != Some(1i64) ==> !connector_filters_spec(
            connection_type,
            is_fast_charge,
            connector_type,
            fast_charge_only,
        ),
        connector_type.len() > 0 && connection_type is None ==> !connector_filters_spec(
            connection_type,
            is_fast_charge,
            connector_type,
            fast_charge_only,
        ),
        connector_type.len() > 0 && (connection_type matches Some(t) && !has_substring(
            lowercase(t),
            lowercase(connector_type),
        )) ==> !connector_filters_spec(
            connection_type,
            is_fast_charge,
            connector_type,
            fast_charge_only,
        ),
        connector_filters_spec(connection_type, is_fast_charge, connector_type, fast_charge_only)
            <== (connector_type.len() == 0 || (connection_type matches Some(t) && has_substring(
            lowercase(t),
            lowercase(connector_type),
        ))) && (fast_charge_only != Some(true) || is_fast_charge == Some(1i64)),
{
}

/// A known street without a town is the whole address, whatever the
/// postcode and the title; a street and a town always appear, in that order,
/// at the start of the address; without a street the address is the title.
pub proof fn lemma_address_parts(
    line1: Option<Seq<char>>,
    town: Option<Seq<char>>,
    post: Option<Seq<char>>,
    title: Option<Seq<char>>,
)
    ensures
        line1 is Some && town is None ==> address_spec(line1, town, post, title) == line1,
        line1 is None ==> address_spec(line1, town, post, title) == title,
        line1 matches Some(a) ==> town matches Some(t) ==> address_spec(
            line1,
            town,
            post,
            title,
        ) matches Some(r) && r.take((a.len() + 2 + t.len()) as int) == a + ", "@ + t,
        line1 is Some ==> address_spec(line1, town, post, title) is Some,
{
    if let (Some(a), Some(t)) = (line1, town) {
        let r = address_spec(line1, town, post, title)->0;
        let head = a + ", "@ + t;
        if let Some(p) = post {
            assert(r == head + ", "@ + p);
        }
        assert(r.take(head.len() as int) =~= head);
        reveal_strlit(", ");
    }
}

} // verus!
