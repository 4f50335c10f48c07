//! OpenStreetMap charging-station nodes: what a node's tags say about its
//! station.

use vstd::prelude::*;
use crate::stations::{
    clone_opt, merge_station_fields, merged_spec, opt_view, NearbyStation, StationFields,
    StationFieldsView,
};
use crate::text::{
    ends_with, has_prefix, has_suffix, count_char, i64_to_string, occurs_once, parse_i64,
    parse_i64_spec, signed_decimal, skip_chars, starts_with, str_eq,
};
use crate::utils::{normalize_connector_type, normalized_connector};

verus! {

/// The views of a node's tags, in the order they are walked.
pub open spec fn tags_view(tags: Seq<(String, String)>) -> Seq<(Seq<char>, Seq<char>)> {
    tags.map_values(|t: (String, String)| (t.0@, t.1@))
}

/// The first tag whose key satisfies `pred`.
pub open spec fn first_tag_where(
    tags: Seq<(Seq<char>, Seq<char>)>,
    pred: spec_fn(Seq<char>) -> bool,
) -> Option<(Seq<char>, Seq<char>)>
    decreases tags.len(),
{
    if tags.len() == 0 {
        None
    } else if pred(tags[0].0) {
        Some(tags[0])
    } else {
        first_tag_where(tags.drop_first(), pred)
    }
}

/// The value of the tag `key`.
pub open spec fn tag_spec(tags: Seq<(Seq<char>, Seq<char>)>, key: Seq<char>) -> Option<Seq<char>> {
    match first_tag_where(tags, |k: Seq<char>| k == key) {
        Some(t) => Some(t.1),
        None => None,
    }
}

/// Whether a key gives a socket's power output (`socket:<type>:output`).
pub open spec fn is_output_key(k: Seq<char>) -> bool {
    has_prefix(k, "socket:"@) && has_suffix(k, ":output"@)
}

/// Whether a key names a socket type itself (`socket:<type>`), not one of its
/// properties.
pub open spec fn is_socket_key(k: Seq<char>) -> bool {
    has_prefix(k, "socket:"@) && count_char(k, ':') == 1
}

/// Walking one more tag keeps the first match or finds it there.
proof fn lemma_first_tag_step(
    tags: Seq<(Seq<char>, Seq<char>)>,
    pred: spec_fn(Seq<char>) -> bool,
    i: int,
)
    requires
        0 <= i < tags.len(),
    ensures
        first_tag_where(tags.skip(i), pred) == if pred(tags[i].0) {
            Some(tags[i])
        } else {
            first_tag_where(tags.skip(i + 1), pred)
        },
{
    assert(tags.skip(i).drop_first() =~= tags.skip(i + 1));
}

/// The value of the first tag named `key`.
pub fn tag_value(tags: &Vec<(String, String)>, key: &str) -> (r: Option<String>)
    ensures
        opt_view(r) == tag_spec(tags_view(tags@), key@),
{
    let ghost tv = tags_view(tags@);
    let ghost pred = |k: Seq<char>| k == key@;
    let mut i: usize = 0;
    assert(tv.skip(0) =~= tv);
    while i < tags.len()
        invariant
            i <= tags@.len(),
            tv == tags_view(tags@),
            pred == (|k: Seq<char>| k == key@),
            first_tag_where(tv, pred) == first_tag_where(tv.skip(i as int), pred),
        decreases tags@.len() - i,
    {
        proof {
            lemma_first_tag_step(tv, pred, i as int);
        }
        if str_eq(tags[i].0.as_str(), key) {
            return Some(tags[i].1.clone());
        }
        i = i + 1;
    }
    None
}

/// The value of the first `socket:<type>:output` tag.
pub fn first_socket_output(tags: &Vec<(String, String)>) -> (r: Option<String>)
    ensures
        opt_view(r) == match first_tag_where(tags_view(tags@), |k: Seq<char>| is_output_key(k)) {
            Some(t) => Some(t.1),
            None => None,
        },
{
    let ghost tv = tags_view(tags@);
    let ghost pred = |k: Seq<char>| is_output_key(k);
    let mut i: usize = 0;
    assert(tv.skip(0) =~= tv);
    while i < tags.len()
        invariant
            i <= tags@.len(),
            tv == tags_view(tags@),
            pred == (|k: Seq<char>| is_output_key(k)),
            first_tag_where(tv, pred) == first_tag_where(tv.skip(i as int), pred),
        decreases tags@.len() - i,
    {
        proof {
            lemma_first_tag_step(tv, pred, i as int);
        }
        let k = tags[i].0.as_str();
        if starts_with(k, "socket:") && ends_with(k, ":output") {
            return Some(tags[i].1.clone());
        }
        i = i + 1;
    }
    None
}

/// The display name of the socket type of the first `socket:<type>` tag.
pub fn first_socket_type(tags: &Vec<(String, String)>) -> (r: Option<String>)
    ensures
        opt_view(r) == match first_tag_where(tags_view(tags@), |k: Seq<char>| is_socket_key(k)) {
            Some(t) => Some(normalized_connector(t.0.skip(7))),
            None => None,
        },
{
    let ghost tv = tags_view(tags@);
    let ghost pred = |k: Seq<char>| is_socket_key(k);
    proof {
        reveal_strlit("socket:");
    }
    let mut i: usize = 0;
    assert(tv.skip(0) =~= tv);
    while i < tags.len()
        invariant
            i <= tags@.len(),
            tv == tags_view(tags@),
            pred == (|k: Seq<char>| is_socket_key(k)),
            first_tag_where(tv, pred) == first_tag_where(tv.skip(i as int), pred),
            "socket:"@.len() == 7,
        decreases tags@.len() - i,
    {
        proof {
            lemma_first_tag_step(tv, pred, i as int);
        }
        let k = tags[i].0.as_str();
        if starts_with(k, "socket:") && occurs_once(k, ':') {
            let socket = skip_chars(k, 7);
            return Some(normalize_connector_type(socket.as_str()).to_owned());
        }
        i = i + 1;
    }
    None
}

/// What a station's record takes from a node's id and tags.
pub struct OsmStationFields {
    /// The node's id as text, the station's source identifier.
    pub source_id: String,
    pub operator: Option<String>,
    pub name: Option<String>,
    /// `addr:street` and `addr:housenumber`, when both are given.
    pub address_line1: Option<String>,
    pub postcode: Option<String>,
    /// `addr:city`, else `addr:municipality`.
    pub town: Option<String>,
    /// `capacity`, when it reads as an integer.
    pub number_of_points: Option<i64>,
    /// The text of the first `socket:<type>:output` tag, such as `"22 kW"`.
    pub power_output: Option<String>,
    /// The display name of the first `socket:<type>` tag's type.
    pub connection_type: Option<String>,
    /// The name, else the street address.
    pub address_title: Option<String>,
}

/// The first of two optional values that is present.
pub open spec fn or_else<A>(a: Option<A>, b: Option<A>) -> Option<A> {
    match a {
        Some(x) => Some(x),
        None => b,
    }
}

/// The street address of a node: street and house number joined by a space.
pub open spec fn street_address_spec(tags: Seq<(Seq<char>, Seq<char>)>) -> Option<Seq<char>> {
    match (tag_spec(tags, "addr:street"@), tag_spec(tags, "addr:housenumber"@)) {
        (Some(street), Some(number)) => Some(street + " "@ + number),
        _ => None,
    }
}

/// Reads a node's station fields from its id and tags.
pub fn osm_station_fields(id: i64, tags: &Vec<(String, String)>) -> (r: OsmStationFields)
    ensures
        r.source_id@ == signed_decimal(id as int),
        opt_view(r.operator) == tag_spec(tags_view(tags@), "operator"@),
        opt_view(r.name) == tag_spec(tags_view(tags@), "name"@),
        opt_view(r.address_line1) == street_address_spec(tags_view(tags@)),
        opt_view(r.postcode) == tag_spec(tags_view(tags@), "addr:postcode"@),
        opt_view(r.town) == or_else(
            tag_spec(tags_view(tags@), "addr:city"@),
            tag_spec(tags_view(tags@), "addr:municipality"@),
        ),
        r.number_of_points == match tag_spec(tags_view(tags@), "capacity"@) {
            Some(c) => parse_i64_spec(c),
            None => None,
        },
        opt_view(r.power_output) == match first_tag_where(
            tags_view(tags@),
            |k: Seq<char>| is_output_key(k),
        ) {
            Some(t) => Some(t.1),
            None => None,
        },
        opt_view(r.connection_type) == match first_tag_where(
            tags_view(tags@),
            |k: Seq<char>| is_socket_key(k),
        ) {
            Some(t) => Some(normalized_connector(t.0.skip(7))),
            None => None,
        },
        opt_view(r.address_title) == or_else(
            tag_spec(tags_view(tags@), "name"@),
            street_address_spec(tags_view(tags@)),
        ),
{
    let source_id = i64_to_string(id);
    let operator = tag_value(tags, "operator");
    let name = tag_value(tags, "name");
    let street = tag_value(tags, "addr:street");
    let number = tag_value(tags, "addr:housenumber");
    let address_line1 = match (street, number) {
        (Some(st), Some(num)) => {
            let mut a = st;
            a.append(" ");
            a.append(num.as_str());
            Some(a)
        },
        _ => None,
    };
    let postcode = tag_value(tags, "addr:postcode");
    let town = match tag_value(tags, "addr:city") {
        Some(t) => Some(t),
        None => tag_value(tags, "addr:municipality"),
    };
    let number_of_points = match tag_value(tags, "capacity") {
        Some(c) => parse_i64(c.as_str()),
        None => None,
    };
    let power_output = first_socket_output(tags);
    let connection_type = first_socket_type(tags);
    let address_title = match &name {
        Some(n) => Some(n.clone()),
        None => match &address_line1 {
            Some(a) => Some(a.clone()),
            None => None,
        },
    };
    OsmStationFields {
        source_id,
        operator,
        name,
        address_line1,
        postcode,
        town,
        number_of_points,
        power_output,
        connection_type,
        address_title,
    }
}

/// The station fields that a node supplies.
pub open spec fn node_fields_spec(f: OsmStationFields) -> StationFieldsView {
    StationFieldsView {
        address_title: opt_view(f.address_title),
        address_line1: opt_view(f.address_line1),
        town: opt_view(f.town),
        postcode: opt_view(f.postcode),
        operator_title: opt_view(f.operator),
        number_of_points: f.number_of_points,
    }
}

/// The station fields that a node supplies.
pub fn node_station_fields(f: &OsmStationFields) -> (r: StationFields)
    ensures
        r@ == node_fields_spec(*f),
{
    StationFields {
        address_title: clone_opt(&f.address_title),
        address_line1: clone_opt(&f.address_line1),
        town: clone_opt(&f.town),
        postcode: clone_opt(&f.postcode),
        operator_title: clone_opt(&f.operator),
        number_of_points: f.number_of_points,
    }
}

/// The writes that one node calls for.
pub enum OsmPlan {
    /// A station already lies within reach: the node is recorded as one of
    /// its sources, and its fields become `merged`, the merge of the node's
    /// into them.
    LinkExisting { station_id: i64, source_id: String, merged: StationFields },
    /// A new station from the node's fields, with the node as its source and
    /// its socket type, if any, as a connection.
    NewStation { fields: OsmStationFields },
}

/// Decides the writes for a node, given the station found within reach of
/// it, if any.
pub fn plan_osm_node(fields: OsmStationFields, nearby: Option<&NearbyStation>) -> (plan: OsmPlan)
    ensures
        match (nearby, plan) {
            (Some(near), OsmPlan::LinkExisting { station_id, source_id, merged }) => {
                &&& station_id == near.id
                &&& source_id@ == fields.source_id@
                &&& merged@ == merged_spec(near.fields@, node_fields_spec(fields))
            },
            (None, OsmPlan::NewStation { fields: f }) => f == fields,
            _ => false,
        },
{
    match nearby {
        Some(near) => {
            let incoming = node_station_fields(&fields);
            let merged = merge_station_fields(&near.fields, &incoming);
            OsmPlan::LinkExisting { station_id: near.id, source_id: fields.source_id, merged }
        },
        None => OsmPlan::NewStation { fields },
    }
}

/// The first tag whose key satisfies `pred` is a tag of the list, it
/// satisfies `pred`, no earlier tag does, and there is none only when no tag
/// does.
pub proof fn lemma_first_tag_where(tags: Seq<(Seq<char>, Seq<char>)>, pred: spec_fn(Seq<char>) -> bool)
    ensures
        first_tag_where(tags, pred) matches Some(t) ==> exists|i: int|
            0 <= i < tags.len() && tags[i] == t && pred(t.0) && forall|j: int|
                0 <= j < i ==> !pred(#[trigger] tags[j].0),
        first_tag_where(tags, pred) is None ==> forall|i: int|
            0 <= i < tags.len() ==> !pred(#[trigger] tags[i].0),
    decreases tags.len(),
{
    if tags.len() > 0 && !pred(tags[0].0) {
        let rest = tags.drop_first();
        lemma_first_tag_where(rest, pred);
        if let Some(t) = first_tag_where(rest, pred) {
            let i = choose|i: int|
                0 <= i < rest.len() && rest[i] == t && pred(t.0) && forall|j: int|
                    0 <= j < i ==> !pred(#[trigger] rest[j].0);
            assert(tags[i + 1] == t);
            assert forall|j: int| 0 <= j < i + 1 implies !pred(#[trigger] tags[j].0) by {
                if j > 0 {
                    assert(tags[j] == rest[j - 1]);
                }
            }
        } else {
            assert forall|i: int| 0 <= i < tags.len() implies !pred(#[trigger] tags[i].0) by {
                if i > 0 {
                    assert(tags[i] == rest[i - 1]);
                }
            }
        }
    }
}

/// A key with a second colon (`socket:<type>:<property>`) never names a
/// socket type; a key `socket:<type>` with no further colon always does.
pub proof fn lemma_socket_keys(k: Seq<char>)
    ensures
        count_char(k, ':') >= 2 ==> !is_socket_key(k),
        has_prefix(k, "socket:"@) && count_char(k, ':') == 1 ==> is_socket_key(k),
        !has_prefix(k, "socket:"@) ==> !is_socket_key(k),
{
}

/// The connection type read from a node's tags is the normalised `<type>` of
/// the first tag whose key is `socket:<type>` with no further colon; there
/// is none only when no key is of that form.
pub proof fn lemma_connection_type_from_first_socket(tags: Seq<(Seq<char>, Seq<char>)>)
    ensures
        first_tag_where(tags, |k: Seq<char>| is_socket_key(k)) matches Some(t) ==> exists|i: int|
            0 <= i < tags.len() && tags[i] == t && has_prefix(t.0, "socket:"@) && count_char(
                t.0,
                ':',
            ) == 1 && forall|j: int|
                0 <= j < i ==> !(has_prefix(#[trigger] tags[j].0, "socket:"@) && count_char(
                    tags[j].0,
                    ':',
                ) == 1),
        first_tag_where(tags, |k: Seq<char>| is_socket_key(k)) is None ==> forall|i: int|
            0 <= i < tags.len() ==> !(has_prefix(#[trigger] tags[i].0, "socket:"@) && count_char(
                tags[i].0,
                ':',
            ) == 1),
{
    lemma_first_tag_where(tags, |k: Seq<char>| is_socket_key(k));
}

} // verus!
