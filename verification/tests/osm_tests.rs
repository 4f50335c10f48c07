use chargemap_proxy::stations::{NearbyStation, StationFields};
use chargemap_proxy::osm::{
    first_socket_output, first_socket_type, osm_station_fields, plan_osm_node, tag_value, OsmPlan,
};

fn tags(pairs: &[(&str, &str)]) -> Vec<(String, String)> {
    pairs.iter().map(|(k, v)| (k.to_string(), v.to_string())).collect()
}

#[test]
fn osm_fields_of_a_full_node() {
    let t = tags(&[
        ("amenity", "charging_station"),
        ("operator", "Allego"),
        ("capacity", "2"),
        ("socket:type2", "2"),
        ("socket:type2:output", "22 kW"),
        ("addr:street", "Kiezelweg"),
        ("addr:housenumber", "1"),
        ("addr:postcode", "9000"),
        ("addr:municipality", "Gent"),
    ]);
    let f = osm_station_fields(111111, &t);
    assert_eq!(f.source_id, "111111");
    assert_eq!(f.operator, Some("Allego".to_string()));
    assert_eq!(f.number_of_points, Some(2));
    assert_eq!(f.power_output, Some("22 kW".to_string()));
    assert_eq!(f.connection_type, Some("Type 2 (Socket Only)".to_string()));
    assert_eq!(f.address_line1, Some("Kiezelweg 1".to_string()));
    assert_eq!(f.postcode, Some("9000".to_string()));
    assert_eq!(f.town, Some("Gent".to_string()));
    assert_eq!(f.name, None);
    assert_eq!(f.address_title, Some("Kiezelweg 1".to_string()));
}

#[test]
fn osm_fields_of_a_bare_node() {
    let f = osm_station_fields(-222222, &tags(&[("amenity", "charging_station")]));
    assert_eq!(f.source_id, "-222222");
    assert_eq!(f.operator, None);
    assert_eq!(f.address_line1, None);
    assert_eq!(f.connection_type, None);
    assert_eq!(f.power_output, None);
    assert_eq!(f.number_of_points, None);
    assert_eq!(f.address_title, None);
}

#[test]
fn osm_name_wins_over_address_and_city_over_municipality() {
    let t = tags(&[
        ("name", "Depot"),
        ("addr:street", "Kiezelweg"),
        ("addr:housenumber", "1"),
        ("addr:city", "Gent"),
        ("addr:municipality", "Oost"),
    ]);
    let f = osm_station_fields(1, &t);
    assert_eq!(f.address_title, Some("Depot".to_string()));
    assert_eq!(f.town, Some("Gent".to_string()));
}

#[test]
fn osm_street_without_number_gives_no_address() {
    let f = osm_station_fields(1, &tags(&[("addr:street", "Kiezelweg")]));
    assert_eq!(f.address_line1, None);
}

#[test]
fn osm_capacity_must_be_an_integer() {
    let f = osm_station_fields(1, &tags(&[("capacity", "two")]));
    assert_eq!(f.number_of_points, None);
    let g = osm_station_fields(1, &tags(&[("capacity", "+12")]));
    assert_eq!(g.number_of_points, Some(12));
    let h = osm_station_fields(1, &tags(&[("capacity", " 3")]));
    assert_eq!(h.number_of_points, None);
}

#[test]
fn osm_socket_properties_are_not_socket_types() {
    let t = tags(&[("socket:type2:output", "11 kW"), ("socket:chademo", "1")]);
    assert_eq!(first_socket_type(&t), Some("CHAdeMO".to_string()));
    assert_eq!(first_socket_output(&t), Some("11 kW".to_string()));
    let unknown = tags(&[("socket:schuko", "2")]);
    assert_eq!(first_socket_type(&unknown), Some("schuko".to_string()));
}

#[test]
fn osm_tag_lookup_takes_the_first_match() {
    let t = tags(&[("a", "1"), ("b", "2"), ("a", "3")]);
    assert_eq!(tag_value(&t, "a"), Some("1".to_string()));
    assert_eq!(tag_value(&t, "c"), None);
}

#[test]
fn osm_nearby_station_gets_only_a_source_link() {
    let f = osm_station_fields(222222, &tags(&[("amenity", "charging_station")]));
    let near = NearbyStation {
        id: 4,
        fields: StationFields {
            address_title: None,
            address_line1: Some("Kiezelweg 1".to_string()),
            town: None,
            postcode: Some("9000".to_string()),
            operator_title: Some("Allego".to_string()),
            number_of_points: None,
        },
    };
    match plan_osm_node(f, Some(&near)) {
        OsmPlan::LinkExisting { station_id, source_id, merged: fields } => {
            assert_eq!(station_id, 4);
            assert_eq!(source_id, "222222");
            assert_eq!(fields.address_line1, Some("Kiezelweg 1".to_string()));
            assert_eq!(fields.operator_title, Some("Allego".to_string()));
            assert_eq!(fields.number_of_points, None);
        }
        OsmPlan::NewStation { .. } => panic!("expected a link"),
    }
    let g = osm_station_fields(5, &tags(&[("socket:type2", "1")]));
    match plan_osm_node(g, None) {
        OsmPlan::NewStation { fields } => {
            assert_eq!(fields.connection_type, Some("Type 2 (Socket Only)".to_string()))
        }
        OsmPlan::LinkExisting { .. } => panic!("expected a new station"),
    }
}

#[test]
fn osm_merge_fills_empty_fields_of_nearby_station() {
    let f = osm_station_fields(
        7,
        &tags(&[("name", "Depot"), ("capacity", "4"), ("addr:city", "Gent"), ("operator", "Eneco")]),
    );
    let near = NearbyStation {
        id: 1,
        fields: StationFields {
            address_title: None,
            address_line1: None,
            town: Some(String::new()),
            postcode: None,
            operator_title: Some("Allego".to_string()),
            number_of_points: None,
        },
    };
    match plan_osm_node(f, Some(&near)) {
        OsmPlan::LinkExisting { merged: fields, .. } => {
            assert_eq!(fields.address_title, Some("Depot".to_string()));
            assert_eq!(fields.town, Some("Gent".to_string()));
            assert_eq!(fields.operator_title, Some("Allego".to_string()));
            assert_eq!(fields.number_of_points, Some(4));
        }
        OsmPlan::NewStation { .. } => panic!("expected a link"),
    }
}

#[test]
fn osm_integer_text_at_the_edges() {
    assert_eq!(osm_station_fields(i64::MIN, &tags(&[])).source_id, "-9223372036854775808");
    assert_eq!(osm_station_fields(0, &tags(&[])).source_id, "0");
    assert_eq!(osm_station_fields(i64::MAX, &tags(&[])).source_id, "9223372036854775807");
    let cap = |c: &str| osm_station_fields(1, &tags(&[("capacity", c)])).number_of_points;
    assert_eq!(cap("-9223372036854775808"), Some(i64::MIN));
    assert_eq!(cap("9223372036854775807"), Some(i64::MAX));
    assert_eq!(cap("9223372036854775808"), None);
    assert_eq!(cap("-9223372036854775809"), None);
    assert_eq!(cap("0099"), Some(99));
    assert_eq!(cap("-"), None);
    assert_eq!(cap(""), None);
    assert_eq!(cap("1_000"), None);
    assert_eq!(cap("٣"), None);
}
