use chargemap_proxy::stations::{NearbyStation, StationFields};
use chargemap_proxy::ocm::{
    OcmSyncState, ocm_connection_rows, ocm_request_url, ocm_station_row, OcmAddress, OcmConnection,
    OcmConnectionType, OcmCountry, OcmLevel, OcmOperator, OcmStation, OcmStatusType,
};

fn address() -> OcmAddress {
    OcmAddress {
        title: Some("Test Station".to_string()),
        address_line1: Some("Kiezelweg 1".to_string()),
        town: Some("Gent".to_string()),
        state_or_province: None,
        postcode: Some("9000".to_string()),
        country: Some(OcmCountry { iso_code: Some("BE".to_string()) }),
        latitude_bits: 51.05f64.to_bits(),
        longitude_bits: 3.71f64.to_bits(),
        access_comments: None,
        related_url: None,
        contact_telephone1: None,
    }
}

fn station(operator_title: Option<&str>, connections: Option<Vec<OcmConnection>>) -> OcmStation {
    OcmStation {
        id: 12345,
        uuid: "abc-123".to_string(),
        operator_info: Some(OcmOperator { id: Some(3), title: operator_title.map(|s| s.to_string()) }),
        usage_type: None,
        usage_cost: Some("free".to_string()),
        status_type: Some(OcmStatusType { id: Some(50), title: None, is_operational: Some(true) }),
        address_info: address(),
        connections,
        number_of_points: Some(2),
        general_comments: None,
        is_recently_verified: Some(false),
        date_last_verified: None,
        date_last_status_update: None,
        date_created: Some("2020-01-01".to_string()),
    }
}

#[test]
fn request_url_without_modified_since() {
    let url = ocm_request_url("http://x/v3/poi", "51.0543", "3.7174", 30, "KEY", None);
    assert_eq!(
        url,
        "http://x/v3/poi?output=json&latitude=51.0543&longitude=3.7174&distance=30&distanceunit=KM&maxresults=1000&compact=false&verbose=true&key=KEY"
    );
    assert!(!url.contains("modifiedsince"));
}

#[test]
fn request_url_with_modified_since() {
    let url = ocm_request_url("http://x/v3/poi", "51", "3", 0, "k", Some("2024-01-01T00:00:00Z"));
    assert!(url.ends_with("&key=k&modifiedsince=2024-01-01T00:00:00Z"));
    assert!(url.contains("&distance=0&"));
}

#[test]
fn station_row_flattens_parts() {
    let row = ocm_station_row(&station(Some("Allego"), None));
    assert_eq!(row.id, 12345);
    assert_eq!(row.uuid, "abc-123");
    assert_eq!(row.operator_id, Some(3));
    assert_eq!(row.operator_title, Some("Allego".to_string()));
    assert_eq!(row.status_type_id, Some(50));
    assert_eq!(row.is_operational, Some(true));
    assert_eq!(row.country_iso, Some("BE".to_string()));
    assert_eq!(row.address_line1, Some("Kiezelweg 1".to_string()));
    assert_eq!(row.usage_type_id, None);
    assert_eq!(f64::from_bits(row.latitude_bits), 51.05);
}

#[test]
fn station_row_drops_unknown_operator() {
    let row = ocm_station_row(&station(Some("(Unknown Operator)"), None));
    assert_eq!(row.operator_title, None);
    assert_eq!(row.operator_id, Some(3));
}

#[test]
fn connection_rows_follow_the_station() {
    let conn = OcmConnection {
        id: 9,
        connection_type: Some(OcmConnectionType {
            id: Some(25),
            title: Some("Type 2 (Socket Only)".to_string()),
            formal_name: Some("IEC 62196-2 Type 2".to_string()),
        }),
        level: Some(OcmLevel { id: Some(2), title: None, is_fast_charge_capable: Some(false) }),
        current_type: None,
        status_type: None,
        amps_bits: None,
        voltage_bits: None,
        power_kw_bits: Some(22.0f64.to_bits()),
        quantity: Some(2),
        comments: None,
    };
    let rows = ocm_connection_rows(&station(None, Some(vec![conn])));
    assert_eq!(rows.len(), 1);
    assert_eq!(rows[0].station_id, 12345);
    assert_eq!(rows[0].connection_type_id, Some(25));
    assert_eq!(rows[0].is_fast_charge, Some(false));
    assert_eq!(rows[0].current_type_id, None);
    assert_eq!(rows[0].quantity, Some(2));
    assert!(ocm_connection_rows(&station(None, None)).is_empty());
}

#[test]
fn second_sync_asks_for_changes_since_the_first() {
    let mut sync = OcmSyncState::new();
    assert_eq!(sync.modified_since(), None);
    sync.record_sync("2024-05-01 10:00:00".to_string());
    assert_eq!(sync.modified_since(), Some("2024-05-01 10:00:00".to_string()));
    let url = ocm_request_url("http://x/v3/poi", "51", "3", 30, "k", sync.modified_since().as_deref());
    assert!(url.ends_with("&modifiedsince=2024-05-01 10:00:00"));
}

#[test]
fn ocm_station_without_neighbour_is_upserted() {
    let s = station(Some("Allego"), None);
    match chargemap_proxy::ocm::plan_ocm_station(&s, None) {
        chargemap_proxy::ocm::OcmPlan::Upsert { row } => {
            assert_eq!(row.id, 12345);
            assert_eq!(row.operator_title, Some("Allego".to_string()));
        }
        _ => panic!("expected an upsert"),
    }
}

#[test]
fn ocm_values_win_when_merging_into_a_neighbour() {
    let mut s = station(Some("(Unknown Operator)"), None);
    s.address_info.town = None;
    s.number_of_points = None;
    let near = NearbyStation {
        id: 42,
        fields: StationFields {
            address_title: Some("Flanders title".to_string()),
            address_line1: Some("Kiezelweg 1A".to_string()),
            town: Some("Gent".to_string()),
            postcode: Some("9000".to_string()),
            operator_title: Some("Allego".to_string()),
            number_of_points: Some(3),
        },
    };
    match chargemap_proxy::ocm::plan_ocm_station(&s, Some(&near)) {
        chargemap_proxy::ocm::OcmPlan::MergeInto { station_id, row, merged } => {
            assert_eq!(station_id, 42);
            assert_eq!(row.id, 12345);
            assert_eq!(merged.address_title, Some("Test Station".to_string()));
            assert_eq!(merged.address_line1, Some("Kiezelweg 1".to_string()));
            assert_eq!(merged.town, Some("Gent".to_string()));
            assert_eq!(merged.operator_title, Some("Allego".to_string()));
            assert_eq!(merged.number_of_points, Some(3));
        }
        _ => panic!("expected a merge"),
    }
}
