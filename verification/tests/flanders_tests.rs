use chargemap_proxy::flanders::{
    flanders_csv_fields, flanders_row_from_record, flanders_rows, group_into_stations, group_key,
    plan_flanders_station, FlandersPlan, FlandersRecord, FlandersRow,
};
use chargemap_proxy::stations::{NearbyStation, StationFields};

fn row(source_id: &str, operator: &str, address: &str) -> FlandersRow {
    FlandersRow {
        source_id: source_id.to_string(),
        operator: Some(operator.to_string()),
        address_line1: address.to_string(),
        postcode: "9000".to_string(),
        town: "Gent".to_string(),
        latitude_bits: 51.05f64.to_bits(),
        longitude_bits: 3.71f64.to_bits(),
        power_kw_bits: Some(22.0f64.to_bits()),
        connector: "IEC_62196_T2".to_string(),
        current_type: "ac_3_phase".to_string(),
    }
}

#[test]
fn test_group_same_address_same_operator() {
    let rows = vec![row("uuid1", "Allego", "Kiezelweg 1"), row("uuid2", "Allego", "Kiezelweg 1")];
    let grouped = group_into_stations(rows);
    assert_eq!(grouped.len(), 1);
    let first = &grouped[0];
    assert_eq!(first.rows.len(), 2);
}

#[test]
fn test_group_different_operator_same_address() {
    let rows = vec![row("uuid1", "Allego", "Kiezelweg 1"), row("uuid2", "Eneco", "Kiezelweg 1")];
    let grouped = group_into_stations(rows);
    assert_eq!(grouped.len(), 2);
}

#[test]
fn test_group_case_insensitive() {
    let rows = vec![row("uuid1", "ALLEGO", "Kiezelweg 1"), row("uuid2", "allego", "Kiezelweg 1")];
    let grouped = group_into_stations(rows);
    assert_eq!(grouped.len(), 1);
}

#[test]
fn group_key_lowercases_and_trims() {
    let mut r = row("u", "  Allego ", " KIEZELWEG 1 ");
    r.postcode = " 9000 ".to_string();
    assert_eq!(group_key(&r), "kiezelweg 1|9000|allego");
    r.operator = None;
    assert_eq!(group_key(&r), "kiezelweg 1|9000|");
}

#[test]
fn grouping_keeps_input_order_within_groups() {
    let rows = vec![
        row("a", "Allego", "Kiezelweg 1"),
        row("b", "Eneco", "Kiezelweg 1"),
        row("c", "allego", "kiezelweg 1"),
    ];
    let grouped = group_into_stations(rows);
    assert_eq!(grouped.len(), 2);
    let ids: Vec<Vec<String>> = grouped
        .iter()
        .map(|g| g.rows.iter().map(|r| r.source_id.clone()).collect())
        .collect();
    assert!(ids.contains(&vec!["a".to_string(), "c".to_string()]));
    assert!(ids.contains(&vec!["b".to_string()]));
}

fn fields(values: &[&str]) -> Vec<String> {
    values.iter().map(|s| s.to_string()).collect()
}

#[test]
fn record_to_row_trims_and_reads_columns() {
    let f = fields(&[
        "1", " BE*ALL*E1 ", " Allego ", "public", "22", "normal", "ac_3_phase", "IEC_62196_T2",
        " Kiezelweg 1 ", "9000", "Gent", "Oost-Vlaanderen", "51.05", "3.71",
    ]);
    let r = flanders_row_from_record(&f, Some(22.0f64.to_bits()), Some(1), Some(2)).unwrap();
    assert_eq!(r.source_id, "BE*ALL*E1");
    assert_eq!(r.operator, Some("Allego".to_string()));
    assert_eq!(r.address_line1, "Kiezelweg 1");
    assert_eq!(r.postcode, "9000");
    assert_eq!(r.town, "Gent");
    assert_eq!(r.connector, "IEC_62196_T2");
    assert_eq!(r.current_type, "ac_3_phase");
    assert_eq!((r.latitude_bits, r.longitude_bits), (1, 2));
}

#[test]
fn record_without_coordinates_or_keys_is_skipped() {
    let f = fields(&["1", "id", "op", "", "", "", "", "", "street", "9000", "town"]);
    assert!(flanders_row_from_record(&f, None, None, Some(2)).is_none());
    assert!(flanders_row_from_record(&f, None, Some(1), None).is_none());
    assert!(flanders_row_from_record(&f, None, Some(1), Some(2)).is_some());
    let no_postcode = fields(&["1", "id", "op", "", "", "", "", "", "street", "  "]);
    assert!(flanders_row_from_record(&no_postcode, None, Some(1), Some(2)).is_none());
    let short = fields(&["1", "id"]);
    assert!(flanders_row_from_record(&short, None, Some(1), Some(2)).is_none());
}

#[test]
fn record_with_blank_operator_has_none() {
    let f = fields(&["1", "id", "   ", "", "", "", "", "", "street", "9000"]);
    let r = flanders_row_from_record(&f, None, Some(1), Some(2)).unwrap();
    assert_eq!(r.operator, None);
    assert_eq!(r.town, "");
}

#[test]
fn rows_keep_only_valid_records() {
    let good = fields(&["1", "id", "op", "", "", "", "", "", "street", "9000"]);
    let records = vec![
        FlandersRecord { fields: good.clone(), power_kw_bits: None, latitude_bits: Some(1), longitude_bits: Some(2) },
        FlandersRecord { fields: good.clone(), power_kw_bits: None, latitude_bits: None, longitude_bits: Some(2) },
        FlandersRecord { fields: good, power_kw_bits: None, latitude_bits: Some(3), longitude_bits: Some(4) },
    ];
    let rows = flanders_rows(&records);
    assert_eq!(rows.len(), 2);
    assert_eq!(rows[1].latitude_bits, 3);
}

#[test]
fn plan_links_every_row_to_a_nearby_station() {
    let rows = vec![row("uuid1", "Allego", "Kiezelweg 1"), row("uuid2", "Allego", "Kiezelweg 1")];
    let grouped = group_into_stations(rows);
    let near = NearbyStation {
        id: 7,
        fields: StationFields {
            address_title: Some("OCM title".to_string()),
            address_line1: Some("Kiezelweg 1A".to_string()),
            town: None,
            postcode: None,
            operator_title: None,
            number_of_points: Some(6),
        },
    };
    match plan_flanders_station(&grouped[0], Some(&near)) {
        FlandersPlan::LinkExisting { station_id, source_ids, fields } => {
            assert_eq!(station_id, 7);
            assert_eq!(source_ids, vec!["uuid1".to_string(), "uuid2".to_string()]);
            assert_eq!(fields.address_title, Some("OCM title".to_string()));
            assert_eq!(fields.address_line1, Some("Kiezelweg 1A".to_string()));
            assert_eq!(fields.town, Some("Gent".to_string()));
            assert_eq!(fields.postcode, Some("9000".to_string()));
            assert_eq!(fields.operator_title, Some("Allego".to_string()));
            assert_eq!(fields.number_of_points, Some(6));
        }
        FlandersPlan::NewStation { .. } => panic!("expected a link"),
    }
}

#[test]
fn plan_creates_station_with_connections() {
    let mut second = row("uuid2", "Allego", "Kiezelweg 1");
    second.connector = "IEC_62196_T2; IEC_62196_T2_COMBO".to_string();
    second.current_type = "ac_3_phase; dc".to_string();
    let grouped = group_into_stations(vec![row("uuid1", "Allego", "Kiezelweg 1"), second]);
    match plan_flanders_station(&grouped[0], None) {
        FlandersPlan::NewStation { station, sources } => {
            assert_eq!(station.source_id, "uuid1");
            assert_eq!(sources.len(), 2);
            assert_eq!(sources[0].connections.len(), 1);
            assert_eq!(sources[1].source_id, "uuid2");
            assert_eq!(sources[1].connections[1], ("CCS (Type 2)".to_string(), "dc".to_string()));
            assert_eq!(sources[1].power_kw_bits, Some(22.0f64.to_bits()));
        }
        FlandersPlan::LinkExisting { .. } => panic!("expected a new station"),
    }
}

#[test]
fn csv_bytes_give_records_after_the_header() {
    let data = b"teller,id,uitbater\n1,BE*1,Allego\n2,BE*2\n";
    let records = flanders_csv_fields(data).unwrap();
    assert_eq!(records.len(), 2);
    assert_eq!(records[0], vec!["1".to_string(), "BE*1".to_string(), "Allego".to_string()]);
    assert_eq!(records[1], vec!["2".to_string(), "BE*2".to_string()]);
}

#[test]
fn csv_bytes_that_are_not_text_fail() {
    let data: &[u8] = b"h1,h2\n\xff\xfe,x\n";
    assert!(flanders_csv_fields(data).is_none());
}

#[test]
fn second_run_of_a_group_leaves_its_station_unchanged() {
    let grouped = group_into_stations(vec![row("uuid1", "Allego", "Kiezelweg 1")]);
    let station = match plan_flanders_station(&grouped[0], None) {
        FlandersPlan::NewStation { station, .. } => station,
        FlandersPlan::LinkExisting { .. } => panic!("expected a new station"),
    };
    let written = StationFields {
        address_title: None,
        address_line1: Some(station.address_line1.clone()),
        town: Some(station.town.clone()),
        postcode: Some(station.postcode.clone()),
        operator_title: station.operator.clone(),
        number_of_points: None,
    };
    let near = NearbyStation { id: 1, fields: written };
    match plan_flanders_station(&grouped[0], Some(&near)) {
        FlandersPlan::LinkExisting { source_ids, fields, .. } => {
            assert_eq!(source_ids, vec!["uuid1".to_string()]);
            assert_eq!(fields.address_line1, near.fields.address_line1);
            assert_eq!(fields.town, near.fields.town);
            assert_eq!(fields.postcode, near.fields.postcode);
            assert_eq!(fields.operator_title, near.fields.operator_title);
            assert_eq!(fields.address_title, None);
            assert_eq!(fields.number_of_points, None);
        }
        FlandersPlan::NewStation { .. } => panic!("expected a link"),
    }
}
