use chargemap_proxy::utils::{normalize_connector_type, split_connector_pairs};

#[test]
fn test_split_single_connector() {
    let pairs = split_connector_pairs("IEC_62196_T2", "ac_3_phase");
    assert_eq!(pairs.len(), 1);
    assert_eq!(pairs[0].0, "Type 2 (Socket Only)");
    assert_eq!(pairs[0].1, "ac_3_phase");
}

#[test]
fn test_split_multi_connector() {
    let pairs = split_connector_pairs("IEC_62196_T2; IEC_62196_T2_COMBO", "ac_3_phase; dc");
    assert_eq!(pairs.len(), 2);
    assert_eq!(pairs[0].0, "Type 2 (Socket Only)");
    assert_eq!(pairs[1].0, "CCS (Type 2)");
}

#[test]
fn test_split_mismatched_counts() {
    let pairs = split_connector_pairs("IEC_62196_T2; IEC_62196_T2_COMBO", "ac_3_phase");
    assert_eq!(pairs.len(), 1);
}

#[test]
fn test_normalize_known_types() {
    assert_eq!(normalize_connector_type("IEC_62196_T2"), "Type 2 (Socket Only)");
    assert_eq!(normalize_connector_type("IEC_62196_T2_COMBO"), "CCS (Type 2)");
    assert_eq!(normalize_connector_type("CHADEMO"), "CHAdeMO");
}

#[test]
fn test_normalize_unknown_passthrough() {
    assert_eq!(normalize_connector_type("SOME_UNKNOWN"), "SOME_UNKNOWN");
}

#[test]
fn test_normalize_osm_tags() {
    assert_eq!(normalize_connector_type("type2"), "Type 2 (Socket Only)");
    assert_eq!(normalize_connector_type("chademo"), "CHAdeMO");
}

#[test]
fn normalize_every_known_code() {
    let table = [
        ("IEC_62196_T2", "Type 2 (Socket Only)"),
        ("IEC_62196_T2_COMBO", "CCS (Type 2)"),
        ("IEC_62196_T3A", "Type E (French)"),
        ("CHADEMO", "CHAdeMO"),
        ("DOMESTIC_F", "CEE 7/5"),
        ("DOMESTIC_E", "CEE 7/5"),
        ("type2", "Type 2 (Socket Only)"),
        ("type2_combo", "CCS (Type 2)"),
        ("chademo", "CHAdeMO"),
        ("tesla_supercharger", "NACS / Tesla Supercharger"),
        ("type1", "Type 1 (J1772)"),
        ("type1_combo", "CCS (Type 1)"),
    ];
    for (code, name) in table {
        assert_eq!(normalize_connector_type(code), name);
    }
}

#[test]
fn normalize_is_idempotent_on_names() {
    for name in ["Type 2 (Socket Only)", "CCS (Type 2)", "CHAdeMO", "CEE 7/5", "Type 1 (J1772)"] {
        let once = normalize_connector_type(name);
        assert_eq!(normalize_connector_type(once), once);
    }
}

#[test]
fn normalize_is_case_sensitive() {
    assert_eq!(normalize_connector_type("Chademo"), "Chademo");
    assert_eq!(normalize_connector_type(""), "");
}

#[test]
fn split_trims_pieces_and_currents() {
    let pairs = split_connector_pairs("  CHADEMO ;type2_combo", " dc ; dc\t");
    assert_eq!(pairs.len(), 2);
    assert_eq!(pairs[0], ("CHAdeMO".to_string(), "dc".to_string()));
    assert_eq!(pairs[1], ("CCS (Type 2)".to_string(), "dc".to_string()));
}

#[test]
fn split_empty_fields_give_one_empty_pair() {
    let pairs = split_connector_pairs("", "");
    assert_eq!(pairs, vec![(String::new(), String::new())]);
}

#[test]
fn split_keeps_empty_pieces() {
    let pairs = split_connector_pairs("type2;;", "ac;ac;ac");
    assert_eq!(pairs.len(), 3);
    assert_eq!(pairs[1].0, "");
    assert_eq!(pairs[2].1, "ac");
}

#[test]
fn split_trims_unicode_white_space() {
    let pairs = split_connector_pairs("\u{3000}type2\u{a0}", "\u{2003}ac\u{85}");
    assert_eq!(pairs, vec![("Type 2 (Socket Only)".to_string(), "ac".to_string())]);
    let blank = split_connector_pairs(" \t ", "x");
    assert_eq!(blank, vec![(String::new(), "x".to_string())]);
}
