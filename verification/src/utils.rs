//! Connector type names.

use vstd::prelude::*;
use crate::text::{split_on, split_spec, str_eq, trim, trimmed};

verus! {

/// The display name of a connector code, from either the CSV dataset's IEC
/// codes or OpenStreetMap's `socket:*` tags; any other text is its own name.
pub open spec fn normalized_connector(raw: Seq<char>) -> Seq<char> {
    if raw == "IEC_62196_T2"@ {
        "Type 2 (Socket Only)"@
    } else if raw == "IEC_62196_T2_COMBO"@ {
        "CCS (Type 2)"@
    } else if raw == "IEC_62196_T3A"@ {
        "Type E (French)"@
    } else if raw == "CHADEMO"@ {
        "CHAdeMO"@
    } else if raw == "DOMESTIC_F"@ {
        "CEE 7/5"@
    } else if raw == "DOMESTIC_E"@ {
        "CEE 7/5"@
    } else if raw == "type2"@ {
        "Type 2 (Socket Only)"@
    } else if raw == "type2_combo"@ {
        "CCS (Type 2)"@
    } else if raw == "chademo"@ {
        "CHAdeMO"@
    } else if raw == "tesla_supercharger"@ {
        "NACS / Tesla Supercharger"@
    } else if raw == "type1"@ {
        "Type 1 (J1772)"@
    } else if raw == "type1_combo"@ {
        "CCS (Type 1)"@
    } else {
        raw
    }
}

/// Maps a raw connector code to its display name; unknown codes pass through.
pub fn normalize_connector_type(raw: &str) -> (r: &str)
    ensures
        r@ == normalized_connector(raw@),
{
    if str_eq(raw, "IEC_62196_T2") {
        "Type 2 (Socket Only)"
    } else if str_eq(raw, "IEC_62196_T2_COMBO") {
        "CCS (Type 2)"
    } else if str_eq(raw, "IEC_62196_T3A") {
        "Type E (French)"
    } else if str_eq(raw, "CHADEMO") {
        "CHAdeMO"
    } else if str_eq(raw, "DOMESTIC_F") {
        "CEE 7/5"
    } else if str_eq(raw, "DOMESTIC_E") {
        "CEE 7/5"
    } else if str_eq(raw, "type2") {
        "Type 2 (Socket Only)"
    } else if str_eq(raw, "type2_combo") {
        "CCS (Type 2)"
    } else if str_eq(raw, "chademo") {
        "CHAdeMO"
    } else if str_eq(raw, "tesla_supercharger") {
        "NACS / Tesla Supercharger"
    } else if str_eq(raw, "type1") {
        "Type 1 (J1772)"
    } else if str_eq(raw, "type1_combo") {
        "CCS (Type 1)"
    } else {
        raw
    }
}

/// The (connector, current type) pairs of one dataset row: both fields are
/// split at `;`, each piece trimmed, the connector piece normalised, and the
/// two lists zipped, stopping at the shorter one.
pub open spec fn connector_pairs(connector: Seq<char>, current_type: Seq<char>) -> Seq<
    (Seq<char>, Seq<char>),
> {
    let cs = split_spec(connector, ';');
    let ts = split_spec(current_type, ';');
    let n = if cs.len() <= ts.len() { cs.len() } else { ts.len() };
    Seq::new(n, |i: int| (normalized_connector(trimmed(cs[i])), trimmed(ts[i])))
}

/// The view of a list of string pairs.
pub open spec fn pairs_view(v: Seq<(String, String)>) -> Seq<(Seq<char>, Seq<char>)> {
    v.map_values(|p: (String, String)| (p.0@, p.1@))
}

/// Splits `"IEC_62196_T2; IEC_62196_T2_COMBO"` and `"ac_3_phase; dc"` into
/// pairs; where the counts differ the shorter list decides.
pub fn split_connector_pairs(connector: &str, current_type: &str) -> (r: Vec<(String, String)>)
    ensures
        pairs_view(r@) == connector_pairs(connector@, current_type@),
{
    let connectors = split_on(connector, ';');
    let currents = split_on(current_type, ';');
    let n = if connectors.len() <= currents.len() {
        connectors.len()
    } else {
        currents.len()
    };
    let mut out: Vec<(String, String)> = Vec::new();
    let mut i: usize = 0;
    while i < n
        invariant
            i <= n,
            n <= connectors@.len(),
            n <= currents@.len(),
            n == connector_pairs(connector@, current_type@).len(),
            connectors@.len() == split_spec(connector@, ';').len(),
            currents@.len() == split_spec(current_type@, ';').len(),
            forall|k: int|
                0 <= k < connectors@.len() ==> #[trigger] connectors@[k]@ == split_spec(
                    connector@,
                    ';',
                )[k],
            forall|k: int|
                0 <= k < currents@.len() ==> #[trigger] currents@[k]@ == split_spec(
                    current_type@,
                    ';',
                )[k],
            pairs_view(out@) == connector_pairs(connector@, current_type@).take(i as int),
        decreases n - i,
    {
        let c = trim(connectors[i].as_str());
        let t = trim(currents[i].as_str());
        let name = normalize_connector_type(c.as_str()).to_owned();
        let current = t;
        let ghost prev = out@;
        out.push((name, current));
        assert(pairs_view(out@) =~= pairs_view(prev).push((name@, current@)));
        assert(pairs_view(out@) =~= connector_pairs(connector@, current_type@).take(i + 1));
        i = i + 1;
    }
    assert(connector_pairs(connector@, current_type@).take(n as int) =~= connector_pairs(
        connector@,
        current_type@,
    ));
    out
}

/// Filtering a prefix one element longer adds that element when it passes.
pub proof fn lemma_filter_take_step<A>(s: Seq<A>, p: spec_fn(A) -> bool, k: int)
    requires
        0 <= k < s.len(),
    ensures
        s.take(k + 1).filter(p) == if p(s[k]) {
            s.take(k).filter(p).push(s[k])
        } else {
            s.take(k).filter(p)
        },
{
    reveal_with_fuel(Seq::filter, 1);
    assert(s.take(k + 1).drop_last() =~= s.take(k));
}

/// Normalising is idempotent: a display name is never itself a code, so
/// normalising a normalised name leaves it unchanged.
pub proof fn lemma_normalize_idempotent(raw: Seq<char>)
    ensures
        normalized_connector(normalized_connector(raw)) == normalized_connector(raw),
{
    reveal_strlit("IEC_62196_T2");
    reveal_strlit("IEC_62196_T2_COMBO");
    reveal_strlit("IEC_62196_T3A");
    reveal_strlit("CHADEMO");
    reveal_strlit("DOMESTIC_F");
    reveal_strlit("DOMESTIC_E");
    reveal_strlit("type2");
    reveal_strlit("type2_combo");
    reveal_strlit("chademo");
    reveal_strlit("tesla_supercharger");
    reveal_strlit("type1");
    reveal_strlit("type1_combo");
    reveal_strlit("Type 2 (Socket Only)");
    reveal_strlit("CCS (Type 2)");
    reveal_strlit("Type E (French)");
    reveal_strlit("CHAdeMO");
    reveal_strlit("CEE 7/5");
    reveal_strlit("NACS / Tesla Supercharger");
    reveal_strlit("Type 1 (J1772)");
    reveal_strlit("CCS (Type 1)");
    let n = normalized_connector(raw);
    if n != raw {
        // `n` is one of the display names; each differs from every code in
        // its length or in one of its first characters.
        assert(n.len() == 12 ==> n[0] == 'C');
        assert(n.len() == 7 ==> n[0] == 'C' && (n[1] == 'E' || n[3] == 'd'));
    }
}

} // verus!
