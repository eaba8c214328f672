use agent_browser::refs::{is_camofox_ref, normalize_snapshot_refs, referenced};

#[test]
fn recognizes_only_camofox_element_refs() {
    assert!(is_camofox_ref("e1"));
    assert!(is_camofox_ref("e204"));
    assert!(!is_camofox_ref("@e1"));
    assert!(!is_camofox_ref("email"));
    assert!(!is_camofox_ref("e"));
}

#[test]
fn normalizes_snapshot_refs_without_touching_other_brackets() {
    let snapshot = "- link \"Home\" [e1]\n- text: [example]\n- button [e22]";
    assert_eq!(
        normalize_snapshot_refs(snapshot),
        "- link \"Home\" [@e1]\n- text: [example]\n- button [@e22]"
    );
}

#[test]
fn refs_are_ascii_and_complete() {
    assert!(!is_camofox_ref(""));
    assert!(!is_camofox_ref("E1"));
    assert!(!is_camofox_ref("e1 "));
    assert!(!is_camofox_ref("e1x"));
    assert!(!is_camofox_ref("e\u{0661}"));
    assert!(is_camofox_ref("e000000000000000000000000000000001"));
}

#[test]
fn at_most_one_at_sign_is_left_out() {
    assert_eq!(referenced("e7"), Some("e7".to_string()));
    assert_eq!(referenced("@e7"), Some("e7".to_string()));
    assert_eq!(referenced("@@e7"), None);
    assert_eq!(referenced("@"), None);
    assert_eq!(referenced(""), None);
    assert_eq!(referenced("#id"), None);
}

#[test]
fn snapshot_edges_are_kept() {
    assert_eq!(normalize_snapshot_refs(""), "");
    assert_eq!(normalize_snapshot_refs("["), "[");
    assert_eq!(normalize_snapshot_refs("[e"), "[e");
    assert_eq!(normalize_snapshot_refs("[e]"), "[e]");
    assert_eq!(normalize_snapshot_refs("[e1"), "[e1");
    assert_eq!(normalize_snapshot_refs("[e1]"), "[@e1]");
    assert_eq!(normalize_snapshot_refs("[e1][e2]"), "[@e1][@e2]");
    assert_eq!(normalize_snapshot_refs("[[e1]]"), "[[@e1]]");
    assert_eq!(normalize_snapshot_refs("[e[e1]"), "[e[@e1]");
    assert_eq!(normalize_snapshot_refs("[e1 [e2]"), "[e1 [@e2]");
    assert_eq!(normalize_snapshot_refs("\u{e9}[e12]\u{4e16}"), "\u{e9}[@e12]\u{4e16}");
}

#[test]
fn normalizing_is_idempotent() {
    let once = normalize_snapshot_refs("a [e1] b [@e2] c [e] d [e33]");
    assert_eq!(once, "a [@e1] b [@e2] c [e] d [@e33]");
    assert_eq!(normalize_snapshot_refs(&once), once);
}

#[test]
fn text_without_refs_stays() {
    let plain = "no refs [here] or [e] or [ex1] or (e1)";
    assert_eq!(normalize_snapshot_refs(plain), plain);
}

#[test]
fn text_grows_by_one_character_per_ref() {
    let snapshot = "x[e1]y[e2]z";
    let shown = normalize_snapshot_refs(snapshot);
    assert_eq!(shown.chars().count(), snapshot.chars().count() + 2);
    assert_eq!(shown.chars().nth(0), Some('x'));
    assert_eq!(shown.chars().nth(5 + 1), Some('y'));
    assert_eq!(shown.chars().nth(10 + 2), Some('z'));
}
