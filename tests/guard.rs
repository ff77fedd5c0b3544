use require_scopes::guard::{
    check_scopes, forbidden_diagnostic, is_authorized, missing_scopes_message, render_list,
    split_scopes,
};

fn strings(items: &[&str]) -> Vec<String> {
    items.iter().map(|s| s.to_string()).collect()
}

#[test]
fn one_required_scope_received_is_authorized() {
    assert!(check_scopes(&["read", "write"], "read").is_ok());
}

#[test]
fn no_common_scope_is_forbidden_with_both_lists() {
    let err = check_scopes(&["admin"], "read write").unwrap_err();
    assert!(err.message.contains("admin"));
    assert!(err.message.contains("read"));
    assert!(err.message.contains("write"));
    assert_eq!(
        err.message,
        "Missing Required Scopes: [\"admin\"], Received Scopes: [\"read\", \"write\"]"
    );
}

#[test]
fn all_scope_grants_everything() {
    assert!(check_scopes(&["x"], "all").is_ok());
    assert!(check_scopes(&["admin", "orders:write"], "read all").is_ok());
}

#[test]
fn all_must_be_a_whole_piece() {
    assert!(check_scopes(&["x"], "allx").is_err());
    assert!(check_scopes(&["x"], "ALL").is_err());
}

#[test]
fn decision_matches_intersection_or_all() {
    let required = ["a", "b"];
    let cases: [(&str, bool); 8] = [
        ("a", true),
        ("b", true),
        ("c", false),
        ("c b", true),
        ("", false),
        ("c  d", false),
        ("c all", true),
        ("ab", false),
    ];
    for (scopes, expected) in cases {
        let received = split_scopes(scopes);
        let by_hand = received.iter().any(|r| required.contains(&r.as_str()))
            || received.iter().any(|r| r == "all");
        assert_eq!(by_hand, expected);
        assert_eq!(is_authorized(&required, &received), expected);
        assert_eq!(check_scopes(&required, scopes).is_ok(), expected);
    }
}

#[test]
fn split_keeps_empty_pieces() {
    assert_eq!(split_scopes(""), strings(&[""]));
    assert_eq!(split_scopes("read"), strings(&["read"]));
    assert_eq!(split_scopes("read write"), strings(&["read", "write"]));
    assert_eq!(split_scopes("a  b"), strings(&["a", "", "b"]));
    assert_eq!(split_scopes(" a "), strings(&["", "a", ""]));
}

#[test]
fn split_does_not_break_on_other_whitespace() {
    assert_eq!(split_scopes("a\tb"), strings(&["a\tb"]));
}

#[test]
fn empty_granted_scopes_are_forbidden() {
    let err = check_scopes(&["read"], "").unwrap_err();
    assert_eq!(
        err.message,
        "Missing Required Scopes: [\"read\"], Received Scopes: [\"\"]"
    );
}

#[test]
fn duplicate_required_scopes_are_allowed() {
    assert!(check_scopes(&["read", "read"], "read").is_ok());
    assert!(check_scopes(&["read", "read"], "write").is_err());
}

#[test]
fn diagnostic_escapes_quotes() {
    let message = forbidden_diagnostic(&["a\"b"], &strings(&["c\\d"]));
    assert_eq!(
        message,
        "Missing Required Scopes: [\"a\\\"b\"], Received Scopes: [\"c\\\\d\"]"
    );
}

#[test]
fn render_list_joins_with_commas() {
    assert_eq!(render_list(&strings(&[])), "[]");
    assert_eq!(render_list(&strings(&["x"])), "[x]");
    assert_eq!(render_list(&strings(&["x", "y", "z"])), "[x, y, z]");
}

#[test]
fn message_names_both_lists() {
    assert_eq!(
        missing_scopes_message("[1]", "[2]"),
        "Missing Required Scopes: [1], Received Scopes: [2]"
    );
}
