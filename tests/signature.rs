use require_scopes::expand::require_scopes;
use require_scopes::scope_list::{AttrToken, ScopeListError};
use require_scopes::signature::{
    add_claims_param, claims_param, find_claims_param, is_claims_shape, FnParam, TypeShape,
};

fn path(head: &str, arg: Option<TypeShape>) -> TypeShape {
    TypeShape::Path {
        head: head.to_string(),
        first_arg: arg.map(Box::new),
    }
}

fn claims_type() -> TypeShape {
    path("Extension", Some(path("Arc", Some(path("JwtClaims", None)))))
}

fn is_claims(p: &FnParam) -> bool {
    match p {
        FnParam::Typed(t) => is_claims_shape(t),
        FnParam::Receiver => false,
    }
}

#[test]
fn claims_shape_is_recognised_by_names() {
    assert!(is_claims_shape(&claims_type()));
    assert!(!is_claims_shape(&path("Extension", Some(path("Arc", Some(path("Other", None)))))));
    assert!(!is_claims_shape(&path("Extension", Some(path("Rc", Some(path("JwtClaims", None)))))));
    assert!(!is_claims_shape(&path("Json", Some(path("Arc", Some(path("JwtClaims", None)))))));
    assert!(!is_claims_shape(&path("Extension", Some(path("Arc", None)))));
    assert!(!is_claims_shape(&path("Extension", None)));
    assert!(!is_claims_shape(&TypeShape::Other));
    assert!(is_claims_shape(&path(
        "Extension",
        Some(path("Arc", Some(path("JwtClaims", Some(path("u8", None))))))
    )));
}

#[test]
fn first_claims_parameter_is_found() {
    let params = vec![
        FnParam::Receiver,
        FnParam::Typed(path("Extension", Some(path("Arc", Some(path("Other", None)))))),
        FnParam::Typed(claims_type()),
        FnParam::Typed(claims_type()),
    ];
    assert_eq!(find_claims_param(&params), Some(2));
    assert_eq!(find_claims_param(&vec![FnParam::Typed(TypeShape::Other)]), None);
    assert_eq!(find_claims_param(&vec![]), None);
}

#[test]
fn claims_parameter_is_added_first_when_missing() {
    let mut params = vec![FnParam::Typed(path("Json", None)), FnParam::Typed(TypeShape::Other)];
    assert!(add_claims_param(&mut params));
    assert_eq!(params.len(), 3);
    assert!(is_claims(&params[0]));
    assert!(!is_claims(&params[1]));
    assert!(!is_claims(&params[2]));
    assert!(!add_claims_param(&mut params));
    assert_eq!(params.len(), 3);
}

#[test]
fn existing_claims_parameter_is_kept() {
    let mut params = vec![FnParam::Typed(path("Json", None)), FnParam::Typed(claims_type())];
    assert!(!add_claims_param(&mut params));
    assert_eq!(params.len(), 2);
    assert_eq!(find_claims_param(&params), Some(1));
}

#[test]
fn fresh_claims_parameter_has_the_shape() {
    assert!(is_claims(&claims_param()));
}

#[test]
fn expansion_reads_scopes_and_augments() {
    let attr = vec![AttrToken::Literal("\"read\"".to_string())];
    let e = require_scopes(&attr, vec![FnParam::Typed(path("Json", None))]).unwrap();
    assert_eq!(e.scopes, vec!["read".to_string()]);
    assert!(e.claims_param_added);
    assert_eq!(e.params.len(), 2);
    assert!(is_claims(&e.params[0]));
    let again = require_scopes(&attr, e.params).unwrap();
    assert!(!again.claims_param_added);
    assert_eq!(again.params.len(), 2);
}

#[test]
fn expansion_is_deterministic() {
    let attr = vec![
        AttrToken::Literal("\"a\"".to_string()),
        AttrToken::Punct(','),
        AttrToken::Literal("\"b\"".to_string()),
    ];
    let one = require_scopes(&attr, vec![FnParam::Receiver]).unwrap();
    let two = require_scopes(&attr, vec![FnParam::Receiver]).unwrap();
    assert_eq!(one.scopes, two.scopes);
    assert_eq!(one.claims_param_added, two.claims_param_added);
    assert_eq!(one.params.len(), two.params.len());
}

#[test]
fn malformed_arguments_emit_nothing() {
    let attr = vec![AttrToken::Literal("42".to_string())];
    let r = require_scopes(&attr, vec![]);
    assert_eq!(r.err(), Some(ScopeListError::ExpectedStringLiteral(0)));
}
