//! A handler's parameters, as far as the claims detector reads them, and the
//! augmentation that gives a handler the authenticated claims.
//!
//! A parameter's type is matched by names alone: a path type is recorded by
//! the name of its first segment and by the first argument in that segment's
//! angle brackets, when that argument is itself a type.
use vstd::prelude::*;

use crate::guard::same_text;

verus! {

/// The shape of a parameter's type.
pub enum TypeShape {
    /// A path type such as `Extension<Arc<JwtClaims>>`.
    Path {
        /// The name of the path's first segment.
        head: String,
        /// The first generic argument of that segment, when it is a type.
        first_arg: Option<Box<TypeShape>>,
    },
    /// Any other type: a reference, a tuple, a slice, ...
    Other,
}

/// One parameter of a handler.
pub enum FnParam {
    /// `self`, `&self` or `&mut self`.
    Receiver,
    /// A parameter with a declared type.
    Typed(TypeShape),
}

/// The shape of a type, with its names as character sequences.
pub enum TypeModel {
    Path { head: Seq<char>, first_arg: Option<Box<TypeModel>> },
    Other,
}

/// A parameter, with its type's shape as a model.
pub enum ParamModel {
    Receiver,
    Typed(TypeModel),
}

/// The model of a type's shape.
pub open spec fn type_model(t: TypeShape) -> TypeModel
    decreases t,
{
    match t {
        TypeShape::Path { head, first_arg } => TypeModel::Path {
            head: head@,
            first_arg: match first_arg {
                Some(b) => Some(Box::new(type_model(*b))),
                None => None,
            },
        },
        TypeShape::Other => TypeModel::Other,
    }
}

impl View for TypeShape {
    type V = TypeModel;

    open spec fn view(&self) -> TypeModel {
        type_model(*self)
    }
}

impl View for FnParam {
    type V = ParamModel;

    open spec fn view(&self) -> ParamModel {
        match self {
            FnParam::Receiver => ParamModel::Receiver,
            FnParam::Typed(t) => ParamModel::Typed(t@),
        }
    }
}

/// The models of a sequence of parameters.
pub open spec fn params_view(s: Seq<FnParam>) -> Seq<ParamModel> {
    s.map_values(|p: FnParam| p@)
}

/// A path type whose first segment is named `head`.
pub open spec fn path_with(t: TypeModel, head: Seq<char>) -> bool {
    t matches TypeModel::Path { head: h, .. } && h == head
}

/// The first type argument of a path type.
pub open spec fn first_arg_of(t: TypeModel) -> Option<TypeModel> {
    match t {
        TypeModel::Path { first_arg: Some(b), .. } => Some(*b),
        _ => None,
    }
}

/// The claims shape `Extension<Arc<JwtClaims>>`, by names only.
pub open spec fn is_claims_type(t: TypeModel) -> bool {
    &&& path_with(t, "Extension"@)
    &&& first_arg_of(t) matches Some(holder)
    &&& path_with(holder, "Arc"@)
    &&& first_arg_of(holder) matches Some(record)
    &&& path_with(record, "JwtClaims"@)
}

/// A parameter whose declared type has the claims shape.
pub open spec fn is_claims_param(p: ParamModel) -> bool {
    p matches ParamModel::Typed(t) && is_claims_type(t)
}

/// Whether some parameter has the claims shape.
pub open spec fn has_claims_param(params: Seq<ParamModel>) -> bool {
    exists|i: int| 0 <= i < params.len() && is_claims_param(#[trigger] params[i])
}

/// The parameter that is added: `Extension<Arc<JwtClaims>>`.
pub open spec fn claims_param_model() -> ParamModel {
    ParamModel::Typed(
        TypeModel::Path {
            head: "Extension"@,
            first_arg: Some(
                Box::new(
                    TypeModel::Path {
                        head: "Arc"@,
                        first_arg: Some(
                            Box::new(TypeModel::Path { head: "JwtClaims"@, first_arg: None }),
                        ),
                    },
                ),
            ),
        },
    )
}

/// The parameters after augmentation: unchanged when one already has the
/// claims shape, else the claims parameter first and the others after it.
pub open spec fn augmented(params: Seq<ParamModel>) -> Seq<ParamModel> {
    if has_claims_param(params) {
        params
    } else {
        seq![claims_param_model()] + params
    }
}

/// Whether `t` is a path type whose first segment is named `name`.
fn head_is(t: &TypeShape, name: &str) -> (r: bool)
    ensures
        r == path_with(t@, name@),
{
    match t {
        TypeShape::Path { head, .. } => same_text(head.as_str(), name),
        TypeShape::Other => false,
    }
}

/// The first type argument of a path type.
fn first_arg(t: &TypeShape) -> (r: Option<&TypeShape>)
    ensures
        r matches Some(a) ==> first_arg_of(t@) == Some(a@),
        r is None ==> first_arg_of(t@) is None,
{
    match t {
        TypeShape::Path { first_arg: Some(b), .. } => Some(&**b),
        _ => None,
    }
}

/// Whether a type has the claims shape `Extension<Arc<JwtClaims>>`.
pub fn is_claims_shape(t: &TypeShape) -> (r: bool)
    ensures
        r == is_claims_type(t@),
{
    if !head_is(t, "Extension") {
        return false;
    }
    match first_arg(t) {
        None => false,
        Some(holder) => {
            if !head_is(holder, "Arc") {
                return false;
            }
            match first_arg(holder) {
                None => false,
                Some(record) => head_is(record, "JwtClaims"),
            }
        },
    }
}

/// The position of the first parameter with the claims shape, if any.
pub fn find_claims_param(params: &Vec<FnParam>) -> (r: Option<usize>)
    ensures
        r matches Some(i) ==> {
            &&& i < params@.len()
            &&& is_claims_param(params@[i as int]@)
            &&& forall|j: int| 0 <= j < i ==> !is_claims_param(#[trigger] params@[j]@)
        },
        r is None <==> !has_claims_param(params_view(params@)),
{
    let mut i: usize = 0;
    while i < params.len()
        invariant
            i <= params@.len(),
            forall|j: int| 0 <= j < i ==> !is_claims_param(#[trigger] params@[j]@),
        decreases params@.len() - i,
    {
        let found = match &params[i] {
            FnParam::Typed(t) => is_claims_shape(t),
            FnParam::Receiver => false,
        };
        if found {
            assert(params_view(params@)[i as int] == params@[i as int]@);
            return Some(i);
        }
        i = i + 1;
    }
    assert(!has_claims_param(params_view(params@))) by {
        if has_claims_param(params_view(params@)) {
            let j = choose|j: int|
                0 <= j < params@.len() && is_claims_param(#[trigger] params_view(params@)[j]);
            assert(params_view(params@)[j] == params@[j]@);
        }
    }
    None
}

/// A fresh parameter of the claims shape `Extension<Arc<JwtClaims>>`.
pub fn claims_param() -> (r: FnParam)
    ensures
        r@ == claims_param_model(),
{
    let record = TypeShape::Path { head: String::from_str("JwtClaims"), first_arg: None };
    assert(record@ == TypeModel::Path { head: "JwtClaims"@, first_arg: None });
    let holder = TypeShape::Path {
        head: String::from_str("Arc"),
        first_arg: Some(Box::new(record)),
    };
    assert(holder@ == TypeModel::Path { head: "Arc"@, first_arg: Some(Box::new(record@)) });
    let outer = TypeShape::Path {
        head: String::from_str("Extension"),
        first_arg: Some(Box::new(holder)),
    };
    assert(outer@ == TypeModel::Path { head: "Extension"@, first_arg: Some(Box::new(holder@)) });
    FnParam::Typed(outer)
}

/// Gives the handler the claims parameter, first, unless one of its
/// parameters already has the claims shape. Says whether it added one.
pub fn add_claims_param(params: &mut Vec<FnParam>) -> (added: bool)
    ensures
        added == !has_claims_param(params_view(old(params)@)),
        params_view(final(params)@) == augmented(params_view(old(params)@)),
{
    let ghost before = params_view(params@);
    match find_claims_param(params) {
        Some(_) => false,
        None => {
            params.insert(0, claims_param());
            assert(params_view(params@) =~= seq![claims_param_model()] + before);
            true
        },
    }
}

} // verus!
