//! Expansion of the `require_scopes` decorator: its scope list is read, and
//! the handler's parameters get the claims parameter where they lack it. The
//! guard that then runs first in the handler is `guard::check_scopes`.
use vstd::prelude::*;

use crate::guard::string_texts;
use crate::scope_list::{
    parse_scope_list, scope_list, tokens_view, AttrToken, AttrTokenView, ScopeListError,
};
use crate::signature::{
    add_claims_param, augmented, has_claims_param, is_claims_param, params_view, FnParam,
    ParamModel,
};

verus! {

/// What an expansion produces: the scopes the guard requires, and the
/// handler's parameters after augmentation.
pub struct Expansion {
    pub scopes: Vec<String>,
    pub params: Vec<FnParam>,
    /// Whether the claims parameter was added in front.
    pub claims_param_added: bool,
}

/// The model of an expansion.
pub struct ExpansionModel {
    pub scopes: Seq<Seq<char>>,
    pub params: Seq<ParamModel>,
    pub claims_param_added: bool,
}

impl View for Expansion {
    type V = ExpansionModel;

    open spec fn view(&self) -> ExpansionModel {
        ExpansionModel {
            scopes: string_texts(self.scopes@),
            params: params_view(self.params@),
            claims_param_added: self.claims_param_added,
        }
    }
}

/// The expansion of a decorator with arguments `attr` on a handler with
/// parameters `params`; it fails exactly when `attr` is not a scope list.
pub open spec fn expansion(attr: Seq<AttrTokenView>, params: Seq<ParamModel>) -> Result<
    ExpansionModel,
    ScopeListError,
> {
    match scope_list(attr) {
        Ok(scopes) => Ok(
            ExpansionModel {
                scopes,
                params: augmented(params),
                claims_param_added: !has_claims_param(params),
            },
        ),
        Err(e) => Err(e),
    }
}

/// Expands the decorator with arguments `attr` on a handler with parameters
/// `params`. The handler's parameters are not looked at when the arguments
/// are no scope list: nothing is produced then.
pub fn require_scopes(attr: &Vec<AttrToken>, params: Vec<FnParam>) -> (r: Result<
    Expansion,
    ScopeListError,
>)
    ensures
        r matches Ok(e) ==> expansion(tokens_view(attr@), params_view(params@)) == Ok::<
            ExpansionModel,
            ScopeListError,
        >(e@),
        r matches Err(err) ==> expansion(tokens_view(attr@), params_view(params@)) == Err::<
            ExpansionModel,
            ScopeListError,
        >(err),
{
    let scopes = match parse_scope_list(attr) {
        Ok(s) => s,
        Err(e) => {
            return Err(e);
        },
    };
    let mut params = params;
    let claims_param_added = add_claims_param(&mut params);
    Ok(Expansion { scopes, params, claims_param_added })
}

/// A handler that already takes the claims keeps its parameters as they
/// are; one that does not gets exactly one claims parameter, in first
/// place, before its own. Expanding a second time changes nothing more.
pub proof fn lemma_claims_param_added_once(params: Seq<ParamModel>)
    ensures
        has_claims_param(params) ==> augmented(params) == params,
        !has_claims_param(params) ==> {
            &&& augmented(params).len() == params.len() + 1
            &&& is_claims_param(augmented(params)[0])
            &&& augmented(params).drop_first() == params
            &&& forall|i: int|
                1 <= i < augmented(params).len() ==> !is_claims_param(
                    #[trigger] augmented(params)[i],
                )
        },
        augmented(augmented(params)) == augmented(params),
{
    let out = augmented(params);
    if !has_claims_param(params) {
        assert(out.drop_first() =~= params);
        assert forall|i: int| 1 <= i < out.len() implies !is_claims_param(#[trigger] out[i]) by {
            assert(out[i] == params[i - 1]);
        }
        assert(is_claims_param(out[0]));
        assert(has_claims_param(out));
    }
}

/// Expansion depends on the decorator's arguments and the handler's
/// parameters alone: the same arguments and parameters give the same
/// expansion, or the same error.
pub proof fn lemma_expansion_deterministic(
    attr1: Seq<AttrTokenView>,
    attr2: Seq<AttrTokenView>,
    params1: Seq<ParamModel>,
    params2: Seq<ParamModel>,
)
    requires
        attr1 == attr2,
        params1 == params2,
    ensures
        expansion(attr1, params1) == expansion(attr2, params2),
{
}

} // verus!
