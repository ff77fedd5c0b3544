//! The decorator's argument list: one or more string literals separated by
//! commas, with an optional trailing comma. Each literal's value is a scope.
//! A list without any scope is refused at expansion time, so that no handler
//! is left guarded by a requirement nobody can meet or everybody meets.
use vstd::prelude::*;

use crate::guard::string_texts;

verus! {

/// One token of the decorator's argument list.
pub enum AttrToken {
    /// A literal, as written in the source (`"read"`, `42`, `r"x"`).
    Literal(String),
    /// A punctuation character.
    Punct(char),
    /// An identifier or keyword.
    Ident(String),
    /// A delimited group (parentheses, brackets or braces).
    Group,
}

/// What a token stands for, with its texts as character sequences.
pub enum AttrTokenView {
    Literal(Seq<char>),
    Punct(char),
    Ident(Seq<char>),
    Group,
}

impl View for AttrToken {
    type V = AttrTokenView;

    open spec fn view(&self) -> AttrTokenView {
        match self {
            AttrToken::Literal(t) => AttrTokenView::Literal(t@),
            AttrToken::Punct(c) => AttrTokenView::Punct(*c),
            AttrToken::Ident(t) => AttrTokenView::Ident(t@),
            AttrToken::Group => AttrTokenView::Group,
        }
    }
}

/// Why an argument list is not a scope list. Positions count tokens from 0.
#[derive(Debug, Clone, Copy, PartialEq, Eq, Structural)]
pub enum ScopeListError {
    /// The list holds no scope at all.
    Empty,
    /// The token at this position should be a string literal.
    ExpectedStringLiteral(usize),
    /// The token at this position should be a comma.
    ExpectedComma(usize),
}

/// The views of a sequence of tokens.
pub open spec fn tokens_view(s: Seq<AttrToken>) -> Seq<AttrTokenView> {
    s.map_values(|t: AttrToken| t@)
}

/// The texts of a sequence of optional strings.
pub open spec fn option_texts(s: Seq<Option<String>>) -> Seq<Option<Seq<char>>> {
    s.map_values(|o: Option<String>| option_text(o))
}

/// The text of an optional string.
pub open spec fn option_text(o: Option<String>) -> Option<Seq<char>> {
    match o {
        Some(s) => Some(s@),
        None => None,
    }
}

/// The value of a string literal written as `text`, or none when `text` is
/// not one string literal. It depends on the text alone.
pub uninterp spec fn str_literal_value(text: Seq<char>) -> Option<Seq<char>>;

/// Relies on `syn::parse_str::<syn::LitStr>` and `syn::LitStr::value`: the
/// value of a string literal given as source text, escapes resolved.
#[verifier::external_body]
fn string_literal_value(text: &str) -> (r: Option<String>)
    ensures
        r is Some <==> str_literal_value(text@) is Some,
        r matches Some(v) ==> str_literal_value(text@) == Some(v@),
{
    match syn::parse_str::<syn::LitStr>(text) {
        Ok(lit) => Some(lit.value()),
        Err(_) => None,
    }
}

/// The values that string literals among `toks` stand for: none for a token
/// that is not a string literal.
pub open spec fn literal_values(toks: Seq<AttrTokenView>) -> Seq<Option<Seq<char>>> {
    toks.map_values(
        |t: AttrTokenView|
            match t {
                AttrTokenView::Literal(text) => str_literal_value(text),
                _ => None,
            },
    )
}

/// `p` put before the scopes of a successful parse; an error stays as it is.
pub open spec fn prepend(
    p: Seq<Seq<char>>,
    r: Result<Seq<Seq<char>>, ScopeListError>,
) -> Result<Seq<Seq<char>>, ScopeListError> {
    match r {
        Ok(rest) => Ok(p + rest),
        Err(e) => Err(e),
    }
}

/// The scopes of the list from position `i` on, where `vals[j]` is the value
/// of the token at `j` when that token is a string literal. The first token
/// out of place decides the error.
pub open spec fn scopes_from(
    toks: Seq<AttrTokenView>,
    vals: Seq<Option<Seq<char>>>,
    i: int,
) -> Result<Seq<Seq<char>>, ScopeListError>
    decreases toks.len() - i,
{
    if i < 0 || i >= toks.len() {
        Ok(Seq::empty())
    } else if !(toks[i] is Literal) || vals[i] is None {
        Err(ScopeListError::ExpectedStringLiteral(i as usize))
    } else if i + 1 == toks.len() {
        Ok(seq![vals[i]->0])
    } else if toks[i + 1] != AttrTokenView::Punct(',') {
        Err(ScopeListError::ExpectedComma((i + 1) as usize))
    } else {
        prepend(seq![vals[i]->0], scopes_from(toks, vals, i + 2))
    }
}

/// The scopes of a whole list, given the values of its literals.
pub open spec fn scope_list_with(
    toks: Seq<AttrTokenView>,
    vals: Seq<Option<Seq<char>>>,
) -> Result<Seq<Seq<char>>, ScopeListError> {
    if toks.len() == 0 {
        Err(ScopeListError::Empty)
    } else {
        scopes_from(toks, vals, 0)
    }
}

/// The scopes of a whole list, its literals read as string literals.
pub open spec fn scope_list(toks: Seq<AttrTokenView>) -> Result<Seq<Seq<char>>, ScopeListError> {
    scope_list_with(toks, literal_values(toks))
}

/// Reads the scopes of an argument list whose literals have the values
/// `values` (none where a token is not a string literal).
pub fn scopes_from_values(tokens: &Vec<AttrToken>, values: &Vec<Option<String>>) -> (r: Result<
    Vec<String>,
    ScopeListError,
>)
    requires
        values@.len() == tokens@.len(),
    ensures
        r matches Ok(v) ==> scope_list_with(tokens_view(tokens@), option_texts(values@)) == Ok::<
            Seq<Seq<char>>,
            ScopeListError,
        >(string_texts(v@)),
        r matches Err(e) ==> scope_list_with(tokens_view(tokens@), option_texts(values@)) == Err::<
            Seq<Seq<char>>,
            ScopeListError,
        >(e),
{
    let ghost toks = tokens_view(tokens@);
    let ghost vals = option_texts(values@);
    let n = tokens.len();
    if n == 0 {
        return Err(ScopeListError::Empty);
    }
    let mut out: Vec<String> = Vec::new();
    let mut i: usize = 0;
    assert(prepend(string_texts(out@), scopes_from(toks, vals, 0)) == scopes_from(toks, vals, 0))
        by {
        match scopes_from(toks, vals, 0) {
            Ok(rest) => {
                assert(string_texts(out@) + rest =~= rest);
            },
            Err(_) => {},
        }
    }
    while i < n
        invariant
            n == tokens@.len(),
            n == values@.len(),
            n > 0,
            toks == tokens_view(tokens@),
            vals == option_texts(values@),
            scopes_from(toks, vals, 0) == prepend(string_texts(out@), scopes_from(toks, vals, i as int)),
        decreases n - i,
    {
        assert(toks[i as int] == tokens@[i as int]@);
        assert(vals[i as int] == option_text(values@[i as int]));
        let value = match &tokens[i] {
            AttrToken::Literal(_) => match &values[i] {
                Some(s) => s.clone(),
                None => {
                    return Err(ScopeListError::ExpectedStringLiteral(i));
                },
            },
            _ => {
                return Err(ScopeListError::ExpectedStringLiteral(i));
            },
        };
        let ghost before = string_texts(out@);
        out.push(value);
        assert(string_texts(out@) =~= before + seq![value@]);
        if i + 1 == n {
            return Ok(out);
        }
        assert(toks[i + 1] == tokens@[i + 1]@);
        let comma = match &tokens[i + 1] {
            AttrToken::Punct(c) => *c == ',',
            _ => false,
        };
        if !comma {
            return Err(ScopeListError::ExpectedComma(i + 1));
        }
        proof {
            match scopes_from(toks, vals, i + 2) {
                Ok(tail) => {
                    assert(before + (seq![value@] + tail) =~= string_texts(out@) + tail);
                },
                Err(_) => {},
            }
        }
        i = i + 2;
    }
    assert(string_texts(out@) + Seq::<Seq<char>>::empty() =~= string_texts(out@));
    Ok(out)
}

/// Reads the scopes of the decorator's argument list: each must be a string
/// literal, with a comma between two of them and at most one after the last.
pub fn parse_scope_list(tokens: &Vec<AttrToken>) -> (r: Result<Vec<String>, ScopeListError>)
    ensures
        r matches Ok(v) ==> scope_list(tokens_view(tokens@)) == Ok::<
            Seq<Seq<char>>,
            ScopeListError,
        >(string_texts(v@)),
        r matches Err(e) ==> scope_list(tokens_view(tokens@)) == Err::<Seq<Seq<char>>, ScopeListError>(
            e,
        ),
{
    let mut values: Vec<Option<String>> = Vec::new();
    let mut i: usize = 0;
    while i < tokens.len()
        invariant
            i <= tokens@.len(),
            values@.len() == i,
            forall|j: int|
                0 <= j < i ==> #[trigger] option_text(values@[j]) == literal_values(
                    tokens_view(tokens@),
                )[j],
        decreases tokens@.len() - i,
    {
        let value = match &tokens[i] {
            AttrToken::Literal(text) => string_literal_value(text.as_str()),
            _ => None,
        };
        values.push(value);
        i = i + 1;
    }
    assert(option_texts(values@) =~= literal_values(tokens_view(tokens@)));
    scopes_from_values(tokens, &values)
}

} // verus!
