//! The check that runs before a handler's own body: the granted scopes, one
//! space-delimited string, are split on single spaces and compared with the
//! handler's required scopes.
use vstd::prelude::*;

verus! {

/// The pieces of `s` between single spaces, in order, as splitting on `' '`
/// yields them: one piece more than there are spaces, empty pieces included.
pub open spec fn split_spaces(s: Seq<char>) -> Seq<Seq<char>>
    decreases s.len(),
{
    if s.len() == 0 {
        seq![Seq::empty()]
    } else {
        let prev = split_spaces(s.drop_last());
        if s.last() == ' ' {
            prev.push(Seq::empty())
        } else {
            prev.update(prev.len() - 1, prev.last().push(s.last()))
        }
    }
}

/// The texts of a sequence of string slices.
pub open spec fn texts(s: Seq<&str>) -> Seq<Seq<char>> {
    s.map_values(|x: &str| x@)
}

/// The texts of a sequence of strings.
pub open spec fn string_texts(s: Seq<String>) -> Seq<Seq<char>> {
    s.map_values(|x: String| x@)
}

/// The scope that grants everything.
pub open spec fn all_scope() -> Seq<char> {
    "all"@
}

/// Access is granted when a received scope is among the required ones, or
/// when the received scopes hold `"all"`.
pub open spec fn authorized(required: Seq<Seq<char>>, received: Seq<Seq<char>>) -> bool {
    ||| exists|i: int| 0 <= i < received.len() && required.contains(#[trigger] received[i])
    ||| received.contains(all_scope())
}

/// The decision for a handler that requires `required` and a caller whose
/// claims grant the space-delimited `scopes`.
pub open spec fn decision(required: Seq<Seq<char>>, scopes: Seq<char>) -> bool {
    authorized(required, split_spaces(scopes))
}

/// Whether two texts are equal, character by character.
pub(crate) fn same_text(a: &str, b: &str) -> (r: bool)
    ensures
        r == (a@ == b@),
{
    let n = a.unicode_len();
    if n != b.unicode_len() {
        return false;
    }
    let mut i: usize = 0;
    while i < n
        invariant
            n == a@.len(),
            n == b@.len(),
            i <= n,
            a@.subrange(0, i as int) == b@.subrange(0, i as int),
        decreases n - i,
    {
        if a.get_char(i) != b.get_char(i) {
            return false;
        }
        assert(a@.subrange(0, i + 1) =~= a@.subrange(0, i as int).push(a@[i as int]));
        assert(b@.subrange(0, i + 1) =~= b@.subrange(0, i as int).push(b@[i as int]));
        i = i + 1;
    }
    assert(a@ =~= a@.subrange(0, n as int));
    assert(b@ =~= b@.subrange(0, n as int));
    true
}

/// Splits the granted scopes on single spaces.
pub fn split_scopes(scopes: &str) -> (r: Vec<String>)
    ensures
        string_texts(r@) == split_spaces(scopes@),
{
    let n = scopes.unicode_len();
    let mut pieces: Vec<String> = Vec::new();
    let mut start: usize = 0;
    let mut i: usize = 0;
    assert(string_texts(pieces@) =~= Seq::<Seq<char>>::empty());
    assert(scopes@.subrange(0, 0) =~= Seq::<char>::empty());
    assert(split_spaces(Seq::<char>::empty()) == seq![Seq::<char>::empty()]);
    assert(Seq::<Seq<char>>::empty().push(Seq::<char>::empty()) =~= seq![Seq::<char>::empty()]);
    while i < n
        invariant
            n == scopes@.len(),
            start <= i <= n,
            string_texts(pieces@).push(scopes@.subrange(start as int, i as int))
                == split_spaces(scopes@.subrange(0, i as int)),
        decreases n - i,
    {
        let c = scopes.get_char(i);
        let ghost prefix = scopes@.subrange(0, i + 1);
        assert(prefix.drop_last() =~= scopes@.subrange(0, i as int));
        assert(prefix.last() == c);
        if c == ' ' {
            let ghost old_texts = string_texts(pieces@);
            let piece = String::from_str(scopes.substring_char(start, i));
            pieces.push(piece);
            assert(string_texts(pieces@) =~= old_texts.push(scopes@.subrange(start as int, i as int)));
            start = i + 1;
            assert(scopes@.subrange(start as int, i + 1) =~= Seq::<char>::empty());
            assert(string_texts(pieces@).push(scopes@.subrange(start as int, i + 1))
                =~= split_spaces(prefix));
        } else {
            let ghost prev = split_spaces(scopes@.subrange(0, i as int));
            assert(scopes@.subrange(start as int, i + 1) =~= scopes@.subrange(
                start as int,
                i as int,
            ).push(c));
            assert(string_texts(pieces@).push(scopes@.subrange(start as int, i + 1))
                =~= prev.update(prev.len() - 1, prev.last().push(c)));
        }
        i = i + 1;
    }
    let ghost old_texts = string_texts(pieces@);
    let last = String::from_str(scopes.substring_char(start, n));
    pieces.push(last);
    assert(string_texts(pieces@) =~= old_texts.push(scopes@.subrange(start as int, n as int)));
    assert(scopes@.subrange(0, n as int) =~= scopes@);
    assert(string_texts(pieces@) =~= split_spaces(scopes@));
    pieces
}

/// Whether `received` holds `scope`.
fn holds_scope(received: &Vec<String>, scope: &str) -> (r: bool)
    ensures
        r == string_texts(received@).contains(scope@),
{
    let mut i: usize = 0;
    while i < received.len()
        invariant
            i <= received@.len(),
            forall|j: int| 0 <= j < i ==> received@[j]@ != scope@,
        decreases received@.len() - i,
    {
        if same_text(received[i].as_str(), scope) {
            assert(string_texts(received@)[i as int] == scope@);
            return true;
        }
        i = i + 1;
    }
    assert(!string_texts(received@).contains(scope@)) by {
        if string_texts(received@).contains(scope@) {
            let j = choose|j: int| 0 <= j < received@.len() && string_texts(received@)[j] == scope@;
            assert(received@[j]@ == scope@);
        }
    }
    false
}

/// Whether `required` holds `scope`.
fn requires_scope(required: &[&str], scope: &str) -> (r: bool)
    ensures
        r == texts(required@).contains(scope@),
{
    let mut i: usize = 0;
    while i < required.len()
        invariant
            i <= required@.len(),
            forall|j: int| 0 <= j < i ==> required@[j]@ != scope@,
        decreases required@.len() - i,
    {
        if same_text(required[i], scope) {
            assert(texts(required@)[i as int] == scope@);
            return true;
        }
        i = i + 1;
    }
    assert(!texts(required@).contains(scope@)) by {
        if texts(required@).contains(scope@) {
            let j = choose|j: int| 0 <= j < required@.len() && texts(required@)[j] == scope@;
            assert(required@[j]@ == scope@);
        }
    }
    false
}

/// Whether a caller that received `received` may run a handler that requires
/// `required`.
pub fn is_authorized(required: &[&str], received: &Vec<String>) -> (r: bool)
    ensures
        r == authorized(texts(required@), string_texts(received@)),
{
    let ghost req = texts(required@);
    let ghost rec = string_texts(received@);
    let mut i: usize = 0;
    while i < received.len()
        invariant
            i <= received@.len(),
            rec == string_texts(received@),
            req == texts(required@),
            forall|j: int| 0 <= j < i ==> !req.contains(#[trigger] rec[j]),
        decreases received@.len() - i,
    {
        if requires_scope(required, received[i].as_str()) {
            assert(req.contains(rec[i as int]));
            return true;
        }
        i = i + 1;
    }
    holds_scope(received, "all")
}

/// What `{:?}` writes for a text: the text quoted, with its special
/// characters escaped. It depends on the text alone.
pub uninterp spec fn debug_text(s: Seq<char>) -> Seq<char>;

/// Relies on std's `Debug` for `str`, through `format!("{:?}")`, for the
/// quoted form of a scope in the diagnostic.
#[verifier::external_body]
fn debug_of(s: &str) -> (r: String)
    ensures
        r@ == debug_text(s@),
{
    format!("{:?}", s)
}

/// The items one after another, with `", "` between two neighbours.
pub open spec fn joined(items: Seq<Seq<char>>) -> Seq<char>
    decreases items.len(),
{
    if items.len() == 0 {
        Seq::empty()
    } else if items.len() == 1 {
        items[0]
    } else {
        joined(items.drop_last()) + ", "@ + items.last()
    }
}

/// The items joined and put in square brackets, as a list prints.
pub open spec fn bracketed(items: Seq<Seq<char>>) -> Seq<char> {
    "["@ + joined(items) + "]"@
}

/// A list of scopes as `{:?}` prints it: each scope quoted.
pub open spec fn debug_list(scopes: Seq<Seq<char>>) -> Seq<char> {
    bracketed(scopes.map_values(|x: Seq<char>| debug_text(x)))
}

/// The diagnostic of a refusal, given the lists already printed.
pub open spec fn message_of(required_list: Seq<char>, received_list: Seq<char>) -> Seq<char> {
    "Missing Required Scopes: "@ + required_list + ", Received Scopes: "@ + received_list
}

/// The diagnostic of a refusal: both lists of scopes, printed.
pub open spec fn forbidden_message(required: Seq<Seq<char>>, received: Seq<Seq<char>>) -> Seq<char> {
    message_of(debug_list(required), debug_list(received))
}

/// Puts already printed items in a bracketed, comma-separated list.
pub fn render_list(items: &Vec<String>) -> (r: String)
    ensures
        r@ == bracketed(string_texts(items@)),
{
    let ghost all = string_texts(items@);
    let mut body = String::new();
    let mut i: usize = 0;
    while i < items.len()
        invariant
            i <= items@.len(),
            all == string_texts(items@),
            body@ == joined(all.take(i as int)),
        decreases items@.len() - i,
    {
        let ghost before = body@;
        if i > 0 {
            body.append(", ");
        }
        body.append(items[i].as_str());
        assert(all.take(i + 1).drop_last() =~= all.take(i as int));
        if i == 0 {
            assert(before =~= Seq::<char>::empty());
            assert(body@ =~= all.take(1)[0]);
        }
        i = i + 1;
    }
    assert(all.take(items@.len() as int) =~= all);
    let mut r = String::from_str("[");
    r.append(body.as_str());
    r.append("]");
    r
}

/// The diagnostic of a refusal, from the two lists already printed.
pub fn missing_scopes_message(required_list: &str, received_list: &str) -> (r: String)
    ensures
        r@ == message_of(required_list@, received_list@),
{
    let mut r = String::from_str("Missing Required Scopes: ");
    r.append(required_list);
    r.append(", Received Scopes: ");
    r.append(received_list);
    r
}

/// Each required scope, printed.
fn debug_required(required: &[&str]) -> (r: Vec<String>)
    ensures
        string_texts(r@) == texts(required@).map_values(|x: Seq<char>| debug_text(x)),
{
    let mut r: Vec<String> = Vec::new();
    let mut i: usize = 0;
    while i < required.len()
        invariant
            i <= required@.len(),
            r@.len() == i,
            forall|j: int| 0 <= j < i ==> #[trigger] r@[j]@ == debug_text(required@[j]@),
        decreases required@.len() - i,
    {
        r.push(debug_of(required[i]));
        i = i + 1;
    }
    assert(string_texts(r@) =~= texts(required@).map_values(|x: Seq<char>| debug_text(x)));
    r
}

/// Each received scope, printed.
fn debug_received(received: &Vec<String>) -> (r: Vec<String>)
    ensures
        string_texts(r@) == string_texts(received@).map_values(|x: Seq<char>| debug_text(x)),
{
    let mut r: Vec<String> = Vec::new();
    let mut i: usize = 0;
    while i < received.len()
        invariant
            i <= received@.len(),
            r@.len() == i,
            forall|j: int| 0 <= j < i ==> #[trigger] r@[j]@ == debug_text(received@[j]@),
        decreases received@.len() - i,
    {
        r.push(debug_of(received[i].as_str()));
        i = i + 1;
    }
    assert(string_texts(r@) =~= string_texts(received@).map_values(|x: Seq<char>| debug_text(x)));
    r
}

/// The diagnostic for a caller that received `received` at a handler that
/// requires `required`.
pub fn forbidden_diagnostic(required: &[&str], received: &Vec<String>) -> (r: String)
    ensures
        r@ == forbidden_message(texts(required@), string_texts(received@)),
{
    let required_list = render_list(&debug_required(required));
    let received_list = render_list(&debug_received(received));
    missing_scopes_message(required_list.as_str(), received_list.as_str())
}

/// A refusal at request time, with its diagnostic.
pub struct Forbidden {
    pub message: String,
}

/// The check that runs before a handler's body: passes when the
/// space-delimited `scopes` of the caller's claims meet `required`, and
/// otherwise refuses with a diagnostic that lists both sides.
pub fn check_scopes(required: &[&str], scopes: &str) -> (r: Result<(), Forbidden>)
    ensures
        r is Ok <==> decision(texts(required@), scopes@),
        r matches Err(f) ==> f.message@ == forbidden_message(
            texts(required@),
            split_spaces(scopes@),
        ),
{
    let received = split_scopes(scopes);
    if is_authorized(required, &received) {
        Ok(())
    } else {
        Err(Forbidden { message: forbidden_diagnostic(required, &received) })
    }
}

} // verus!
