//! The mathematical model of the collection: strings as sequences of
//! characters, a collection as the sequence of its strings, and what
//! storing and looking up return.
use vstd::prelude::*;
use vstd::utf8::encode_utf8;
use crate::sso::error::SSErrorType;
use crate::sso::layout::INLINE_CAPACITY;

verus! {

/// Whether a string can be stored in a cell: its UTF-8 encoding has at least
/// one byte and strictly fewer bytes than the data buffer of a cell.
pub open spec fn storable(s: Seq<char>) -> bool {
    0 < encode_utf8(s).len() < INLINE_CAPACITY
}

/// The error with which a string is refused, if it is refused.
pub open spec fn rejection(s: Seq<char>) -> Option<SSErrorType> {
    if encode_utf8(s).len() >= INLINE_CAPACITY {
        Some(SSErrorType::StringTooBig)
    } else if encode_utf8(s).len() == 0 {
        Some(SSErrorType::StringEmpty)
    } else {
        None
    }
}

/// The strings that a sequence of string slices holds, in order.
pub open spec fn strings_of(values: Seq<&str>) -> Seq<Seq<char>> {
    Seq::new(values.len(), |i: int| values[i]@)
}

/// Whether every string of `values` can be stored.
pub open spec fn all_storable(values: Seq<Seq<char>>) -> bool {
    forall|i: int| 0 <= i < values.len() ==> storable(#[trigger] values[i])
}

/// Whether `k` is the first position of `values`, from `start` on, whose
/// string cannot be stored.
pub open spec fn is_first_rejected(values: Seq<Seq<char>>, start: int, k: int) -> bool {
    &&& 0 <= start <= k < values.len()
    &&& !storable(values[k])
    &&& forall|j: int| start <= j < k ==> storable(#[trigger] values[j])
}

/// What building a collection from `values` returns: the strings
/// themselves, stored in order, when all of them can be stored, and
/// otherwise the error of the first one that cannot.
pub open spec fn construction(values: Seq<Seq<char>>) -> Result<Seq<Seq<char>>, SSErrorType> {
    if all_storable(values) {
        Ok(values)
    } else {
        let k = choose|k: int| is_first_rejected(values, 0, k);
        Err(rejection(values[k])->Some_0)
    }
}

/// Whether `i` is the lowest position of `contents` that holds `q`.
pub open spec fn is_first_match(contents: Seq<Seq<char>>, q: Seq<char>, i: int) -> bool {
    &&& 0 <= i < contents.len()
    &&& contents[i] == q
    &&& forall|j: int| 0 <= j < i ==> #[trigger] contents[j] != q
}

/// What looking up `q` in a collection that holds `contents` returns: the
/// error with which `q` itself is refused, if it is; else the lowest
/// position that holds `q`, if one does; else `MatchNotFound`.
pub open spec fn lookup(contents: Seq<Seq<char>>, q: Seq<char>) -> Result<int, SSErrorType> {
    if let Some(e) = rejection(q) {
        Err(e)
    } else if contents.contains(q) {
        Ok(choose|i: int| is_first_match(contents, q, i))
    } else {
        Err(SSErrorType::MatchNotFound)
    }
}

/// The result of a lookup by value that hands out the stored string instead
/// of its position.
pub open spec fn lookup_value(contents: Seq<Seq<char>>, q: Seq<char>) -> Result<
    Seq<char>,
    SSErrorType,
> {
    match lookup(contents, q) {
        Ok(i) => Ok(contents[i]),
        Err(e) => Err(e),
    }
}

/// At most one position is the first rejected one.
pub proof fn lemma_first_rejected_unique(values: Seq<Seq<char>>, start: int, a: int, b: int)
    requires
        is_first_rejected(values, start, a),
        is_first_rejected(values, start, b),
    ensures
        a == b,
{
    if a < b {
        assert(storable(values[a]));
    } else if b < a {
        assert(storable(values[b]));
    }
}

/// At most one position is the first match.
pub proof fn lemma_first_match_unique(contents: Seq<Seq<char>>, q: Seq<char>, a: int, b: int)
    requires
        is_first_match(contents, q, a),
        is_first_match(contents, q, b),
    ensures
        a == b,
{
    if a < b {
        assert(contents[a] != q);
    } else if b < a {
        assert(contents[b] != q);
    }
}

/// Some position is the first match as soon as any position matches.
pub proof fn lemma_first_match_exists(contents: Seq<Seq<char>>, q: Seq<char>, j: int)
    requires
        0 <= j < contents.len(),
        contents[j] == q,
    ensures
        exists|i: int| is_first_match(contents, q, i),
    decreases j,
{
    if exists|k: int| 0 <= k < j && contents[k] == q {
        let k = choose|k: int| 0 <= k < j && contents[k] == q;
        lemma_first_match_exists(contents, q, k);
    } else {
        assert(is_first_match(contents, q, j));
    }
}

/// Some position is the first rejected one as soon as any position is
/// rejected.
pub proof fn lemma_first_rejected_exists(values: Seq<Seq<char>>, j: int)
    requires
        0 <= j < values.len(),
        !storable(values[j]),
    ensures
        exists|k: int| is_first_rejected(values, 0, k),
    decreases j,
{
    if exists|k: int| 0 <= k < j && !storable(values[k]) {
        let k = choose|k: int| 0 <= k < j && !storable(values[k]);
        lemma_first_rejected_exists(values, k);
    } else {
        assert(is_first_rejected(values, 0, j));
    }
}

/// A lookup that returns a position returns the first match of a storable
/// query.
pub proof fn lemma_lookup_ok(contents: Seq<Seq<char>>, q: Seq<char>, i: int)
    requires
        lookup(contents, q) == Ok::<int, SSErrorType>(i),
    ensures
        storable(q),
        is_first_match(contents, q, i),
{
    let j = choose|j: int| 0 <= j < contents.len() && contents[j] == q;
    lemma_first_match_exists(contents, q, j);
}

/// If `k` is the first rejected position of `values`, construction fails
/// with the error of `values[k]`.
pub proof fn lemma_construction_fails_at(values: Seq<Seq<char>>, k: int)
    requires
        is_first_rejected(values, 0, k),
    ensures
        construction(values) == Err::<Seq<Seq<char>>, SSErrorType>(rejection(values[k])->Some_0),
        rejection(values[k]) is Some,
{
    let c = choose|c: int| is_first_rejected(values, 0, c);
    lemma_first_rejected_unique(values, 0, c, k);
}

/// If `i` is the first position of `contents` that holds a storable `q`,
/// the lookup of `q` returns `i`.
pub proof fn lemma_lookup_finds(contents: Seq<Seq<char>>, q: Seq<char>, i: int)
    requires
        storable(q),
        is_first_match(contents, q, i),
    ensures
        lookup(contents, q) == Ok::<int, SSErrorType>(i),
        lookup_value(contents, q) == Ok::<Seq<char>, SSErrorType>(q),
{
    assert(contents.contains(q));
    let c = choose|c: int| is_first_match(contents, q, c);
    lemma_first_match_unique(contents, q, c, i);
}

} // verus!
