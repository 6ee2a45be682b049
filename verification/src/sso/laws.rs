//! What holds of storing and looking up, for every input.
use vstd::prelude::*;
use vstd::utf8::{encode_utf8, encode_utf8_decode_utf8};
use crate::sso::error::SSErrorType;
use crate::sso::layout::INLINE_CAPACITY;
use crate::sso::model::{
    all_storable, construction, is_first_match, is_first_rejected, lemma_construction_fails_at,
    lemma_first_match_exists, lemma_first_rejected_exists, lemma_lookup_finds, lookup,
    lookup_value, rejection, storable,
};
use crate::sso::small_string::SmallString;

verus! {

/// Round trip: a storable string is not refused, and a cell that stores its
/// encoding is initialized and reads back as exactly that string.
pub proof fn law_round_trip(s: Seq<char>, cell: SmallString)
    requires
        storable(s),
        cell.data() == encode_utf8(s),
    ensures
        rejection(s) is None,
        cell.spec_is_init(),
        cell@ == s,
{
    encode_utf8_decode_utf8(s);
}

/// The empty string is always refused as empty, and a string whose encoding
/// has `INLINE_CAPACITY` bytes or more is always refused as too big. No
/// other string is refused.
pub proof fn law_rejections(s: Seq<char>)
    ensures
        s.len() == 0 ==> rejection(s) == Some(SSErrorType::StringEmpty),
        encode_utf8(s).len() >= INLINE_CAPACITY ==> rejection(s) == Some(
            SSErrorType::StringTooBig,
        ),
        rejection(s) is None <==> storable(s),
{
}

/// Construction is all or nothing: it succeeds exactly when every string
/// can be stored, and it then stores all of them in order; otherwise some
/// string is the first that cannot be stored, and construction fails with the
/// error of that one.
pub proof fn law_construction_is_all_or_nothing(values: Seq<Seq<char>>)
    ensures
        all_storable(values) ==> construction(values) == Ok::<Seq<Seq<char>>, SSErrorType>(
            values,
        ),
        !all_storable(values) ==> exists|k: int|
            {
                &&& is_first_rejected(values, 0, k)
                &&& construction(values) == Err::<Seq<Seq<char>>, SSErrorType>(
                    rejection(values[k])->Some_0,
                )
                &&& rejection(values[k]) is Some
            },
{
    if !all_storable(values) {
        let j = choose|j: int| 0 <= j < values.len() && !storable(values[j]);
        lemma_first_rejected_exists(values, j);
        let k = choose|k: int| is_first_rejected(values, 0, k);
        lemma_construction_fails_at(values, k);
    }
}

/// A collection can be built from any sequence of distinct storable
/// strings, and it then finds each of them, by value and by position, in the
/// slot that has its position in the sequence.
pub proof fn law_distinct_strings_are_found(values: Seq<Seq<char>>, i: int)
    requires
        all_storable(values),
        values.no_duplicates(),
        0 <= i < values.len(),
    ensures
        construction(values) == Ok::<Seq<Seq<char>>, SSErrorType>(values),
        lookup(values, values[i]) == Ok::<int, SSErrorType>(i),
        lookup_value(values, values[i]) == Ok::<Seq<char>, SSErrorType>(values[i]),
{
    assert(is_first_match(values, values[i], i));
    lemma_lookup_finds(values, values[i], i);
}

/// Where several slots hold the same string, the lowest of them is found.
pub proof fn law_lowest_slot_wins(contents: Seq<Seq<char>>, i: int, j: int)
    requires
        0 <= i <= j < contents.len(),
        storable(contents[i]),
        contents[i] == contents[j],
    ensures
        lookup(contents, contents[j]) is Ok,
        lookup(contents, contents[j])->Ok_0 <= i,
{
    let q = contents[j];
    assert(contents.contains(q));
    let f = choose|f: int| is_first_match(contents, q, f);
    lemma_first_match_exists(contents, q, j);
    if i < f {
        assert(contents[i] != q);
    }
}

/// A storable string that no slot holds is reported as not found.
pub proof fn law_absent_string_is_not_found(contents: Seq<Seq<char>>, q: Seq<char>)
    requires
        storable(q),
        !contents.contains(q),
    ensures
        lookup(contents, q) == Err::<int, SSErrorType>(SSErrorType::MatchNotFound),
        lookup_value(contents, q) == Err::<Seq<char>, SSErrorType>(SSErrorType::MatchNotFound),
{
}

/// A query that could not have been stored is refused for that reason,
/// whatever the collection holds: the empty string as empty, a string of
/// `INLINE_CAPACITY` bytes or more as too big.
pub proof fn law_unstorable_query_is_refused(contents: Seq<Seq<char>>, q: Seq<char>)
    ensures
        q.len() == 0 ==> lookup(contents, q) == Err::<int, SSErrorType>(SSErrorType::StringEmpty)
            && lookup_value(contents, q) == Err::<Seq<char>, SSErrorType>(
            SSErrorType::StringEmpty,
        ),
        encode_utf8(q).len() >= INLINE_CAPACITY ==> lookup(contents, q) == Err::<
            int,
            SSErrorType,
        >(SSErrorType::StringTooBig) && lookup_value(contents, q) == Err::<
            Seq<char>,
            SSErrorType,
        >(SSErrorType::StringTooBig),
{
}

} // verus!
