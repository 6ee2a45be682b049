//! The collection: an array of packed lines and the number of populated
//! slots.
use vstd::prelude::*;
use vstd::utf8::{decode_utf8_encode_utf8, encode_utf8_decode_utf8};
use vstd::pervasive::unreached;
use vstd::string::StringSliceAdditionalSpecFns;
use crate::sso::cache_line::SSCacheLine;
use crate::sso::error::SSErrorType;
use crate::sso::layout::{lines_for, SS_CACHELINE_PADDING, SS_PER_CACHELINE};
use crate::sso::model::{
    all_storable, construction, is_first_rejected, lemma_construction_fails_at,
    lemma_lookup_finds, lemma_lookup_ok, lookup, lookup_value, rejection, storable, strings_of,
};
use crate::sso::small_string::SmallString;
use crate::sso::text::bytes_equal;

verus! {

/// A collection of exactly `N` short strings, stored in `L` packed lines.
///
/// `L` is the number of lines that `N` cells need, `lines_for(N)`. Slots are
/// numbered across the lines in storage order, which is the order of the
/// array that the collection was built from. The collection never changes
/// after it was built.
#[derive(Clone, Copy)]
pub struct SmallStringCollection<const N: usize, const L: usize> {
    lines: [SSCacheLine; L],
    live: usize,
}

impl<const N: usize, const L: usize> View for SmallStringCollection<N, L> {
    type V = Seq<Seq<char>>;

    /// The stored strings, in slot order.
    closed spec fn view(&self) -> Seq<Seq<char>> {
        Seq::new(self.live as nat, |i: int| self.slot(i)@)
    }
}

impl<const N: usize, const L: usize> SmallStringCollection<N, L> {
    #[verifier::type_invariant]
    closed spec fn well_formed(self) -> bool {
        &&& self.live == N
        &&& N <= L * SS_PER_CACHELINE
        &&& forall|i: int|
            0 <= i < L * SS_PER_CACHELINE ==> (#[trigger] self.slot(i)).spec_is_init() == (i
                < self.live)
    }

    /// The cell in slot `i`, counted across the lines.
    pub closed spec fn slot(&self, i: int) -> SmallString {
        self.lines@[i / (SS_PER_CACHELINE as int)].spec_cells()[i % (SS_PER_CACHELINE as int)]
    }

    /// How many bytes are used for padding into cache-line alignment:
    /// `count` times the padding of one line.
    pub fn padding_byte_count_for_ss_count(count: usize) -> (bytes: usize)
        requires
            count * SS_CACHELINE_PADDING <= usize::MAX,
        ensures
            bytes == count * SS_CACHELINE_PADDING,
    {
        count * SS_CACHELINE_PADDING
    }

    /// Builds a collection from an array of strings, one slot for each, in
    /// order. The slots of the last line that no string is left for stay
    /// uninitialized.
    ///
    /// Either every string is stored or nothing is built: the call fails
    /// with the error of the first string that cannot be stored.
    pub fn new(ss_arr: &[&str; N]) -> (r: Result<Self, SSErrorType>)
        requires
            L == lines_for(N as int),
        ensures
            match r {
                Ok(col) => construction(strings_of(ss_arr@)) == Ok::<Seq<Seq<char>>, SSErrorType>(
                    col@,
                ),
                Err(e) => construction(strings_of(ss_arr@)) == Err::<Seq<Seq<char>>, SSErrorType>(
                    e,
                ),
            },
    {
        let values = ss_arr.as_slice();
        let ghost strings = strings_of(ss_arr@);
        let zero = SSCacheLine::zeroed();
        let mut lines: [SSCacheLine; L] = [zero; L];
        assert(lines@.len() == L);
        let mut idx: usize = 0;
        while idx < L
            invariant
                idx <= L,
                L == lines_for(N as int),
                lines@.len() == L,
                values@ == ss_arr@,
                values@.len() == N,
                strings == strings_of(ss_arr@),
                forall|k: int|
                    0 <= k < idx ==> (#[trigger] lines@[k]).holds(strings, k * SS_PER_CACHELINE),
                forall|i: int|
                    0 <= i < idx * SS_PER_CACHELINE && i < N ==> storable(#[trigger] strings[i]),
            decreases L - idx,
        {
            let start = idx * SS_PER_CACHELINE;
            match SSCacheLine::from_slice(values, start) {
                Ok(line) => {
                    lines[idx] = line;
                },
                Err(e) => {
                    proof {
                        let k = choose|k: int|
                            {
                                &&& k < start + SS_PER_CACHELINE
                                &&& is_first_rejected(strings, start as int, k)
                                &&& rejection(strings[k]) == Some(e)
                            };
                        assert(is_first_rejected(strings, 0, k));
                        lemma_construction_fails_at(strings, k);
                    }
                    return Err(e);
                },
            }
            idx += 1;
        }
        let col = SmallStringCollection { lines, live: N };
        proof {
            assert forall|i: int| 0 <= i < N implies #[trigger] col@[i] == strings[i] by {
                let k = i / (SS_PER_CACHELINE as int);
                let c = i % (SS_PER_CACHELINE as int);
                assert(lines@[k].holds(strings, k * SS_PER_CACHELINE));
                assert(lines@[k].spec_cells()[c]@ == strings[k * SS_PER_CACHELINE + c]);
            }
            assert(col@ =~= strings);
            assert(all_storable(strings));
        }
        Ok(col)
    }

    /// Total number of elements in the collection: always `N`.
    pub fn size(&self) -> (n: usize)
        ensures
            n == N,
            n == self@.len(),
    {
        proof {
            use_type_invariant(self);
        }
        N
    }

    /// The lines of the collection, in storage order: line `k` holds the
    /// slots from `k * SS_PER_CACHELINE` on.
    pub fn lines(&self) -> (lines: &[SSCacheLine; L])
        ensures
            lines@.len() == L,
            forall|k: int, c: int|
                0 <= k < L && 0 <= c < SS_PER_CACHELINE ==> (#[trigger] lines@[k].spec_cells()[c])
                    == self.slot(k * SS_PER_CACHELINE + c),
    {
        proof {
            assert forall|k: int, c: int| 0 <= k < L && 0 <= c < SS_PER_CACHELINE implies (
            #[trigger] self.lines@[k].spec_cells()[c]) == self.slot(k * SS_PER_CACHELINE + c) by {
                let i = k * SS_PER_CACHELINE + c;
                assert(i / (SS_PER_CACHELINE as int) == k && i % (SS_PER_CACHELINE as int) == c)
                    by (nonlinear_arith)
                    requires
                        i == k * SS_PER_CACHELINE + c,
                        0 <= c < SS_PER_CACHELINE,
                        0 <= k,
                ;
            }
        }
        &self.lines
    }

    /// The cell in slot `idx`, which may be an uninitialized one: the slots
    /// from `N` on, up to the end of the last line, are.
    pub fn lookup_idx(&self, idx: usize) -> (cell: &SmallString)
        requires
            idx < L * SS_PER_CACHELINE,
        ensures
            *cell == self.slot(idx as int),
            idx < self@.len() ==> cell.spec_is_init() && cell@ == self@[idx as int],
            idx >= self@.len() ==> !cell.spec_is_init(),
    {
        proof {
            use_type_invariant(self);
            assert(idx / SS_PER_CACHELINE < L) by (nonlinear_arith)
                requires
                    idx < L * SS_PER_CACHELINE,
                    SS_PER_CACHELINE > 0,
            ;
        }
        self.lines[idx / SS_PER_CACHELINE].cell(idx % SS_PER_CACHELINE)
    }

    /// Looks up `s` by value and returns the number of the first slot that
    /// holds it.
    ///
    /// The query is checked before any slot is read: the call fails with
    /// `StringTooBig` or `StringEmpty` when `s` could not have been stored,
    /// whatever the collection holds. It fails with `MatchNotFound` when `s`
    /// could have been stored and no slot holds it.
    pub fn find_index(&self, s: &str) -> (r: Result<usize, SSErrorType>)
        ensures
            match r {
                Ok(i) => lookup(self@, s@) == Ok::<int, SSErrorType>(i as int),
                Err(e) => lookup(self@, s@) == Err::<int, SSErrorType>(e),
            },
    {
        let query = s.as_bytes();
        let l = query.len();
        if l >= crate::sso::layout::INLINE_CAPACITY {
            return Err(SSErrorType::StringTooBig);
        } else if l == 0 {
            return Err(SSErrorType::StringEmpty);
        }
        proof {
            use_type_invariant(self);
        }
        let mut idx: usize = 0;
        while idx < self.live
            invariant
                idx <= self.live,
                self.live == N,
                N <= L * SS_PER_CACHELINE,
                self@.len() == N,
                query@ == s.spec_bytes(),
                storable(s@),
                forall|j: int| 0 <= j < idx ==> #[trigger] self@[j] != s@,
            decreases self.live - idx,
        {
            let ss = self.lookup_idx(idx);
            if ss.is_init() {
                let stored = ss.get_dst();
                proof {
                    encode_utf8_decode_utf8(s@);
                    decode_utf8_encode_utf8(stored@);
                }
                if bytes_equal(stored, query) {
                    proof {
                        lemma_lookup_finds(self@, s@, idx as int);
                    }
                    return Ok(idx);
                }
            }
            idx += 1;
        }
        proof {
            if self@.contains(s@) {
                let j = choose|j: int| 0 <= j < self@.len() && self@[j] == s@;
                assert(self@[j] != s@);
            }
        }
        Err(SSErrorType::MatchNotFound)
    }

    /// Looks up `q` by value and returns the stored string of the first slot
    /// that holds it.
    ///
    /// Fails as [`Self::find_index`] does.
    pub fn find(&self, q: &str) -> (r: Result<&str, SSErrorType>)
        ensures
            match r {
                Ok(found) => lookup_value(self@, q@) == Ok::<Seq<char>, SSErrorType>(found@),
                Err(e) => lookup_value(self@, q@) == Err::<Seq<char>, SSErrorType>(e),
            },
    {
        match self.find_index(q) {
            Ok(i) => {
                proof {
                    lemma_lookup_ok(self@, q@, i as int);
                }
                Ok(self[i].as_str_unchecked())
            },
            Err(e) => Err(e),
        }
    }
}

impl<const N: usize, const L: usize> vstd::std_specs::core::IndexSpecImpl<usize> for SmallStringCollection<N, L> {
    /// Only populated slots can be indexed.
    open spec fn index_req(&self, index: &usize) -> bool {
        *index < self@.len()
    }
}

impl<const N: usize, const L: usize> std::ops::Index<usize> for SmallStringCollection<N, L> {
    type Output = SmallString;

    /// The cell in the populated slot `index`.
    ///
    /// A caller that is not verified and asks for a slot that holds no
    /// string is stopped here instead of being handed a cell without one.
    fn index(&self, index: usize) -> (cell: &SmallString)
        ensures
            cell.spec_is_init(),
            cell@ == self@[index as int],
    {
        proof {
            use_type_invariant(self);
        }
        let cell = self.lookup_idx(index);
        if !cell.is_init() {
            unreached()
        } else {
            cell
        }
    }
}

} // verus!
