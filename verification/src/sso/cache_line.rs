//! The packed line: as many cells as fit into one cache line, and padding.
use vstd::prelude::*;
use crate::sso::error::SSErrorType;
use crate::sso::layout::{SS_CACHELINE_PADDING, SS_PER_CACHELINE};
use crate::sso::model::{
    all_storable, construction, is_first_rejected, lemma_construction_fails_at, rejection, storable,
    strings_of,
};
use crate::sso::small_string::SmallString;

verus! {

/// A fixed number of cells followed by padding bytes, so that the whole line
/// occupies one cache line. The padding carries no meaning.
#[derive(Clone, Copy)]
pub struct SSCacheLine {
    cells: [SmallString; SS_PER_CACHELINE],
    padding: [u8; SS_CACHELINE_PADDING],
}

impl View for SSCacheLine {
    type V = Seq<Seq<char>>;

    /// The strings of the line's cells, in order; an uninitialized cell
    /// reads as the empty string.
    open spec fn view(&self) -> Seq<Seq<char>> {
        Seq::new(SS_PER_CACHELINE as nat, |i: int| self.spec_cells()[i]@)
    }
}

impl SSCacheLine {
    /// The cells of the line, in order.
    pub closed spec fn spec_cells(&self) -> Seq<SmallString> {
        self.cells@
    }

    /// The cells of the line, in order.
    pub fn cells(&self) -> (cells: &[SmallString; SS_PER_CACHELINE])
        ensures
            cells@ == self.spec_cells(),
    {
        &self.cells
    }

    /// A line whose cells are all uninitialized.
    pub(crate) fn zeroed() -> (line: SSCacheLine)
        ensures
            line.spec_cells().len() == SS_PER_CACHELINE,
            forall|i: int|
                0 <= i < SS_PER_CACHELINE ==> !(#[trigger] line.spec_cells()[i]).spec_is_init(),
    {
        let zero = SmallString::zeroed();
        let cells: [SmallString; SS_PER_CACHELINE] = [zero; SS_PER_CACHELINE];
        assert(cells@.len() == SS_PER_CACHELINE);
        SSCacheLine { cells, padding: [0; SS_CACHELINE_PADDING] }
    }

    /// Whether the line holds, cell by cell, the strings of `values` from
    /// position `start` on, and uninitialized cells where `values` has ended.
    pub open spec fn holds(&self, values: Seq<Seq<char>>, start: int) -> bool {
        &&& self.spec_cells().len() == SS_PER_CACHELINE
        &&& forall|i: int|
            0 <= i < SS_PER_CACHELINE ==> if start + i < values.len() {
                &&& (#[trigger] self.spec_cells()[i])@ == values[start + i]
                &&& self.spec_cells()[i].spec_is_init()
            } else {
                !self.spec_cells()[i].spec_is_init()
            }
    }

    /// Builds a line from the strings of `values` that start at position
    /// `start`: one cell for each of the next `SS_PER_CACHELINE` strings, in
    /// order, and an uninitialized cell for each position past the end of
    /// `values`.
    ///
    /// Fails with the error of the first string that cannot be stored.
    pub(crate) fn from_slice(values: &[&str], start: usize) -> (r: Result<SSCacheLine, SSErrorType>)
        requires
            start <= values@.len(),
        ensures
            match r {
                Ok(line) => {
                    &&& line.holds(strings_of(values@), start as int)
                    &&& forall|k: int|
                        start <= k < values@.len() && k < start + SS_PER_CACHELINE ==> storable(
                            #[trigger] strings_of(values@)[k],
                        )
                },
                Err(e) => exists|k: int|
                    {
                        &&& k < start + SS_PER_CACHELINE
                        &&& is_first_rejected(strings_of(values@), start as int, k)
                        &&& rejection(strings_of(values@)[k]) == Some(e)
                    },
            },
    {
        let zero = SmallString::zeroed();
        let mut cells: [SmallString; SS_PER_CACHELINE] = [zero; SS_PER_CACHELINE];
        let remaining = values.len() - start;
        let ghost strings = strings_of(values@);
        let mut i: usize = 0;
        assert(cells@.len() == SS_PER_CACHELINE);
        while i < SS_PER_CACHELINE
            invariant
                i <= SS_PER_CACHELINE,
                cells@.len() == SS_PER_CACHELINE,
                values@.len() <= usize::MAX,
                start <= values@.len(),
                remaining == values@.len() - start,
                strings == strings_of(values@),
                forall|j: int|
                    0 <= j < i && start + j < values@.len() ==> {
                        &&& storable((#[trigger] cells@[j])@)
                        &&& cells@[j]@ == strings[start + j]
                        &&& cells@[j].spec_is_init()
                    },
                forall|j: int|
                    0 <= j < SS_PER_CACHELINE && (i <= j || start + j >= values@.len()) ==> !(
                    #[trigger] cells@[j]).spec_is_init(),
            decreases SS_PER_CACHELINE - i,
        {
            if i < remaining {
                match SmallString::new(values[start + i]) {
                    Ok(cell) => {
                        cells[i] = cell;
                    },
                    Err(e) => {
                        proof {
                            let k = start + i;
                            assert forall|j: int| start <= j < k implies storable(
                                #[trigger] strings[j],
                            ) by {
                                assert(cells@[j - start]@ == strings[start + (j - start)]);
                            }
                            assert(is_first_rejected(strings, start as int, k));
                        }
                        return Err(e);
                    },
                }
            }
            i += 1;
        }
        let line = SSCacheLine { cells, padding: [0; SS_CACHELINE_PADDING] };
        proof {
            assert forall|k: int|
                start <= k < values@.len() && k < start + SS_PER_CACHELINE implies storable(
                #[trigger] strings[k],
            ) by {
                assert(cells@[k - start]@ == strings[start + (k - start)]);
            }
        }
        Ok(line)
    }

    /// Builds a line from exactly `SS_PER_CACHELINE` strings, one cell for
    /// each, in order.
    ///
    /// Fails with the error of the first string that cannot be stored; no
    /// partly filled line is ever returned.
    pub fn new(ss_arr: &[&str; SS_PER_CACHELINE]) -> (r: Result<SSCacheLine, SSErrorType>)
        ensures
            match r {
                Ok(line) => construction(strings_of(ss_arr@)) == Ok::<Seq<Seq<char>>, SSErrorType>(
                    line@,
                ),
                Err(e) => construction(strings_of(ss_arr@)) == Err::<Seq<Seq<char>>, SSErrorType>(
                    e,
                ),
            },
    {
        let ghost strings = strings_of(ss_arr@);
        match SSCacheLine::from_slice(ss_arr.as_slice(), 0) {
            Ok(line) => {
                proof {
                    assert(line@ =~= strings);
                    assert(all_storable(strings));
                }
                Ok(line)
            },
            Err(e) => {
                proof {
                    let k = choose|k: int|
                        {
                            &&& k < SS_PER_CACHELINE
                            &&& is_first_rejected(strings, 0, k)
                            &&& rejection(strings[k]) == Some(e)
                        };
                    lemma_construction_fails_at(strings, k);
                }
                Err(e)
            },
        }
    }

    /// The cell at position `i` of the line.
    pub(crate) fn cell(&self, i: usize) -> (c: &SmallString)
        requires
            i < SS_PER_CACHELINE,
        ensures
            *c == self.spec_cells()[i as int],
    {
        &self.cells[i]
    }
}

} // verus!
