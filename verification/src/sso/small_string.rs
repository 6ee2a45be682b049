//! The inline string cell.
use vstd::prelude::*;
use vstd::utf8::{decode_utf8, encode_utf8, valid_utf8};
use vstd::utf8::{encode_utf8_decode_utf8, encode_utf8_valid_utf8};
use vstd::string::StringSliceAdditionalSpecFns;
use vstd::pervasive::unreached;
use vstd::slice::slice_subrange;
use crate::sso::error::SSErrorType;
use crate::sso::layout::INLINE_CAPACITY;
use crate::sso::model::{rejection, storable};

verus! {

/// One short string stored inline: a length byte and a fixed data buffer
/// whose first `length` bytes are the string's UTF-8 encoding.
///
/// A length of zero marks a cell that was never initialized; such cells pad
/// the last line of a collection.
#[derive(Clone, Copy)]
pub struct SmallString {
    len: u8,
    bytes: [u8; INLINE_CAPACITY],
}

impl View for SmallString {
    type V = Seq<char>;

    /// The stored string. An uninitialized cell reads as the empty string.
    open spec fn view(&self) -> Seq<char> {
        decode_utf8(self.data())
    }
}

impl SmallString {
    #[verifier::type_invariant]
    closed spec fn well_formed(self) -> bool {
        &&& self.len < INLINE_CAPACITY
        &&& valid_utf8(self.data())
    }

    /// The stored bytes: the first `length` bytes of the data buffer.
    pub closed spec fn data(&self) -> Seq<u8> {
        self.bytes@.subrange(0, self.len as int)
    }

    /// The whole data buffer, the bytes past the end of the string included.
    pub closed spec fn buffer(&self) -> Seq<u8> {
        self.bytes@
    }

    /// Whether the cell holds a string.
    pub open spec fn spec_is_init(&self) -> bool {
        self.data().len() > 0
    }

    /// Stores `s` in a new cell.
    ///
    /// Fails with `StringTooBig` when `s` has `INLINE_CAPACITY` bytes or
    /// more, and with `StringEmpty` when it has none.
    pub fn new(s: &str) -> (r: Result<SmallString, SSErrorType>)
        ensures
            match r {
                Ok(cell) => storable(s@) && cell.data() == encode_utf8(s@) && cell@ == s@
                    && cell.spec_is_init(),
                Err(e) => rejection(s@) == Some(e),
            },
    {
        let src = s.as_bytes();
        let l = src.len();
        if l >= INLINE_CAPACITY {
            return Err(SSErrorType::StringTooBig);
        }
        if l == 0 {
            return Err(SSErrorType::StringEmpty);
        }
        let mut bytes: [u8; INLINE_CAPACITY] = [0; INLINE_CAPACITY];
        let mut i: usize = 0;
        while i < l
            invariant
                i <= l,
                l == src@.len(),
                l < INLINE_CAPACITY,
                forall|j: int| 0 <= j < i ==> bytes@[j] == src@[j],
            decreases l - i,
        {
            bytes[i] = src[i];
            i += 1;
        }
        proof {
            assert(bytes@.subrange(0, l as int) =~= encode_utf8(s@));
            encode_utf8_valid_utf8(s@);
            encode_utf8_decode_utf8(s@);
        }
        Ok(SmallString { len: l as u8, bytes })
    }

    /// An uninitialized cell: length zero, and every byte of the buffer
    /// zero.
    pub(crate) fn zeroed() -> (cell: SmallString)
        ensures
            !cell.spec_is_init(),
            cell.data() == Seq::<u8>::empty(),
            cell@ == Seq::<char>::empty(),
            cell.buffer() == Seq::new(INLINE_CAPACITY as nat, |i: int| 0u8),
    {
        let cell = SmallString { len: 0, bytes: [0; INLINE_CAPACITY] };
        assert(cell.data() =~= Seq::<u8>::empty());
        assert(cell.buffer() =~= Seq::new(INLINE_CAPACITY as nat, |i: int| 0u8));
        cell
    }

    /// Checks whether the cell has been initialized, by its length.
    #[verifier::when_used_as_spec(spec_is_init)]
    pub fn is_init(&self) -> (b: bool)
        ensures
            b == self.spec_is_init(),
    {
        proof {
            use_type_invariant(self);
        }
        self.len != 0 || self.len > (INLINE_CAPACITY as u8)
    }

    /// The stored bytes as a slice: the data buffer cut to the length of the
    /// string instead of the length of the buffer.
    pub(crate) fn get_dst(&self) -> (s: &[u8])
        ensures
            s@ == self.data(),
            valid_utf8(s@),
    {
        proof {
            use_type_invariant(self);
        }
        slice_subrange(self.bytes.as_slice(), 0, self.len as usize)
    }

    /// Checks that the cell holds a string and that its bytes are valid
    /// UTF-8.
    ///
    /// Fails with `Uninit` on a cell that was never initialized. The bytes of
    /// an initialized cell were validated when it was built, so the
    /// `Utf8Error` that the validation could report never comes out.
    pub fn check_utf8(&self) -> (r: Result<(), SSErrorType>)
        ensures
            self.spec_is_init() ==> r is Ok,
            !self.spec_is_init() ==> r matches Err(SSErrorType::Uninit),
    {
        if self.is_init() {
            match core::str::from_utf8(self.get_dst()) {
                Ok(_) => Ok(()),
                Err(e) => Err(SSErrorType::Utf8Error(e)),
            }
        } else {
            Err(SSErrorType::Uninit)
        }
    }

    /// Returns the stored string without looking at the length first.
    ///
    /// An uninitialized cell reads as the empty string; callers that must
    /// tell it apart use [`Self::as_str`] or [`Self::as_str_maybe`].
    pub fn as_str_unchecked(&self) -> (s: &str)
        ensures
            s@ == self@,
            s.spec_bytes() == self.data(),
    {
        match core::str::from_utf8(self.get_dst()) {
            Ok(s) => {
                proof {
                    encode_utf8_decode_utf8(s@);
                }
                s
            },
            Err(_) => unreached(),
        }
    }

    /// Returns the stored string.
    ///
    /// Fails with `Uninit` on a cell that was never initialized. The bytes
    /// are validated again before they are handed out; for the cells that
    /// this library builds the validation always succeeds.
    pub fn as_str(&self) -> (r: Result<&str, SSErrorType>)
        ensures
            self.spec_is_init() ==> r is Ok && r->Ok_0@ == self@,
            !self.spec_is_init() ==> r matches Err(SSErrorType::Uninit),
    {
        if self.is_init() {
            match core::str::from_utf8(self.get_dst()) {
                Ok(s) => {
                    proof {
                        encode_utf8_decode_utf8(s@);
                    }
                    Ok(s)
                },
                Err(e) => Err(SSErrorType::Utf8Error(e)),
            }
        } else {
            Err(SSErrorType::Uninit)
        }
    }

    /// Like [`Self::as_str`], but returns `None` when called on an
    /// uninitialized cell.
    pub fn as_str_maybe(&self) -> (r: Option<&str>)
        ensures
            self.spec_is_init() ==> r is Some && r->Some_0@ == self@,
            !self.spec_is_init() ==> r is None,
    {
        if self.is_init() {
            Some(self.as_str_unchecked())
        } else {
            None
        }
    }
}

} // verus!
