//! A fixed-capacity string over a generic byte storage.
//!
//! `StringWrapper<T>` is like `String`, but it never allocates or grows: it
//! writes into a caller-supplied `Buffer` of fixed size. The well-formedness
//! invariant `wf()` says that the used prefix of the storage is always a
//! valid UTF-8 encoding, so the contents can always be viewed as text.
use crate::buffer::Buffer;
use crate::encoding::{
    bytes_as_str, char_utf8_len, encode_char_utf8, lemma_boundary_within_three,
    lemma_encode_singleton, lemma_text_append, starts_well_formed_utf8_sequence,
};
use vstd::prelude::*;
use vstd::slice::slice_subrange;
use vstd::string::StringSliceAdditionalSpecFns;
use vstd::utf8::{decode_utf8, encode_scalar, encode_utf8, is_char_boundary, valid_utf8};

verus! {

/// Like `String`, but with a fixed capacity and a generic backing byte
/// storage. Use e.g. `StringWrapper<[u8; 4]>` for a string without heap
/// allocation.
#[derive(Clone, Copy)]
pub struct StringWrapper<T> where T: Buffer {
    pub len: usize,
    pub buffer: T,
}

impl<T> StringWrapper<T> where T: Buffer {
    /// The number of used bytes.
    pub open spec fn spec_len(&self) -> int {
        self.len as int
    }

    /// The total number of bytes the backing storage holds.
    pub open spec fn spec_capacity(&self) -> int {
        self.buffer.bytes().len() as int
    }

    /// The used prefix of the backing storage.
    pub open spec fn used_bytes(&self) -> Seq<u8> {
        self.buffer.bytes().take(self.len as int)
    }

    /// The character sequence held by the string.
    pub open spec fn text(&self) -> Seq<char> {
        decode_utf8(self.used_bytes())
    }

    /// Well-formedness: the used prefix fits in the storage and is a valid
    /// UTF-8 encoding. Every constructor establishes this and every method
    /// preserves it.
    pub open spec fn wf(&self) -> bool {
        &&& self.len <= self.buffer.bytes().len()
        &&& valid_utf8(self.used_bytes())
    }

    /// Create an empty string from its backing storage.
    pub fn new(buffer: T) -> (r: Self)
        ensures
            r.wf(),
            r.spec_len() == 0,
            r.text() == Seq::<char>::empty(),
            r.spec_capacity() == buffer.bytes().len(),
            r.buffer.bytes() == buffer.bytes(),
    {
        proof {
            assert(buffer.bytes().take(0) =~= Seq::<u8>::empty());
        }
        StringWrapper { len: 0, buffer }
    }

    /// Create a string from its components. The first `len` bytes of
    /// `buffer` must already be well-formed UTF-8; callers discharge that
    /// obligation in proof.
    pub fn from_raw_parts(buffer: T, len: usize) -> (r: Self)
        requires
            len <= buffer.bytes().len(),
            valid_utf8(buffer.bytes().take(len as int)),
        ensures
            r.wf(),
            r.spec_len() == len,
            r.buffer.bytes() == buffer.bytes(),
            r.text() == decode_utf8(buffer.bytes().take(len as int)),
    {
        StringWrapper { len, buffer }
    }

    /// Consume the string and return the backing storage.
    pub fn into_buffer(self) -> (r: T)
        ensures
            r == self.buffer,
    {
        self.buffer
    }

    /// View the backing storage as a byte slice.
    pub fn buffer(&self) -> (r: &[u8])
        ensures
            r@ == self.buffer.bytes(),
    {
        self.buffer.as_byte_slice()
    }

    /// Return the number of used bytes in the string.
    pub fn len(&self) -> (n: usize)
        ensures
            n == self.spec_len(),
    {
        self.len
    }

    /// Return whether the string contains no bytes.
    pub fn is_empty(&self) -> (r: bool)
        ensures
            r <==> self.spec_len() == 0,
            self.wf() ==> (r <==> self.text().len() == 0),
    {
        proof {
            if self.wf() {
                crate::encoding::lemma_decode_nonempty(self.used_bytes());
            }
        }
        self.len == 0
    }

    /// Return the maximum number of bytes the string can hold.
    pub fn capacity(&self) -> (n: usize)
        ensures
            n == self.spec_capacity(),
    {
        self.buffer.size()
    }

    /// Return by how many bytes the string can still grow.
    pub fn extra_capacity(&self) -> (n: usize)
        requires
            self.wf(),
        ensures
            n == self.spec_capacity() - self.spec_len(),
            self.spec_capacity() <= usize::MAX,
    {
        self.capacity() - self.len
    }

    /// Shorten the string to `new_len` bytes. The new length must not exceed
    /// the current one and must fall on a character boundary; bytes beyond it
    /// are left in place as stale extra capacity.
    pub fn truncate(&mut self, new_len: usize)
        requires
            old(self).wf(),
            new_len <= old(self).spec_len(),
            is_char_boundary(old(self).used_bytes(), new_len as int),
        ensures
            final(self).wf(),
            final(self).spec_len() == new_len,
            final(self).buffer.bytes() == old(self).buffer.bytes(),
            final(self).used_bytes() == old(self).used_bytes().take(new_len as int),
            old(self).text() == final(self).text() + decode_utf8(
                old(self).used_bytes().skip(new_len as int),
            ),
            new_len == old(self).spec_len() ==> final(self).text() == old(self).text(),
    {
        proof {
            let used = old(self).used_bytes();
            vstd::utf8::valid_utf8_split(used, new_len as int);
            vstd::utf8::decode_utf8_split(used, new_len as int);
            assert(used.subrange(0, new_len as int) =~= old(self).buffer.bytes().take(
                new_len as int,
            ));
            assert(used.subrange(new_len as int, used.len() as int) =~= used.skip(new_len as int));
            if new_len == old(self).len {
                assert(used.take(new_len as int) =~= used);
            }
        }
        self.len = new_len;
    }

    /// Copy the first `n` bytes of `src` into the storage at offset `at`,
    /// leaving the length counter and all other bytes unchanged.
    fn write_bytes(&mut self, at: usize, src: &[u8], n: usize)
        requires
            n <= src@.len(),
            at + n <= old(self).buffer.bytes().len(),
        ensures
            final(self).len == old(self).len,
            final(self).buffer.bytes() == old(self).buffer.bytes().take(at as int) + src@.take(
                n as int,
            ) + old(self).buffer.bytes().skip(at + n as int),
    {
        let total = self.buffer.size();
        let mut i: usize = 0;
        while i < n
            invariant
                i <= n,
                n <= src@.len(),
                at + n <= total,
                total == self.buffer.bytes().len(),
                self.len == old(self).len,
                self.buffer.bytes().len() == old(self).buffer.bytes().len(),
                forall|k: int|
                    0 <= k < at ==> self.buffer.bytes()[k] == old(self).buffer.bytes()[k],
                forall|k: int| 0 <= k < i ==> self.buffer.bytes()[at + k] == src@[k],
                forall|k: int|
                    at + n <= k < self.buffer.bytes().len() ==> self.buffer.bytes()[k] == old(
                        self,
                    ).buffer.bytes()[k],
            decreases n - i,
        {
            self.buffer.set_byte(at + i, src[i]);
            i = i + 1;
        }
        proof {
            assert(self.buffer.bytes() =~= old(self).buffer.bytes().take(at as int) + src@.take(
                n as int,
            ) + old(self).buffer.bytes().skip(at + n as int));
        }
    }

    /// Append a string slice to the string. The extra capacity must suffice
    /// for its whole encoding; use `push_partial_str` otherwise.
    pub fn push_str(&mut self, s: &str)
        requires
            old(self).wf(),
            s.spec_bytes().len() <= old(self).spec_capacity() - old(self).spec_len(),
        ensures
            final(self).wf(),
            final(self).spec_capacity() == old(self).spec_capacity(),
            final(self).spec_len() == old(self).spec_len() + s.spec_bytes().len(),
            final(self).used_bytes() == old(self).used_bytes() + s.spec_bytes(),
            final(self).text() == old(self).text() + s@,
            final(self).buffer.bytes() == old(self).used_bytes() + s.spec_bytes() + old(
                self,
            ).buffer.bytes().skip(old(self).spec_len() + s.spec_bytes().len()),
    {
        let sb: &[u8] = s.as_bytes();
        let n = sb.len();
        let cap = self.capacity();
        proof {
            assert(old(self).spec_len() + n <= cap);
        }
        self.write_bytes(self.len, sb, n);
        self.len = self.len + n;
        proof {
            assert(sb@.take(n as int) =~= s.spec_bytes());
            assert(self.used_bytes() =~= old(self).used_bytes() + s.spec_bytes());
            lemma_text_append(old(self).used_bytes(), s@);
        }
    }

    /// Append one character if the extra capacity suffices for its encoding.
    ///
    /// Returns `Ok` with the character appended, or `Err` with the string
    /// unchanged: appending succeeds exactly when the encoded length still
    /// fits, and a failed push leaves every byte and the length as they were.
    pub fn push(&mut self, c: char) -> (r: Result<(), ()>)
        requires
            old(self).wf(),
        ensures
            final(self).wf(),
            final(self).spec_capacity() == old(self).spec_capacity(),
            old(self).spec_len() + char_utf8_len(c) <= old(self).spec_capacity() ==> {
                &&& r is Ok
                &&& final(self).spec_len() == old(self).spec_len() + char_utf8_len(c)
                &&& final(self).used_bytes() == old(self).used_bytes() + encode_scalar(c as u32)
                &&& final(self).text() == old(self).text() + seq![c]
                &&& final(self).buffer.bytes() == old(self).used_bytes() + encode_scalar(c as u32)
                    + old(self).buffer.bytes().skip(old(self).spec_len() + char_utf8_len(c))
            },
            old(self).spec_len() + char_utf8_len(c) > old(self).spec_capacity() ==> {
                &&& r is Err
                &&& *final(self) == *old(self)
            },
    {
        let (tmp, n) = encode_char_utf8(c);
        if n <= self.capacity() - self.len {
            self.write_bytes(self.len, tmp.as_slice(), n);
            self.len = self.len + n;
            proof {
                assert(self.used_bytes() =~= old(self).used_bytes() + encode_scalar(c as u32));
                lemma_encode_singleton(c);
                lemma_text_append(old(self).used_bytes(), seq![c]);
            }
            Ok(())
        } else {
            Err(())
        }
    }

    /// Append as much of a string slice as fits, cut at a character
    /// boundary.
    ///
    /// Returns `Ok(())` if the whole encoding fit, or `Err(n)` where `n` is
    /// the number of bytes appended: the largest character boundary of the
    /// slice's encoding not exceeding the extra capacity, which it undershoots
    /// by at most three bytes. The appended bytes are a whole-character prefix
    /// of the slice, so the contents stay well-formed.
    pub fn push_partial_str(&mut self, s: &str) -> (r: Result<(), usize>)
        requires
            old(self).wf(),
        ensures
            final(self).wf(),
            final(self).spec_capacity() == old(self).spec_capacity(),
            s.spec_bytes().len() <= old(self).spec_capacity() - old(self).spec_len() ==> {
                &&& r is Ok
                &&& final(self).used_bytes() == old(self).used_bytes() + s.spec_bytes()
                &&& final(self).text() == old(self).text() + s@
                &&& final(self).buffer.bytes() == old(self).used_bytes() + s.spec_bytes() + old(
                    self,
                ).buffer.bytes().skip(old(self).spec_len() + s.spec_bytes().len())
            },
            s.spec_bytes().len() > old(self).spec_capacity() - old(self).spec_len() ==> {
                let avail = old(self).spec_capacity() - old(self).spec_len();
                &&& r matches Err(n)
                &&& n <= avail < n + 4
                &&& is_char_boundary(s.spec_bytes(), n as int)
                &&& forall|j: int| n < j <= avail ==> !is_char_boundary(s.spec_bytes(), j)
                &&& final(self).used_bytes() == old(self).used_bytes() + s.spec_bytes().take(
                    n as int,
                )
                &&& final(self).text() == old(self).text() + decode_utf8(
                    s.spec_bytes().take(n as int),
                )
                &&& s@ == decode_utf8(s.spec_bytes().take(n as int)) + decode_utf8(
                    s.spec_bytes().skip(n as int),
                )
                &&& final(self).buffer.bytes() == old(self).used_bytes() + s.spec_bytes().take(
                    n as int,
                ) + old(self).buffer.bytes().skip(old(self).spec_len() + n)
            },
    {
        let avail = self.extra_capacity();
        let sb: &[u8] = s.as_bytes();
        if sb.len() <= avail {
            self.push_str(s);
            Ok(())
        } else {
            proof {
                vstd::utf8::encode_utf8_valid_utf8(s@);
            }
            let mut i: usize = avail;
            while !starts_well_formed_utf8_sequence(sb[i])
                invariant
                    valid_utf8(sb@),
                    sb@ == s.spec_bytes(),
                    i <= avail < sb@.len(),
                    forall|j: int| i < j <= avail ==> !is_char_boundary(sb@, j),
                decreases i,
            {
                proof {
                    vstd::utf8::is_char_boundary_iff_not_is_continuation_byte(sb@, i as int);
                    if i == 0 {
                        assert(is_char_boundary(sb@, 0));
                        assert(false);
                    }
                }
                i = i - 1;
            }
            proof {
                vstd::utf8::is_char_boundary_iff_not_is_continuation_byte(sb@, i as int);
                assert(is_char_boundary(sb@, i as int));
                lemma_boundary_within_three(sb@, avail as int);
                vstd::utf8::valid_utf8_split(sb@, i as int);
                vstd::utf8::decode_utf8_split(sb@, i as int);
                vstd::utf8::encode_utf8_decode_utf8(s@);
            }
            self.write_bytes(self.len, sb, i);
            self.len = self.len + i;
            proof {
                let cut = sb@.subrange(0, i as int);
                assert(cut =~= sb@.take(i as int));
                assert(self.used_bytes() =~= old(self).used_bytes() + cut);
                vstd::utf8::decode_utf8_encode_utf8(cut);
                lemma_text_append(old(self).used_bytes(), decode_utf8(cut));
                assert(sb@.subrange(i as int, sb@.len() as int) =~= sb@.skip(i as int));
            }
            Err(i)
        }
    }

    /// The text of a well-formed string represents its contents exactly:
    /// encoding the text recovers the used prefix byte for byte, so no
    /// sequence of operations can leave text behind that the buffer does not
    /// hold, or bytes that the text does not show.
    pub proof fn lemma_text_faithful(&self)
        requires
            self.wf(),
        ensures
            encode_utf8(self.text()) == self.used_bytes(),
    {
        vstd::utf8::decode_utf8_encode_utf8(self.used_bytes());
    }

    /// View the used prefix of the buffer as a string slice.
    pub fn as_text(&self) -> (r: &str)
        requires
            self.wf(),
        ensures
            r@ == self.text(),
            r.spec_bytes() == self.used_bytes(),
    {
        let all = self.buffer.as_byte_slice();
        let prefix = slice_subrange(all, 0, self.len);
        proof {
            assert(prefix@ =~= self.used_bytes());
        }
        let r = bytes_as_str(prefix);
        proof {
            vstd::utf8::encode_utf8_decode_utf8(r@);
        }
        r
    }
}

} // verus!
