//! A minimal Unicode write-only stream trait.
//!
//! `TextWriter` is the smallest interface a text sink needs: write a string
//! slice, write a single character. Each writer exposes the characters it has
//! accepted as the abstract sequence `written()`; a successful write appends
//! exactly what was passed, and a failed write leaves the sink unchanged.
use crate::buffer::Buffer;
use crate::encoding::{bytes_as_str, encode_char_utf8, lemma_encode_singleton};
use crate::wrapper::StringWrapper;
use vstd::prelude::*;
use vstd::slice::slice_subrange;
use vstd::string::StringExecFns;
use vstd::string::StringSliceAdditionalSpecFns;
use vstd::string::StrSliceExecFns;
use vstd::utf8::encode_utf8;

verus! {

/// Indicates some kind of error during writing, without further details.
#[derive(Clone, Copy, Debug, PartialEq, Eq)]
pub struct Error;

/// A Unicode write-only stream.
///
/// A minimal implementation provides `inv` (the writer's own well-formedness,
/// `true` where it has none), `written` (the characters accepted so far) and
/// `write_str`; `write_char` has a default implementation based on
/// `write_str`, but it is recommended to override it if it can be done more
/// efficiently.
pub trait TextWriter: Sized {
    /// Well-formedness of the writer, preserved by every write.
    spec fn inv(&self) -> bool;

    /// The characters this writer has accepted so far.
    spec fn written(&self) -> Seq<char>;

    /// Write a string: all of it on success, none of it on failure.
    fn write_str(&mut self, s: &str) -> (r: Result<(), Error>)
        requires
            old(self).inv(),
        ensures
            final(self).inv(),
            r is Ok ==> final(self).written() == old(self).written() + s@,
            r is Err ==> final(self).written() == old(self).written(),
    ;

    /// Write a single character: appended on success, nothing on failure.
    fn write_char(&mut self, c: char) -> (r: Result<(), Error>)
        requires
            old(self).inv(),
        ensures
            final(self).inv(),
            r is Ok ==> final(self).written() == old(self).written() + seq![c],
            r is Err ==> final(self).written() == old(self).written(),
    {
        let (buf, n) = encode_char_utf8(c);
        let prefix = slice_subrange(buf.as_slice(), 0, n);
        proof {
            lemma_encode_singleton(c);
            vstd::utf8::encode_utf8_valid_utf8(seq![c]);
            assert(prefix@ =~= encode_utf8(seq![c]));
        }
        let s = bytes_as_str(prefix);
        proof {
            vstd::utf8::encode_utf8_decode_utf8(seq![c]);
            vstd::utf8::encode_utf8_decode_utf8(s@);
        }
        self.write_str(s)
    }
}

impl TextWriter for String {
    open spec fn inv(&self) -> bool {
        true
    }

    open spec fn written(&self) -> Seq<char> {
        self@
    }

    fn write_str(&mut self, s: &str) -> (r: Result<(), Error>) {
        self.append(s);
        Ok(())
    }

    fn write_char(&mut self, c: char) -> (r: Result<(), Error>) {
        push_char(self, c);
        Ok(())
    }
}

/// A fixed-capacity string accepts text while its extra capacity lasts: a
/// write that does not fit whole is refused and changes nothing.
impl<T> TextWriter for StringWrapper<T> where T: Buffer {
    open spec fn inv(&self) -> bool {
        self.wf()
    }

    open spec fn written(&self) -> Seq<char> {
        self.text()
    }

    fn write_str(&mut self, s: &str) -> (r: Result<(), Error>) {
        let sb: &[u8] = s.as_bytes();
        if sb.len() <= self.extra_capacity() {
            self.push_str(s);
            Ok(())
        } else {
            Err(Error)
        }
    }

    fn write_char(&mut self, c: char) -> (r: Result<(), Error>) {
        match self.push(c) {
            Ok(()) => Ok(()),
            Err(()) => Err(Error),
        }
    }
}

/// A writer that keeps code points directly, one `char` per element, rather
/// than UTF-8 bytes.
pub struct Ucs4 {
    /// The characters written so far.
    pub chars: Vec<char>,
}

impl TextWriter for Ucs4 {
    open spec fn inv(&self) -> bool {
        true
    }

    open spec fn written(&self) -> Seq<char> {
        self.chars@
    }

    fn write_str(&mut self, s: &str) -> (r: Result<(), Error>) {
        let n = s.unicode_len();
        let mut i: usize = 0;
        while i < n
            invariant
                i <= n,
                n == s@.len(),
                self.chars@ == old(self).chars@ + s@.take(i as int),
            decreases n - i,
        {
            let c = s.get_char(i);
            self.chars.push(c);
            i = i + 1;
            proof {
                assert(self.chars@ =~= old(self).chars@ + s@.take(i as int));
            }
        }
        proof {
            assert(s@.take(n as int) =~= s@);
        }
        Ok(())
    }

    fn write_char(&mut self, c: char) -> (r: Result<(), Error>) {
        self.chars.push(c);
        proof {
            assert(self.chars@ =~= old(self).chars@ + seq![c]);
        }
        Ok(())
    }
}

/// Write a fixed sample of text to any writer: "fo", then the character
/// U+00F4, then "42". Returns the first error, having written a prefix of the
/// sample.
pub fn write_to<W: TextWriter>(dest: &mut W) -> (r: Result<(), Error>)
    requires
        old(dest).inv(),
    ensures
        final(dest).inv(),
        r is Ok ==> final(dest).written() == old(dest).written() + "fo"@ + seq!['\u{f4}'] + "42"@,
        r is Err ==> final(dest).written() == old(dest).written() || final(dest).written() == old(
            dest,
        ).written() + "fo"@ || final(dest).written() == old(dest).written() + "fo"@
            + seq!['\u{f4}'],
{
    match dest.write_str("fo") {
        Ok(_) => {},
        Err(e) => {
            return Err(e);
        },
    }
    match dest.write_char('\u{f4}') {
        Ok(_) => {},
        Err(e) => {
            return Err(e);
        },
    }
    match dest.write_str("42") {
        Ok(_) => {},
        Err(e) => {
            return Err(e);
        },
    }
    Ok(())
}

/// Relies on std's String::push: appending one character to a string.
#[verifier::external_body]
fn push_char(s: &mut String, c: char)
    ensures
        final(s)@ == old(s)@ + seq![c],
{
    s.push(c);
}

} // verus!
