use vstd::prelude::*;
use vstd::utf8::encode_utf8;

use crate::error::{Error, ErrorKind, Result};

verus! {

/// The number of bytes that the characters `s` take once encoded.
pub open spec fn byte_length(s: Seq<char>) -> nat {
    encode_utf8(s).len()
}

/// Relies on `String::push`: the character is appended at the end.
#[verifier::external_body]
fn append_char(text: &mut std::string::String, c: char)
    ensures
        final(text)@ == old(text)@.push(c),
{
    text.push(c)
}

/// A text that never takes more than `N` bytes.
#[derive(Debug, Clone)]
pub struct String<const N: usize> {
    text: std::string::String,
}

impl<const N: usize> View for String<N> {
    type V = Seq<char>;

    closed spec fn view(&self) -> Seq<char> {
        self.text@
    }
}

impl<const N: usize> PartialEq for String<N> {
    fn eq(&self, other: &Self) -> (r: bool) {
        self.text == other.text
    }
}

impl<const N: usize> vstd::std_specs::cmp::PartialEqSpecImpl for String<N> {
    open spec fn obeys_eq_spec() -> bool {
        true
    }

    open spec fn eq_spec(&self, other: &Self) -> bool {
        self@ == other@
    }
}

impl<const N: usize> String<N> {
    /// The shape every value of this type has: at most `N` bytes.
    pub open spec fn wf(&self) -> bool {
        byte_length(self@) <= N
    }

    /// Creates an empty text.
    pub fn empty() -> (r: Self)
        ensures
            r@ == Seq::<char>::empty(),
            r.wf(),
    {
        let r = String { text: std::string::String::new() };
        proof {
            assert(encode_utf8(r@) =~= Seq::<u8>::empty());
        }
        r
    }

    /// Creates a text holding a copy of `text`.
    ///
    /// # Errors
    ///
    /// If `text` takes more than `N` bytes, a `FixedText` error is returned.
    pub fn new(text: &str) -> (r: Result<Self>)
        ensures
            r is Ok <==> byte_length(text@) <= N,
            r matches Ok(s) ==> s@ == text@ && s.wf(),
            r matches Err(e) ==> e.spec_kind() == ErrorKind::FixedText,
    {
        if text.as_bytes().len() <= N {
            Ok(String { text: text.to_owned() })
        } else {
            Err(
                Error::new(
                    ErrorKind::FixedText,
                    "Impossible to create a new stack string.
Characters might not be UTF-8 or its length is wrong.",
                ),
            )
        }
    }

    /// Creates a text holding a copy of `text`, or an empty text when `text`
    /// takes more than `N` bytes: the failure is not reported.
    pub fn infallible(text: &str) -> (r: Self)
        ensures
            byte_length(text@) <= N ==> r@ == text@,
            byte_length(text@) > N ==> r@ == Seq::<char>::empty(),
            r.wf(),
    {
        match Self::new(text) {
            Ok(s) => s,
            Err(_) => Self::empty(),
        }
    }

    /// Checks whether the text is empty.
    pub fn is_empty(&self) -> (r: bool)
        ensures
            r == (self@.len() == 0),
    {
        self.text.as_str().is_empty()
    }

    /// Returns the text as a string slice.
    pub fn as_str(&self) -> (r: &str)
        ensures
            r@ == self@,
    {
        self.text.as_str()
    }

    /// Appends `text`.
    ///
    /// # Errors
    ///
    /// If the result would take more than `N` bytes, a `FixedText` error is
    /// returned and the text is left as it was.
    pub fn push(&mut self, text: &str) -> (r: Result<()>)
        ensures
            r is Ok <==> byte_length(old(self)@ + text@) <= N,
            r is Ok ==> final(self)@ == old(self)@ + text@,
            r is Err ==> final(self)@ == old(self)@,
            r matches Err(e) ==> e.spec_kind() == ErrorKind::FixedText,
            old(self).wf() ==> final(self).wf(),
    {
        let mut longer = self.text.clone();
        longer.append(text);
        if longer.as_str().as_bytes().len() <= N {
            self.text = longer;
            Ok(())
        } else {
            Err(
                Error::new(
                    ErrorKind::FixedText,
                    "Impossible to add another stack string at the end of the current one.",
                ),
            )
        }
    }

    /// Appends one character.
    ///
    /// # Errors
    ///
    /// If the result would take more than `N` bytes, a `FixedText` error is
    /// returned and the text is left as it was.
    pub fn push_char(&mut self, c: char) -> (r: Result<()>)
        ensures
            r is Ok <==> byte_length(old(self)@.push(c)) <= N,
            r is Ok ==> final(self)@ == old(self)@.push(c),
            r is Err ==> final(self)@ == old(self)@,
            r matches Err(e) ==> e.spec_kind() == ErrorKind::FixedText,
            old(self).wf() ==> final(self).wf(),
    {
        let mut longer = self.text.clone();
        append_char(&mut longer, c);
        if longer.as_str().as_bytes().len() <= N {
            self.text = longer;
            Ok(())
        } else {
            Err(
                Error::new(
                    ErrorKind::FixedText,
                    "Impossible to add a char at the end of the stack string.",
                ),
            )
        }
    }
}

} // verus!
