//! The copy-on-write string wrapper held by chunks.

use std::borrow::Cow;
use vstd::prelude::*;

verus! {

/// The length in bytes of the UTF-8 encoding of a piece of text.
pub open spec fn byte_len(s: Seq<char>) -> nat {
    vstd::utf8::encode_utf8(s).len()
}

/// A string that is either a zero-copy borrow of a region of the original
/// source or an owned, freshly allocated replacement string. Its byte length
/// always fits in 32 bits, the system-wide addressing limit; constructors
/// establish this and nothing ever grows the content.
#[derive(Debug)]
pub struct BasicCowStr<'text> {
    inner: Cow<'text, str>,
}

impl<'text> View for BasicCowStr<'text> {
    type V = Seq<char>;

    closed spec fn view(&self) -> Seq<char> {
        self.inner@
    }
}

impl<'text> BasicCowStr<'text> {
    /// The system-wide length cap: all content is short enough that every
    /// byte offset into it is representable as a `u32`.
    #[verifier::type_invariant]
    pub open spec fn wf(self) -> bool {
        byte_len(self@) <= u32::MAX
    }

    pub fn new(inner: Cow<'text, str>) -> (r: Self)
        requires
            byte_len(inner@) <= u32::MAX,
        ensures
            r@ == inner@,
    {
        Self { inner }
    }

    /// The content's byte length, always representable per the construction
    /// cap.
    pub fn len(&self) -> (r: u32)
        ensures
            r == byte_len(self@),
    {
        proof {
            use_type_invariant(self);
        }
        self.as_str().len() as u32
    }

    /// A read-only view of the content, with no allocation.
    pub fn as_str(&self) -> (r: &str)
        ensures
            r@ == self@,
    {
        match &self.inner {
            Cow::Borrowed(s) => s,
            Cow::Owned(s) => s.as_str(),
        }
    }
}

} // verus!
