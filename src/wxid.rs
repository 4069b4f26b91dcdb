//! Validated contact identifiers.

use vstd::prelude::*;
use vstd::string::*;
use crate::error::ApiError;

verus! {

/// An ASCII letter or digit.
pub open spec fn is_alphanumeric(c: char) -> bool {
    ('a' <= c && c <= 'z') || ('A' <= c && c <= 'Z') || ('0' <= c && c <= '9')
}

/// The prefix that every identifier starts with.
pub open spec fn wxid_prefix() -> Seq<char> {
    seq!['w', 'x', 'i', 'd', '_']
}

/// The identifier format: the prefix, then one or more ASCII letters or digits.
pub open spec fn is_wxid(s: Seq<char>) -> bool {
    &&& s.len() > wxid_prefix().len()
    &&& s.subrange(0, wxid_prefix().len() as int) == wxid_prefix()
    &&& forall|i: int| wxid_prefix().len() <= i < s.len() ==> is_alphanumeric(#[trigger] s[i])
}

fn char_is_alphanumeric(c: char) -> (r: bool)
    ensures
        r == is_alphanumeric(c),
{
    ('a' <= c && c <= 'z') || ('A' <= c && c <= 'Z') || ('0' <= c && c <= '9')
}

/// A contact identifier whose text has the identifier format.
#[derive(Debug)]
pub struct Wxid {
    text: String,
}

impl View for Wxid {
    type V = Seq<char>;

    closed spec fn view(&self) -> Seq<char> {
        self.text@
    }
}

impl Wxid {
    /// Whether the value keeps its format.
    pub closed spec fn well_formed(&self) -> bool {
        is_wxid(self.text@)
    }

    /// Checks `s` against the identifier format; a string that does not
    /// match is handed back in the error.
    pub fn parse(s: &str) -> (r: Result<Wxid, ApiError>)
        ensures
            r is Ok <==> is_wxid(s@),
            r matches Ok(w) ==> w@ == s@ && w.well_formed(),
            r matches Err(e) ==> e matches ApiError::InvalidWxid(t) && t@ == s@,
    {
        let prefix = "wxid_";
        proof {
            reveal_strlit("wxid_");
        }
        assert(prefix@ == wxid_prefix());
        let n = s.unicode_len();
        if n <= 5 {
            return Err(ApiError::InvalidWxid(s.to_owned()));
        }
        let mut i: usize = 0;
        while i < 5
            invariant
                i <= 5 < n,
                n == s@.len(),
                prefix@ == wxid_prefix(),
                forall|j: int| 0 <= j < i ==> s@[j] == wxid_prefix()[j],
            decreases 5 - i,
        {
            if s.get_char(i) != prefix.get_char(i) {
                assert(s@.subrange(0, 5)[i as int] != wxid_prefix()[i as int]);
                return Err(ApiError::InvalidWxid(s.to_owned()));
            }
            i = i + 1;
        }
        assert(s@.subrange(0, 5) =~= wxid_prefix());
        while i < n
            invariant
                5 <= i <= n,
                n == s@.len(),
                forall|j: int| 5 <= j < i ==> is_alphanumeric(#[trigger] s@[j]),
            decreases n - i,
        {
            if !char_is_alphanumeric(s.get_char(i)) {
                return Err(ApiError::InvalidWxid(s.to_owned()));
            }
            i = i + 1;
        }
        Ok(Wxid { text: s.to_owned() })
    }

    /// The identifier's text, exactly as it was given.
    pub fn as_str(&self) -> (r: &str)
        ensures
            r@ == self@,
    {
        self.text.as_str()
    }
}

} // verus!
