//! Package names: the join key of every lookup and the directory-name
//! component of the per-package workspace.

use vstd::prelude::*;
use vstd::string::StrSliceExecFns;

verus! {

/// What a well-formed package name looks like: non-empty, and free of path
/// separators, so that joining it onto the cache root can never escape the
/// root or collapse to the root itself.
pub open spec fn valid_package_name(s: Seq<char>) -> bool {
    &&& s.len() > 0
    &&& forall|i: int| 0 <= i < s.len() ==> s[i] != '/' && s[i] != '\\'
}

/// An opaque, case-sensitive package identifier. A value of this type always
/// satisfies [`valid_package_name`]: the only constructor rejects everything
/// else.
pub struct PackageName {
    text: String,
}

impl View for PackageName {
    type V = Seq<char>;

    closed spec fn view(&self) -> Seq<char> {
        self.text@
    }
}

impl PackageName {
    /// Every reachable value is well formed.
    pub closed spec fn wf(&self) -> bool {
        valid_package_name(self.text@)
    }

    /// Accepts exactly the well-formed names.
    pub fn new(text: String) -> (r: Option<PackageName>)
        ensures
            (r is Some <==> valid_package_name(text@)),
            (r matches Some(p) ==> p@ == text@ && p.wf()),
    {
        let n = text.as_str().unicode_len();
        if n == 0 {
            return None;
        }
        let mut i: usize = 0;
        while i < n
            invariant
                i <= n,
                n == text@.len(),
                forall|j: int| 0 <= j < i ==> text@[j] != '/' && text@[j] != '\\',
            decreases n - i,
        {
            let c = text.as_str().get_char(i);
            if c == '/' || c == '\\' {
                return None;
            }
            i += 1;
        }
        Some(PackageName { text })
    }

    pub fn as_str(&self) -> (r: &str)
        ensures
            r@ == self@,
    {
        self.text.as_str()
    }
}

} // verus!
