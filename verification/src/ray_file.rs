//! One file of the batch: a bare file name split into a base name and an
//! extension, with its display form and width measurements.
//!
//! A name is split on its last `.`; a name that starts with `.` (a dotfile)
//! or holds no `.` at all is not split and keeps an empty extension. Names
//! holding a directory separator are rejected.

use vstd::prelude::*;

use crate::RenameError;
use crate::contains_slash;
use crate::widths::{wide_offset, wide_offset_of};

verus! {

/// The index of the last `.` in `s`, or a negative value when `s` holds none.
pub open spec fn last_dot_index(s: Seq<char>) -> int
    decreases s.len(),
{
    if s.len() == 0 {
        -1
    } else if s[s.len() - 1] == '.' {
        s.len() - 1
    } else {
        last_dot_index(s.drop_last())
    }
}

/// True when `s` holds at least one `.`.
pub open spec fn contains_dot(s: Seq<char>) -> bool {
    exists|i: int| 0 <= i < s.len() && s[i] == '.'
}

/// `last_dot_index` names the rightmost dot, and is negative exactly on
/// dotless strings.
pub proof fn lemma_last_dot_index_props(s: Seq<char>)
    ensures
        -1 <= last_dot_index(s) < s.len(),
        contains_dot(s) <==> last_dot_index(s) >= 0,
        last_dot_index(s) >= 0 ==> s[last_dot_index(s)] == '.',
        forall|j: int| last_dot_index(s) < j < s.len() ==> s[j] != '.',
    decreases s.len(),
{
    if s.len() == 0 {
        assert(!contains_dot(s));
    } else if s[s.len() - 1] == '.' {
        assert(contains_dot(s));
    } else {
        let t = s.drop_last();
        lemma_last_dot_index_props(t);
        assert(forall|j: int| 0 <= j < t.len() ==> t[j] == s[j]);
        if contains_dot(s) {
            let w = choose|i: int| 0 <= i < s.len() && s[i] == '.';
            assert(w < s.len() - 1);
            assert(t[w] == '.');
            assert(contains_dot(t));
        }
        if contains_dot(t) {
            let w = choose|i: int| 0 <= i < t.len() && t[i] == '.';
            assert(s[w] == '.');
            assert(contains_dot(s));
        }
        assert(last_dot_index(s) == last_dot_index(t));
        assert forall|j: int| last_dot_index(s) < j < s.len() implies s[j] != '.' by {
            if j < s.len() - 1 {
                assert(last_dot_index(t) < j < t.len());
                assert(t[j] != '.');
                assert(t[j] == s[j]);
            } else {
                assert(j == s.len() - 1);
            }
        }
    }
}

/// The base name that splitting `s` yields: `s` itself for a dotfile or a
/// dotless name, else everything before the last `.`.
pub open spec fn split_base(s: Seq<char>) -> Seq<char> {
    if s.len() > 0 && s[0] == '.' {
        s
    } else if last_dot_index(s) < 0 {
        s
    } else {
        s.take(last_dot_index(s))
    }
}

/// The extension that splitting `s` yields: empty for a dotfile or a dotless
/// name, else everything after the last `.`.
pub open spec fn split_ext(s: Seq<char>) -> Seq<char> {
    if s.len() > 0 && s[0] == '.' {
        Seq::empty()
    } else if last_dot_index(s) < 0 {
        Seq::empty()
    } else {
        s.subrange(last_dot_index(s) + 1, s.len() as int)
    }
}

/// Splitting a name that is no dotfile and holds a dot, then rejoining the
/// two parts with a dot, reproduces the name exactly.
pub proof fn lemma_split_round_trip(s: Seq<char>)
    requires
        s.len() > 0,
        s[0] != '.',
        contains_dot(s),
    ensures
        split_base(s) + seq!['.'] + split_ext(s) == s,
{
    lemma_last_dot_index_props(s);
    assert(split_base(s) + seq!['.'] + split_ext(s) =~= s);
}

/// A name that begins with `.` is never split: the whole name is the base
/// name and the extension is empty.
pub proof fn lemma_dotfile_not_split(s: Seq<char>)
    requires
        s.len() > 0,
        s[0] == '.',
        forall|i: int| 1 <= i < s.len() ==> s[i] != '.',
    ensures
        split_base(s) == s,
        split_ext(s).len() == 0,
{
}

/// One entry of the batch: a file name with its extension taken off.
#[derive(Clone)]
pub struct RayFile {
    /// The file name, excluding the extension.
    pub f_name: String,
    /// The extension, without its leading dot; empty when the name has none.
    pub f_ext: String,
}

impl RayFile {
    /// The base name as characters.
    pub open spec fn base(self) -> Seq<char> {
        self.f_name@
    }

    /// The extension as characters.
    pub open spec fn ext(self) -> Seq<char> {
        self.f_ext@
    }

    /// The full display length in characters: base name, plus a dot and the
    /// extension when one is present.
    pub open spec fn full_len_spec(self) -> nat {
        self.base().len() + if self.ext().len() == 0 {
            0nat
        } else {
            1nat + self.ext().len()
        }
    }

    /// The display name as characters: the base name, then a dot and the
    /// extension when one is present.
    pub open spec fn display_spec(self) -> Seq<char> {
        if self.ext().len() == 0 {
            self.base()
        } else {
            self.base() + seq!['.'] + self.ext()
        }
    }

    /// The display length fits the machine's word.
    pub open spec fn wf(self) -> bool {
        self.full_len_spec() <= usize::MAX
    }

    /// Splits a bare file name into base name and extension. Rejects a name
    /// holding a directory separator.
    pub fn from(f_full_name: String) -> (r: Result<RayFile, RenameError>)
        ensures
            match r {
                Ok(f) => {
                    &&& !contains_slash(f_full_name@)
                    &&& f.base() == split_base(f_full_name@)
                    &&& f.ext() == split_ext(f_full_name@)
                    &&& f.wf()
                },
                Err(e) => e == RenameError::PathSeparator && contains_slash(f_full_name@),
            },
    {
        let ghost s: Seq<char> = f_full_name@;
        let n: usize = f_full_name.as_str().unicode_len();

        let mut i: usize = 0;
        while i < n
            invariant
                0 <= i <= n,
                n as nat == s.len(),
                s == f_full_name@,
                forall|j: int| 0 <= j < i ==> s[j] != '/',
            decreases n - i,
        {
            if f_full_name.as_str().get_char(i) == '/' {
                return Err(RenameError::PathSeparator);
            }
            i = i + 1;
        }
        assert(!contains_slash(s));

        if n > 0 && f_full_name.as_str().get_char(0) == '.' {
            return Ok(RayFile { f_name: f_full_name, f_ext: String::new() });
        }

        let mut k: usize = n;
        while k > 0
            invariant
                0 <= k <= n,
                n as nat == s.len(),
                s == f_full_name@,
                !contains_slash(s),
                !(s.len() > 0 && s[0] == '.'),
                forall|j: int| k <= j < n ==> s[j] != '.',
            decreases k,
        {
            if f_full_name.as_str().get_char(k - 1) == '.' {
                proof {
                    lemma_last_dot_index_props(s);
                    assert(contains_dot(s));
                    assert(last_dot_index(s) == k - 1);
                }
                let base = String::from_str(f_full_name.as_str().substring_char(0, k - 1));
                let ext = String::from_str(f_full_name.as_str().substring_char(k, n));
                return Ok(RayFile { f_name: base, f_ext: ext });
            }
            k = k - 1;
        }
        proof {
            lemma_last_dot_index_props(s);
            assert(!contains_dot(s));
        }
        Ok(RayFile { f_name: f_full_name, f_ext: String::new() })
    }

    /// The base name.
    pub fn base_name(&self) -> (r: &str)
        ensures
            r@ == self.base(),
    {
        self.f_name.as_str()
    }

    /// The extension, empty when the name has none.
    pub fn extension(&self) -> (r: &str)
        ensures
            r@ == self.ext(),
    {
        self.f_ext.as_str()
    }

    /// The display name: base name, then a dot and the extension when one is
    /// present.
    pub fn display_name(&self) -> (r: String)
        ensures
            r@ == self.display_spec(),
    {
        if self.f_ext.as_str().is_empty() {
            self.f_name.clone()
        } else {
            let mut out = self.f_name.clone();
            out.append(".");
            out.append(self.f_ext.as_str());
            proof {
                reveal_strlit(".");
                assert(out@ =~= self.display_spec());
            }
            out
        }
    }

    /// The full display length in characters.
    pub fn full_len(&self) -> (r: usize)
        requires
            self.wf(),
        ensures
            r as nat == self.full_len_spec(),
    {
        let base_len: usize = self.f_name.as_str().unicode_len();
        if self.f_ext.as_str().is_empty() {
            base_len
        } else {
            base_len + 1 + self.f_ext.as_str().unicode_len()
        }
    }

    /// The extension's length in characters.
    pub fn ext_len(&self) -> (r: usize)
        ensures
            r as nat == self.ext().len(),
    {
        self.f_ext.as_str().unicode_len()
    }

    /// The wide-character offset of the base name: one per character that a
    /// terminal draws over two cells.
    pub fn get_chinese_length_offset_value(&self) -> (r: usize)
        ensures
            r as nat == wide_offset(self.base()),
    {
        wide_offset_of(self.f_name.as_str())
    }

    /// The entry this one renames to: the given base name with the extension
    /// carried over unchanged.
    pub fn renamed(&self, new_base: String) -> (r: RayFile)
        ensures
            r.base() == new_base@,
            r.ext() == self.ext(),
    {
        RayFile { f_name: new_base, f_ext: self.f_ext.clone() }
    }
}

} // verus!
