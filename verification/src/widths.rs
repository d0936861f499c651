//! Display-width measurement for mixed ASCII / East-Asian text, and the
//! space-padding used to lay the confirmation table out in fixed columns.
//!
//! A character from one of the CJK Unified Ideograph blocks occupies two
//! terminal cells; every such character in a name contributes one to the
//! name's wide-character offset, which the table rendering subtracts from
//! the padding width to keep the columns visually aligned.

use vstd::prelude::*;

verus! {

// Inclusive code-point bounds of the CJK Unified Ideograph blocks
// (basic block, extensions A through I, and the compatibility block),
// following Unicode 15.1.
pub const CJK_BASIC_LO: u32 = 0x4E00;
pub const CJK_BASIC_HI: u32 = 0x9FFF;
pub const CJK_EXT_A_LO: u32 = 0x3400;
pub const CJK_EXT_A_HI: u32 = 0x4DBF;
pub const CJK_EXT_B_LO: u32 = 0x20000;
pub const CJK_EXT_B_HI: u32 = 0x2A6DF;
pub const CJK_EXT_C_LO: u32 = 0x2A700;
pub const CJK_EXT_C_HI: u32 = 0x2EE5F;
pub const CJK_EXT_G_LO: u32 = 0x30000;
pub const CJK_EXT_G_HI: u32 = 0x323AF;
pub const CJK_COMPAT_LO: u32 = 0xF900;
pub const CJK_COMPAT_HI: u32 = 0xFAFF;

/// True when `c` is taken to occupy two terminal cells: `c` is not ASCII
/// and lies in one of the CJK Unified Ideograph blocks.
pub open spec fn is_wide_char(c: char) -> bool {
    let u = c as u32;
    &&& u > 0x7F
    &&& {
        ||| CJK_BASIC_LO <= u <= CJK_BASIC_HI
        ||| CJK_EXT_A_LO <= u <= CJK_EXT_A_HI
        ||| CJK_EXT_B_LO <= u <= CJK_EXT_B_HI
        ||| CJK_EXT_C_LO <= u <= CJK_EXT_C_HI
        ||| CJK_EXT_G_LO <= u <= CJK_EXT_G_HI
        ||| CJK_COMPAT_LO <= u <= CJK_COMPAT_HI
    }
}

/// How many characters of `s` are wide: the number of extra terminal cells
/// the string consumes beyond its character count.
pub open spec fn wide_offset(s: Seq<char>) -> nat
    decreases s.len(),
{
    if s.len() == 0 {
        0
    } else {
        wide_offset(s.drop_last()) + (if is_wide_char(s.last()) {
            1nat
        } else {
            0nat
        })
    }
}

/// The wide-character offset never exceeds the character count.
pub proof fn lemma_wide_offset_le_len(s: Seq<char>)
    ensures
        wide_offset(s) <= s.len(),
    decreases s.len(),
{
    if s.len() > 0 {
        lemma_wide_offset_le_len(s.drop_last());
    }
}

proof fn lemma_wide_offset_take_step(s: Seq<char>, i: int)
    requires
        0 <= i < s.len(),
    ensures
        wide_offset(s.take(i + 1)) == wide_offset(s.take(i)) + (if is_wide_char(s[i]) {
            1nat
        } else {
            0nat
        }),
{
    assert(s.take(i + 1).drop_last() =~= s.take(i));
    assert(s.take(i + 1).last() == s[i]);
}

/// A string of ASCII characters alone has wide-character offset zero.
pub proof fn lemma_ascii_wide_offset_zero(s: Seq<char>)
    requires
        forall|i: int| 0 <= i < s.len() ==> (#[trigger] s[i]) as u32 <= 0x7F,
    ensures
        wide_offset(s) == 0,
    decreases s.len(),
{
    if s.len() > 0 {
        assert(forall|i: int|
            0 <= i < s.drop_last().len() ==> (#[trigger] s.drop_last()[i]) as u32 <= 0x7F);
        lemma_ascii_wide_offset_zero(s.drop_last());
        assert(s.last() == s[s.len() - 1]);
    }
}

/// A string drawn entirely from the basic CJK Unified Ideographs block has
/// a wide-character offset equal to its character count.
pub proof fn lemma_cjk_wide_offset_full(s: Seq<char>)
    requires
        forall|i: int|
            0 <= i < s.len() ==> CJK_BASIC_LO <= (#[trigger] s[i]) as u32 <= CJK_BASIC_HI,
    ensures
        wide_offset(s) == s.len(),
    decreases s.len(),
{
    if s.len() > 0 {
        assert(forall|i: int|
            0 <= i < s.drop_last().len() ==> CJK_BASIC_LO <= (#[trigger] s.drop_last()[i]) as u32
                <= CJK_BASIC_HI);
        lemma_cjk_wide_offset_full(s.drop_last());
        assert(s.last() == s[s.len() - 1]);
    }
}

/// `n` space characters.
pub open spec fn spaces(n: nat) -> Seq<char> {
    Seq::new(n, |i: int| ' ')
}

/// `s` left-justified in a field of `w` cells: `s` unchanged when it already
/// fills the field, else `s` followed by spaces up to `w` characters.
pub open spec fn pad_right_spec(s: Seq<char>, w: nat) -> Seq<char> {
    if s.len() >= w {
        s
    } else {
        s + spaces((w - s.len()) as nat)
    }
}

/// `s` centred in a field of `w` cells, the odd spare space going to the
/// right, as the header labels are laid out.
pub open spec fn center_spec(s: Seq<char>, w: nat) -> Seq<char> {
    if s.len() >= w {
        s
    } else {
        let pad = (w - s.len()) as nat;
        spaces(pad / 2) + s + spaces((pad - pad / 2) as nat)
    }
}

/// True when `c` is counted as a wide character.
pub fn char_is_wide(c: char) -> (r: bool)
    ensures
        r == is_wide_char(c),
{
    let u = c as u32;
    u > 0x7F && ((CJK_BASIC_LO <= u && u <= CJK_BASIC_HI) || (CJK_EXT_A_LO <= u && u
        <= CJK_EXT_A_HI) || (CJK_EXT_B_LO <= u && u <= CJK_EXT_B_HI) || (CJK_EXT_C_LO <= u && u
        <= CJK_EXT_C_HI) || (CJK_EXT_G_LO <= u && u <= CJK_EXT_G_HI) || (CJK_COMPAT_LO <= u && u
        <= CJK_COMPAT_HI))
}

/// The wide-character offset of `s`.
pub fn wide_offset_of(s: &str) -> (r: usize)
    ensures
        r as nat == wide_offset(s@),
{
    let n: usize = s.unicode_len();
    let mut count: usize = 0;
    let mut i: usize = 0;
    while i < n
        invariant
            0 <= i <= n,
            n as nat == s@.len(),
            count as nat == wide_offset(s@.take(i as int)),
            count <= i,
        decreases n - i,
    {
        let c = s.get_char(i);
        proof {
            lemma_wide_offset_take_step(s@, i as int);
        }
        if char_is_wide(c) {
            count = count + 1;
        }
        i = i + 1;
    }
    proof {
        assert(s@.take(n as int) =~= s@);
    }
    count
}

/// Appends `n` spaces to `out`.
fn push_spaces(out: &mut String, n: usize)
    ensures
        final (out)@ == old(out)@ + spaces(n as nat),
{
    let mut k: usize = 0;
    while k < n
        invariant
            0 <= k <= n,
            out@ == old(out)@ + spaces(k as nat),
        decreases n - k,
    {
        out.append(" ");
        proof {
            reveal_strlit(" ");
            assert(old(out)@ + spaces(k as nat) + " "@ =~= old(out)@ + spaces((k + 1) as nat));
        }
        k = k + 1;
    }
    proof {
        assert(out@ =~= old(out)@ + spaces(n as nat));
    }
}

/// `s` left-justified with spaces in a field of `width` characters.
pub fn pad_right(s: &str, width: usize) -> (r: String)
    ensures
        r@ == pad_right_spec(s@, width as nat),
{
    let n: usize = s.unicode_len();
    if n >= width {
        String::from_str(s)
    } else {
        let mut out = String::from_str(s);
        push_spaces(&mut out, width - n);
        proof {
            assert(out@ =~= pad_right_spec(s@, width as nat));
        }
        out
    }
}

/// `s` centred with spaces in a field of `width` characters.
pub fn center_in_width(s: &str, width: usize) -> (r: String)
    ensures
        r@ == center_spec(s@, width as nat),
{
    let n: usize = s.unicode_len();
    if n >= width {
        String::from_str(s)
    } else {
        let pad: usize = width - n;
        let left: usize = pad / 2;
        let mut out = String::new();
        push_spaces(&mut out, left);
        out.append(s);
        push_spaces(&mut out, pad - left);
        proof {
            assert(out@ =~= center_spec(s@, width as nat));
        }
        out
    }
}

} // verus!
