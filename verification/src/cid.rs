//! Surface validation of persona content identifiers.
//!
//! A content identifier is accepted when something is left of it once the
//! white space around it is trimmed away. Nothing of its inner structure is
//! looked at.

use vstd::prelude::*;

verus! {

/// A content identifier: a pointer into content-addressed storage, kept as
/// the text that the caller supplied.
pub type CID = String;

/// Whether `c` has the Unicode property `White_Space`.
pub open spec fn is_white_space(c: char) -> bool {
    let u = c as u32;
    ||| 0x09 <= u <= 0x0d
    ||| u == 0x20
    ||| u == 0x85
    ||| u == 0xa0
    ||| u == 0x1680
    ||| 0x2000 <= u <= 0x200a
    ||| u == 0x2028
    ||| u == 0x2029
    ||| u == 0x202f
    ||| u == 0x205f
    ||| u == 0x3000
}

/// `s` without its leading white space.
pub open spec fn trim_start(s: Seq<char>) -> Seq<char>
    decreases s.len(),
{
    if s.len() > 0 && is_white_space(s.first()) {
        trim_start(s.drop_first())
    } else {
        s
    }
}

/// `s` without its trailing white space.
pub open spec fn trim_end(s: Seq<char>) -> Seq<char>
    decreases s.len(),
{
    if s.len() > 0 && is_white_space(s.last()) {
        trim_end(s.drop_last())
    } else {
        s
    }
}

/// `s` without the white space around it.
pub open spec fn trim(s: Seq<char>) -> Seq<char> {
    trim_end(trim_start(s))
}

/// The rule for content identifiers: the text is not empty once trimmed.
pub open spec fn valid_cid(s: Seq<char>) -> bool {
    trim(s).len() > 0
}

/// Whether some character of `s` is not white space.
pub open spec fn has_visible_char(s: Seq<char>) -> bool {
    exists|i: int| 0 <= i < s.len() && !is_white_space(#[trigger] s[i])
}

/// Trimming at the front leaves nothing exactly when every character is
/// white space, and what it leaves starts with a character that is not.
pub proof fn lemma_trim_start(s: Seq<char>)
    ensures
        trim_start(s).len() > 0 <==> has_visible_char(s),
        trim_start(s).len() > 0 ==> !is_white_space(trim_start(s).first()),
    decreases s.len(),
{
    if s.len() > 0 && is_white_space(s.first()) {
        let t = s.drop_first();
        lemma_trim_start(t);
        if has_visible_char(t) {
            let i = choose|i: int| 0 <= i < t.len() && !is_white_space(#[trigger] t[i]);
            assert(!is_white_space(s[i + 1]));
        }
        if has_visible_char(s) {
            let i = choose|i: int| 0 <= i < s.len() && !is_white_space(#[trigger] s[i]);
            assert(!is_white_space(t[i - 1]));
        }
    }
}

/// Trimming at the end leaves something exactly when some character is not
/// white space.
pub proof fn lemma_trim_end(s: Seq<char>)
    ensures
        trim_end(s).len() > 0 <==> has_visible_char(s),
    decreases s.len(),
{
    if s.len() > 0 && is_white_space(s.last()) {
        let t = s.drop_last();
        lemma_trim_end(t);
        if has_visible_char(t) {
            let i = choose|i: int| 0 <= i < t.len() && !is_white_space(#[trigger] t[i]);
            assert(!is_white_space(s[i]));
        }
        if has_visible_char(s) {
            let i = choose|i: int| 0 <= i < s.len() && !is_white_space(#[trigger] s[i]);
            assert(!is_white_space(t[i]));
        }
    }
}

/// A content identifier is valid exactly when it holds a character that is
/// not white space.
pub proof fn lemma_valid_cid_iff_visible(s: Seq<char>)
    ensures
        valid_cid(s) <==> has_visible_char(s),
{
    lemma_trim_start(s);
    lemma_trim_end(trim_start(s));
}

/// Tells whether `c` is white space.
fn is_whitespace_char(c: char) -> (b: bool)
    ensures
        b == is_white_space(c),
{
    let u: u32 = c as u32;
    (0x09 <= u && u <= 0x0d) || u == 0x20 || u == 0x85 || u == 0xa0 || u == 0x1680 || (0x2000 <= u
        && u <= 0x200a) || u == 0x2028 || u == 0x2029 || u == 0x202f || u == 0x205f || u == 0x3000
}

/// Tells whether `cid` is acceptable as a content identifier: whether it is
/// not empty once the white space around it is trimmed away.
pub fn is_valid_cid(cid: &str) -> (ok: bool)
    ensures
        ok == valid_cid(cid@),
{
    proof {
        lemma_valid_cid_iff_visible(cid@);
    }
    for c in it: cid.chars()
        invariant
            it.seq() == cid@,
            valid_cid(cid@) <==> has_visible_char(cid@),
            forall|j: int| 0 <= j < it.index() ==> is_white_space(#[trigger] cid@[j]),
    {
        if !is_whitespace_char(c) {
            return true;
        }
    }
    false
}

} // verus!
