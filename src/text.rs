//! Plain text from the clipboard: blank text is skipped, anything else is
//! printed inside a fenced block.

use vstd::prelude::*;

verus! {

/// The characters with the Unicode `White_Space` property.
pub open spec fn white_space(c: char) -> bool {
    let v = c as u32;
    (0x9 <= v && v <= 0xd) || v == 0x20 || v == 0x85 || v == 0xa0 || v == 0x1680 || (0x2000 <= v
        && v <= 0x200a) || v == 0x2028 || v == 0x2029 || v == 0x202f || v == 0x205f || v == 0x3000
}

/// Text that is empty or made of white space only.
pub open spec fn blank(s: Seq<char>) -> bool {
    forall|i: int| 0 <= i < s.len() ==> white_space(#[trigger] s[i])
}

/// The fenced block for `s`: a line of three backticks, the text, and
/// another line of three backticks.
pub open spec fn fenced(s: Seq<char>) -> Seq<char> {
    seq!['`', '`', '`', '\n'] + s + seq!['\n', '`', '`', '`', '\n']
}

/// Whether `c` has the Unicode `White_Space` property (`char::is_whitespace`).
pub fn is_white_space(c: char) -> (r: bool)
    ensures
        r == white_space(c),
{
    let v = c as u32;
    (0x9 <= v && v <= 0xd) || v == 0x20 || v == 0x85 || v == 0xa0 || v == 0x1680 || (0x2000 <= v
        && v <= 0x200a) || v == 0x2028 || v == 0x2029 || v == 0x202f || v == 0x205f || v == 0x3000
}

/// Whether the text is empty once white space is trimmed from both ends.
pub fn is_blank(s: &str) -> (r: bool)
    ensures
        r == blank(s@),
{
    let n = s.unicode_len();
    let mut i: usize = 0;
    while i < n
        invariant
            i <= n == s@.len(),
            forall|j: int| 0 <= j < i ==> white_space(#[trigger] s@[j]),
        decreases n - i,
    {
        if !is_white_space(s.get_char(i)) {
            return false;
        }
        i = i + 1;
    }
    true
}

/// The text wrapped in a fenced block, unchanged inside it.
pub fn text_block(content: &str) -> (r: String)
    ensures
        r@ == fenced(content@),
{
    let mut r = String::from_str("```\n");
    r.append(content);
    r.append("\n```\n");
    proof {
        reveal_strlit("```\n");
        reveal_strlit("\n```\n");
    }
    r
}

/// What is printed for clipboard text: nothing when it is blank, else the
/// fenced block.
pub fn text_output(content: &str) -> (r: Option<String>)
    ensures
        blank(content@) ==> r is None,
        !blank(content@) ==> r is Some && r->Some_0@ == fenced(content@),
{
    if is_blank(content) {
        None
    } else {
        Some(text_block(content))
    }
}

} // verus!
