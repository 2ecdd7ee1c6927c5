//! Reading the answer to a confirmation prompt.

use vstd::prelude::*;
use crate::text::chars_of;

verus! {

/// The characters with the Unicode property `White_Space`.
pub open spec fn white_space(c: char) -> bool {
    let code = c as u32;
    ||| 0x09 <= code <= 0x0d
    ||| code == 0x20
    ||| code == 0x85
    ||| code == 0xa0
    ||| code == 0x1680
    ||| 0x2000 <= code <= 0x200a
    ||| code == 0x2028
    ||| code == 0x2029
    ||| code == 0x202f
    ||| code == 0x205f
    ||| code == 0x3000
}

/// `text` without the white space it begins with.
pub open spec fn trim_start(text: Seq<char>) -> Seq<char>
    decreases text.len(),
{
    if text.len() > 0 && white_space(text.first()) {
        trim_start(text.drop_first())
    } else {
        text
    }
}

/// `text` without the white space it ends with.
pub open spec fn trim_end(text: Seq<char>) -> Seq<char>
    decreases text.len(),
{
    if text.len() > 0 && white_space(text.last()) {
        trim_end(text.drop_last())
    } else {
        text
    }
}

/// `text` without the white space around it.
pub open spec fn trimmed(text: Seq<char>) -> Seq<char> {
    trim_end(trim_start(text))
}

/// Whether a line of input consents: trimmed, it is exactly `Y`, `y` or
/// `yes`. No other spelling counts, and neither does an empty line.
pub open spec fn accepts(line: Seq<char>) -> bool {
    let answer = trimmed(line);
    answer == "Y"@ || answer == "y"@ || answer == "yes"@
}

/// Whether `c` is white space.
pub fn is_white_space(c: char) -> (white: bool)
    ensures
        white == white_space(c),
{
    let code: u32 = c as u32;
    (0x09 <= code && code <= 0x0d) || code == 0x20 || code == 0x85 || code == 0xa0 || code
        == 0x1680 || (0x2000 <= code && code <= 0x200a) || code == 0x2028 || code == 0x2029
        || code == 0x202f || code == 0x205f || code == 0x3000
}

/// Whether the user's answer to a confirmation prompt is a yes.
pub fn is_confirmation(line: &str) -> (accepted: bool)
    ensures
        accepted == accepts(line@),
{
    let chars = chars_of(line);
    let len = chars.len();
    let mut start: usize = 0;
    assert(chars@.skip(0) =~= chars@);
    while start < len && is_white_space(chars[start])
        invariant
            len == chars@.len(),
            start <= len,
            trim_start(chars@) == trim_start(chars@.skip(start as int)),
        decreases len - start,
    {
        assert(chars@.skip(start as int).drop_first() =~= chars@.skip(start + 1));
        start += 1;
    }
    let mut end: usize = len;
    while end > start && is_white_space(chars[end - 1])
        invariant
            len == chars@.len(),
            start <= end <= len,
            trim_end(chars@.skip(start as int)) == trim_end(
                chars@.subrange(start as int, end as int),
            ),
        decreases end - start,
    {
        assert(chars@.subrange(start as int, end as int).drop_last() =~= chars@.subrange(
            start as int,
            end - 1,
        ));
        end -= 1;
    }
    let ghost answer = chars@.subrange(start as int, end as int);
    proof {
        assert(chars@.skip(start as int) =~= chars@.subrange(start as int, len as int));
        assert(trim_start(chars@) == chars@.skip(start as int));
        assert(trimmed(line@) == answer);
        reveal_strlit("Y");
        reveal_strlit("y");
        reveal_strlit("yes");
    }
    let count = end - start;
    if count == 1 {
        let accepted = chars[start] == 'Y' || chars[start] == 'y';
        assert(answer[0] == chars@[start as int]);
        assert(accepted == (answer =~= "Y"@ || answer =~= "y"@));
        accepted
    } else if count == 3 {
        let accepted = chars[start] == 'y' && chars[start + 1] == 'e' && chars[start + 2] == 's';
        assert(answer[0] == chars@[start as int] && answer[1] == chars@[start + 1] && answer[2]
            == chars@[start + 2]);
        assert(accepted == (answer =~= "yes"@));
        accepted
    } else {
        false
    }
}

} // verus!
