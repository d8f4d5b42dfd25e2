//! Reading of console lines: trimming and the exit command.

use vstd::prelude::*;
use vstd::std_specs::iter::IteratorSpec;
use vstd::string::StrSliceExecFns;

verus! {

/// Whether `c` is white space: one of the code points that carry Unicode's
/// `White_Space` property.
pub open spec fn is_whitespace(c: char) -> bool {
    let u = c as u32;
    ||| 0x09 <= u <= 0x0D
    ||| u == 0x20
    ||| u == 0x85
    ||| u == 0xA0
    ||| u == 0x1680
    ||| 0x2000 <= u <= 0x200A
    ||| u == 0x2028
    ||| u == 0x2029
    ||| u == 0x202F
    ||| u == 0x205F
    ||| u == 0x3000
}

/// Whether `c` is white space.
pub fn char_is_whitespace(c: char) -> (white: bool)
    ensures
        white == is_whitespace(c),
{
    let u: u32 = c as u32;
    (0x09 <= u && u <= 0x0D) || u == 0x20 || u == 0x85 || u == 0xA0 || u == 0x1680 || (0x2000 <= u
        && u <= 0x200A) || u == 0x2028 || u == 0x2029 || u == 0x202F || u == 0x205F || u == 0x3000
}

/// `s` without the white space at its beginning.
pub open spec fn trim_start(s: Seq<char>) -> Seq<char>
    decreases s.len(),
{
    if s.len() > 0 && is_whitespace(s.first()) {
        trim_start(s.drop_first())
    } else {
        s
    }
}

/// `s` without the white space at its end.
pub open spec fn trim_end(s: Seq<char>) -> Seq<char>
    decreases s.len(),
{
    if s.len() > 0 && is_whitespace(s.last()) {
        trim_end(s.drop_last())
    } else {
        s
    }
}

/// `s` without the white space at its beginning and at its end.
pub open spec fn trimmed(s: Seq<char>) -> Seq<char> {
    trim_end(trim_start(s))
}

/// Where the first `from` characters of `s` are white space and the next one
/// is not, trimming the start drops exactly those.
proof fn lemma_trim_start_at(s: Seq<char>, from: int)
    requires
        0 <= from <= s.len(),
        forall|i: int| 0 <= i < from ==> is_whitespace(#[trigger] s[i]),
        from < s.len() ==> !is_whitespace(s[from]),
    ensures
        trim_start(s) == s.subrange(from, s.len() as int),
    decreases from,
{
    if from == 0 {
        assert(s.subrange(0, s.len() as int) == s);
    } else {
        let rest = s.drop_first();
        assert forall|i: int| 0 <= i < from - 1 implies is_whitespace(#[trigger] rest[i]) by {
            assert(rest[i] == s[i + 1]);
        }
        lemma_trim_start_at(rest, from - 1);
        assert(rest.subrange(from - 1, rest.len() as int) == s.subrange(from, s.len() as int));
    }
}

/// Where everything of `s` from `to` on is white space and the character
/// before `to` is not, trimming the end keeps exactly the first `to`.
proof fn lemma_trim_end_at(s: Seq<char>, to: int)
    requires
        0 <= to <= s.len(),
        forall|i: int| to <= i < s.len() ==> is_whitespace(#[trigger] s[i]),
        to > 0 ==> !is_whitespace(s[to - 1]),
    ensures
        trim_end(s) == s.subrange(0, to),
    decreases s.len() - to,
{
    if to == s.len() {
        assert(s.subrange(0, to) == s);
    } else {
        let rest = s.drop_last();
        lemma_trim_end_at(rest, to);
        assert(rest.subrange(0, to) == s.subrange(0, to));
    }
}

/// Trimming cuts a line at its first and after its last character that is
/// not white space: where `from` is the place of the first and `to` the
/// place after the last, what is left is the line from `from` up to `to`.
pub proof fn lemma_trimmed_between(s: Seq<char>, from: int, to: int)
    requires
        0 <= from < to <= s.len(),
        forall|i: int| 0 <= i < from ==> is_whitespace(#[trigger] s[i]),
        !is_whitespace(s[from]),
        !is_whitespace(s[to - 1]),
        forall|i: int| to <= i < s.len() ==> is_whitespace(#[trigger] s[i]),
    ensures
        trimmed(s) == s.subrange(from, to),
{
    lemma_trim_start_at(s, from);
    let tail = s.subrange(from, s.len() as int);
    assert forall|i: int| to - from <= i < tail.len() implies is_whitespace(#[trigger] tail[i]) by {
        assert(tail[i] == s[i + from]);
    }
    assert(tail[to - from - 1] == s[to - 1]);
    lemma_trim_end_at(tail, to - from);
    assert(tail.subrange(0, to - from) == s.subrange(from, to));
}

/// A line of nothing but white space trims to the empty text.
pub proof fn lemma_trimmed_blank(s: Seq<char>)
    requires
        forall|i: int| 0 <= i < s.len() ==> is_whitespace(#[trigger] s[i]),
    ensures
        trimmed(s) == Seq::<char>::empty(),
{
    lemma_trim_start_at(s, s.len() as int);
    assert(s.subrange(s.len() as int, s.len() as int) == Seq::<char>::empty());
}

/// What is left of a text whose start was trimmed does not begin with white
/// space.
proof fn lemma_trim_start_leaves_no_white_start(s: Seq<char>)
    ensures
        trim_start(s).len() > 0 ==> !is_whitespace(trim_start(s).first()),
    decreases s.len(),
{
    if s.len() > 0 && is_whitespace(s.first()) {
        lemma_trim_start_leaves_no_white_start(s.drop_first());
    }
}

/// What is left of a text whose end was trimmed does not end with white
/// space, and it begins as the text did.
proof fn lemma_trim_end_leaves_no_white_end(s: Seq<char>)
    ensures
        trim_end(s).len() > 0 ==> !is_whitespace(trim_end(s).last()),
        s.len() > 0 && !is_whitespace(s.first()) ==> trim_end(s).len() > 0 && trim_end(s).first()
            == s.first(),
    decreases s.len(),
{
    if s.len() > 0 && is_whitespace(s.last()) {
        lemma_trim_end_leaves_no_white_end(s.drop_last());
    }
}

/// A trimmed text neither begins nor ends with white space, and trimming it
/// once more changes nothing.
pub proof fn lemma_trimmed_is_trimmed(s: Seq<char>)
    ensures
        trimmed(s).len() > 0 ==> !is_whitespace(trimmed(s).first()) && !is_whitespace(
            trimmed(s).last(),
        ),
        trimmed(trimmed(s)) == trimmed(s),
{
    lemma_trim_start_leaves_no_white_start(s);
    lemma_trim_end_leaves_no_white_end(trim_start(s));
}

/// The line without the white space around it.
pub fn trim(line: &str) -> (text: &str)
    ensures
        text@ == trimmed(line@),
{
    let len = line.unicode_len();
    let mut start: usize = len;
    let mut end: usize = 0;
    let mut i: usize = 0;
    for c in it: line.chars()
        invariant
            len == line@.len(),
            it.seq() == line@,
            i == it.index(),
            end <= i <= len,
            end == 0 ==> start == len,
            end > 0 ==> start < end,
            forall|j: int| 0 <= j < i && j < start ==> is_whitespace(#[trigger] line@[j]),
            start < len ==> !is_whitespace(line@[start as int]),
            forall|j: int| end <= j < i ==> is_whitespace(#[trigger] line@[j]),
            end > 0 ==> !is_whitespace(line@[end - 1]),
    {
        if !char_is_whitespace(c) {
            if end == 0 {
                start = i;
            }
            end = i + 1;
        }
        i = i + 1;
    }
    if end == 0 {
        proof {
            lemma_trimmed_blank(line@);
        }
        line.substring_char(0, 0)
    } else {
        proof {
            lemma_trimmed_between(line@, start as int, end as int);
        }
        line.substring_char(start, end)
    }
}

/// The code of `c` with the ASCII capital letters mapped to their small
/// letters; every other character keeps its code.
pub open spec fn ascii_folded(c: char) -> int {
    if 'A' <= c <= 'Z' {
        c as int + 32
    } else {
        c as int
    }
}

/// Whether `a` and `b` are the same text when case is ignored in ASCII
/// letters.
pub open spec fn eq_ignore_ascii_case(a: Seq<char>, b: Seq<char>) -> bool {
    &&& a.len() == b.len()
    &&& forall|i: int| 0 <= i < a.len() ==> ascii_folded(#[trigger] a[i]) == ascii_folded(b[i])
}

/// Whether `line`, once trimmed, is the exit command: the word `exit` in any
/// mix of capital and small letters.
pub open spec fn is_exit(line: Seq<char>) -> bool {
    eq_ignore_ascii_case(trimmed(line), "exit"@)
}

fn ascii_fold(c: char) -> (code: u32)
    ensures
        code == ascii_folded(c),
{
    if 'A' <= c && c <= 'Z' {
        c as u32 + 32
    } else {
        c as u32
    }
}

/// Compares two texts, ignoring case in ASCII letters.
pub fn texts_eq_ignore_ascii_case(a: &str, b: &str) -> (same: bool)
    ensures
        same == eq_ignore_ascii_case(a@, b@),
{
    let len = a.unicode_len();
    if len != b.unicode_len() {
        return false;
    }
    let mut left = a.chars();
    let mut i: usize = 0;
    for y in it: b.chars()
        invariant
            len == a@.len(),
            len == b@.len(),
            it.seq() == b@,
            i == it.index(),
            left.obeys_prophetic_iter_laws(),
            left.remaining() == a@.skip(i as int),
            forall|j: int| 0 <= j < i ==> ascii_folded(#[trigger] a@[j]) == ascii_folded(b@[j]),
    {
        let ghost rest = a@.skip(i as int);
        assert(rest.len() > 0);
        assert(rest[0] == a@[i as int]);
        assert(rest.drop_first() == a@.skip(i + 1));
        let x = left.next();
        assert(x == Some(a@[i as int]));
        if ascii_fold(x.unwrap()) != ascii_fold(y) {
            return false;
        }
        i = i + 1;
    }
    true
}

/// Whether `text`, which is already trimmed, is the exit command.
pub fn is_exit_command(text: &str) -> (exit: bool)
    ensures
        exit == eq_ignore_ascii_case(text@, "exit"@),
{
    texts_eq_ignore_ascii_case(text, "exit")
}

/// A character folds to a small letter exactly when it is that letter or
/// its capital.
proof fn lemma_folds_to_letter(c: char, small: char, capital: char)
    requires
        'a' <= small <= 'z',
        capital as u32 + 32 == small as u32,
    ensures
        ascii_folded(c) == ascii_folded(small) <==> (c == small || c == capital),
{
    vstd::utf8::char_u32_cast(c, c as u32);
    vstd::utf8::char_u32_cast(small, small as u32);
    vstd::utf8::char_u32_cast(capital, capital as u32);
}

/// A text is the exit command exactly when it has four characters: an `e`,
/// an `x`, an `i` and a `t`, each of them capital or small.
pub proof fn lemma_exit_command_letters(text: Seq<char>)
    ensures
        eq_ignore_ascii_case(text, "exit"@) <==> {
            &&& text.len() == 4
            &&& (text[0] == 'e' || text[0] == 'E')
            &&& (text[1] == 'x' || text[1] == 'X')
            &&& (text[2] == 'i' || text[2] == 'I')
            &&& (text[3] == 't' || text[3] == 'T')
        },
{
    reveal_strlit("exit");
    let word = "exit"@;
    assert(word.len() == 4);
    assert(word[0] == 'e' && word[1] == 'x' && word[2] == 'i' && word[3] == 't');
    if text.len() == 4 {
        lemma_folds_to_letter(text[0], 'e', 'E');
        lemma_folds_to_letter(text[1], 'x', 'X');
        lemma_folds_to_letter(text[2], 'i', 'I');
        lemma_folds_to_letter(text[3], 't', 'T');
    }
}

} // verus!
