//! What the operations on texts do, stated on the characters.
use vstd::prelude::*;

use crate::text::bytes;
use crate::text::number;
use crate::text::search;
use crate::text::space;

verus! {

/// A text is what stands before its trimmed part, that part, and what stands behind; only
/// space is left off, and no space is left at either end.
pub proof fn law_trimming_leaves_space_off(s: Seq<char>)
    ensures
        exists|a: Seq<char>, b: Seq<char>|
            #![trigger a + space::trimmed(s) + b]
            {
                &&& s == a + space::trimmed(s) + b
                &&& forall|i: int| 0 <= i < a.len() ==> space::is_space(#[trigger] a[i])
                &&& forall|i: int| 0 <= i < b.len() ==> space::is_space(#[trigger] b[i])
            },
        space::trimmed(s).len() > 0 ==> {
            &&& !space::is_space(space::trimmed(s)[0])
            &&& !space::is_space(space::trimmed(s).last())
        },
{
    let i = space::skip_space(s, 0);
    space::lemma_skip_space(s, 0);
    let rest = space::trimmed_start(s);
    let j = space::back_space(rest, rest.len() as int);
    space::lemma_back_space(rest, rest.len() as int);
    let (a, b) = (s.take(i), rest.skip(j));
    let t = space::trimmed(s);
    assert(rest =~= s.skip(i));
    assert(t =~= rest.take(j));
    assert(s =~= a + t + b);
    assert forall|k: int| 0 <= k < b.len() implies space::is_space(#[trigger] b[k]) by {
        assert(b[k] == rest[j + k]);
    }
    if t.len() > 0 {
        assert(t[0] == s[i]);
        assert(t.last() == rest[j - 1]);
    }
    assert(s == a + space::trimmed(s) + b);
}

/// A text says nothing exactly where it is made of space alone.
pub proof fn law_blank_texts_are_space(s: Seq<char>)
    ensures
        space::is_blank(s) <==> forall|i: int| 0 <= i < s.len() ==> space::is_space(#[trigger] s[i]),
{
    law_trimming_leaves_space_off(s);
    let (a, b) = choose|a: Seq<char>, b: Seq<char>|
        #![trigger a + space::trimmed(s) + b]
        {
            &&& s == a + space::trimmed(s) + b
            &&& forall|i: int| 0 <= i < a.len() ==> space::is_space(#[trigger] a[i])
            &&& forall|i: int| 0 <= i < b.len() ==> space::is_space(#[trigger] b[i])
        };
    let t = space::trimmed(s);
    if space::is_blank(s) {
        assert forall|i: int| 0 <= i < s.len() implies space::is_space(#[trigger] s[i]) by {
            if i < a.len() {
                assert(s[i] == a[i]);
            } else {
                assert(s[i] == b[i - a.len()]);
            }
        }
    } else {
        assert(s[a.len() as int] == t[0]);
    }
}

/// Tabs, line ends and blanks are space, the wide blank too; letters, digits and marks are
/// not.
pub proof fn law_space_is_what_leaves_no_trace(c: char)
    ensures
        c == ' ' || c == '\t' || c == '\n' || c == '\r' || c == '\u{b}' || c == '\u{c}' || c
            == '\u{a0}' || c == '\u{3000}' ==> space::is_space(c),
        '!' <= c <= '~' ==> !space::is_space(c),
        '\u{4e00}' <= c <= '\u{9fff}' ==> !space::is_space(c),
{
}

/// A number is written as the number of its tens with its last digit behind it.
pub proof fn law_numbers_are_written_digit_by_digit(n: nat, d: nat)
    requires
        d < 10,
    ensures
        n > 0 ==> number::dec(10 * n + d) == number::dec(n) + number::dec(d),
        number::dec(d).len() == 1,
        number::dec(0) == seq!['0'],
        number::dec(1) == seq!['1'],
        number::dec(2) == seq!['2'],
        number::dec(3) == seq!['3'],
        number::dec(4) == seq!['4'],
        number::dec(5) == seq!['5'],
        number::dec(6) == seq!['6'],
        number::dec(7) == seq!['7'],
        number::dec(8) == seq!['8'],
        number::dec(9) == seq!['9'],
        n > 0 ==> number::dec_int(-(n as int)) == seq!['-'] + number::dec(n),
        number::dec_int(n as int) == number::dec(n),
{
    if n > 0 {
        assert((10 * n + d) / 10 == n);
        assert((10 * n + d) % 10 == d);
        assert(number::dec(n) + number::dec(d) =~= number::dec(n).push(number::digit_char(d)));
    }
}

/// The numbers that are read are those that are written.
pub proof fn law_numbers_are_read_back(n: u16, m: u32)
    ensures
        number::u16_of(number::dec(n as nat)) == Some(n),
        number::u32_of(number::dec(m as nat)) == Some(m),
        number::u64_of(Seq::empty()) is None,
{
    number::law_parse_of_decimal(n as u64);
    number::law_parse_of_decimal(m as u64);
}

/// A text is found at the first place where it stands, and not before.
pub proof fn law_texts_are_found_first(s: Seq<char>, p: Seq<char>, k: int)
    ensures
        match search::find_text(s, p) {
            Some(i) => {
                &&& 0 <= i
                &&& i + p.len() <= s.len()
                &&& s.subrange(i, i + p.len()) == p
                &&& 0 <= k < i ==> s.subrange(k, k + p.len()) != p
            },
            None => 0 <= k && k + p.len() <= s.len() ==> s.subrange(k, k + p.len()) != p,
        },
{
    search::lemma_find_from(s, p, 0);
    search::lemma_find_iff_has(s, p);
    match search::find_text(s, p) {
        Some(i) => {
            if 0 <= k < i {
                assert(!search::occurs_at(s, p, k));
            }
        },
        None => {
            if 0 <= k && k + p.len() <= s.len() {
                assert(!search::occurs_at(s, p, k));
            }
        },
    }
}

/// Replacing a text replaces its first place and then goes on behind it; a text that does
/// not hold it stays as it is.
pub proof fn law_replacing_goes_from_place_to_place(
    s: Seq<char>,
    p: Seq<char>,
    q: Seq<char>,
    i: int,
)
    requires
        p.len() > 0,
    ensures
        search::find_text(s, p) == Some(i) ==> search::replace_all(s, p, q) == s.take(i) + q
            + search::replace_all(s.skip(i + p.len()), p, q),
        !search::has_text(s, p) ==> search::replace_all(s, p, q) == s,
{
    search::lemma_find_iff_has(s, p);
    search::lemma_find_from(s, p, 0);
    if search::find_text(s, p) == Some(i) {
        let rest = s.skip(i + p.len());
        search::lemma_join_split(rest, p);
        search::lemma_join_prepend(s.take(i), search::split_text(rest, p), q);
    }
}

/// A character takes as many bytes as its number needs.
pub proof fn law_characters_take_their_bytes(c: char)
    ensures
        c <= '\u{7f}' ==> bytes::char_bytes(c) == 1,
        '\u{80}' <= c <= '\u{7ff}' ==> bytes::char_bytes(c) == 2,
        '\u{800}' <= c <= '\u{ffff}' ==> bytes::char_bytes(c) == 3,
        '\u{10000}' <= c ==> bytes::char_bytes(c) == 4,
{
}

/// The bytes of two texts one behind the other are those of both.
pub proof fn law_bytes_add_up(a: Seq<char>, b: Seq<char>)
    ensures
        bytes::text_bytes(a + b) == bytes::text_bytes(a) + bytes::text_bytes(b),
        bytes::text_bytes(a) == vstd::utf8::encode_utf8(a).len(),
{
    bytes::lemma_text_bytes_concat(a, b);
    bytes::lemma_text_bytes_is_utf8_len(a);
}

/// Lines end at a line feed, with or without a carriage return before it.
pub proof fn law_line_ends_are_left_off(line: Seq<char>, more: Seq<char>)
    requires
        forall|i: int| 0 <= i < line.len() ==> #[trigger] line[i] != '\n' && line[i] != '\r',
        forall|i: int| 0 <= i < more.len() ==> #[trigger] more[i] != '\n' && more[i] != '\r',
        more.len() > 0,
    ensures
        space::lines_of(line + seq!['\n'] + more) == seq![line, more],
        space::lines_of(line + seq!['\r', '\n'] + more) == seq![line, more],
        space::lines_of(more) == seq![more],
        space::lines_of(Seq::empty()).len() == 0,
{
    lemma_two_lines(line, seq!['\n'], more);
    lemma_two_lines(line, seq!['\r', '\n'], more);
    space::lemma_newline_from(more, 0);
    assert(more.skip(0) =~= more);
}

proof fn lemma_two_lines(line: Seq<char>, end: Seq<char>, more: Seq<char>)
    requires
        forall|i: int| 0 <= i < line.len() ==> #[trigger] line[i] != '\n' && line[i] != '\r',
        forall|i: int| 0 <= i < more.len() ==> #[trigger] more[i] != '\n',
        more.len() > 0,
        end == seq!['\n'] || end == seq!['\r', '\n'],
    ensures
        space::lines_of(line + end + more) == seq![line, more],
{
    let s = line + end + more;
    let j = line.len() + end.len() - 1;
    assert(s[j] == '\n');
    space::lemma_newline_from(s, 0);
    assert(space::newline_from(s, 0) == Some(j)) by {
        let f = space::newline_from(s, 0);
        if f is Some && f->0 < j {
            if f->0 < line.len() {
                assert(s[f->0] == line[f->0]);
            } else {
                assert(s[f->0] == '\r');
            }
        }
    }
    space::lemma_newline_from(s, j + 1);
    assert(space::newline_from(s, j + 1) is None) by {
        let f = space::newline_from(s, j + 1);
        if f is Some {
            assert(s[f->0] == more[f->0 - j - 1]);
        }
    }
    assert(s.skip(j + 1) =~= more);
    let first = s.subrange(0, j);
    if end.len() == 1 {
        assert(first =~= line);
        if line.len() > 0 {
            assert(line[line.len() - 1] == line.last());
        }
        assert(space::without_cr(first) =~= line);
    } else {
        assert(first.last() == '\r');
        assert(first.drop_last() =~= line);
    }
    assert(space::lines_from(s, j + 1) =~= seq![more]);
    assert(space::lines_from(s, 0) =~= seq![line, more]);
}

} // verus!
