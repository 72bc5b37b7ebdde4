//! Small pieces of text that the agent's messages and files are built from.

use vstd::prelude::*;
use vstd::string::StringExecFns;

verus! {

/// The character of a decimal digit.
pub open spec fn digit_char(d: nat) -> char {
    if d == 0 {
        '0'
    } else if d == 1 {
        '1'
    } else if d == 2 {
        '2'
    } else if d == 3 {
        '3'
    } else if d == 4 {
        '4'
    } else if d == 5 {
        '5'
    } else if d == 6 {
        '6'
    } else if d == 7 {
        '7'
    } else if d == 8 {
        '8'
    } else {
        '9'
    }
}

/// A number in decimal, without leading zeros.
pub open spec fn decimal_text(n: nat) -> Seq<char>
    decreases n,
{
    if n < 10 {
        seq![digit_char(n)]
    } else {
        decimal_text(n / 10).push(digit_char(n % 10))
    }
}

fn digit_str(d: u64) -> (r: &'static str)
    requires
        d < 10,
    ensures
        r@ == seq![digit_char(d as nat)],
{
    proof {
        reveal_strlit("0");
        reveal_strlit("1");
        reveal_strlit("2");
        reveal_strlit("3");
        reveal_strlit("4");
        reveal_strlit("5");
        reveal_strlit("6");
        reveal_strlit("7");
        reveal_strlit("8");
        reveal_strlit("9");
    }
    let r = if d == 0 {
        "0"
    } else if d == 1 {
        "1"
    } else if d == 2 {
        "2"
    } else if d == 3 {
        "3"
    } else if d == 4 {
        "4"
    } else if d == 5 {
        "5"
    } else if d == 6 {
        "6"
    } else if d == 7 {
        "7"
    } else if d == 8 {
        "8"
    } else {
        "9"
    };
    r
}

/// Writes a number in decimal.
pub fn decimal(n: u64) -> (r: String)
    ensures
        r@ == decimal_text(n as nat),
    decreases n,
{
    if n < 10 {
        String::from_str(digit_str(n))
    } else {
        let mut s = decimal(n / 10);
        let d = digit_str(n % 10);
        s.append(d);
        s
    }
}

/// The view of a text that may be missing.
pub open spec fn text_of(value: Option<String>) -> Option<Seq<char>> {
    match value {
        Some(v) => Some(v@),
        None => None,
    }
}

/// Whether a text ends with a slash.
pub fn ends_with_slash(s: &str) -> (r: bool)
    ensures
        r == (s@.len() > 0 && s@.last() == '/'),
{
    let n = s.unicode_len();
    if n == 0 {
        false
    } else {
        s.get_char(n - 1) == '/'
    }
}

/// The views of a list of texts.
pub open spec fn texts(v: Seq<String>) -> Seq<Seq<char>> {
    v.map_values(|s: String| s@)
}

/// The pieces of `s` from the position `i` on, where the piece that is
/// being read began at `start`.
pub open spec fn split_from(s: Seq<char>, separator: char, start: int, i: int) -> Seq<Seq<char>>
    decreases s.len() - i,
{
    if i >= s.len() {
        seq![s.subrange(start, s.len() as int)]
    } else if s[i] == separator {
        seq![s.subrange(start, i)] + split_from(s, separator, i + 1, i + 1)
    } else {
        split_from(s, separator, start, i + 1)
    }
}

/// The pieces into which the separator cuts a text: one more than the text
/// has separators, in order, each without a separator.
pub open spec fn split_text(s: Seq<char>, separator: char) -> Seq<Seq<char>> {
    split_from(s, separator, 0, 0)
}

/// The pieces put together again, with the separator between them.
pub open spec fn join_text(pieces: Seq<Seq<char>>, separator: char) -> Seq<char>
    decreases pieces.len(),
{
    if pieces.len() == 0 {
        Seq::empty()
    } else if pieces.len() == 1 {
        pieces[0]
    } else {
        pieces[0] + seq![separator] + join_text(pieces.drop_first(), separator)
    }
}

/// The pieces of a text hold no separator, and joined by the separator they
/// give the text from the beginning of the piece that is being read.
pub proof fn lemma_split_from(s: Seq<char>, separator: char, start: int, i: int)
    requires
        0 <= start <= i <= s.len(),
        forall|k: int| start <= k < i ==> s[k] != separator,
    ensures
        split_from(s, separator, start, i).len() >= 1,
        forall|j: int, k: int|
            0 <= j < split_from(s, separator, start, i).len() && 0 <= k < split_from(
                s,
                separator,
                start,
                i,
            )[j].len() ==> split_from(s, separator, start, i)[j][k] != separator,
        join_text(split_from(s, separator, start, i), separator) == s.subrange(
            start,
            s.len() as int,
        ),
    decreases s.len() - i,
{
    let pieces = split_from(s, separator, start, i);
    if i >= s.len() {
    } else if s[i] == separator {
        let rest = split_from(s, separator, i + 1, i + 1);
        lemma_split_from(s, separator, i + 1, i + 1);
        let head = s.subrange(start, i);
        assert(pieces.drop_first() =~= rest);
        assert(pieces[0] == head);
        assert(head + seq![separator] + s.subrange(i + 1, s.len() as int) =~= s.subrange(
            start,
            s.len() as int,
        ));
        assert forall|j: int, k: int|
            0 <= j < pieces.len() && 0 <= k < pieces[j].len() implies pieces[j][k]
            != separator by {
            if j > 0 {
                assert(pieces[j] == rest[j - 1]);
            }
        }
    } else {
        lemma_split_from(s, separator, start, i + 1);
    }
}

/// Splitting and joining give the text back, and no piece holds the
/// separator.
pub proof fn lemma_split_join(s: Seq<char>, separator: char)
    ensures
        join_text(split_text(s, separator), separator) == s,
        forall|j: int, k: int|
            0 <= j < split_text(s, separator).len() && 0 <= k < split_text(s, separator)[j].len()
                ==> split_text(s, separator)[j][k] != separator,
{
    lemma_split_from(s, separator, 0, 0);
    assert(s.subrange(0, s.len() as int) =~= s);
}

/// Cuts a text at every separator.
pub fn split(text: &str, separator: char) -> (r: Vec<String>)
    ensures
        texts(r@) == split_text(text@, separator),
{
    let n = text.unicode_len();
    let mut out: Vec<String> = Vec::new();
    let mut start: usize = 0;
    let mut i: usize = 0;
    while i < n
        invariant
            start <= i <= n,
            n == text@.len(),
            split_text(text@, separator) == texts(out@) + split_from(
                text@,
                separator,
                start as int,
                i as int,
            ),
        decreases n - i,
    {
        if text.get_char(i) == separator {
            let piece = String::from_str(text.substring_char(start, i));
            proof {
                let rest = split_from(text@, separator, i + 1, i + 1);
                assert(texts(out@.push(piece)) =~= texts(out@).push(piece@));
                assert(texts(out@).push(piece@) + rest =~= texts(out@) + (seq![piece@] + rest));
            }
            out.push(piece);
            start = i + 1;
        }
        i = i + 1;
    }
    let piece = String::from_str(text.substring_char(start, n));
    proof {
        assert(texts(out@.push(piece)) =~= texts(out@) + seq![piece@]);
    }
    out.push(piece);
    out
}

/// The number that std's `FromStr` for `u16` reads from a text, or `None`
/// where it refuses the text.
pub uninterp spec fn parsed_u16(text: Seq<char>) -> Option<u16>;

/// Reads a 16-bit number from decimal text.
pub fn parse_u16(text: &str) -> (r: Option<u16>)
    ensures
        r == parsed_u16(text@),
{
    u16_from_str(text)
}

/// `str::parse::<u16>`: reads a decimal number that fits 16 bits; the result
/// depends on the text alone.
#[verifier::external_body]
fn u16_from_str(text: &str) -> (r: Option<u16>)
    ensures
        r == parsed_u16(text@),
{
    text.parse::<u16>().ok()
}

/// The number that std's `FromStr` for `u64` reads from a text, or `None`
/// where it refuses the text.
pub uninterp spec fn parsed_u64(text: Seq<char>) -> Option<u64>;

/// Reads a 64-bit number from decimal text.
pub fn parse_u64(text: &str) -> (r: Option<u64>)
    ensures
        r == parsed_u64(text@),
{
    u64_from_str(text)
}

/// `str::parse::<u64>`: reads a decimal number that fits 64 bits; the result
/// depends on the text alone.
#[verifier::external_body]
fn u64_from_str(text: &str) -> (r: Option<u64>)
    ensures
        r == parsed_u64(text@),
{
    text.parse::<u64>().ok()
}

} // verus!
