use vstd::prelude::*;

verus! {

/// The character that stands for one decimal digit.
pub open spec fn digit_char(d: nat) -> char
    recommends
        d < 10,
{
    (('0' as u8) + d) as u8 as char
}

/// The decimal numeral of `n`, most significant digit first, without
/// leading zeros.
pub open spec fn decimal(n: nat) -> Seq<char>
    decreases n,
{
    if n < 10 {
        seq![digit_char(n)]
    } else {
        decimal(n / 10).push(digit_char(n % 10))
    }
}

/// Appends one character to a string.
///
/// Wraps `String::push`, which appends the given `char` to the end of the
/// string; the contract claims just that.
#[verifier::external_body]
pub(crate) fn push_char(out: &mut String, c: char)
    ensures
        final(out)@ == old(out)@.push(c),
{
    out.push(c)
}

/// Appends the decimal numeral of `n` to `out`.
pub fn push_decimal(out: &mut String, n: u128)
    ensures
        final(out)@ == old(out)@ + decimal(n as nat),
    decreases n,
{
    if n >= 10 {
        push_decimal(out, n / 10);
    }
    let d: u8 = (n % 10) as u8;
    let c: char = ('0' as u8 + d) as char;
    push_char(out, c);
}

/// The characters of a string, in order.
pub fn chars_of(s: &str) -> (out: Vec<char>)
    ensures
        out@ == s@,
{
    let mut out: Vec<char> = Vec::new();
    for ch in it: s.chars()
        invariant
            it.seq() == s@,
            out@ == it.seq().take(it.index() as int),
    {
        out.push(ch);
    }
    out
}

/// The character that stands for one hexadecimal digit, in upper case.
pub open spec fn hex_char(d: nat) -> char
    recommends
        d < 16,
{
    if d < 10 {
        (('0' as u8) + d) as u8 as char
    } else {
        (('A' as u8) + d - 10) as u8 as char
    }
}

/// The two upper-case hexadecimal digits of a byte.
pub open spec fn hex_byte(b: u8) -> Seq<char> {
    seq![hex_char(b as nat / 16), hex_char(b as nat % 16)]
}

/// Appends the two upper-case hexadecimal digits of `b` to `out`.
pub fn push_hex_byte(out: &mut String, b: u8)
    ensures
        final(out)@ == old(out)@ + hex_byte(b),
{
    let hi: u8 = b / 16;
    let lo: u8 = b % 16;
    let hi_char: char = if hi < 10 {
        ('0' as u8 + hi) as char
    } else {
        ('A' as u8 + (hi - 10)) as char
    };
    let lo_char: char = if lo < 10 {
        ('0' as u8 + lo) as char
    } else {
        ('A' as u8 + (lo - 10)) as char
    };
    push_char(out, hi_char);
    push_char(out, lo_char);
}

/// Appends the characters of `chars` to `out`.
pub fn push_chars(out: &mut String, chars: &Vec<char>)
    ensures
        final(out)@ == old(out)@ + chars@,
{
    let mut i: usize = 0;
    while i < chars.len()
        invariant
            i <= chars.len(),
            out@ == old(out)@ + chars@.take(i as int),
        decreases chars.len() - i,
    {
        push_char(out, chars[i]);
        i = i + 1;
    }
}

/// The text that a lossy UTF-8 decoder makes of `bytes`: the decoded
/// characters, with U+FFFD in place of each run of bytes that is no valid
/// UTF-8.
pub uninterp spec fn utf8_lossy(bytes: Seq<u8>) -> Seq<char>;

/// Decodes bytes as UTF-8, replacing what is not valid.
///
/// Wraps `String::from_utf8_lossy`. The contract claims no more than that
/// the result depends on the bytes alone: it gives the result its name.
#[verifier::external_body]
pub(crate) fn decode_utf8_lossy(bytes: &[u8]) -> (text: String)
    ensures
        text@ == utf8_lossy(bytes@),
{
    String::from_utf8_lossy(bytes).into_owned()
}

/// The index of the first line feed of `text`, or its length when it holds
/// none.
pub open spec fn first_newline(text: Seq<char>) -> nat
    decreases text.len(),
{
    if text.len() == 0 || text[0] == '\n' {
        0
    } else {
        1 + first_newline(text.drop_first())
    }
}

/// A line without the carriage return that may end it.
pub open spec fn strip_carriage_return(line: Seq<char>) -> Seq<char> {
    if line.len() > 0 && line.last() == '\r' {
        line.drop_last()
    } else {
        line
    }
}

/// The lines of a text.
///
/// A line ends at a line feed, or at a carriage return directly followed by
/// one; neither belongs to the line. What follows the last line feed is a
/// line of its own unless it is empty, and keeps a carriage return at its
/// end.
pub open spec fn split_lines(text: Seq<char>) -> Seq<Seq<char>>
    decreases text.len(),
{
    if text.len() == 0 {
        Seq::empty()
    } else {
        let end = first_newline(text) as int;
        if end >= text.len() {
            seq![text]
        } else {
            seq![strip_carriage_return(text.take(end))] + split_lines(text.skip(end + 1))
        }
    }
}

proof fn lemma_first_newline(text: Seq<char>, k: int)
    requires
        0 <= k <= text.len(),
        forall|j: int| 0 <= j < k ==> text[j] != '\n',
        k == text.len() || text[k] == '\n',
    ensures
        first_newline(text) == k,
    decreases k,
{
    if k > 0 {
        lemma_first_newline(text.drop_first(), k - 1);
    }
}

/// The contents of a list of lines.
pub open spec fn line_views(lines: Seq<Vec<char>>) -> Seq<Seq<char>> {
    lines.map_values(|line: Vec<char>| line@)
}

/// Splits a text into its lines.
pub fn lines_of(text: &Vec<char>) -> (lines: Vec<Vec<char>>)
    ensures
        line_views(lines@) == split_lines(text@),
{
    let mut lines: Vec<Vec<char>> = Vec::new();
    let mut line: Vec<char> = Vec::new();
    let mut start: usize = 0;
    let mut i: usize = 0;
    assert(text@.skip(0) =~= text@);
    while i < text.len()
        invariant
            start <= i <= text.len(),
            line@ == text@.subrange(start as int, i as int),
            forall|j: int| start <= j < i ==> text@[j] != '\n',
            split_lines(text@) == line_views(lines@) + split_lines(text@.skip(start as int)),
        decreases text.len() - i,
    {
        let c = text[i];
        if c == '\n' {
            let ghost rest = text@.skip(start as int);
            let ghost raw = line@;
            proof {
                lemma_first_newline(rest, i - start);
                assert(rest.take(i - start) =~= raw);
                assert(rest.skip(i - start + 1) =~= text@.skip(i + 1));
            }
            if line.len() > 0 && line[line.len() - 1] == '\r' {
                line.pop();
            }
            lines.push(line);
            line = Vec::new();
            start = i + 1;
        } else {
            line.push(c);
        }
        i = i + 1;
    }
    proof {
        lemma_first_newline(text@.skip(start as int), text@.len() - start);
    }
    if line.len() > 0 {
        lines.push(line);
    }
    lines
}

} // verus!
