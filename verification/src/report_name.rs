use crate::text::{chars_of, decimal, push_char, push_decimal};
use vstd::prelude::*;

verus! {

/// Whether a character may stand in the name of a saved report: an ASCII
/// letter or digit, a dot, an underscore or a hyphen.
pub open spec fn is_report_name_char(c: char) -> bool {
    ||| 'a' <= c <= 'z'
    ||| 'A' <= c <= 'Z'
    ||| '0' <= c <= '9'
    ||| c == '.'
    ||| c == '_'
    ||| c == '-'
}

/// The character itself where it may stand in a name, else an underscore.
pub open spec fn sanitize_char(c: char) -> char {
    if is_report_name_char(c) {
        c
    } else {
        '_'
    }
}

/// The name given to a report whose sender named none that can be used.
pub open spec fn default_report_name() -> Seq<char> {
    "nomikai_sender_report.log"@
}

/// The name under which a report with the announced name `input` is saved:
/// every character that may not stand in a name becomes an underscore and
/// every other character stays; an empty name is replaced by the default
/// name.
pub open spec fn sanitized_report_name(input: Seq<char>) -> Seq<char> {
    if input.len() == 0 {
        default_report_name()
    } else {
        input.map_values(|c: char| sanitize_char(c))
    }
}

/// A sanitized name is never empty, holds only letters, digits, dots,
/// underscores and hyphens, and so holds no path separator. A name that is
/// not empty keeps its length: one character stands for each of its own.
pub proof fn lemma_sanitized_name_is_safe(input: Seq<char>)
    ensures
        sanitized_report_name(input).len() > 0,
        input.len() > 0 ==> sanitized_report_name(input).len() == input.len(),
        forall|i: int|
            0 <= i < sanitized_report_name(input).len() ==> is_report_name_char(
                #[trigger] sanitized_report_name(input)[i],
            ),
        !sanitized_report_name(input).contains('/'),
        !sanitized_report_name(input).contains('\\'),
{
    reveal_strlit("nomikai_sender_report.log");
}

/// Whether `c` may stand in the name of a saved report.
fn allowed_in_name(c: char) -> (yes: bool)
    ensures
        yes == is_report_name_char(c),
{
    ('a' <= c && c <= 'z') || ('A' <= c && c <= 'Z') || ('0' <= c && c <= '9') || c == '.' || c
        == '_' || c == '-'
}

/// Turns the name that a sender announced into one that is safe to use as a
/// file name.
pub fn sanitize_debug_report_filename(input: &str) -> (name: String)
    ensures
        name@ == sanitized_report_name(input@),
        name@.len() > 0,
        forall|i: int| 0 <= i < name@.len() ==> is_report_name_char(#[trigger] name@[i]),
{
    proof {
        lemma_sanitized_name_is_safe(input@);
    }
    let chars = chars_of(input);
    let n = chars.len();
    if n == 0 {
        return String::from_str("nomikai_sender_report.log");
    }
    let mut name = String::new();
    let mut i: usize = 0;
    while i < n
        invariant
            n == chars@.len(),
            i <= n,
            name@ == chars@.take(i as int).map_values(|c: char| sanitize_char(c)),
        decreases n - i,
    {
        let c = chars[i];
        if allowed_in_name(c) {
            push_char(&mut name, c);
        } else {
            push_char(&mut name, '_');
        }
        i = i + 1;
    }
    name
}

/// The index of the last dot of `s`, if it holds one.
pub open spec fn last_dot(s: Seq<char>) -> Option<int>
    decreases s.len(),
{
    if s.len() == 0 {
        None
    } else if s.last() == '.' {
        Some(s.len() - 1)
    } else {
        last_dot(s.drop_last())
    }
}

/// `name` with a time stamp, in milliseconds, put before its extension:
/// what stands before the last dot, an underscore, the time stamp, a dot
/// and what stands after that dot. A name without a dot gets the extension
/// `log`.
pub open spec fn timestamped_name(name: Seq<char>, ts_ms: nat) -> Seq<char> {
    match last_dot(name) {
        Some(dot) => name.take(dot) + seq!['_'] + decimal(ts_ms) + seq!['.'] + name.skip(dot + 1),
        None => name + seq!['_'] + decimal(ts_ms) + ".log"@,
    }
}

/// The file name under which a report announced as `filename` is saved at
/// the time `ts_ms`, in milliseconds since the Unix epoch.
pub open spec fn report_file_name(filename: Seq<char>, ts_ms: nat) -> Seq<char> {
    timestamped_name(sanitized_report_name(filename), ts_ms)
}

proof fn lemma_last_dot(s: Seq<char>, k: int)
    requires
        0 <= k <= s.len(),
        forall|j: int| k <= j < s.len() ==> s[j] != '.',
        k > 0 ==> s[k - 1] == '.',
    ensures
        last_dot(s) == (if k == 0 {
            None
        } else {
            Some(k - 1)
        }),
    decreases s.len() - k,
{
    if k < s.len() {
        lemma_last_dot(s.drop_last(), k);
    }
}

/// Appends the characters of `chars` from `start` up to `end` to `out`.
fn push_range(out: &mut String, chars: &Vec<char>, start: usize, end: usize)
    requires
        start <= end <= chars@.len(),
    ensures
        final(out)@ == old(out)@ + chars@.subrange(start as int, end as int),
{
    let mut k: usize = start;
    while k < end
        invariant
            start <= k <= end <= chars@.len(),
            out@ == old(out)@ + chars@.subrange(start as int, k as int),
        decreases end - k,
    {
        push_char(out, chars[k]);
        k = k + 1;
    }
}

/// The file name for a report announced as `filename`, saved at `ts_ms`
/// milliseconds since the Unix epoch.
pub fn timestamped_report_name(filename: &str, ts_ms: u128) -> (name: String)
    ensures
        name@ == report_file_name(filename@, ts_ms as nat),
{
    let clean = sanitize_debug_report_filename(filename);
    let chars = chars_of(clean.as_str());
    let n = chars.len();
    let mut k: usize = n;
    while k > 0 && chars[k - 1] != '.'
        invariant
            k <= n,
            n == chars@.len(),
            forall|j: int| k <= j < n ==> chars@[j] != '.',
        decreases k,
    {
        k = k - 1;
    }
    proof {
        lemma_last_dot(chars@, k as int);
    }
    let mut name = String::new();
    if k > 0 {
        push_range(&mut name, &chars, 0, k - 1);
        push_char(&mut name, '_');
        push_decimal(&mut name, ts_ms);
        push_char(&mut name, '.');
        push_range(&mut name, &chars, k, n);
    } else {
        push_range(&mut name, &chars, 0, n);
        push_char(&mut name, '_');
        push_decimal(&mut name, ts_ms);
        name.append(".log");
    }
    name
}

} // verus!
