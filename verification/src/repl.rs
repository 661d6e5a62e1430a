//! The command line's interactive mode: pinyin queries candidates, a number commits
//! one, `:raw` commits the last input as typed, `:del N` forgets candidate N,
//! `:up N` / `:down N` raise or lower it, `:q` quits.

use vstd::prelude::*;

use crate::text::{decimal, digit_char, is_white_space, skip_white, skip_white_back, trim, trimmed};

verus! {

/// One line of input, understood.
#[derive(Debug, Clone, PartialEq, Eq)]
pub enum Command {
    /// Empty line: prompt again.
    Skip,
    /// `:q` or `:quit`.
    Quit,
    /// A number: commit that candidate of the last query (counted from 1).
    Commit(usize),
    /// `:raw`: commit the last input as typed.
    Raw,
    /// `:up N` / `:down N`: raise or lower candidate N.
    Adjust { up: bool, index: usize },
    /// `:del N`: forget candidate N.
    Delete(usize),
    /// Anything else is pinyin to query.
    Query(String),
}

pub open spec fn is_digit(c: char) -> bool {
    '0' <= c && c <= '9'
}

/// The value of a string of decimal digits.
pub open spec fn digits_value(s: Seq<char>) -> nat
    decreases s.len(),
{
    if s.len() == 0 {
        0
    } else {
        digits_value(s.drop_last()) * 10 + ((s.last() as u32 - '0' as u32) as nat)
    }
}

pub open spec fn all_digits(s: Seq<char>) -> bool {
    forall|i: int| 0 <= i < s.len() ==> is_digit(#[trigger] s[i])
}

/// What `str::parse::<usize>` gives: an optional `+`, at least one digit, nothing
/// else, and a value that fits.
pub open spec fn parse_usize_spec(s: Seq<char>) -> Option<usize> {
    let body = if s.len() > 0 && s[0] == '+' {
        s.drop_first()
    } else {
        s
    };
    if body.len() > 0 && all_digits(body) && digits_value(body) <= usize::MAX {
        Some(digits_value(body) as usize)
    } else {
        None
    }
}

/// Decimal number of a whole string, as `str::parse::<usize>` reads it.
pub fn parse_usize(s: &str) -> (r: Option<usize>)
    ensures
        r == parse_usize_spec(s@),
{
    let n = s.unicode_len();
    let mut i: usize = 0;
    if n > 0 && s.get_char(0) == '+' {
        i = 1;
    }
    let start = i;
    let ghost body = if s@.len() > 0 && s@[0] == '+' {
        s@.drop_first()
    } else {
        s@
    };
    assert(body == s@.subrange(start as int, n as int));
    if start == n {
        return None;
    }
    let mut value: usize = 0;
    while i < n
        invariant
            n == s@.len(),
            start <= i <= n,
            body == s@.subrange(start as int, n as int),
            body == (if s@.len() > 0 && s@[0] == '+' {
                s@.drop_first()
            } else {
                s@
            }),
            body.len() > 0,
            all_digits(s@.subrange(start as int, i as int)),
            value as nat == digits_value(s@.subrange(start as int, i as int)),
        decreases n - i,
    {
        let c = s.get_char(i);
        let ghost prefix = s@.subrange(start as int, i as int);
        let ghost next = s@.subrange(start as int, i + 1);
        assert(next.drop_last() == prefix);
        assert(next.last() == c);
        if !('0' <= c && c <= '9') {
            assert(body[i - start] == s@[i as int]);
            assert(!is_digit(body[i - start]));
            assert(!all_digits(body));
            return None;
        }
        let d = (c as u32 - '0' as u32) as usize;
        if value > (usize::MAX - d) / 10 {
            assert(value * 10 + d > usize::MAX) by (nonlinear_arith)
                requires
                    value > (usize::MAX - d) / 10,
                    d <= 9,
            ;
            assert(digits_value(next) == value * 10 + d);
            proof {
                lemma_digits_grow(body, (i - start + 1) as int);
                assert(body.subrange(0, i - start + 1) == next);
                if all_digits(body) {
                    assert(digits_value(body) > usize::MAX);
                }
            }
            return None;
        }
        value = value * 10 + d;
        i = i + 1;
    }
    assert(s@.subrange(start as int, n as int) == body);
    Some(value)
}

/// Digits only grow: a prefix's value is no more than the whole string's.
proof fn lemma_digits_grow(s: Seq<char>, k: int)
    requires
        0 <= k <= s.len(),
    ensures
        all_digits(s) ==> digits_value(s.subrange(0, k)) <= digits_value(s),
    decreases s.len() - k,
{
    if k < s.len() && all_digits(s) {
        lemma_digits_grow(s, k + 1);
        let a = s.subrange(0, k + 1);
        assert(a.drop_last() == s.subrange(0, k));
        assert(is_digit(a.last()));
    } else if k == s.len() {
        assert(s.subrange(0, k) == s);
    }
}

pub open spec fn starts_with(s: Seq<char>, prefix: Seq<char>) -> bool {
    prefix.len() <= s.len() && s.subrange(0, prefix.len() as int) == prefix
}

pub open spec fn after(s: Seq<char>, prefix: Seq<char>) -> Seq<char> {
    s.subrange(prefix.len() as int, s.len() as int)
}

/// The number after `prefix` (trimmed), when the line starts with it.
pub open spec fn numbered(line: Seq<char>, prefix: Seq<char>) -> Option<usize> {
    if starts_with(line, prefix) {
        parse_usize_spec(trimmed(after(line, prefix)))
    } else {
        None
    }
}

fn strip_number(line: &str, prefix: &str) -> (r: Option<usize>)
    ensures
        r == numbered(line@, prefix@),
{
    let n = line.unicode_len();
    let m = prefix.unicode_len();
    if m > n {
        return None;
    }
    let head = line.substring_char(0, m);
    if head.unicode_len() != m || !str_equal(head, prefix) {
        return None;
    }
    let rest = line.substring_char(m, n);
    let t = trim(rest);
    parse_usize(t.as_str())
}

/// Two strings hold the same characters.
pub fn str_equal(a: &str, b: &str) -> (r: bool)
    ensures
        r == (a@ == b@),
{
    let n = a.unicode_len();
    if n != b.unicode_len() {
        return false;
    }
    let mut i: usize = 0;
    while i < n
        invariant
            n == a@.len(),
            n == b@.len(),
            i <= n,
            forall|k: int| 0 <= k < i ==> a@[k] == b@[k],
        decreases n - i,
    {
        if a.get_char(i) != b.get_char(i) {
            return false;
        }
        i = i + 1;
    }
    assert(a@ =~= b@);
    true
}

/// What a line of input asks for. The line is trimmed first. A number alone commits;
/// `:up N` / `:down N` need a number, otherwise the line is queried; the same for
/// `:del N`.
pub fn parse_command(raw_line: &str) -> (r: Command)
    ensures
        ({
            let line = trimmed(raw_line@);
            if line.len() == 0 {
                r == Command::Skip
            } else if line == ":q"@ || line == ":quit"@ {
                r == Command::Quit
            } else if parse_usize_spec(line) is Some {
                r == Command::Commit(parse_usize_spec(line)->0)
            } else if line == ":raw"@ {
                r == Command::Raw
            } else if numbered(line, ":up "@) is Some {
                r == Command::Adjust { up: true, index: numbered(line, ":up "@)->0 }
            } else if numbered(line, ":down "@) is Some {
                r == Command::Adjust { up: false, index: numbered(line, ":down "@)->0 }
            } else if numbered(line, ":del "@) is Some {
                r == Command::Delete(numbered(line, ":del "@)->0)
            } else {
                r matches Command::Query(q) && q@ == line
            }
        }),
{
    let line = trim(raw_line);
    let l = line.as_str();
    if l.is_empty() {
        return Command::Skip;
    }
    if str_equal(l, ":q") || str_equal(l, ":quit") {
        return Command::Quit;
    }
    if let Some(index) = parse_usize(l) {
        return Command::Commit(index);
    }
    if str_equal(l, ":raw") {
        return Command::Raw;
    }
    if let Some(index) = strip_number(l, ":up ") {
        return Command::Adjust { up: true, index };
    }
    if let Some(index) = strip_number(l, ":down ") {
        return Command::Adjust { up: false, index };
    }
    if let Some(index) = strip_number(l, ":del ") {
        return Command::Delete(index);
    }
    Command::Query(line)
}

/// Position in the candidate list of candidate number `index` (counted from 1); for 0
/// the count wraps around to a position no list has.
pub fn candidate_position(index: usize) -> (r: usize)
    ensures
        index == 0 ==> r == usize::MAX,
        index > 0 ==> r == index - 1,
{
    if index == 0 {
        usize::MAX
    } else {
        index - 1
    }
}

proof fn lemma_digit_char(d: nat)
    requires
        d < 10,
    ensures
        digit_char(d) as u32 == '0' as u32 + d,
        is_digit(digit_char(d)),
{
    assert(('0' as u32) == 48);
    assert(((48 + d) as char) as u32 == 48 + d);
}

proof fn lemma_decimal_digits(n: nat)
    ensures
        decimal(n).len() > 0,
        all_digits(decimal(n)),
        digits_value(decimal(n)) == n,
    decreases n,
{
    let d = decimal(n);
    lemma_digit_char(n % 10);
    if n < 10 {
        assert(d == seq![digit_char(n)]);
        assert(d.drop_last() =~= Seq::<char>::empty());
        assert(d.last() == digit_char(n));
        assert(digits_value(d) == digits_value(d.drop_last()) * 10 + ((d.last() as u32 - '0' as u32) as nat));
        assert(digits_value(d.drop_last()) == 0);
    } else {
        lemma_decimal_digits(n / 10);
        let head = decimal(n / 10);
        assert(d == head.push(digit_char(n % 10)));
        assert(d.drop_last() == head);
        assert forall|i: int| 0 <= i < d.len() implies is_digit(#[trigger] d[i]) by {
            if i < head.len() {
                assert(d[i] == head[i]);
            }
        }
        assert(n == (n / 10) * 10 + n % 10);
        assert(d.last() == digit_char(n % 10));
        assert(digits_value(d) == digits_value(head) * 10 + ((d.last() as u32 - '0' as u32) as nat));
    }
}

proof fn lemma_digits_not_white(d: Seq<char>)
    requires
        d.len() > 0,
        all_digits(d),
    ensures
        trimmed(d) == d,
{
    assert(is_digit(d[0]) && is_digit(d[d.len() - 1]));
    assert(!is_white_space(d[0]) && !is_white_space(d[d.len() - 1]));
    assert(skip_white(d, 0) == 0);
    assert(skip_white_back(d, 0, d.len() as int) == d.len());
    assert(d.subrange(0, d.len() as int) == d);
}

/// A number written out in decimal reads back as that number, so the number shown
/// beside a candidate, typed back, commits that candidate.
pub proof fn law_decimal_reads_back(n: usize)
    ensures
        parse_usize_spec(decimal(n as nat)) == Some(n),
        parse_usize_spec(trimmed(decimal(n as nat))) == Some(n),
{
    lemma_decimal_digits(n as nat);
    let d = decimal(n as nat);
    assert(is_digit(d[0]));
    lemma_digits_not_white(d);
}

} // verus!
