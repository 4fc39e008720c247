use vstd::prelude::*;
use vstd::string::{StrSliceExecFns, StringExecFns};

verus! {

/// The decimal digit character of `d`.
pub open spec fn digit_char(d: nat) -> char {
    if d == 0 {
        '0'
    } else if d == 1 {
        '1'
    } else if d == 2 {
        '2'
    } else if d == 3 {
        '3'
    } else if d == 4 {
        '4'
    } else if d == 5 {
        '5'
    } else if d == 6 {
        '6'
    } else if d == 7 {
        '7'
    } else if d == 8 {
        '8'
    } else {
        '9'
    }
}

/// Whether `c` is an ASCII decimal digit.
pub open spec fn is_digit(c: char) -> bool {
    '0' <= c <= '9'
}

/// The value of a decimal digit character.
pub open spec fn digit_value(c: char) -> nat {
    (c as int - '0' as int) as nat
}

/// The decimal text of `n`, without leading zeros.
pub open spec fn decimal(n: nat) -> Seq<char>
    decreases n,
{
    if n < 10 {
        seq![digit_char(n)]
    } else {
        decimal(n / 10).push(digit_char(n % 10))
    }
}

/// The value of a run of decimal digits.
pub open spec fn digits_value(s: Seq<char>) -> nat
    decreases s.len(),
{
    if s.len() == 0 {
        0
    } else {
        digits_value(s.drop_last()) * 10 + digit_value(s.last())
    }
}

/// The number of characters before the first line break of `t`.
pub open spec fn line_len(t: Seq<char>) -> nat
    decreases t.len(),
{
    if t.len() == 0 || t[0] == '\n' {
        0
    } else {
        1 + line_len(t.drop_first())
    }
}

/// The first line of `t`, without its line break.
pub open spec fn first_line(t: Seq<char>) -> Seq<char> {
    t.take(line_len(t) as int)
}

/// What follows the first line break of `t` (nothing if it has none).
pub open spec fn after_first_line(t: Seq<char>) -> Seq<char> {
    if line_len(t) < t.len() {
        t.skip(line_len(t) as int + 1)
    } else {
        Seq::empty()
    }
}

/// The text of the record a pid file holds: the pid on the first line and the
/// version of the launched binary on the second.
pub open spec fn pid_record_text(pid: nat, version: Seq<char>) -> Seq<char> {
    decimal(pid) + seq!['\n'] + version + seq!['\n']
}

/// What a pid file's text says: `None` unless its first line is a pid (a
/// non-empty run of decimal digits whose value fits a `u32`); otherwise the
/// pid and the second line, if that line is not empty.
pub open spec fn parsed_pid_record(t: Seq<char>) -> Option<(nat, Option<Seq<char>>)> {
    let line = first_line(t);
    if line.len() > 0 && (forall|i: int| 0 <= i < line.len() ==> is_digit(#[trigger] line[i]))
        && digits_value(line) <= u32::MAX {
        let second = first_line(after_first_line(t));
        Some((digits_value(line), if second.len() > 0 { Some(second) } else { None }))
    } else {
        None
    }
}

/// A parsed pid file.
pub struct PidRecord {
    pub pid: u32,
    pub version: Option<String>,
}

proof fn lemma_digit_char_value(k: nat)
    requires
        k < 10,
    ensures
        is_digit(digit_char(k)),
        digit_value(digit_char(k)) == k,
{
}

proof fn lemma_decimal_digits(n: nat)
    ensures
        decimal(n).len() > 0,
        forall|i: int| 0 <= i < decimal(n).len() ==> is_digit(#[trigger] decimal(n)[i]),
        digits_value(decimal(n)) == n,
    decreases n,
{
    if n < 10 {
        lemma_digit_char_value(n);
        let d = decimal(n);
        assert(d.drop_last() =~= Seq::<char>::empty());
        assert(digits_value(d.drop_last()) == 0);
        assert(d.last() == digit_char(n));
        assert(digits_value(d) == digits_value(d.drop_last()) * 10 + digit_value(d.last()));
    } else {
        lemma_decimal_digits(n / 10);
        let d = decimal(n);
        assert(d.drop_last() =~= decimal(n / 10));
        assert(d.last() == digit_char(n % 10));
        vstd::arithmetic::div_mod::lemma_fundamental_div_mod(n as int, 10);
        lemma_digit_char_value(n % 10);
        assert(digits_value(d) == digits_value(decimal(n / 10)) * 10 + digit_value(d.last()));
        assert forall|i: int| 0 <= i < d.len() implies is_digit(#[trigger] d[i]) by {
            if i < d.len() - 1 {
                assert(d[i] == decimal(n / 10)[i]);
            }
        }
    }
}

proof fn lemma_line_len_is_first_break(t: Seq<char>, k: int)
    requires
        0 <= k <= t.len(),
        forall|j: int| 0 <= j < k ==> t[j] != '\n',
        k == t.len() || t[k] == '\n',
    ensures
        line_len(t) == k,
    decreases t.len(),
{
    if t.len() > 0 && t[0] != '\n' {
        assert forall|j: int| 0 <= j < k - 1 implies t.drop_first()[j] != '\n' by {
            assert(t.drop_first()[j] == t[j + 1]);
        }
        lemma_line_len_is_first_break(t.drop_first(), k - 1);
    }
}

proof fn lemma_digits_value_grows(s: Seq<char>, i: int)
    requires
        0 <= i <= s.len(),
        forall|j: int| 0 <= j < s.len() ==> is_digit(#[trigger] s[j]),
    ensures
        digits_value(s.take(i)) <= digits_value(s),
    decreases s.len() - i,
{
    if i < s.len() {
        lemma_digits_value_grows(s, i + 1);
        assert(s.take(i + 1).drop_last() =~= s.take(i));
    } else {
        assert(s.take(i) =~= s);
    }
}

/// Reading a record back gives the pid and the version it was written with.
pub proof fn lemma_pid_record_round_trip(pid: nat, version: Seq<char>)
    requires
        pid <= u32::MAX,
        version.len() > 0,
        forall|i: int| 0 <= i < version.len() ==> version[i] != '\n',
    ensures
        parsed_pid_record(pid_record_text(pid, version)) == Some((pid, Some(version))),
{
    lemma_decimal_digits(pid);
    let d = decimal(pid);
    let t = pid_record_text(pid, version);
    assert forall|j: int| 0 <= j < d.len() implies t[j] != '\n' by {
        assert(t[j] == d[j]);
        assert(is_digit(d[j]));
    }
    assert(t[d.len() as int] == '\n');
    lemma_line_len_is_first_break(t, d.len() as int);
    assert(first_line(t) =~= d);
    let rest = after_first_line(t);
    assert(rest =~= version + seq!['\n']);
    assert forall|j: int| 0 <= j < version.len() implies rest[j] != '\n' by {
        assert(rest[j] == version[j]);
    }
    lemma_line_len_is_first_break(rest, version.len() as int);
    assert(first_line(rest) =~= version);
}

fn digit_text(d: u32) -> (text: &'static str)
    requires
        d < 10,
    ensures
        text@ == seq![digit_char(d as nat)],
{
    proof {
        reveal_strlit("0");
        reveal_strlit("1");
        reveal_strlit("2");
        reveal_strlit("3");
        reveal_strlit("4");
        reveal_strlit("5");
        reveal_strlit("6");
        reveal_strlit("7");
        reveal_strlit("8");
        reveal_strlit("9");
    }
    let text = if d == 0 {
        "0"
    } else if d == 1 {
        "1"
    } else if d == 2 {
        "2"
    } else if d == 3 {
        "3"
    } else if d == 4 {
        "4"
    } else if d == 5 {
        "5"
    } else if d == 6 {
        "6"
    } else if d == 7 {
        "7"
    } else if d == 8 {
        "8"
    } else {
        "9"
    };
    assert(text@ =~= seq![digit_char(d as nat)]);
    text
}

fn push_decimal(out: &mut String, n: u32)
    ensures
        final(out)@ == old(out)@ + decimal(n as nat),
    decreases n,
{
    if n >= 10 {
        push_decimal(out, n / 10);
    }
    out.append(digit_text(n % 10));
    proof {
        if n >= 10 {
            assert(decimal(n as nat) == decimal((n / 10) as nat).push(digit_char((n % 10) as nat)));
        }
    }
    assert(out@ =~= old(out)@ + decimal(n as nat));
}

/// The text of the record for an app-server with process id `pid`, launched
/// from a binary of version `version`.
pub fn format_pid_record(pid: u32, version: &str) -> (text: String)
    ensures
        text@ == pid_record_text(pid as nat, version@),
{
    let mut text = String::new();
    push_decimal(&mut text, pid);
    proof {
        reveal_strlit("\n");
    }
    text.append("\n");
    text.append(version);
    text.append("\n");
    assert(text@ =~= pid_record_text(pid as nat, version@));
    text
}

fn line_end(t: &str, start: usize) -> (end: usize)
    requires
        start <= t@.len(),
    ensures
        end == start + line_len(t@.skip(start as int)),
        end <= t@.len(),
{
    let n = t.unicode_len();
    let mut i = start;
    while i < n && t.get_char(i) != '\n'
        invariant
            n == t@.len(),
            start <= i <= n,
            forall|j: int| start <= j < i ==> t@[j] != '\n',
        decreases n - i,
    {
        i = i + 1;
    }
    proof {
        let s = t@.skip(start as int);
        assert forall|j: int| 0 <= j < i - start implies s[j] != '\n' by {
            assert(s[j] == t@[start + j]);
        }
        if i < n {
            assert(s[i - start] == t@[i as int]);
        }
        lemma_line_len_is_first_break(s, i - start);
    }
    i
}

/// Reads a pid file's text: its pid and, when the second line holds one, the
/// version of the launched binary.
pub fn parse_pid_record(text: &str) -> (record: Option<PidRecord>)
    ensures
        match parsed_pid_record(text@) {
            Some((pid, version)) => record matches Some(r) && r.pid == pid && match version {
                Some(v) => r.version matches Some(rv) && rv@ == v,
                None => r.version is None,
            },
            None => record is None,
        },
{
    let n = text.unicode_len();
    let end = line_end(text, 0);
    let ghost line = first_line(text@);
    assert(text@.skip(0) =~= text@);
    if end == 0 {
        return None;
    }
    let mut value: u64 = 0;
    let mut i: usize = 0;
    while i < end
        invariant
            line == first_line(text@),
            end == line.len(),
            line == text@.take(end as int),
            end <= text@.len(),
            i <= end,
            forall|j: int| 0 <= j < i ==> is_digit(#[trigger] line[j]),
            value == digits_value(line.take(i as int)),
            value <= u32::MAX,
        decreases end - i,
    {
        let c = text.get_char(i);
        assert(c == line[i as int]);
        if !('0' <= c && c <= '9') {
            assert(!is_digit(line[i as int]));
            assert(line == first_line(text@));
            assert(parsed_pid_record(text@) is None);
            return None;
        }
        let d = (c as u32 - '0' as u32) as u64;
        assert(line.take(i + 1).drop_last() =~= line.take(i as int));
        let next = value * 10 + d;
        assert(line.take(i + 1).last() == c);
        assert(digit_value(c) == d);
        assert(digits_value(line.take(i + 1)) == next);
        if next > 0xffff_ffff {
            proof {
                if forall|j: int| 0 <= j < line.len() ==> is_digit(#[trigger] line[j]) {
                    lemma_digits_value_grows(line, i + 1);
                }
                assert(line == first_line(text@));
                assert(parsed_pid_record(text@) is None);
            }
            return None;
        }
        value = next;
        i = i + 1;
    }
    assert(line.take(end as int) =~= line);
    let pid = value as u32;
    let version = if end < n {
        let start = end + 1;
        let stop = line_end(text, start);
        proof {
            let rest = after_first_line(text@);
            assert(rest =~= text@.skip(start as int));
        }
        if stop > start {
            let v = text.substring_char(start, stop);
            assert(v@ =~= first_line(after_first_line(text@)));
            Some(String::from_str(v))
        } else {
            None
        }
    } else {
        assert(after_first_line(text@) =~= Seq::<char>::empty());
        None
    };
    Some(PidRecord { pid, version })
}

} // verus!
