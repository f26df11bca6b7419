//! What the server reads out of its surroundings.

use crate::text::{all_digits, chars_of, digits_value, join3, u64_text};
use vstd::prelude::*;

verus! {

/// What stands before the number of clients in the report of the store.
pub const CLIENTS_LABEL: &'static str = "connected_clients:";

/// Whether `c` is white space, as Unicode has it.
pub open spec fn is_space(c: char) -> bool {
    let n = c as int;
    ||| 0x9 <= n <= 0xd
    ||| n == 0x20
    ||| n == 0x85
    ||| n == 0xa0
    ||| n == 0x1680
    ||| 0x2000 <= n <= 0x200a
    ||| n == 0x2028
    ||| n == 0x2029
    ||| n == 0x202f
    ||| n == 0x205f
    ||| n == 0x3000
}

/// `s` without the white space that it starts with.
pub open spec fn trim_start(s: Seq<char>) -> Seq<char>
    decreases s.len(),
{
    if s.len() > 0 && is_space(s[0]) {
        trim_start(s.skip(1))
    } else {
        s
    }
}

/// `s` without the white space that it ends with.
pub open spec fn trim_end(s: Seq<char>) -> Seq<char>
    decreases s.len(),
{
    if s.len() > 0 && is_space(s.last()) {
        trim_end(s.drop_last())
    } else {
        s
    }
}

/// The integer that `s` writes: decimal digits, with a sign before them or without. `None` for
/// any other text and for what does not fit into 64 bits.
pub open spec fn parsed_i64(s: Seq<char>) -> Option<i64> {
    let negative = s.len() > 0 && s[0] == '-';
    let digits = if negative || (s.len() > 0 && s[0] == '+') {
        s.skip(1)
    } else {
        s
    };
    let value: int = if negative {
        -(digits_value(digits) as int)
    } else {
        digits_value(digits) as int
    };
    if digits.len() > 0 && all_digits(digits) && i64::MIN <= value <= i64::MAX {
        Some(value as i64)
    } else {
        None
    }
}

/// The lines of a text.
pub open spec fn lines(s: Seq<char>) -> Seq<Seq<char>>
    decreases s.len(),
{
    if s.len() == 0 {
        seq![Seq::empty()]
    } else {
        let before = lines(s.drop_last());
        if s.last() == '\n' {
            before.push(Seq::empty())
        } else {
            before.drop_last().push(before.last().push(s.last()))
        }
    }
}

/// The number of clients that a line tells.
pub open spec fn clients_in_line(line: Seq<char>) -> Option<i64> {
    if CLIENTS_LABEL@.is_prefix_of(line) {
        parsed_i64(trim_end(trim_start(line.skip(CLIENTS_LABEL@.len() as int))))
    } else {
        None
    }
}

/// The number of clients that the last line to tell one tells.
pub open spec fn last_told(all: Seq<Seq<char>>) -> Option<i64>
    decreases all.len(),
{
    if all.len() == 0 {
        None
    } else if clients_in_line(all.last()) is Some {
        clients_in_line(all.last())
    } else {
        last_told(all.drop_last())
    }
}

/// The number of clients that a report tells.
pub open spec fn clients_told(info: Seq<char>) -> Option<i64> {
    last_told(lines(info))
}

fn is_white_space(c: char) -> (r: bool)
    ensures
        r == is_space(c),
{
    let n: u32 = c as u32;
    (0x9 <= n && n <= 0xd) || n == 0x20 || n == 0x85 || n == 0xa0 || n == 0x1680 || (0x2000 <= n
        && n <= 0x200a) || n == 0x2028 || n == 0x2029 || n == 0x202f || n == 0x205f || n == 0x3000
}

fn trim(s: &Vec<char>, from: usize) -> (r: Vec<char>)
    requires
        from <= s@.len(),
    ensures
        r@ == trim_end(trim_start(s@.skip(from as int))),
{
    let mut start: usize = from;
    while start < s.len() && is_white_space(s[start])
        invariant
            from <= start <= s@.len(),
            trim_start(s@.skip(from as int)) == trim_start(s@.skip(start as int)),
        decreases s@.len() - start,
    {
        assert(s@.skip(start as int).skip(1) =~= s@.skip(start as int + 1));
        start += 1;
    }
    let mut end: usize = s.len();
    assert(s@.skip(start as int) =~= s@.subrange(start as int, end as int));
    while end > start && is_white_space(s[end - 1])
        invariant
            start <= end <= s@.len(),
            trim_end(s@.skip(start as int)) == trim_end(s@.subrange(start as int, end as int)),
        decreases end,
    {
        assert(s@.subrange(start as int, end as int).drop_last() =~= s@.subrange(
            start as int,
            end as int - 1,
        ));
        end -= 1;
    }
    let mut r: Vec<char> = Vec::new();
    let mut i: usize = start;
    while i < end
        invariant
            start <= i <= end <= s@.len(),
            r@ == s@.subrange(start as int, i as int),
        decreases end - i,
    {
        r.push(s[i]);
        i += 1;
        assert(r@ =~= s@.subrange(start as int, i as int));
    }
    r
}

/// Reads an integer: decimal digits, with a sign before them or without.
fn parse_i64(s: &Vec<char>) -> (r: Option<i64>)
    ensures
        r == parsed_i64(s@),
{
    let negative: bool = s.len() > 0 && s[0] == '-';
    let signed: bool = negative || (s.len() > 0 && s[0] == '+');
    let start: usize = if signed {
        1
    } else {
        0
    };
    let ghost digits = s@.skip(start as int);
    assert(!signed ==> digits =~= s@);
    if start == s.len() {
        return None;
    }
    let mut value: u64 = 0;
    let mut too_large: bool = false;
    let mut i: usize = start;
    while i < s.len()
        invariant
            start <= i <= s@.len(),
            negative == (s@.len() > 0 && s@[0] == '-'),
            signed == (negative || (s@.len() > 0 && s@[0] == '+')),
            digits == if signed { s@.skip(1) } else { s@ },
            digits == s@.skip(start as int),
            forall|k: int| 0 <= k < i - start ==> crate::text::is_digit(#[trigger] digits[k]),
            !too_large ==> value == digits_value(digits.take(i - start)) && value
                <= 9_223_372_036_854_775_808,
            too_large ==> digits_value(digits.take(i - start)) > 9_223_372_036_854_775_808,
        decreases s@.len() - i,
    {
        let c: char = s[i];
        assert(digits[i - start] == c);
        if c < '0' || c > '9' {
            assert(!crate::text::is_digit(digits[i - start]));
            return None;
        }
        proof {
            assert(digits.take(i - start + 1).drop_last() =~= digits.take(i - start));
            assert(digits.take(i - start + 1).last() == c);
        }
        if !too_large {
            let next: u128 = value as u128 * 10 + (c as u32 - 48) as u128;
            if next > 9_223_372_036_854_775_808 {
                too_large = true;
            } else {
                value = next as u64;
            }
        }
        i += 1;
    }
    assert(digits.take(digits.len() as int) =~= digits);
    if too_large {
        None
    } else if negative {
        if value == 9_223_372_036_854_775_808 {
            Some(i64::MIN)
        } else {
            Some(-(value as i64))
        }
    } else if value <= 9_223_372_036_854_775_807 {
        Some(value as i64)
    } else {
        None
    }
}

fn starts_with(s: &Vec<char>, prefix: &Vec<char>) -> (r: bool)
    ensures
        r == prefix@.is_prefix_of(s@),
{
    if s.len() < prefix.len() {
        return false;
    }
    let mut i: usize = 0;
    while i < prefix.len()
        invariant
            i <= prefix@.len() <= s@.len(),
            forall|k: int| 0 <= k < i ==> s@[k] == prefix@[k],
        decreases prefix@.len() - i,
    {
        if s[i] != prefix[i] {
            assert(s@.subrange(0, prefix@.len() as int)[i as int] != prefix@[i as int]);
            return false;
        }
        i += 1;
    }
    assert(s@.subrange(0, prefix@.len() as int) =~= prefix@);
    true
}

fn read_line(line: &Vec<char>, label: &Vec<char>) -> (r: Option<i64>)
    requires
        label@ == CLIENTS_LABEL@,
    ensures
        r == clients_in_line(line@),
{
    if starts_with(line, label) {
        let rest = trim(line, label.len());
        parse_i64(&rest)
    } else {
        None
    }
}

/// The number of clients that the report of the store tells; the last line that tells one counts.
pub fn connected_clients(info: &str) -> (r: Option<i64>)
    ensures
        r == last_told(lines(info@)),
        r == clients_told(info@),
{
    let label = chars_of(CLIENTS_LABEL);
    let chars = chars_of(info);
    let mut told: Option<i64> = None;
    let mut line: Vec<char> = Vec::new();
    let mut i: usize = 0;
    assert(chars@.take(0) =~= Seq::empty());
    assert(lines(Seq::empty()).drop_last() =~= Seq::empty());
    while i < chars.len()
        invariant
            i <= chars@.len(),
            label@ == CLIENTS_LABEL@,
            lines(chars@.take(i as int)).len() > 0,
            lines(chars@.take(i as int)).last() == line@,
            last_told(lines(chars@.take(i as int)).drop_last()) == told,
        decreases chars@.len() - i,
    {
        let c: char = chars[i];
        let ghost before = lines(chars@.take(i as int));
        let ghost after = lines(chars@.take(i as int + 1));
        proof {
            assert(chars@.take(i as int + 1).drop_last() =~= chars@.take(i as int));
            assert(chars@.take(i as int + 1).last() == c);
        }
        if c == '\n' {
            match read_line(&line, &label) {
                Some(n) => {
                    told = Some(n);
                },
                None => {},
            }
            line = Vec::new();
            assert(after.drop_last() =~= before);
        } else {
            line.push(c);
            assert(after.drop_last() =~= before.drop_last());
        }
        i += 1;
    }
    assert(chars@.take(chars@.len() as int) =~= info@);
    match read_line(&line, &label) {
        Some(n) => Some(n),
        None => told,
    }
}

/// The address to listen on.
pub open spec fn address(host: Seq<char>, port: u16) -> Seq<char> {
    host + ":"@ + crate::text::decimal(port as nat)
}

/// The address to listen on.
pub fn listen_address(host: &str, port: u16) -> (s: String)
    ensures
        s@ == host@ + ":"@ + crate::text::decimal(port as nat),
        s@ == address(host@, port),
{
    join3(host, ":", u64_text(port as u64).as_str())
}

/// An address is the whole host, a colon, and the port in digits that stand for it.
pub proof fn addresses_name_host_and_port(host: Seq<char>, port: u16)
    ensures
        ({
            let a = address(host, port);
            let n = host.len() as int;
            &&& a.len() > n + 1
            &&& a.take(n) == host
            &&& a[n] == ':'
            &&& all_digits(a.skip(n + 1))
            &&& digits_value(a.skip(n + 1)) == port
        }),
{
    reveal_strlit(":");
    let a = address(host, port);
    let n = host.len() as int;
    crate::text::decimal_reads_back(port as nat);
    assert(a.take(n) =~= host);
    assert(a.skip(n + 1) =~= crate::text::decimal(port as nat));
}

/// Lines put together again, with a line break between any two.
pub open spec fn joined(all: Seq<Seq<char>>) -> Seq<char>
    decreases all.len(),
{
    if all.len() == 0 {
        Seq::empty()
    } else if all.len() == 1 {
        all[0]
    } else {
        joined(all.drop_last()).push('\n') + all.last()
    }
}

/// The lines of a text are all of it: put together again they are the text, and none of them holds
/// a line break.
pub proof fn lines_are_the_whole_text(s: Seq<char>)
    ensures
        lines(s).len() > 0,
        joined(lines(s)) == s,
        forall|i: int| 0 <= i < lines(s).len() ==> !(#[trigger] lines(s)[i]).contains('\n'),
    decreases s.len(),
{
    if s.len() == 0 {
        assert(joined(lines(s)) =~= s);
    } else {
        let before = lines(s.drop_last());
        let c = s.last();
        lines_are_the_whole_text(s.drop_last());
        if c == '\n' {
            assert(lines(s).drop_last() =~= before);
            assert(joined(lines(s)) =~= s);
        } else {
            assert(lines(s).drop_last() =~= before.drop_last());
            assert(joined(lines(s)) =~= joined(before).push(c));
            assert(joined(lines(s)) =~= s);
            assert forall|i: int| 0 <= i < lines(s).len() implies !(#[trigger] lines(
                s,
            )[i]).contains('\n') by {
                if i < before.len() - 1 {
                    assert(lines(s)[i] == before[i]);
                } else {
                    let line = lines(s)[i];
                    assert(!before[i].contains('\n'));
                    if line.contains('\n') {
                        let k = choose|k: int| 0 <= k < line.len() && line[k] == '\n';
                        assert(before[i][k] == '\n');
                    }
                }
            }
        }
    }
}

/// The lines of two texts with a line break between them are those of the first and then those of
/// the second.
pub proof fn lines_of_joined_texts(a: Seq<char>, b: Seq<char>)
    ensures
        lines(a.push('\n') + b) == lines(a) + lines(b),
    decreases b.len(),
{
    let whole = a.push('\n') + b;
    lines_are_the_whole_text(a);
    lines_are_the_whole_text(b);
    if b.len() == 0 {
        assert(whole.drop_last() =~= a);
        assert(lines(whole) =~= lines(a) + lines(b));
    } else {
        lines_of_joined_texts(a, b.drop_last());
        lines_are_the_whole_text(b.drop_last());
        assert(whole.drop_last() =~= a.push('\n') + b.drop_last());
        let rest = lines(b.drop_last());
        assert((lines(a) + rest).drop_last() =~= lines(a) + rest.drop_last());
        assert((lines(a) + rest).last() == rest.last());
        assert(lines(whole) =~= lines(a) + lines(b));
    }
}

proof fn lines_without_break(s: Seq<char>)
    requires
        !s.contains('\n'),
    ensures
        lines(s) == seq![s],
    decreases s.len(),
{
    if s.len() > 0 {
        assert(s[s.len() - 1] != '\n') by {
            assert(s.contains(s[s.len() - 1]));
        }
        assert(!s.drop_last().contains('\n')) by {
            if s.drop_last().contains('\n') {
                let k = choose|k: int| 0 <= k < s.len() - 1 && s.drop_last()[k] == '\n';
                assert(s[k] == '\n');
            }
        }
        lines_without_break(s.drop_last());
        assert(s.drop_last().push(s.last()) =~= s);
        assert(lines(s) =~= seq![s]);
    } else {
        assert(s =~= Seq::empty());
    }
}

/// Of two rows of lines the second has the last word, and where it tells nothing the first is heard.
pub proof fn later_lines_have_the_last_word(a: Seq<Seq<char>>, b: Seq<Seq<char>>)
    ensures
        last_told(Seq::empty()) is None,
        last_told(b) is Some ==> last_told(a + b) == last_told(b),
        last_told(b) is None ==> last_told(a + b) == last_told(a),
        b.len() == 1 ==> last_told(b) == clients_in_line(b[0]),
    decreases b.len(),
{
    if b.len() == 0 {
        assert(a + b =~= a);
    } else {
        assert((a + b).drop_last() =~= a + b.drop_last());
        assert((a + b).last() == b.last());
        later_lines_have_the_last_word(a, b.drop_last());
        if b.len() == 1 {
            assert(b.drop_last() =~= Seq::empty());
        }
    }
}

/// Digits, signs and what comes after the ideographic space are no white space; spaces, tabs and
/// the ends of lines are.
pub proof fn white_space_is_not_part_of_a_number(c: char)
    ensures
        is_space(c) ==> !crate::text::is_digit(c) && c != '-' && c != '+' && c as int <= 0x3000,
        c == ' ' || c == '\t' || c == '\r' || c == '\n' ==> is_space(c),
{
}

/// What is left of a text without the white space around it: from `r.0` up to `r.1`, with white
/// space alone before and behind, and none at either end.
pub proof fn trimming_takes_white_space_alone(s: Seq<char>) -> (r: (int, int))
    ensures
        0 <= r.0 <= r.1 <= s.len(),
        trim_end(trim_start(s)) == s.subrange(r.0, r.1),
        forall|k: int| 0 <= k < r.0 ==> is_space(#[trigger] s[k]),
        forall|k: int| r.1 <= k < s.len() ==> is_space(#[trigger] s[k]),
        r.0 < r.1 ==> !is_space(s[r.0]) && !is_space(s[r.1 - 1]),
{
    let from = trim_start_at(s);
    let to = trim_end_at(s.skip(from));
    assert(s.skip(from).take(to) =~= s.subrange(from, from + to));
    assert forall|k: int| from + to <= k < s.len() implies is_space(#[trigger] s[k]) by {
        assert(s.skip(from)[k - from] == s[k]);
    }
    if to > 0 {
        assert(s.skip(from)[to - 1] == s[from + to - 1]);
    }
    (from, from + to)
}

proof fn trim_start_at(s: Seq<char>) -> (from: int)
    ensures
        0 <= from <= s.len(),
        trim_start(s) == s.skip(from),
        forall|k: int| 0 <= k < from ==> is_space(#[trigger] s[k]),
        from < s.len() ==> !is_space(s[from]),
    decreases s.len(),
{
    if s.len() > 0 && is_space(s[0]) {
        let rest = trim_start_at(s.skip(1));
        assert(s.skip(1).skip(rest) =~= s.skip(rest + 1));
        assert forall|k: int| 0 <= k < rest + 1 implies is_space(#[trigger] s[k]) by {
            if k > 0 {
                assert(s.skip(1)[k - 1] == s[k]);
            }
        }
        if rest + 1 < s.len() {
            assert(s.skip(1)[rest] == s[rest + 1]);
        }
        rest + 1
    } else {
        assert(s.skip(0) =~= s);
        0
    }
}

proof fn trim_end_at(s: Seq<char>) -> (to: int)
    ensures
        0 <= to <= s.len(),
        trim_end(s) == s.take(to),
        forall|k: int| to <= k < s.len() ==> is_space(#[trigger] s[k]),
        to > 0 ==> !is_space(s[to - 1]),
    decreases s.len(),
{
    if s.len() > 0 && is_space(s.last()) {
        let to = trim_end_at(s.drop_last());
        assert(s.drop_last().take(to) =~= s.take(to));
        assert forall|k: int| to <= k < s.len() implies is_space(#[trigger] s[k]) by {
            if k < s.len() - 1 {
                assert(s.drop_last()[k] == s[k]);
            }
        }
        if to > 0 {
            assert(s.drop_last()[to - 1] == s[to - 1]);
        }
        to
    } else {
        assert(s.take(s.len() as int) =~= s);
        s.len() as int
    }
}

/// Every number reads back from its text.
pub proof fn numbers_read_back(n: i64)
    ensures
        parsed_i64(crate::text::decimal_int(n as int)) == Some(n),
{
    let s = crate::text::decimal_int(n as int);
    crate::text::decimal_int_reads_back(n as int);
    if n >= 0 {
        assert(crate::text::is_digit(s[0]));
    }
}

/// A text is read as a number exactly if it is a row of digits, with a sign before them or without,
/// that stands for a number that fits; and then as that number.
pub proof fn only_digits_are_read(digits: Seq<char>)
    requires
        digits.len() > 0,
        all_digits(digits),
    ensures
        parsed_i64(digits) is Some <==> digits_value(digits) <= i64::MAX,
        parsed_i64(digits) is Some ==> parsed_i64(digits)->0 == digits_value(digits),
        parsed_i64(seq!['+'] + digits) == parsed_i64(digits),
        parsed_i64(seq!['-'] + digits) is Some <==> -(digits_value(digits) as int) >= i64::MIN,
        parsed_i64(seq!['-'] + digits) is Some ==> parsed_i64(seq!['-'] + digits)->0 == -(
        digits_value(digits) as int),
{
    assert(crate::text::is_digit(digits[0]));
    assert((seq!['+'] + digits).skip(1) =~= digits);
    assert((seq!['-'] + digits).skip(1) =~= digits);
}

/// Whatever is read as a number is digits, but for a sign at its start.
pub proof fn what_is_read_is_digits(s: Seq<char>)
    requires
        parsed_i64(s) is Some,
    ensures
        s.len() > 0,
        all_digits(s) || ((s[0] == '-' || s[0] == '+') && s.len() > 1 && all_digits(s.skip(1))),
{
}

/// A line tells a number exactly if it starts with the label and what follows, without the white
/// space around it, can be read as one.
pub proof fn labelled_lines_tell_their_number(
    before: Seq<char>,
    n: i64,
    after: Seq<char>,
    line: Seq<char>,
)
    requires
        forall|k: int| 0 <= k < before.len() ==> is_space(#[trigger] before[k]),
        forall|k: int| 0 <= k < after.len() ==> is_space(#[trigger] after[k]),
    ensures
        clients_in_line(
            "connected_clients:"@ + (before + crate::text::decimal_int(n as int) + after),
        ) == Some(n),
        !"connected_clients:"@.is_prefix_of(line) ==> clients_in_line(line) is None,
        "connected_clients:"@.is_prefix_of(line) ==> clients_in_line(line) == parsed_i64(
            trim_end(trim_start(line.skip("connected_clients:"@.len() as int))),
        ),
{
    let d = crate::text::decimal_int(n as int);
    let rest = before + d + after;
    let labelled = "connected_clients:"@ + rest;
    let len = "connected_clients:"@.len() as int;
    assert(labelled.skip(len) =~= rest);
    assert(labelled.subrange(0, len) =~= "connected_clients:"@);
    crate::text::decimal_int_reads_back(n as int);
    assert forall|k: int| 0 <= k < d.len() implies !is_space(#[trigger] d[k]) by {
        if n >= 0 {
            assert(crate::text::is_digit(d[k]));
        } else if k > 0 {
            assert(d.skip(1)[k - 1] == d[k]);
        }
    }
    let (from, to) = trimming_takes_white_space_alone(rest);
    let start = before.len() as int;
    let end = (before.len() + d.len()) as int;
    assert(rest[start] == d[0]);
    assert(rest[end - 1] == d[d.len() - 1]);
    assert(!is_space(rest[start]) && !is_space(rest[end - 1]));
    assert(from <= start && to >= end);
    assert(from == start) by {
        if from < start {
            assert(rest[from] == before[from]);
        }
    }
    assert(to == end) by {
        if to > end {
            assert(rest[to - 1] == after[to - 1 - end]);
        }
    }
    assert(rest.subrange(from, to) =~= d);
    numbers_read_back(n);
}

/// The number of clients is found wherever in the report it stands, at the start of a line and with
/// a carriage return behind it, unless a later line tells another.
pub proof fn clients_are_found_in_any_report(earlier: Seq<char>, n: i64, later: Seq<char>)
    requires
        clients_told(later) is None,
    ensures
        ({
            let line = "connected_clients:"@ + crate::text::decimal_int(n as int).push('\r');
            &&& clients_told(line.push('\n') + later) == Some(n)
            &&& clients_told(earlier.push('\n') + (line.push('\n') + later)) == Some(n)
        }),
{
    let d = crate::text::decimal_int(n as int);
    let line = "connected_clients:"@ + d.push('\r');
    labelled_lines_tell_their_number(Seq::empty(), n, seq!['\r'], line);
    assert(Seq::<char>::empty() + d + seq!['\r'] =~= d.push('\r'));
    crate::text::decimal_int_reads_back(n as int);
    reveal_strlit("connected_clients:");
    assert(!line.contains('\n')) by {
        if line.contains('\n') {
            let k = choose|k: int| 0 <= k < line.len() && line[k] == '\n';
            let j = k - "connected_clients:"@.len();
            if 0 <= j < d.len() {
                assert(d[j] == '\n');
                if n >= 0 {
                    assert(crate::text::is_digit(d[j]));
                } else if j > 0 {
                    assert(d.skip(1)[j - 1] == d[j]);
                }
            }
        }
    }
    lines_without_break(line);
    lines_of_joined_texts(line, later);
    later_lines_have_the_last_word(Seq::empty(), lines(line));
    later_lines_have_the_last_word(lines(line), lines(later));
    let rest = line.push('\n') + later;
    lines_of_joined_texts(earlier, rest);
    later_lines_have_the_last_word(lines(earlier), lines(rest));
}

} // verus!
