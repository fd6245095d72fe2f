//! Text as sequences of characters: searching, splitting, joining, decimals.

use vstd::prelude::*;
use vstd::string::*;

verus! {

broadcast use vstd::string::group_string_axioms;

/// The character for one decimal digit.
pub open spec fn digit(d: nat) -> char {
    (48 + d) as char
}

/// The decimal notation of `n`, without leading zeros.
pub open spec fn decimal(n: nat) -> Seq<char>
    decreases n,
{
    if n < 10 {
        seq![digit(n)]
    } else {
        decimal(n / 10).push(digit(n % 10))
    }
}

/// Whether `c` is one of `0` to `9`.
pub open spec fn is_digit(c: char) -> bool {
    '0' <= c && c <= '9'
}

/// The number that a sequence of decimal digits stands for.
pub open spec fn digits_value(s: Seq<char>) -> nat
    decreases s.len(),
{
    if s.len() == 0 {
        0
    } else {
        10 * digits_value(s.drop_last()) + (s.last() as nat - 48) as nat
    }
}

/// The digits of an unsigned integer literal: an optional `+` is skipped.
pub open spec fn unsigned_digits(s: Seq<char>) -> Seq<char> {
    if s.len() > 0 && s[0] == '+' {
        s.skip(1)
    } else {
        s
    }
}

/// The unsigned integer that `s` spells, when it spells one that fits 64 bits.
pub open spec fn parsed_u64(s: Seq<char>) -> Option<u64> {
    let digits = unsigned_digits(s);
    if digits.len() == 0 || !(forall|i: int| 0 <= i < digits.len() ==> is_digit(#[trigger] digits[i]))
        || digits_value(digits) > u64::MAX {
        None
    } else {
        Some(digits_value(digits) as u64)
    }
}

/// Whether `part` occurs in `whole` at position `at`.
pub open spec fn occurs_at(whole: Seq<char>, part: Seq<char>, at: int) -> bool {
    0 <= at && at + part.len() <= whole.len() && whole.subrange(at, at + part.len()) == part
}

/// The first position at or after `from` at which `part` occurs.
pub open spec fn find_from(whole: Seq<char>, part: Seq<char>, from: int) -> Option<int>
    decreases whole.len() - from + 1,
{
    if from < 0 || from + part.len() > whole.len() {
        None
    } else if occurs_at(whole, part, from) {
        Some(from)
    } else {
        find_from(whole, part, from + 1)
    }
}

/// The first position at which `part` occurs in `whole`.
pub open spec fn find(whole: Seq<char>, part: Seq<char>) -> Option<int> {
    find_from(whole, part, 0)
}

/// The last position before `to` at which the character `c` stands.
pub open spec fn rfind_before(whole: Seq<char>, c: char, to: int) -> Option<int>
    decreases to,
{
    if to <= 0 || to > whole.len() {
        None
    } else if whole[to - 1] == c {
        Some(to - 1)
    } else {
        rfind_before(whole, c, to - 1)
    }
}

/// The last position at which the character `c` stands in `whole`.
pub open spec fn rfind(whole: Seq<char>, c: char) -> Option<int> {
    rfind_before(whole, c, whole.len() as int)
}

/// What follows `prefix` in `whole`, when `whole` starts with it.
pub open spec fn strip_prefix(whole: Seq<char>, prefix: Seq<char>) -> Option<Seq<char>> {
    if occurs_at(whole, prefix, 0) {
        Some(whole.skip(prefix.len() as int))
    } else {
        None
    }
}

/// What precedes `suffix` in `whole`, when `whole` ends with it.
pub open spec fn strip_suffix(whole: Seq<char>, suffix: Seq<char>) -> Option<Seq<char>> {
    if occurs_at(whole, suffix, whole.len() - suffix.len()) {
        Some(whole.take(whole.len() - suffix.len()))
    } else {
        None
    }
}

/// What precedes the first occurrence of `mark` in `whole`.
pub open spec fn before(whole: Seq<char>, mark: Seq<char>) -> Option<Seq<char>> {
    match find(whole, mark) {
        Some(at) => Some(whole.take(at)),
        None => None,
    }
}

/// The pieces of `s` between the separators `sep`.
pub open spec fn split(s: Seq<char>, sep: char) -> Seq<Seq<char>>
    decreases s.len(),
{
    match find(s, seq![sep]) {
        Some(at) => if 0 <= at < s.len() {
            seq![s.take(at)] + split(s.skip(at + 1), sep)
        } else {
            seq![s]
        },
        None => seq![s],
    }
}

/// The pieces, with `sep` between each two of them.
pub open spec fn joined(parts: Seq<Seq<char>>, sep: Seq<char>) -> Seq<char>
    decreases parts.len(),
{
    if parts.len() == 0 {
        Seq::empty()
    } else if parts.len() == 1 {
        parts[0]
    } else {
        joined(parts.drop_last(), sep) + sep + parts.last()
    }
}

/// Whether a character is white space: whether it has the Unicode property
/// `White_Space`.
pub open spec fn is_white(c: char) -> bool {
    ||| '\u{9}' <= c <= '\u{d}'
    ||| c == ' '
    ||| c == '\u{85}'
    ||| c == '\u{a0}'
    ||| c == '\u{1680}'
    ||| '\u{2000}' <= c <= '\u{200a}'
    ||| c == '\u{2028}'
    ||| c == '\u{2029}'
    ||| c == '\u{202f}'
    ||| c == '\u{205f}'
    ||| c == '\u{3000}'
}

/// `s` without the white space at its end.
pub open spec fn trimmed_end(s: Seq<char>) -> Seq<char>
    decreases s.len(),
{
    if s.len() > 0 && is_white(s.last()) {
        trimmed_end(s.drop_last())
    } else {
        s
    }
}

/// `s` without the white space at its beginning.
pub open spec fn trimmed_start(s: Seq<char>) -> Seq<char>
    decreases s.len(),
{
    if s.len() > 0 && is_white(s[0]) {
        trimmed_start(s.skip(1))
    } else {
        s
    }
}

/// `s` without the white space around it.
pub open spec fn trimmed(s: Seq<char>) -> Seq<char> {
    trimmed_end(trimmed_start(s))
}

/// The lines of `s`: what stands before each line feed, without a carriage
/// return right before it, and what follows the last one, if anything does.
pub open spec fn lines(s: Seq<char>) -> Seq<Seq<char>>
    decreases s.len(),
{
    if s.len() == 0 {
        Seq::empty()
    } else {
        match find(s, seq!['\n']) {
            Some(at) => if 0 <= at < s.len() {
                seq![
                    if at > 0 && s[at - 1] == '\r' {
                        s.take(at - 1)
                    } else {
                        s.take(at)
                    },
                ] + lines(s.skip(at + 1))
            } else {
                seq![s]
            },
            None => seq![s],
        }
    }
}

/// The character sequences of a list of strings.
pub open spec fn texts(list: Seq<String>) -> Seq<Seq<char>> {
    Seq::new(list.len(), |i: int| list[i]@)
}

pub proof fn lemma_find_from(whole: Seq<char>, part: Seq<char>, from: int)
    requires
        0 <= from,
    ensures
        match find_from(whole, part, from) {
            Some(at) => from <= at && occurs_at(whole, part, at) && forall|j: int|
                from <= j < at ==> !occurs_at(whole, part, j),
            None => forall|j: int| from <= j ==> !occurs_at(whole, part, j),
        },
    decreases whole.len() - from + 1,
{
    if from + part.len() <= whole.len() && !occurs_at(whole, part, from) {
        lemma_find_from(whole, part, from + 1);
    }
}

pub proof fn lemma_rfind_before(whole: Seq<char>, c: char, to: int)
    requires
        to <= whole.len(),
    ensures
        match rfind_before(whole, c, to) {
            Some(at) => 0 <= at < to && whole[at] == c && forall|j: int| at < j < to ==> whole[j] != c,
            None => forall|j: int| 0 <= j < to ==> whole[j] != c,
        },
    decreases to,
{
    if to > 0 && whole[to - 1] != c {
        lemma_rfind_before(whole, c, to - 1);
    }
}

/// Decimal notation has only digits and stands for the number it was made of.
pub proof fn lemma_decimal_value(n: nat)
    ensures
        decimal(n).len() > 0,
        forall|i: int| 0 <= i < decimal(n).len() ==> is_digit(#[trigger] decimal(n)[i]),
        digits_value(decimal(n)) == n,
    decreases n,
{
    if n < 10 {
        assert(decimal(n).drop_last() =~= Seq::<char>::empty());
        assert(decimal(n).last() == digit(n));
        assert(digits_value(Seq::<char>::empty()) == 0);
    } else {
        lemma_decimal_value(n / 10);
        assert(decimal(n).drop_last() =~= decimal(n / 10));
        assert(decimal(n).last() == digit(n % 10));
    }
}

/// Reading a number back from its decimal notation gives the number.
pub proof fn decimal_round_trip(n: u64)
    ensures
        parsed_u64(decimal(n as nat)) == Some(n),
{
    lemma_decimal_value(n as nat);
    let s = decimal(n as nat);
    assert(is_digit(s[0]));
    assert(s[0] != '+');
    assert(unsigned_digits(s) == s);
}

/// The characters of `s`.
pub fn chars_of(s: &str) -> (res: Vec<char>)
    ensures
        res@ == s@,
{
    let mut res: Vec<char> = Vec::new();
    for c in it: s.chars()
        invariant
            res@ == s@.take(it.index()),
            it.seq() == s@,
    {
        res.push(c);
    }
    assert(s@.take(s@.len() as int) =~= s@);
    res
}

/// Whether two pieces of text are the same.
pub fn same_text(a: &str, b: &str) -> (res: bool)
    ensures
        res == (a@ == b@),
{
    a.to_owned() == b.to_owned()
}

/// `a` followed by `b`.
pub fn concat(a: &str, b: &str) -> (res: String)
    ensures
        res@ == a@ + b@,
{
    let mut res: String = a.to_owned();
    res.append(b);
    res
}

/// `a`, `b` and `c` in a row.
pub fn concat3(a: &str, b: &str, c: &str) -> (res: String)
    ensures
        res@ == a@ + b@ + c@,
{
    let mut res: String = a.to_owned();
    res.append(b);
    res.append(c);
    res
}

/// Four pieces of text in a row.
pub fn concat4(a: &str, b: &str, c: &str, d: &str) -> (res: String)
    ensures
        res@ == a@ + b@ + c@ + d@,
{
    let mut res: String = a.to_owned();
    res.append(b);
    res.append(c);
    res.append(d);
    res
}

fn digit_text(d: u64) -> (res: String)
    requires
        d < 10,
    ensures
        res@ == seq![digit(d as nat)],
{
    proof {
        reveal_strlit("0");
        reveal_strlit("1");
        reveal_strlit("2");
        reveal_strlit("3");
        reveal_strlit("4");
        reveal_strlit("5");
        reveal_strlit("6");
        reveal_strlit("7");
        reveal_strlit("8");
        reveal_strlit("9");
    }
    if d == 0 {
        "0".to_owned()
    } else if d == 1 {
        "1".to_owned()
    } else if d == 2 {
        "2".to_owned()
    } else if d == 3 {
        "3".to_owned()
    } else if d == 4 {
        "4".to_owned()
    } else if d == 5 {
        "5".to_owned()
    } else if d == 6 {
        "6".to_owned()
    } else if d == 7 {
        "7".to_owned()
    } else if d == 8 {
        "8".to_owned()
    } else {
        "9".to_owned()
    }
}

/// The decimal notation of `n`.
pub fn decimal_text(n: u64) -> (res: String)
    ensures
        res@ == decimal(n as nat),
    decreases n,
{
    if n < 10 {
        digit_text(n)
    } else {
        let mut res: String = decimal_text(n / 10);
        let last: String = digit_text(n % 10);
        res.append(last.as_str());
        assert(res@ =~= decimal((n / 10) as nat).push(digit((n % 10) as nat)));
        res
    }
}

/// The decimal notation of a signed number.
pub open spec fn signed_decimal(n: int) -> Seq<char> {
    if n < 0 {
        "-"@ + decimal((-n) as nat)
    } else {
        decimal(n as nat)
    }
}

/// The decimal notation of `n`, with a minus sign where it is negative.
pub fn signed_decimal_text(n: i32) -> (res: String)
    ensures
        res@ == signed_decimal(n as int),
{
    if n < 0 {
        let magnitude: u64 = (-(n as i64)) as u64;
        let digits: String = decimal_text(magnitude);
        concat("-", digits.as_str())
    } else {
        decimal_text(n as u64)
    }
}

proof fn lemma_digits_value_grows(s: Seq<char>, from: int)
    requires
        0 <= from <= s.len(),
    ensures
        digits_value(s.take(from)) <= digits_value(s),
    decreases s.len() - from,
{
    if from < s.len() {
        lemma_digits_value_grows(s, from + 1);
        assert(s.take(from + 1).drop_last() =~= s.take(from));
    } else {
        assert(s.take(from) =~= s);
    }
}

/// Reads an unsigned 64-bit integer: decimal digits behind an optional `+`.
pub fn parse_u64(s: &str) -> (res: Option<u64>)
    ensures
        res == parsed_u64(s@),
{
    let chars: Vec<char> = chars_of(s);
    let start: usize = if chars.len() > 0 && chars[0] == '+' {
        1
    } else {
        0
    };
    let ghost digits = unsigned_digits(s@);
    assert(digits =~= chars@.skip(start as int));
    if start == chars.len() {
        return None;
    }
    let mut value: u64 = 0;
    let mut i: usize = start;
    assert(digits.take(0) =~= Seq::<char>::empty());
    while i < chars.len()
        invariant
            start <= i <= chars.len(),
            start < chars.len(),
            digits == chars@.skip(start as int),
            digits == unsigned_digits(s@),
            chars@ == s@,
            forall|j: int| 0 <= j < i - start ==> is_digit(#[trigger] digits[j]),
            value == digits_value(digits.take(i - start)),
        decreases chars.len() - i,
    {
        let c: char = chars[i];
        let ghost k = i - start;
        assert(digits[k] == c);
        if !(c >= '0' && c <= '9') {
            return None;
        }
        let d: u64 = (c as u64) - 48;
        proof {
            assert(digits.take(k + 1).drop_last() =~= digits.take(k));
            assert(digits.take(k + 1).last() == c);
            lemma_digits_value_grows(digits, k + 1);
        }
        if value > 1844674407370955161 || (value == 1844674407370955161 && d > 5) {
            return None;
        }
        value = value * 10 + d;
        i = i + 1;
    }
    assert(digits.take(digits.len() as int) =~= digits);
    Some(value)
}

/// Whether `part` stands in `whole` at position `at`.
pub fn occurs(whole: &Vec<char>, part: &Vec<char>, at: usize) -> (res: bool)
    ensures
        res == occurs_at(whole@, part@, at as int),
{
    if at > whole.len() || part.len() > whole.len() - at {
        return false;
    }
    let mut i: usize = 0;
    while i < part.len()
        invariant
            i <= part.len(),
            at + part.len() <= whole.len(),
            forall|j: int| 0 <= j < i ==> whole@[at + j] == #[trigger] part@[j],
        decreases part.len() - i,
    {
        if whole[at + i] != part[i] {
            assert(whole@.subrange(at as int, at + part@.len())[i as int] != part@[i as int]);
            return false;
        }
        i = i + 1;
    }
    assert(whole@.subrange(at as int, at + part@.len()) =~= part@);
    true
}

/// The first position at or after `from` at which `part` stands in `whole`.
pub fn position_from(whole: &Vec<char>, part: &Vec<char>, from: usize) -> (res: Option<usize>)
    ensures
        match res {
            Some(at) => find_from(whole@, part@, from as int) == Some(at as int),
            None => find_from(whole@, part@, from as int) is None,
        },
{
    let mut i: usize = from;
    while i <= whole.len() && part.len() <= whole.len() - i
        invariant
            from <= i,
            find_from(whole@, part@, from as int) == find_from(whole@, part@, i as int),
        decreases whole.len() - i + 1,
    {
        if occurs(whole, part, i) {
            return Some(i);
        }
        if i == whole.len() {
            assert(find_from(whole@, part@, i + 1) is None);
            return None;
        }
        i = i + 1;
    }
    None
}

/// The first position at which `part` stands in `whole`.
pub fn position(whole: &str, part: &str) -> (res: Option<usize>)
    ensures
        match res {
            Some(at) => find(whole@, part@) == Some(at as int),
            None => find(whole@, part@) is None,
        },
{
    let w: Vec<char> = chars_of(whole);
    let p: Vec<char> = chars_of(part);
    position_from(&w, &p, 0)
}

/// Whether `part` stands anywhere in `whole`.
pub fn contains_text(whole: &str, part: &str) -> (res: bool)
    ensures
        res == (find(whole@, part@) is Some),
{
    position(whole, part).is_some()
}

/// Whether `whole` starts with `prefix`.
pub fn starts_with(whole: &str, prefix: &str) -> (res: bool)
    ensures
        res == occurs_at(whole@, prefix@, 0),
{
    let w: Vec<char> = chars_of(whole);
    let p: Vec<char> = chars_of(prefix);
    occurs(&w, &p, 0)
}

/// Whether `whole` ends with `suffix`.
pub fn ends_with(whole: &str, suffix: &str) -> (res: bool)
    ensures
        res == occurs_at(whole@, suffix@, whole@.len() - suffix@.len()),
{
    let w: Vec<char> = chars_of(whole);
    let p: Vec<char> = chars_of(suffix);
    if p.len() > w.len() {
        return false;
    }
    occurs(&w, &p, w.len() - p.len())
}

/// The characters of `s` from position `from` up to, not including, `to`.
pub fn slice(s: &str, from: usize, to: usize) -> (res: String)
    requires
        from <= to <= s@.len(),
    ensures
        res@ == s@.subrange(from as int, to as int),
{
    s.substring_char(from, to).to_owned()
}

/// What follows `prefix` in `whole`, when `whole` starts with it.
pub fn without_prefix(whole: &str, prefix: &str) -> (res: Option<String>)
    ensures
        match res {
            Some(rest) => strip_prefix(whole@, prefix@) == Some(rest@),
            None => strip_prefix(whole@, prefix@) is None,
        },
{
    if starts_with(whole, prefix) {
        let n: usize = chars_of(prefix).len();
        let total: usize = chars_of(whole).len();
        let rest: String = slice(whole, n, total);
        assert(rest@ =~= whole@.skip(prefix@.len() as int));
        Some(rest)
    } else {
        None
    }
}

/// What precedes `suffix` in `whole`, when `whole` ends with it.
pub fn without_suffix(whole: &str, suffix: &str) -> (res: Option<String>)
    ensures
        match res {
            Some(rest) => strip_suffix(whole@, suffix@) == Some(rest@),
            None => strip_suffix(whole@, suffix@) is None,
        },
{
    if ends_with(whole, suffix) {
        let n: usize = chars_of(suffix).len();
        let total: usize = chars_of(whole).len();
        let rest: String = slice(whole, 0, total - n);
        assert(rest@ =~= whole@.take(whole@.len() - suffix@.len()));
        Some(rest)
    } else {
        None
    }
}

/// What precedes the first `mark` in `whole`.
pub fn text_before(whole: &str, mark: &str) -> (res: Option<String>)
    ensures
        match res {
            Some(head) => before(whole@, mark@) == Some(head@),
            None => before(whole@, mark@) is None,
        },
{
    match position(whole, mark) {
        Some(at) => {
            proof {
                lemma_find_from(whole@, mark@, 0);
            }
            let head: String = slice(whole, 0, at);
            assert(head@ =~= whole@.take(at as int));
            Some(head)
        },
        None => None,
    }
}

/// The pieces, with `sep` between each two of them.
pub fn join(parts: &Vec<String>, sep: &str) -> (res: String)
    ensures
        res@ == joined(texts(parts@), sep@),
{
    let mut res: String = String::new();
    let mut i: usize = 0;
    assert(joined(texts(parts@).take(0), sep@) =~= Seq::<char>::empty());
    while i < parts.len()
        invariant
            i <= parts.len(),
            res@ == joined(texts(parts@).take(i as int), sep@),
        decreases parts.len() - i,
    {
        let ghost all = texts(parts@);
        if i > 0 {
            res.append(sep);
        }
        res.append(parts[i].as_str());
        proof {
            assert(all.take(i + 1).drop_last() =~= all.take(i as int));
            assert(all.take(i + 1).last() == parts@[i as int]@);
            if i == 0 {
                assert(all.take(1)[0] == parts@[0]@);
                assert(res@ =~= parts@[0]@);
            }
        }
        i = i + 1;
    }
    assert(texts(parts@).take(parts@.len() as int) =~= texts(parts@));
    res
}

fn white(c: char) -> (res: bool)
    ensures
        res == is_white(c),
{
    ('\u{9}' <= c && c <= '\u{d}') || c == ' ' || c == '\u{85}' || c == '\u{a0}' || c == '\u{1680}'
        || ('\u{2000}' <= c && c <= '\u{200a}') || c == '\u{2028}' || c == '\u{2029}' || c
        == '\u{202f}' || c == '\u{205f}' || c == '\u{3000}'
}

/// `s` without the white space at its end.
pub fn trim_end(s: &str) -> (res: String)
    ensures
        res@ == trimmed_end(s@),
{
    let chars: Vec<char> = chars_of(s);
    let mut end: usize = chars.len();
    assert(s@.take(end as int) =~= s@);
    while end > 0 && white(chars[end - 1])
        invariant
            end <= chars.len(),
            chars@ == s@,
            trimmed_end(s@.take(end as int)) == trimmed_end(s@),
        decreases end,
    {
        assert(s@.take(end as int).drop_last() =~= s@.take(end - 1));
        assert(s@.take(end as int).last() == s@[end - 1]);
        assert(is_white(s@[end - 1]));
        end = end - 1;
    }
    proof {
        let head = s@.take(end as int);
        if end > 0 {
            assert(head.last() == s@[end - 1]);
        }
        assert(trimmed_end(head) == head);
        assert(s@.subrange(0, end as int) =~= head);
    }
    slice(s, 0, end)
}

/// `s` without the white space at its beginning.
pub fn trim_start(s: &str) -> (res: String)
    ensures
        res@ == trimmed_start(s@),
{
    let chars: Vec<char> = chars_of(s);
    let mut start: usize = 0;
    assert(s@.skip(0) =~= s@);
    while start < chars.len() && white(chars[start])
        invariant
            start <= chars.len(),
            chars@ == s@,
            trimmed_start(s@.skip(start as int)) == trimmed_start(s@),
        decreases chars.len() - start,
    {
        assert(s@.skip(start as int)[0] == s@[start as int]);
        assert(s@.skip(start as int).skip(1) =~= s@.skip(start + 1));
        start = start + 1;
    }
    proof {
        let tail = s@.skip(start as int);
        if start < chars.len() {
            assert(tail[0] == s@[start as int]);
        }
        assert(trimmed_start(tail) == tail);
        assert(s@.subrange(start as int, s@.len() as int) =~= tail);
    }
    slice(s, start, chars.len())
}

/// `s` without the white space around it.
pub fn trim(s: &str) -> (res: String)
    ensures
        res@ == trimmed(s@),
{
    let head: String = trim_start(s);
    trim_end(head.as_str())
}

/// The last position at which `c` stands in `whole`.
pub fn last_position(whole: &str, c: char) -> (res: Option<usize>)
    ensures
        match res {
            Some(at) => rfind(whole@, c) == Some(at as int),
            None => rfind(whole@, c) is None,
        },
{
    let chars: Vec<char> = chars_of(whole);
    let mut to: usize = chars.len();
    while to > 0
        invariant
            to <= chars.len(),
            chars@ == whole@,
            rfind(whole@, c) == rfind_before(whole@, c, to as int),
        decreases to,
    {
        if chars[to - 1] == c {
            return Some(to - 1);
        }
        to = to - 1;
    }
    None
}

/// The lines of `s`.
pub fn line_list(s: &str) -> (res: Vec<String>)
    ensures
        texts(res@) == lines(s@),
{
    let chars: Vec<char> = chars_of(s);
    let mut feed: Vec<char> = Vec::new();
    feed.push('\n');
    assert(feed@ =~= seq!['\n']);
    let mut res: Vec<String> = Vec::new();
    let mut start: usize = 0;
    assert(texts(res@) + lines(s@.skip(0)) =~= lines(s@)) by {
        assert(s@.skip(0) =~= s@);
    }
    while start < chars.len()
        invariant
            start <= chars.len(),
            chars@ == s@,
            feed@ == seq!['\n'],
            texts(res@) + lines(s@.skip(start as int)) == lines(s@),
        decreases chars.len() - start,
    {
        let ghost rest = s@.skip(start as int);
        let ghost before = texts(res@);
        proof {
            lemma_find_skip(s@, feed@, start as int);
            lemma_find_from(s@, feed@, start as int);
        }
        match position_from(&chars, &feed, start) {
            Some(at) => {
                let end: usize = if at > start && chars[at - 1] == '\r' {
                    at - 1
                } else {
                    at
                };
                let line: String = slice(s, start, end);
                assert(line@ =~= rest.take(end - start));
                assert(rest.skip(at - start + 1) =~= s@.skip(at + 1));
                assert(lines(rest) =~= seq![line@] + lines(s@.skip(at + 1)));
                res.push(line);
                assert(texts(res@) =~= before.push(line@));
                assert(texts(res@) + lines(s@.skip(at + 1)) =~= before + lines(rest));
                start = at + 1;
            },
            None => {
                let line: String = slice(s, start, chars.len());
                assert(line@ =~= rest);
                assert(lines(rest) =~= seq![rest]);
                res.push(line);
                assert(texts(res@) =~= before.push(line@));
                start = chars.len();
                assert(s@.skip(start as int) =~= Seq::<char>::empty());
                assert(texts(res@) + lines(s@.skip(start as int)) =~= before + lines(rest));
            },
        }
    }
    assert(s@.skip(start as int) =~= Seq::<char>::empty());
    assert(texts(res@) + lines(s@.skip(start as int)) =~= texts(res@));
    res
}

/// The pieces of `s` between the separators `sep`.
pub fn split_list(s: &str, sep: char) -> (res: Vec<String>)
    ensures
        texts(res@) == split(s@, sep),
{
    let chars: Vec<char> = chars_of(s);
    let mut mark: Vec<char> = Vec::new();
    mark.push(sep);
    assert(mark@ =~= seq![sep]);
    let mut res: Vec<String> = Vec::new();
    let mut start: usize = 0;
    assert(s@.skip(0) =~= s@);
    assert(texts(res@) + split(s@.skip(0), sep) =~= split(s@, sep));
    loop
        invariant_except_break
            texts(res@) + split(s@.skip(start as int), sep) == split(s@, sep),
        invariant
            start <= chars.len(),
            chars@ == s@,
            mark@ == seq![sep],
        ensures
            texts(res@) == split(s@, sep),
        decreases chars.len() - start,
    {
        let ghost rest = s@.skip(start as int);
        let ghost before = texts(res@);
        proof {
            lemma_find_skip(s@, mark@, start as int);
            lemma_find_from(s@, mark@, start as int);
        }
        match position_from(&chars, &mark, start) {
            Some(at) => {
                let piece: String = slice(s, start, at);
                assert(piece@ =~= rest.take(at - start));
                assert(rest.skip(at - start + 1) =~= s@.skip(at + 1));
                assert(split(rest, sep) =~= seq![piece@] + split(s@.skip(at + 1), sep));
                res.push(piece);
                assert(texts(res@) =~= before.push(piece@));
                assert(texts(res@) + split(s@.skip(at + 1), sep) =~= before + split(rest, sep));
                start = at + 1;
            },
            None => {
                let piece: String = slice(s, start, chars.len());
                assert(piece@ =~= rest);
                assert(split(rest, sep) =~= seq![rest]);
                res.push(piece);
                assert(texts(res@) =~= before.push(piece@));
                assert(texts(res@) =~= before + split(rest, sep));
                break;
            },
        }
    }
    res
}

/// Searching the rest of a text is searching the text from there on.
proof fn lemma_find_skip(whole: Seq<char>, part: Seq<char>, start: int)
    requires
        0 <= start <= whole.len(),
        part.len() > 0,
    ensures
        match find_from(whole, part, start) {
            Some(at) => find(whole.skip(start), part) == Some(at - start),
            None => find(whole.skip(start), part) is None,
        },
{
    lemma_find_shift(whole, part, start, start);
}

proof fn lemma_find_shift(whole: Seq<char>, part: Seq<char>, start: int, from: int)
    requires
        0 <= start <= from,
        start <= whole.len(),
        part.len() > 0,
    ensures
        match find_from(whole, part, from) {
            Some(at) => find_from(whole.skip(start), part, from - start) == Some(at - start),
            None => find_from(whole.skip(start), part, from - start) is None,
        },
    decreases whole.len() - from + 1,
{
    let rest = whole.skip(start);
    if from + part.len() <= whole.len() {
        assert(rest.subrange(from - start, from - start + part.len()) =~= whole.subrange(
            from,
            from + part.len(),
        ));
        assert(occurs_at(rest, part, from - start) == occurs_at(whole, part, from));
        if !occurs_at(whole, part, from) {
            lemma_find_shift(whole, part, start, from + 1);
        }
    }
}

/// Whether there is nothing but white space in `s`.
pub open spec fn blank(s: Seq<char>) -> bool {
    forall|i: int| 0 <= i < s.len() ==> is_white(#[trigger] s[i])
}

/// Whether `part` is what stands in `whole` from `from` to `to`, with nothing but
/// white space around it and none at its ends.
pub open spec fn stripped_at(part: Seq<char>, whole: Seq<char>, from: int, to: int) -> bool {
    &&& 0 <= from <= to <= whole.len()
    &&& part == whole.subrange(from, to)
    &&& forall|i: int| 0 <= i < from ==> is_white(#[trigger] whole[i])
    &&& forall|i: int| to <= i < whole.len() ==> is_white(#[trigger] whole[i])
    &&& part.len() > 0 ==> !is_white(part[0]) && !is_white(part.last())
}

/// Whether `part` is `whole` without the white space around it.
pub open spec fn stripped(part: Seq<char>, whole: Seq<char>) -> bool {
    exists|from: int, to: int| stripped_at(part, whole, from, to)
}

proof fn lemma_trimmed_start(s: Seq<char>) -> (from: int)
    ensures
        0 <= from <= s.len(),
        trimmed_start(s) == s.skip(from),
        forall|i: int| 0 <= i < from ==> is_white(#[trigger] s[i]),
        from < s.len() ==> !is_white(s[from]),
    decreases s.len(),
{
    if s.len() > 0 && is_white(s[0]) {
        let rest = lemma_trimmed_start(s.skip(1));
        assert(s.skip(1).skip(rest) =~= s.skip(rest + 1));
        assert forall|i: int| 0 <= i < rest + 1 implies is_white(#[trigger] s[i]) by {
            if i > 0 {
                assert(s.skip(1)[i - 1] == s[i]);
            }
        }
        rest + 1
    } else {
        assert(s.skip(0) =~= s);
        0
    }
}

proof fn lemma_trimmed_end(s: Seq<char>) -> (to: int)
    ensures
        0 <= to <= s.len(),
        trimmed_end(s) == s.take(to),
        forall|i: int| to <= i < s.len() ==> is_white(#[trigger] s[i]),
        to > 0 ==> !is_white(s[to - 1]),
    decreases s.len(),
{
    if s.len() > 0 && is_white(s.last()) {
        let to = lemma_trimmed_end(s.drop_last());
        assert(s.drop_last().take(to) =~= s.take(to));
        assert forall|i: int| to <= i < s.len() implies is_white(#[trigger] s[i]) by {
            if i < s.len() - 1 {
                assert(s.drop_last()[i] == s[i]);
            }
        }
        to
    } else {
        assert(s.take(s.len() as int) =~= s);
        s.len() as int
    }
}

/// Trimming takes the white space around a text away, all of it and nothing
/// else: only a blank text leaves nothing.
pub proof fn trimming_strips_white_space(s: Seq<char>)
    ensures
        stripped(trimmed(s), s),
        trimmed(s).len() == 0 <==> blank(s),
{
    let from = lemma_trimmed_start(s);
    let inner = s.skip(from);
    let to = lemma_trimmed_end(inner);
    assert forall|i: int| from + to <= i < s.len() implies is_white(#[trigger] s[i]) by {
        assert(inner[i - from] == s[i]);
    }
    assert(trimmed(s) =~= s.subrange(from, from + to));
    if from < s.len() {
        assert(inner[0] == s[from]);
        if to == 0 {
            assert(is_white(inner[0]));
        }
        assert(!is_white(s[from]));
    }
    assert(stripped_at(trimmed(s), s, from, from + to));
}

/// There is only one way to take the white space around a text away.
pub proof fn stripping_is_unique(a: Seq<char>, b: Seq<char>, whole: Seq<char>)
    requires
        stripped(a, whole),
        stripped(b, whole),
    ensures
        a == b,
{
    let (from, to) = choose|from: int, to: int| stripped_at(a, whole, from, to);
    let (start, end) = choose|from: int, to: int| stripped_at(b, whole, from, to);
    if a.len() > 0 {
        assert(a[0] == whole[from]);
        assert(a.last() == whole[to - 1]);
    }
    if b.len() > 0 {
        assert(b[0] == whole[start]);
        assert(b.last() == whole[end - 1]);
    }
    assert(a =~= b);
}

/// What stands before or behind a text is given back by taking the text away, and
/// only where it stands there.
pub proof fn stripping_undoes_attaching(a: Seq<char>, b: Seq<char>, whole: Seq<char>)
    ensures
        strip_prefix(a + b, a) == Some(b),
        strip_suffix(a + b, b) == Some(a),
        strip_prefix(whole, a) == Some(b) ==> whole == a + b,
        strip_suffix(whole, b) == Some(a) ==> whole == a + b,
{
    assert((a + b).subrange(0, a.len() as int) =~= a);
    assert((a + b).skip(a.len() as int) =~= b);
    assert((a + b).subrange(a.len() as int, (a + b).len() as int) =~= b);
    assert((a + b).take((a + b).len() - b.len()) =~= a);
    if strip_prefix(whole, a) == Some(b) {
        assert(whole =~= whole.subrange(0, a.len() as int) + whole.skip(a.len() as int));
    }
    if strip_suffix(whole, b) == Some(a) {
        let at = whole.len() - b.len();
        assert(whole =~= whole.take(at) + whole.subrange(at, at + b.len()));
    }
}

/// What precedes a mark ends at the first one: the mark follows it and stands
/// nowhere before.
pub proof fn a_mark_ends_what_precedes_it(whole: Seq<char>, mark: Seq<char>)
    ensures
        before(whole, mark) is None <==> forall|i: int| !occurs_at(whole, mark, i),
        before(whole, mark) matches Some(part) ==> occurs_at(whole, mark, part.len() as int) && part
            == whole.take(part.len() as int) && forall|i: int|
            i < part.len() ==> !occurs_at(whole, mark, i),
{
    lemma_find_from(whole, mark, 0);
    if let Some(at) = find(whole, mark) {
        assert(whole.take(at).len() == at);
        assert(occurs_at(whole, mark, at));
    }
}

proof fn lemma_joined_first(first: Seq<char>, rest: Seq<Seq<char>>, sep: Seq<char>)
    requires
        rest.len() > 0,
    ensures
        joined(seq![first] + rest, sep) == first + sep + joined(rest, sep),
    decreases rest.len(),
{
    let all = seq![first] + rest;
    assert(all.last() == rest.last());
    if rest.len() == 1 {
        assert(all.drop_last() =~= seq![first]);
        assert(joined(all.drop_last(), sep) == first);
        assert(joined(all, sep) =~= first + sep + rest[0]);
    } else {
        assert(all.drop_last() =~= seq![first] + rest.drop_last());
        lemma_joined_first(first, rest.drop_last(), sep);
        assert(joined(all, sep) =~= first + sep + joined(rest, sep));
    }
}

/// Splitting loses nothing: the pieces hold no separator, and joined by it they
/// are the text again.
pub proof fn joining_undoes_splitting(s: Seq<char>, sep: char)
    ensures
        split(s, sep).len() > 0,
        joined(split(s, sep), seq![sep]) == s,
        forall|i: int, j: int|
            0 <= i < split(s, sep).len() && 0 <= j < split(s, sep)[i].len()
                ==> #[trigger] split(s, sep)[i][j] != sep,
    decreases s.len(),
{
    lemma_find_from(s, seq![sep], 0);
    let pieces = split(s, sep);
    match find(s, seq![sep]) {
        Some(at) => {
            let rest = s.skip(at + 1);
            joining_undoes_splitting(rest, sep);
            lemma_joined_first(s.take(at), split(rest, sep), seq![sep]);
            assert(s.subrange(at, at + 1) == seq![sep]);
            assert(s.subrange(at, at + 1)[0] == s[at]);
            assert(s =~= s.take(at) + seq![sep] + rest);
            assert forall|i: int, j: int| 0 <= i < pieces.len() && 0 <= j < pieces[i].len()
                implies #[trigger] pieces[i][j] != sep by {
                if i == 0 {
                    assert(!occurs_at(s, seq![sep], j));
                    if s[j] == sep {
                        assert(s.subrange(j, j + 1) =~= seq![sep]);
                    }
                } else {
                    assert(pieces[i] == split(rest, sep)[i - 1]);
                    assert(split(rest, sep)[i - 1][j] != sep);
                }
            }
        },
        None => {
            assert forall|i: int, j: int| 0 <= i < pieces.len() && 0 <= j < pieces[i].len()
                implies #[trigger] pieces[i][j] != sep by {
                assert(!occurs_at(s, seq![sep], j));
                if s[j] == sep {
                    assert(s.subrange(j, j + 1) =~= seq![sep]);
                }
            }
        },
    }
}

} // verus!
