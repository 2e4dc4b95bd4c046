//! Text helpers shared by the option parsers: character access, comparison,
//! searching, splitting, joining, and decimal numerals.

use vstd::prelude::*;
use vstd::string::*;

verus! {

/// An outcome whose failure is a message, with the message as plain characters.
pub open spec fn failure_view<T>(outcome: Result<T, String>) -> Result<T, Seq<char>> {
    match outcome {
        Ok(value) => Ok(value),
        Err(message) => Err(message@),
    }
}

/// A text or a message, as plain characters.
pub open spec fn text_outcome(outcome: Result<String, String>) -> Result<Seq<char>, Seq<char>> {
    match outcome {
        Ok(text) => Ok(text@),
        Err(message) => Err(message@),
    }
}

/// A text that may be missing, as plain characters.
pub open spec fn text_view(text: Option<String>) -> Option<Seq<char>> {
    match text {
        Some(held) => Some(held@),
        None => None,
    }
}

/// The characters of `s`, in order.
pub fn chars_of(s: &str) -> (chars: Vec<char>)
    ensures
        chars@ == s@,
{
    let mut chars: Vec<char> = Vec::new();
    for c in it: s.chars()
        invariant
            it.seq() == s@,
            chars@ == it.seq().take(it.index() as int),
    {
        chars.push(c);
    }
    chars
}

/// Whether two texts hold the same characters.
pub fn same_text(a: &str, b: &str) -> (same: bool)
    ensures
        same == (a@ == b@),
{
    a.to_owned() == b.to_owned()
}

/// The position of the first `c` in `s`, or the length of `s` when there is none.
pub open spec fn first_index(s: Seq<char>, c: char) -> int
    decreases s.len(),
{
    if s.len() == 0 {
        0
    } else if s[0] == c {
        0
    } else {
        1 + first_index(s.drop_first(), c)
    }
}

/// `first_index` is the one position that holds `c` with no `c` before it,
/// or the length when `c` does not occur.
pub proof fn lemma_first_index(s: Seq<char>, c: char, at: int)
    requires
        0 <= at <= s.len(),
        forall|j: int| 0 <= j < at ==> s[j] != c,
        at < s.len() ==> s[at] == c,
    ensures
        first_index(s, c) == at,
    decreases s.len(),
{
    if s.len() != 0 && s[0] != c {
        let rest = s.drop_first();
        assert forall|j: int| 0 <= j < at - 1 implies rest[j] != c by {
            assert(rest[j] == s[j + 1]);
        }
        lemma_first_index(rest, c, at - 1);
    }
}

/// `first_index` stays within the text and points at `c` when it is inside.
pub proof fn lemma_first_index_bounds(s: Seq<char>, c: char)
    ensures
        0 <= first_index(s, c) <= s.len(),
        first_index(s, c) < s.len() ==> s[first_index(s, c)] == c,
        forall|j: int| 0 <= j < first_index(s, c) ==> s[j] != c,
    decreases s.len(),
{
    if s.len() != 0 && s[0] != c {
        let rest = s.drop_first();
        lemma_first_index_bounds(rest, c);
        assert forall|j: int| 0 <= j < first_index(s, c) implies s[j] != c by {
            if j > 0 {
                assert(s[j] == rest[j - 1]);
            }
        }
    }
}

/// Finds the first `c` at or after `from`; the length of `chars` when there is none.
pub fn find_char(chars: &Vec<char>, from: usize, c: char) -> (at: usize)
    requires
        from <= chars.len(),
    ensures
        from <= at <= chars.len(),
        at == from + first_index(chars@.skip(from as int), c),
{
    let mut at: usize = from;
    while at < chars.len() && chars[at] != c
        invariant
            from <= at <= chars.len(),
            forall|j: int| from <= j < at ==> chars@[j] != c,
        decreases chars.len() - at,
    {
        at += 1;
    }
    proof {
        let rest = chars@.skip(from as int);
        assert forall|j: int| 0 <= j < at - from implies rest[j] != c by {
            assert(rest[j] == chars@[from + j]);
        }
        lemma_first_index(rest, c, at - from);
    }
    at
}

/// The decimal digit that stands for `d`.
pub open spec fn digit_char(d: int) -> char {
    if d == 0 {
        '0'
    } else if d == 1 {
        '1'
    } else if d == 2 {
        '2'
    } else if d == 3 {
        '3'
    } else if d == 4 {
        '4'
    } else if d == 5 {
        '5'
    } else if d == 6 {
        '6'
    } else if d == 7 {
        '7'
    } else if d == 8 {
        '8'
    } else {
        '9'
    }
}

pub open spec fn is_digit(c: char) -> bool {
    '0' <= c <= '9'
}

/// The number that a decimal digit stands for.
pub open spec fn digit_value(c: char) -> int {
    c as int - '0' as int
}

pub open spec fn all_digits(s: Seq<char>) -> bool {
    forall|i: int| 0 <= i < s.len() ==> is_digit(#[trigger] s[i])
}

/// The shortest decimal numeral of `n`.
pub open spec fn decimal(n: nat) -> Seq<char>
    decreases n,
{
    if n < 10 {
        seq![digit_char(n as int)]
    } else {
        decimal(n / 10).push(digit_char((n % 10) as int))
    }
}

/// The number that a run of decimal digits stands for; leading zeros count for nothing.
pub open spec fn decimal_value(s: Seq<char>) -> nat
    decreases s.len(),
{
    if s.len() == 0 {
        0
    } else {
        (decimal_value(s.drop_last()) * 10 + digit_value(s.last())) as nat
    }
}

/// A numeral as `decimal` writes it: digits only, and no zero in front of another digit.
pub open spec fn is_plain_decimal(s: Seq<char>) -> bool {
    &&& s.len() > 0
    &&& all_digits(s)
    &&& s.len() > 1 ==> s[0] != '0'
}

pub proof fn lemma_digit_char(d: int)
    requires
        0 <= d < 10,
    ensures
        is_digit(digit_char(d)),
        digit_value(digit_char(d)) == d,
{
}

pub proof fn lemma_digit_value(c: char)
    requires
        is_digit(c),
    ensures
        0 <= digit_value(c) < 10,
        digit_char(digit_value(c)) == c,
{
}

/// Reading a numeral that `decimal` wrote gives the number back.
pub proof fn lemma_decimal_value_of_decimal(n: nat)
    ensures
        is_plain_decimal(decimal(n)),
        decimal_value(decimal(n)) == n,
        n > 0 ==> decimal(n)[0] != '0',
    decreases n,
{
    if n < 10 {
        lemma_digit_char(n as int);
        let s = decimal(n);
        assert(s.drop_last() =~= Seq::<char>::empty());
        assert(decimal_value(s.drop_last()) == 0);
    } else {
        lemma_decimal_value_of_decimal(n / 10);
        lemma_digit_char((n % 10) as int);
        let head = decimal(n / 10);
        let s = decimal(n);
        assert(s.drop_last() =~= head);
        assert(s.last() == digit_char((n % 10) as int));
        assert(s[0] == head[0]);
    }
}

/// Writing the number of a plain numeral gives the numeral back.
pub proof fn lemma_decimal_of_decimal_value(s: Seq<char>)
    requires
        is_plain_decimal(s),
    ensures
        decimal(decimal_value(s)) == s,
    decreases s.len(),
{
    lemma_digit_value(s.last());
    let head = s.drop_last();
    if s.len() == 1 {
        assert(head =~= Seq::<char>::empty());
        assert(decimal_value(head) == 0);
        assert(decimal(decimal_value(s)) =~= s);
    } else {
        assert(head[0] == s[0]);
        assert(all_digits(head));
        lemma_decimal_value_positive(head);
        lemma_decimal_of_decimal_value(head);
        let v = decimal_value(head);
        let d = digit_value(s.last());
        assert(v >= 1);
        assert(decimal_value(s) == v * 10 + d);
        assert((v * 10 + d) / 10 == v);
        assert((v * 10 + d) % 10 == d);
        assert(decimal(decimal_value(s)) =~= s);
    }
}

/// A run of digits that does not start with zero stands for a positive number.
pub proof fn lemma_decimal_value_positive(s: Seq<char>)
    requires
        s.len() > 0,
        all_digits(s),
        s[0] != '0',
    ensures
        decimal_value(s) >= 1,
    decreases s.len(),
{
    lemma_digit_value(s.last());
    if s.len() > 1 {
        let head = s.drop_last();
        assert(head[0] == s[0]);
        lemma_decimal_value_positive(head);
    } else {
        assert(s.drop_last() =~= Seq::<char>::empty());
    }
}

/// Further digits never make the number smaller.
pub proof fn lemma_decimal_value_grows(s: Seq<char>, k: int)
    requires
        all_digits(s),
        0 <= k <= s.len(),
    ensures
        decimal_value(s.take(k)) <= decimal_value(s),
    decreases s.len() - k,
{
    if k == s.len() {
        assert(s.take(k) =~= s);
    } else {
        lemma_decimal_value_grows(s, k + 1);
        let longer = s.take(k + 1);
        assert(longer.drop_last() =~= s.take(k));
        lemma_digit_value(longer.last());
    }
}

/// The numeral of one digit.
fn digit_text(d: u64) -> (text: &'static str)
    requires
        d < 10,
    ensures
        text@ == seq![digit_char(d as int)],
{
    proof {
        reveal_strlit("0");
        reveal_strlit("1");
        reveal_strlit("2");
        reveal_strlit("3");
        reveal_strlit("4");
        reveal_strlit("5");
        reveal_strlit("6");
        reveal_strlit("7");
        reveal_strlit("8");
        reveal_strlit("9");
    }
    let text = if d == 0 {
        "0"
    } else if d == 1 {
        "1"
    } else if d == 2 {
        "2"
    } else if d == 3 {
        "3"
    } else if d == 4 {
        "4"
    } else if d == 5 {
        "5"
    } else if d == 6 {
        "6"
    } else if d == 7 {
        "7"
    } else if d == 8 {
        "8"
    } else {
        "9"
    };
    assert(text@ =~= seq![digit_char(d as int)]);
    text
}

/// Writes `n` as its shortest decimal numeral.
pub fn decimal_text(n: u64) -> (text: String)
    ensures
        text@ == decimal(n as nat),
    decreases n,
{
    if n < 10 {
        digit_text(n).to_owned()
    } else {
        let mut text = decimal_text(n / 10);
        text.append(digit_text(n % 10));
        assert(text@ =~= decimal(n as nat));
        text
    }
}

/// The digits of a numeral without the plus sign that may stand in front of them.
pub open spec fn unsigned_digits(s: Seq<char>) -> Seq<char> {
    if s.len() > 0 && s[0] == '+' {
        s.drop_first()
    } else {
        s
    }
}

/// The 16-bit number that `s` spells: an optional plus sign, then one or more
/// decimal digits whose value is at most 65535. Anything else spells no number.
pub open spec fn number_u16(s: Seq<char>) -> Option<u16> {
    let digits = unsigned_digits(s);
    if digits.len() > 0 && all_digits(digits) && decimal_value(digits) <= u16::MAX {
        Some(decimal_value(digits) as u16)
    } else {
        None
    }
}

/// Reads the characters from `from` up to `to` as a 16-bit number.
pub fn parse_u16(chars: &Vec<char>, from: usize, to: usize) -> (number: Option<u16>)
    requires
        from <= to <= chars.len(),
    ensures
        number == number_u16(chars@.subrange(from as int, to as int)),
{
    let ghost whole = chars@.subrange(from as int, to as int);
    let start: usize = if from < to && chars[from] == '+' {
        from + 1
    } else {
        from
    };
    let ghost digits = unsigned_digits(whole);
    assert(digits =~= chars@.subrange(start as int, to as int)) by {
        if from < to {
            assert(whole[0] == chars@[from as int]);
        }
    }
    if start == to {
        return None;
    }
    let mut value: u32 = 0;
    let mut at: usize = start;
    while at < to
        invariant
            from <= start <= at <= to <= chars.len(),
            digits == chars@.subrange(start as int, to as int),
            digits == unsigned_digits(chars@.subrange(from as int, to as int)),
            all_digits(digits.take(at - start)),
            value == decimal_value(digits.take(at - start)),
            value <= u16::MAX,
        decreases to - at,
    {
        let c = chars[at];
        assert(digits[at - start] == c);
        if c < '0' || c > '9' {
            assert(!is_digit(digits[at - start]));
            return None;
        }
        let digit: u32 = c as u32 - '0' as u32;
        let ghost longer = digits.take(at - start + 1);
        proof {
            assert(longer.drop_last() =~= digits.take(at - start));
            assert(longer.last() == c);
            assert forall|i: int| 0 <= i < longer.len() implies is_digit(#[trigger] longer[i]) by {
                if i < at - start {
                    assert(longer[i] == digits.take(at - start)[i]);
                }
            }
        }
        value = value * 10 + digit;
        if value > 65535 {
            proof {
                if all_digits(digits) {
                    lemma_decimal_value_grows(digits, at - start + 1);
                }
            }
            return None;
        }
        at += 1;
    }
    proof {
        assert(digits.take(at - start) =~= digits);
    }
    Some(value as u16)
}

/// The pieces of `s` between occurrences of `sep`, empty pieces included.
pub open spec fn split_on(s: Seq<char>, sep: char) -> Seq<Seq<char>>
    decreases s.len(),
{
    let at = first_index(s, sep);
    if at < 0 || at >= s.len() {
        seq![s]
    } else {
        seq![s.take(at)] + split_on(s.skip(at + 1), sep)
    }
}

/// Splits `s` at every `sep`.
pub fn split_text(s: &str, sep: char) -> (parts: Vec<String>)
    ensures
        parts.deep_view() == split_on(s@, sep),
{
    let chars = chars_of(s);
    let mut parts: Vec<String> = Vec::new();
    let mut from: usize = 0;
    proof {
        assert(s@.skip(0) =~= s@);
        assert(parts.deep_view() + split_on(s@, sep) =~= split_on(s@, sep));
    }
    loop
        invariant_except_break
            chars@ == s@,
            from <= chars.len(),
            parts.deep_view() + split_on(s@.skip(from as int), sep) == split_on(s@, sep),
        ensures
            parts.deep_view() == split_on(s@, sep),
        decreases chars.len() - from,
    {
        let at = find_char(&chars, from, sep);
        let piece = s.substring_char(from, at).to_owned();
        let ghost before = parts.deep_view();
        let ghost rest = s@.skip(from as int);
        proof {
            lemma_first_index_bounds(rest, sep);
            assert(piece@ =~= rest.take(at - from));
        }
        parts.push(piece);
        assert(parts.deep_view() =~= before.push(rest.take(at - from)));
        if at >= chars.len() {
            proof {
                assert(rest.take(at - from) =~= rest);
                assert(before.push(rest) =~= before + seq![rest]);
            }
            break;
        }
        proof {
            assert(rest.skip(at - from + 1) =~= s@.skip(at + 1));
            assert(before.push(rest.take(at - from)) + split_on(s@.skip(at + 1), sep) =~= before
                + split_on(rest, sep));
        }
        from = at + 1;
    }
    parts
}

/// The texts of `parts` in a row, with `sep` between neighbours.
pub open spec fn joined(parts: Seq<Seq<char>>, sep: Seq<char>) -> Seq<char>
    decreases parts.len(),
{
    if parts.len() == 0 {
        Seq::empty()
    } else if parts.len() == 1 {
        parts[0]
    } else {
        joined(parts.drop_last(), sep) + sep + parts.last()
    }
}

/// Joins `parts` with `sep` between neighbours.
pub fn join_text(parts: &Vec<String>, sep: &str) -> (text: String)
    ensures
        text@ == joined(parts.deep_view(), sep@),
{
    let mut text = String::new();
    let mut at: usize = 0;
    while at < parts.len()
        invariant
            at <= parts.len(),
            text@ == joined(parts.deep_view().take(at as int), sep@),
        decreases parts.len() - at,
    {
        let ghost longer = parts.deep_view().take(at + 1);
        proof {
            assert(longer.drop_last() =~= parts.deep_view().take(at as int));
            assert(longer.last() == parts@[at as int]@);
        }
        if at > 0 {
            text.append(sep);
        }
        text.append(parts[at].as_str());
        at += 1;
    }
    proof {
        assert(parts.deep_view().take(at as int) =~= parts.deep_view());
    }
    text
}

/// A copy of a list of texts.
pub fn copy_texts(texts: &Vec<String>) -> (copy: Vec<String>)
    ensures
        copy.deep_view() == texts.deep_view(),
{
    let mut copy: Vec<String> = Vec::new();
    let mut at: usize = 0;
    while at < texts.len()
        invariant
            at <= texts.len(),
            copy.deep_view() == texts.deep_view().take(at as int),
        decreases texts.len() - at,
    {
        let ghost before = copy.deep_view();
        copy.push(texts[at].clone());
        assert(copy.deep_view() =~= before.push(texts@[at as int]@));
        assert(texts.deep_view().take(at + 1) =~= before.push(texts@[at as int]@));
        at += 1;
    }
    assert(texts.deep_view().take(at as int) =~= texts.deep_view());
    copy
}

} // verus!
