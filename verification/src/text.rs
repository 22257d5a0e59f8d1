//! Plain operations on text, seen as sequences of characters.

use vstd::prelude::*;
use vstd::slice::slice_subrange;

verus! {

/// The characters with the Unicode property `White_Space`.
pub open spec fn white_space(c: char) -> bool {
    ||| '\u{9}' <= c <= '\u{d}'
    ||| c == ' '
    ||| c == '\u{85}'
    ||| c == '\u{a0}'
    ||| c == '\u{1680}'
    ||| '\u{2000}' <= c <= '\u{200a}'
    ||| '\u{2028}' <= c <= '\u{2029}'
    ||| c == '\u{202f}'
    ||| c == '\u{205f}'
    ||| c == '\u{3000}'
}

/// What is left of `s` once the leading characters that satisfy `p` are gone.
pub open spec fn trim_start(s: Seq<char>, p: spec_fn(char) -> bool) -> Seq<char>
    decreases s.len(),
{
    if s.len() > 0 && p(s.first()) {
        trim_start(s.drop_first(), p)
    } else {
        s
    }
}

/// What is left of `s` once the trailing characters that satisfy `p` are gone.
pub open spec fn trim_end(s: Seq<char>, p: spec_fn(char) -> bool) -> Seq<char>
    decreases s.len(),
{
    if s.len() > 0 && p(s.last()) {
        trim_end(s.drop_last(), p)
    } else {
        s
    }
}

/// What is left of `s` once the characters that satisfy `p` are gone from both ends.
pub open spec fn trim(s: Seq<char>, p: spec_fn(char) -> bool) -> Seq<char> {
    trim_end(trim_start(s, p), p)
}

/// The pieces of `s` between the characters that satisfy `p`. There is always one piece
/// more than there are such characters, and a piece may be empty.
pub open spec fn pieces(s: Seq<char>, p: spec_fn(char) -> bool) -> Seq<Seq<char>>
    decreases s.len(),
{
    if s.len() == 0 {
        seq![Seq::<char>::empty()]
    } else {
        let before = pieces(s.drop_last(), p);
        if p(s.last()) {
            before.push(Seq::<char>::empty())
        } else {
            before.drop_last().push(before.last().push(s.last()))
        }
    }
}

/// `i` is the position of the last `c` in `s`.
pub open spec fn is_last_of(s: Seq<char>, c: char, i: int) -> bool {
    &&& 0 <= i < s.len()
    &&& s[i] == c
    &&& forall|j: int| i < j < s.len() ==> s[j] != c
}

/// A decimal digit.
pub open spec fn is_digit(c: char) -> bool {
    '0' <= c <= '9'
}

/// The number that a row of decimal digits stands for.
pub open spec fn digits_value(s: Seq<char>) -> nat
    decreases s.len(),
{
    if s.len() == 0 {
        0
    } else {
        (10 * digits_value(s.drop_last()) + (s.last() as int - '0' as int)) as nat
    }
}

/// `s` without the `+` that it may start with.
pub open spec fn without_plus(s: Seq<char>) -> Seq<char> {
    if s.len() > 0 && s.first() == '+' {
        s.drop_first()
    } else {
        s
    }
}

/// `s` holds decimal digits and nothing else.
pub open spec fn all_digits(s: Seq<char>) -> bool {
    forall|i: int| 0 <= i < s.len() ==> is_digit(#[trigger] s[i])
}

/// The number that `s` denotes: decimal digits, at least one, after an optional `+`.
pub open spec fn number(s: Seq<char>) -> Option<nat> {
    if without_plus(s).len() > 0 && all_digits(without_plus(s)) {
        Some(digits_value(without_plus(s)))
    } else {
        None
    }
}

/// The characters of a text.
pub fn chars_of(text: &str) -> (chars: Vec<char>)
    ensures
        chars@ == text@,
{
    let mut chars: Vec<char> = Vec::new();
    for c in it: text.chars()
        invariant
            chars@ == it.seq().take(it.index() as int),
            it.seq() == text@,
    {
        chars.push(c);
    }
    chars
}

/// Whether the character has the Unicode property `White_Space`.
pub fn is_white_space(c: char) -> (r: bool)
    ensures
        r == white_space(c),
{
    ('\u{9}' <= c && c <= '\u{d}') || c == ' ' || c == '\u{85}' || c == '\u{a0}' || c == '\u{1680}'
        || ('\u{2000}' <= c && c <= '\u{200a}') || c == '\u{2028}' || c == '\u{2029}'
        || c == '\u{202f}' || c == '\u{205f}' || c == '\u{3000}'
}

/// White space, as a property of characters.
pub open spec fn spaces() -> spec_fn(char) -> bool {
    |c: char| white_space(c)
}

/// Being the character `c`, as a property of characters.
pub open spec fn only(c: char) -> spec_fn(char) -> bool {
    |d: char| d == c
}

/// A run of characters with `p` up to the first one without it is what `trim_start` drops.
pub proof fn lemma_trim_start(s: Seq<char>, p: spec_fn(char) -> bool, n: int)
    requires
        0 <= n <= s.len(),
        forall|j: int| 0 <= j < n ==> p(#[trigger] s[j]),
        n < s.len() ==> !p(s[n]),
    ensures
        trim_start(s, p) == s.skip(n),
    decreases n,
{
    if n > 0 {
        let rest = s.drop_first();
        assert forall|j: int| 0 <= j < n - 1 implies p(#[trigger] rest[j]) by {
            assert(rest[j] == s[j + 1]);
        }
        lemma_trim_start(rest, p, n - 1);
        assert(rest.skip(n - 1) =~= s.skip(n));
        assert(p(s[0]));
    } else {
        assert(s.skip(0) =~= s);
    }
}

/// A run of characters with `p` after the last one without it is what `trim_end` drops.
pub proof fn lemma_trim_end(s: Seq<char>, p: spec_fn(char) -> bool, n: int)
    requires
        0 <= n <= s.len(),
        forall|j: int| n <= j < s.len() ==> p(#[trigger] s[j]),
        n > 0 ==> !p(s[n - 1]),
    ensures
        trim_end(s, p) == s.take(n),
    decreases s.len() - n,
{
    if n < s.len() {
        let rest = s.drop_last();
        assert forall|j: int| n <= j < rest.len() implies p(#[trigger] rest[j]) by {
            assert(rest[j] == s[j]);
        }
        lemma_trim_end(rest, p, n);
        assert(rest.take(n) =~= s.take(n));
        assert(p(s[s.len() - 1]));
    } else {
        assert(s.take(n) =~= s);
    }
}

proof fn lemma_trim_start_idle(s: Seq<char>, p: spec_fn(char) -> bool)
    ensures
        trim_start(s, p).len() > 0 ==> !p(trim_start(s, p).first()),
    decreases s.len(),
{
    if s.len() > 0 && p(s.first()) {
        lemma_trim_start_idle(s.drop_first(), p);
    }
}

proof fn lemma_trim_end_idle(s: Seq<char>, p: spec_fn(char) -> bool)
    ensures
        trim_end(s, p).len() > 0 ==> !p(trim_end(s, p).last()) && trim_end(s, p).first()
            == s.first() && s.len() > 0,
    decreases s.len(),
{
    if s.len() > 0 && p(s.last()) {
        lemma_trim_end_idle(s.drop_last(), p);
    }
}

/// Trimming what is trimmed already changes nothing.
pub proof fn lemma_trim_twice(s: Seq<char>, p: spec_fn(char) -> bool)
    ensures
        trim(trim(s, p), p) == trim(s, p),
{
    let once = trim(s, p);
    lemma_trim_start_idle(s, p);
    lemma_trim_end_idle(trim_start(s, p), p);
}

/// The part of a text that is left without white space at either end.
pub fn trim_white_space<'a>(s: &'a [char]) -> (r: &'a [char])
    ensures
        r@ == trim(s@, spaces()),
{
    let mut from: usize = 0;
    while from < s.len() && is_white_space(s[from])
        invariant
            from <= s@.len(),
            forall|j: int| 0 <= j < from ==> spaces()(#[trigger] s@[j]),
        decreases s@.len() - from,
    {
        from = from + 1;
    }
    let mut to: usize = s.len();
    while from < to && is_white_space(s[to - 1])
        invariant
            from <= to <= s@.len(),
            forall|j: int| to <= j < s@.len() ==> spaces()(#[trigger] s@[j]),
        decreases to,
    {
        to = to - 1;
    }
    let r = slice_subrange(s, from, to);
    proof {
        lemma_trim_start(s@, spaces(), from as int);
        lemma_trim_end(s@.skip(from as int), spaces(), to - from);
        assert(s@.skip(from as int).take(to - from) =~= r@);
    }
    r
}

/// The bounds of what is left of `s[from..to]` without full stops at either end.
pub fn trim_full_stops(s: &[char], from: usize, to: usize) -> (r: (usize, usize))
    requires
        from <= to <= s@.len(),
    ensures
        from <= r.0 <= r.1 <= to,
        s@.subrange(r.0 as int, r.1 as int) == trim(
            s@.subrange(from as int, to as int),
            only('.'),
        ),
{
    let mut first: usize = from;
    while first < to && s[first] == '.'
        invariant
            from <= first <= to <= s@.len(),
            forall|j: int| from <= j < first ==> #[trigger] s@[j] == '.',
        decreases to - first,
    {
        first = first + 1;
    }
    let mut last: usize = to;
    while first < last && s[last - 1] == '.'
        invariant
            from <= first <= last <= to <= s@.len(),
            forall|j: int| last <= j < to ==> #[trigger] s@[j] == '.',
        decreases last,
    {
        last = last - 1;
    }
    proof {
        let part = s@.subrange(from as int, to as int);
        let p = only('.');
        assert forall|j: int| 0 <= j < first - from implies p(#[trigger] part[j]) by {
            assert(part[j] == s@[from + j]);
        }
        lemma_trim_start(part, p, first - from);
        let rest = part.skip(first - from);
        assert forall|j: int| last - first <= j < rest.len() implies p(#[trigger] rest[j]) by {
            assert(rest[j] == s@[first + j]);
        }
        assert(last > first ==> rest[last - first - 1] == s@[last - 1]);
        lemma_trim_end(rest, p, last - first);
        assert(rest.take(last - first) =~= s@.subrange(first as int, last as int));
    }
    (first, last)
}

/// The position of the last `c`, if there is one.
pub fn last_of(s: &[char], c: char) -> (r: Option<usize>)
    ensures
        match r {
            Some(i) => is_last_of(s@, c, i as int),
            None => forall|i: int| !is_last_of(s@, c, i),
        },
{
    let mut i: usize = s.len();
    while i > 0
        invariant
            i <= s@.len(),
            forall|j: int| i <= j < s@.len() ==> s@[j] != c,
        decreases i,
    {
        i = i - 1;
        if s[i] == c {
            return Some(i);
        }
    }
    None
}

/// A row of digits stands for at least as much as any row that it starts with.
proof fn lemma_digits_value_grows(s: Seq<char>, n: int)
    requires
        0 <= n <= s.len(),
        all_digits(s),
    ensures
        digits_value(s.take(n)) <= digits_value(s),
    decreases s.len() - n,
{
    if n < s.len() {
        let rest = s.drop_last();
        assert(forall|i: int| 0 <= i < rest.len() ==> rest[i] == s[i]);
        lemma_digits_value_grows(rest, n);
        assert(rest.take(n) =~= s.take(n));
        assert(is_digit(s[s.len() - 1]));
    } else {
        assert(s.take(n) =~= s);
    }
}

/// The number that `s` denotes, if it denotes one that is at most `max`.
pub fn parse_number(s: &[char], max: u32) -> (r: Option<u32>)
    ensures
        match r {
            Some(n) => number(s@) == Some(n as nat) && n <= max,
            None => match number(s@) {
                Some(n) => n > max,
                None => true,
            },
        },
{
    let digits = if s.len() > 0 && s[0] == '+' {
        let rest = slice_subrange(s, 1, s.len());
        assert(rest@ =~= s@.drop_first());
        rest
    } else {
        s
    };
    if digits.len() == 0 {
        return None;
    }
    let mut value: u32 = 0;
    let mut i: usize = 0;
    assert(digits@.take(0) =~= Seq::<char>::empty());
    while i < digits.len()
        invariant
            i <= digits@.len(),
            digits@.len() > 0,
            digits@ == without_plus(s@),
            value <= max,
            value == digits_value(digits@.take(i as int)),
            forall|j: int| 0 <= j < i ==> is_digit(#[trigger] digits@[j]),
        decreases digits@.len() - i,
    {
        let c = digits[i];
        if !('0' <= c && c <= '9') {
            assert(!is_digit(digits@[i as int]));
            return None;
        }
        let wide: u64 = 10 * (value as u64) + (c as u32 - '0' as u32) as u64;
        proof {
            assert(digits@.take(i + 1).drop_last() =~= digits@.take(i as int));
            assert(wide == digits_value(digits@.take(i + 1)));
        }
        if wide > max as u64 {
            proof {
                if all_digits(digits@) {
                    lemma_digits_value_grows(digits@, i + 1);
                }
            }
            return None;
        }
        value = wide as u32;
        i = i + 1;
    }
    assert(digits@.take(i as int) =~= digits@);
    Some(value)
}

/// The decimal digit for a number below ten.
pub open spec fn digit(n: nat) -> char {
    ('0' as nat + n) as char
}

/// A number in decimal notation, without leading zeros.
pub open spec fn decimal(n: nat) -> Seq<char>
    decreases n,
{
    if n < 10 {
        seq![digit(n)]
    } else {
        decimal(n / 10).push(digit(n % 10))
    }
}

/// The decimal digit for a number below ten.
fn digit_text(n: u64) -> (text: &'static str)
    requires
        n < 10,
    ensures
        text@ == seq![digit(n as nat)],
{
    proof {
        reveal_strlit("0");
        reveal_strlit("1");
        reveal_strlit("2");
        reveal_strlit("3");
        reveal_strlit("4");
        reveal_strlit("5");
        reveal_strlit("6");
        reveal_strlit("7");
        reveal_strlit("8");
        reveal_strlit("9");
    }
    match n {
        0 => "0",
        1 => "1",
        2 => "2",
        3 => "3",
        4 => "4",
        5 => "5",
        6 => "6",
        7 => "7",
        8 => "8",
        _ => "9",
    }
}

/// The number in decimal notation.
pub fn decimal_text(n: u64) -> (text: String)
    ensures
        text@ == decimal(n as nat),
    decreases n,
{
    if n < 10 {
        digit_text(n).to_owned()
    } else {
        let mut text = decimal_text(n / 10);
        text.append(digit_text(n % 10));
        assert(text@ =~= decimal(n as nat));
        text
    }
}

/// A number in decimal notation denotes that number.
pub proof fn law_decimal_denotes_its_number(n: nat)
    ensures
        number(decimal(n)) == Some(n),
    decreases n,
{
    lemma_decimal(n);
    assert(without_plus(decimal(n)) == decimal(n));
}

proof fn lemma_decimal(n: nat)
    ensures
        decimal(n).len() > 0,
        all_digits(decimal(n)),
        digits_value(decimal(n)) == n,
        is_digit(decimal(n)[0]),
    decreases n,
{
    reveal_with_fuel(digits_value, 2);
    if n < 10 {
        assert(decimal(n).drop_last() =~= Seq::<char>::empty());
    } else {
        lemma_decimal(n / 10);
        assert(decimal(n).drop_last() =~= decimal(n / 10));
    }
}

/// Two texts one after the other.
pub fn two(first: &str, second: &str) -> (joined: String)
    ensures
        joined@ == first@ + second@,
{
    first.to_owned().concat(second)
}

/// Three texts one after the other.
pub fn three(first: &str, second: &str, third: &str) -> (joined: String)
    ensures
        joined@ == first@ + second@ + third@,
{
    first.to_owned().concat(second).concat(third)
}

/// The texts hold this one.
pub open spec fn holds(texts: Vec<String>, text: Seq<char>) -> bool {
    texts.deep_view().contains(text)
}

/// Whether the texts hold this one.
pub fn has_text(texts: &Vec<String>, text: &String) -> (r: bool)
    ensures
        r == holds(*texts, text@),
{
    let ghost all = texts.deep_view();
    let mut i: usize = 0;
    while i < texts.len()
        invariant
            i <= texts.len(),
            all == texts.deep_view(),
            forall|j: int| 0 <= j < i ==> #[trigger] all[j] != text@,
        decreases texts.len() - i,
    {
        assert(all[i as int] == texts@[i as int]@);
        if texts[i] == *text {
            return true;
        }
        i = i + 1;
    }
    false
}

/// Adds a text.
pub fn add_text(texts: &mut Vec<String>, text: String)
    ensures
        final(texts).deep_view() == old(texts).deep_view().push(text@),
{
    let ghost before = texts.deep_view();
    texts.push(text);
    assert(texts.deep_view() =~= before.push(text@));
}

/// The same texts again.
pub fn copy_texts(texts: &Vec<String>) -> (copy: Vec<String>)
    ensures
        copy@ == texts@,
{
    let copy = texts.clone();
    assert(copy@ =~= texts@);
    copy
}

/// How much `trim_start` drops.
proof fn lemma_trim_start_is(s: Seq<char>, p: spec_fn(char) -> bool) -> (n: int)
    ensures
        0 <= n <= s.len(),
        trim_start(s, p) == s.skip(n),
        forall|j: int| 0 <= j < n ==> p(#[trigger] s[j]),
        n < s.len() ==> !p(s[n]),
    decreases s.len(),
{
    if s.len() > 0 && p(s.first()) {
        let rest = s.drop_first();
        let n = lemma_trim_start_is(rest, p);
        assert(rest.skip(n) =~= s.skip(n + 1));
        assert forall|j: int| 0 <= j < n + 1 implies p(#[trigger] s[j]) by {
            if j > 0 {
                assert(rest[j - 1] == s[j]);
            }
        }
        n + 1
    } else {
        assert(s.skip(0) =~= s);
        0
    }
}

/// How much `trim_end` keeps.
proof fn lemma_trim_end_is(s: Seq<char>, p: spec_fn(char) -> bool) -> (n: int)
    ensures
        0 <= n <= s.len(),
        trim_end(s, p) == s.take(n),
        forall|j: int| n <= j < s.len() ==> p(#[trigger] s[j]),
        n > 0 ==> !p(s[n - 1]),
    decreases s.len(),
{
    if s.len() > 0 && p(s.last()) {
        let rest = s.drop_last();
        let n = lemma_trim_end_is(rest, p);
        assert(rest.take(n) =~= s.take(n));
        assert forall|j: int| n <= j < s.len() implies p(#[trigger] s[j]) by {
            if j < rest.len() {
                assert(rest[j] == s[j]);
            }
        }
        n
    } else {
        assert(s.take(s.len() as int) =~= s);
        s.len() as int
    }
}

/// Trimming drops only characters with the property, from both ends, and stops at the first and
/// the last without it.
pub proof fn law_trimming_stops_at_what_is_kept(s: Seq<char>, p: spec_fn(char) -> bool)
    ensures
        exists|from: int, to: int|
            0 <= from <= to <= s.len() && trim(s, p) == #[trigger] s.subrange(from, to) && (
            forall|j: int| 0 <= j < from ==> p(#[trigger] s[j])) && (forall|j: int|
                to <= j < s.len() ==> p(#[trigger] s[j])),
        trim(s, p).len() > 0 ==> !p(trim(s, p).first()) && !p(trim(s, p).last()),
{
    let from = lemma_trim_start_is(s, p);
    let rest = s.skip(from);
    let n = lemma_trim_end_is(rest, p);
    let to = from + n;
    assert(rest.take(n) =~= s.subrange(from, to));
    assert forall|j: int| to <= j < s.len() implies p(#[trigger] s[j]) by {
        assert(rest[j - from] == s[j]);
    }
    if n > 0 {
        assert(rest[n - 1] == trim(s, p).last());
        assert(s[from] == trim(s, p).first());
    }
}

/// One more digit makes a number ten times as large and adds itself; a digit alone is its own
/// number.
pub proof fn law_numbers_grow_digit_by_digit(s: Seq<char>, c: char)
    requires
        '0' <= c <= '9',
    ensures
        number(seq![c]) == Some((c as int - '0' as int) as nat),
        match number(s) {
            Some(n) => number(s.push(c)) == Some((10 * n + (c as int - '0' as int)) as nat),
            None => true,
        },
{
    reveal_with_fuel(digits_value, 2);
    assert(seq![c].drop_last() =~= Seq::<char>::empty());
    assert(without_plus(seq![c]) == seq![c]);
    if number(s) is Some {
        let digits = without_plus(s);
        assert(without_plus(s.push(c)) =~= digits.push(c));
        assert(digits.push(c).drop_last() =~= digits);
        assert forall|i: int| 0 <= i < digits.push(c).len() implies is_digit(
            #[trigger] digits.push(c)[i],
        ) by {
            if i < digits.len() {
                assert(is_digit(digits[i]));
            }
        }
    }
}

/// A number is made of decimal digits, at least one, and at most a plus sign in front, which does
/// not change it.
pub proof fn law_numbers_are_made_of_digits(s: Seq<char>)
    ensures
        number(s) is Some ==> {
            &&& '0' <= s.last() <= '9'
            &&& forall|i: int| 0 < i < s.len() ==> '0' <= #[trigger] s[i] <= '9'
            &&& s[0] == '+' || '0' <= s[0] <= '9'
            &&& s.len() > 0
        },
        s.len() > 0 && s[0] != '+' ==> number(seq!['+'] + s) == number(s),
        number(seq!['+']) is None,
        number(seq![]) is None,
{
    if number(s) is Some {
        let digits = without_plus(s);
        assert(s.last() == digits[digits.len() - 1]);
        assert forall|i: int| 0 < i < s.len() implies '0' <= #[trigger] s[i] <= '9' by {
            if s[0] == '+' {
                assert(s[i] == digits[i - 1]);
            } else {
                assert(s[i] == digits[i]);
            }
        }
        if s[0] != '+' {
            assert(s[0] == digits[0]);
        }
    }
    assert((seq!['+'] + s).drop_first() =~= s);
    assert(seq!['+'].drop_first() =~= seq![]);
}

/// Decimal notation is made of digits, and starts with a zero only for zero.
pub proof fn law_decimal_has_no_leading_zero(n: nat)
    ensures
        decimal(n).len() > 0,
        forall|i: int| 0 <= i < decimal(n).len() ==> '0' <= #[trigger] decimal(n)[i] <= '9',
        decimal(n)[0] == '0' ==> n == 0,
        n == 0 ==> decimal(n).len() == 1,
    decreases n,
{
    lemma_decimal(n);
    if n >= 10 {
        law_decimal_has_no_leading_zero(n / 10);
    }
}

/// The texts one after another, with a separator between each two.
pub open spec fn joined(parts: Seq<Seq<char>>, c: char) -> Seq<char>
    decreases parts.len(),
{
    if parts.len() == 0 {
        seq![]
    } else if parts.len() == 1 {
        parts[0]
    } else {
        joined(parts.drop_last(), c).push(c) + parts.last()
    }
}

/// A text without separators is one piece.
pub proof fn law_text_without_separators_is_one_piece(s: Seq<char>, p: spec_fn(char) -> bool)
    requires
        forall|i: int| 0 <= i < s.len() ==> !p(#[trigger] s[i]),
    ensures
        pieces(s, p) == seq![s],
    decreases s.len(),
{
    if s.len() > 0 {
        let front = s.drop_last();
        assert forall|i: int| 0 <= i < front.len() implies !p(#[trigger] front[i]) by {
            assert(front[i] == s[i]);
        }
        law_text_without_separators_is_one_piece(front, p);
        assert(!p(s[s.len() - 1]));
        assert(front.push(s.last()) =~= s);
        assert(pieces(s, p) =~= seq![s]);
    } else {
        assert(s =~= Seq::<char>::empty());
    }
}

proof fn lemma_some_piece(s: Seq<char>, p: spec_fn(char) -> bool)
    ensures
        pieces(s, p).len() > 0,
    decreases s.len(),
{
    if s.len() > 0 {
        lemma_some_piece(s.drop_last(), p);
    }
}

/// A separator parts the pieces before it from those after it.
pub proof fn law_separator_parts_the_pieces(
    a: Seq<char>,
    c: char,
    b: Seq<char>,
    p: spec_fn(char) -> bool,
)
    requires
        p(c),
    ensures
        pieces(a.push(c) + b, p) == pieces(a, p) + pieces(b, p),
    decreases b.len(),
{
    let whole = a.push(c) + b;
    if b.len() == 0 {
        assert(whole =~= a.push(c));
        assert(a.push(c).drop_last() =~= a);
        assert(pieces(a, p) + pieces(b, p) =~= pieces(a, p).push(Seq::<char>::empty()));
    } else {
        law_separator_parts_the_pieces(a, c, b.drop_last(), p);
        lemma_some_piece(b.drop_last(), p);
        assert(whole.drop_last() =~= a.push(c) + b.drop_last());
        assert(pieces(whole, p) =~= pieces(a, p) + pieces(b, p));
    }
}

/// Parts that do not hold the separator come back when they are joined by it and parted again.
pub proof fn law_joined_parts_come_back(parts: Seq<Seq<char>>, c: char)
    requires
        parts.len() > 0,
        forall|k: int| 0 <= k < parts.len() ==> !(#[trigger] parts[k]).contains(c),
    ensures
        pieces(joined(parts, c), only(c)) == parts,
    decreases parts.len(),
{
    let last = parts.last();
    assert(!parts[parts.len() - 1].contains(c));
    law_text_without_separators_is_one_piece(last, only(c));
    if parts.len() == 1 {
        assert(parts =~= seq![last]);
    } else {
        let front = parts.drop_last();
        assert forall|k: int| 0 <= k < front.len() implies !(#[trigger] front[k]).contains(c) by {
            assert(front[k] == parts[k]);
        }
        law_joined_parts_come_back(front, c);
        law_separator_parts_the_pieces(joined(front, c), c, last, only(c));
        assert(front + seq![last] =~= parts);
    }
}

/// The pieces of a text give it back when they are joined, and none of them holds the separator.
pub proof fn law_pieces_make_up_the_text(s: Seq<char>, c: char)
    ensures
        pieces(s, only(c)).len() > 0,
        joined(pieces(s, only(c)), c) == s,
        forall|k: int|
            0 <= k < pieces(s, only(c)).len() ==> !(#[trigger] pieces(s, only(c))[k]).contains(c),
    decreases s.len(),
{
    let parts = pieces(s, only(c));
    if s.len() == 0 {
        assert(joined(parts, c) =~= s);
        assert(!parts[0].contains(c));
    } else {
        let front = s.drop_last();
        let before = pieces(front, only(c));
        law_pieces_make_up_the_text(front, c);
        assert(front.push(s.last()) =~= s);
        if s.last() == c {
            assert(parts.drop_last() =~= before);
            assert(joined(parts, c) =~= s);
            assert forall|k: int| 0 <= k < parts.len() implies !(
            #[trigger] parts[k]).contains(c) by {
                if k < before.len() {
                    assert(parts[k] == before[k]);
                }
            }
        } else {
            assert(parts.drop_last() =~= before.drop_last());
            assert(joined(parts, c) =~= s);
            assert forall|k: int| 0 <= k < parts.len() implies !(
            #[trigger] parts[k]).contains(c) by {
                if k < before.len() - 1 {
                    assert(parts[k] == before[k]);
                } else {
                    let last = before[before.len() - 1];
                    assert(parts[k] == last.push(s.last()));
                    assert forall|i: int| 0 <= i < parts[k].len() implies parts[k][i] != c by {
                        if i < last.len() {
                            assert(last[i] == parts[k][i]);
                            assert(!last.contains(c));
                        }
                    }
                }
            }
        }
    }
}

} // verus!
