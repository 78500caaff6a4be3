//! Text utilities on `str` and `String` with exact specifications: decimal
//! numerals, whitespace tokenisation, joining and comparison.

use vstd::prelude::*;

verus! {

/// std's `String::push`: appends one character at the end.
#[verifier::external_body]
pub(crate) fn push_char(s: &mut String, c: char)
    ensures
        final(s)@ == old(s)@.push(c),
{
    s.push(c)
}

/// The ASCII digit character for a value below ten.
pub open spec fn spec_digit_char(d: nat) -> char {
    ((48 + d) as u32) as char
}

/// The decimal numeral of `n`, most significant digit first, without sign or
/// leading zeros (zero is "0").
pub open spec fn spec_decimal(n: nat) -> Seq<char>
    decreases n,
{
    if n < 10 {
        seq![spec_digit_char(n)]
    } else {
        spec_decimal(n / 10).push(spec_digit_char(n % 10))
    }
}

pub(crate) fn digit_char(d: u64) -> (c: char)
    requires
        d < 10,
    ensures
        c == spec_digit_char(d as nat),
{
    match d {
        0 => '0',
        1 => '1',
        2 => '2',
        3 => '3',
        4 => '4',
        5 => '5',
        6 => '6',
        7 => '7',
        8 => '8',
        _ => '9',
    }
}

/// Append the decimal numeral of `n` to `s`.
pub(crate) fn push_decimal(s: &mut String, n: u64)
    ensures
        final(s)@ == old(s)@ + spec_decimal(n as nat),
    decreases n,
{
    if n < 10 {
        push_char(s, digit_char(n));
        assert(old(s)@.push(spec_digit_char(n as nat)) =~= old(s)@ + spec_decimal(n as nat));
    } else {
        push_decimal(s, n / 10);
        push_char(s, digit_char(n % 10));
        assert(old(s)@ + spec_decimal((n / 10) as nat) + seq![spec_digit_char((n % 10) as nat)]
            =~= old(s)@ + spec_decimal(n as nat));
    }
}

/// Append the decimal numeral of a 128-bit `n` to `s`.
pub(crate) fn push_decimal_u128(s: &mut String, n: u128)
    ensures
        final(s)@ == old(s)@ + spec_decimal(n as nat),
    decreases n,
{
    if n < 10 {
        push_char(s, digit_char(n as u64));
        assert(old(s)@.push(spec_digit_char(n as nat)) =~= old(s)@ + spec_decimal(n as nat));
    } else {
        push_decimal_u128(s, n / 10);
        push_char(s, digit_char((n % 10) as u64));
        assert(old(s)@ + spec_decimal((n / 10) as nat) + seq![spec_digit_char((n % 10) as nat)]
            =~= old(s)@ + spec_decimal(n as nat));
    }
}

/// Whether two strings hold the same characters.
pub fn str_eq(a: &str, b: &str) -> (r: bool)
    ensures
        r == (a@ == b@),
{
    let n = a.unicode_len();
    if n != b.unicode_len() {
        return false;
    }
    for i in 0..n
        invariant
            n == a@.len(),
            n == b@.len(),
            forall|j: int| 0 <= j < i ==> a@[j] == b@[j],
    {
        if a.get_char(i) != b.get_char(i) {
            return false;
        }
    }
    assert(a@ =~= b@);
    true
}

/// Append `t` to `s`.
pub(crate) fn push_str(s: &mut String, t: &str)
    ensures
        final(s)@ == old(s)@ + t@,
{
    s.append(t);
}

/// `s` padded on the left with '0' to at least `width` characters.
pub open spec fn spec_zero_pad(s: Seq<char>, width: nat) -> Seq<char> {
    if s.len() >= width {
        s
    } else {
        Seq::new((width - s.len()) as nat, |i: int| '0') + s
    }
}

/// Append `s` zero-padded on the left to at least `width` characters.
pub(crate) fn push_zero_padded(out: &mut String, s: &str, width: usize)
    ensures
        final(out)@ == old(out)@ + spec_zero_pad(s@, width as nat),
{
    let n = s.unicode_len();
    let mut k: usize = n;
    let ghost start = out@;
    while k < width
        invariant
            n == s@.len(),
            n <= k,
            k <= width || k == n,
            out@ == start + Seq::new((k - n) as nat, |i: int| '0'),
        decreases width - k,
    {
        push_char(out, '0');
        assert(start + Seq::new((k + 1 - n) as nat, |i: int| '0') =~= start + Seq::new(
            (k - n) as nat,
            |i: int| '0',
        ).push('0'));
        k = k + 1;
    }
    push_str(out, s);
    if n >= width {
        assert(Seq::new((k - n) as nat, |i: int| '0') =~= Seq::<char>::empty());
        assert(out@ =~= old(out)@ + spec_zero_pad(s@, width as nat));
    } else {
        assert(out@ =~= old(out)@ + spec_zero_pad(s@, width as nat));
    }
}

/// Whether a character has Unicode's White_Space property, as std's
/// `char::is_whitespace` decides.
pub open spec fn spec_is_whitespace(c: char) -> bool {
    let u = c as u32;
    (0x09 <= u <= 0x0D) || u == 0x20 || u == 0x85 || u == 0xA0 || u == 0x1680 || (0x2000 <= u
        <= 0x200A) || u == 0x2028 || u == 0x2029 || u == 0x202F || u == 0x205F || u == 0x3000
}

/// std's `char::is_whitespace`.
pub fn is_whitespace(c: char) -> (b: bool)
    ensures
        b == spec_is_whitespace(c),
{
    let u = c as u32;
    (0x09 <= u && u <= 0x0D) || u == 0x20 || u == 0x85 || u == 0xA0 || u == 0x1680 || (0x2000
        <= u && u <= 0x200A) || u == 0x2028 || u == 0x2029 || u == 0x202F || u == 0x205F || u
        == 0x3000
}

/// The whitespace-separated words of `s`, in order: its maximal runs of
/// non-whitespace characters, as std's `str::split_whitespace` yields them.
pub open spec fn spec_tokens(s: Seq<char>) -> Seq<Seq<char>>
    decreases s.len(),
{
    if s.len() == 0 {
        Seq::empty()
    } else if spec_is_whitespace(s.last()) {
        spec_tokens(s.drop_last())
    } else {
        let prev = spec_tokens(s.drop_last());
        if s.len() >= 2 && !spec_is_whitespace(s[s.len() - 2]) {
            prev.update(prev.len() - 1, prev.last().push(s.last()))
        } else {
            prev.push(seq![s.last()])
        }
    }
}

proof fn lemma_tokens_nonempty_end(s: Seq<char>)
    requires
        s.len() >= 1,
        !spec_is_whitespace(s.last()),
    ensures
        spec_tokens(s).len() >= 1,
    decreases s.len(),
{
    if s.len() >= 2 && !spec_is_whitespace(s[s.len() - 2]) {
        lemma_tokens_nonempty_end(s.drop_last());
    }
}

/// The views of a vector of strings.
pub open spec fn spec_strings(v: Seq<String>) -> Seq<Seq<char>> {
    v.map_values(|s: String| s@)
}

/// std's `str::split_whitespace`, collected.
pub fn split_whitespace(s: &str) -> (v: Vec<String>)
    ensures
        spec_strings(v@) == spec_tokens(s@),
{
    let n = s.unicode_len();
    let mut v: Vec<String> = Vec::new();
    let mut prev_ws = true;
    for i in 0..n
        invariant
            n == s@.len(),
            spec_strings(v@) == spec_tokens(s@.take(i as int)),
            prev_ws == (i == 0 || spec_is_whitespace(s@[i - 1])),
    {
        let c = s.get_char(i);
        let ghost t = s@.take(i + 1);
        assert(t.drop_last() =~= s@.take(i as int));
        if is_whitespace(c) {
            prev_ws = true;
        } else {
            if prev_ws {
                let mut w = String::new();
                push_char(&mut w, c);
                v.push(w);
                assert(spec_strings(v@) =~= spec_tokens(t));
            } else {
                proof {
                    lemma_tokens_nonempty_end(s@.take(i as int));
                }
                let mut w = v.pop().unwrap();
                push_char(&mut w, c);
                v.push(w);
                assert(spec_strings(v@) =~= spec_tokens(t));
            }
            prev_ws = false;
        }
    }
    assert(s@.take(n as int) =~= s@);
    v
}

/// The words joined with single spaces.
pub open spec fn spec_join_words(words: Seq<Seq<char>>) -> Seq<char>
    decreases words.len(),
{
    if words.len() == 0 {
        Seq::empty()
    } else if words.len() == 1 {
        words[0]
    } else {
        spec_join_words(words.drop_last()) + seq![' '] + words.last()
    }
}

/// The strings from index `start` on, joined with single spaces.
pub fn join_words_from(v: &Vec<String>, start: usize) -> (r: String)
    requires
        start <= v@.len(),
    ensures
        r@ == spec_join_words(spec_strings(v@).subrange(start as int, v@.len() as int)),
{
    let ghost w = spec_strings(v@).subrange(start as int, v@.len() as int);
    let mut r = String::new();
    let n = v.len();
    let mut i = start;
    while i < n
        invariant
            start <= i <= n,
            n == v@.len(),
            w == spec_strings(v@).subrange(start as int, n as int),
            r@ == spec_join_words(w.take(i - start)),
        decreases n - i,
    {
        if i > start {
            push_char(&mut r, ' ');
        }
        push_str(&mut r, v[i].as_str());
        assert(w.take(i + 1 - start).drop_last() =~= w.take(i - start));
        assert(w[i - start] == v@[i as int]@);
        assert(r@ =~= spec_join_words(w.take(i + 1 - start)));
        i = i + 1;
    }
    assert(w.take(n - start) =~= w);
    r
}

/// The strings from index `start` on.
pub fn strings_from(v: &Vec<String>, start: usize) -> (r: Vec<String>)
    requires
        start <= v@.len(),
    ensures
        spec_strings(r@) == spec_strings(v@).subrange(start as int, v@.len() as int),
{
    let mut r: Vec<String> = Vec::new();
    let n = v.len();
    let mut i = start;
    while i < n
        invariant
            start <= i <= n,
            n == v@.len(),
            spec_strings(r@) == spec_strings(v@).subrange(start as int, i as int),
            r@.len() == i - start,
        decreases n - i,
    {
        let c = v[i].clone();
        assert(c@ == v@[i as int]@);
        let ghost old_r = r@;
        r.push(c);
        assert(r@ == old_r.push(c));
        assert(r@.len() == i + 1 - start);
        assert forall|j: int| 0 <= j < r@.len() implies #[trigger] spec_strings(r@)[j]
            == spec_strings(v@).subrange(start as int, i + 1)[j] by {
            if j < old_r.len() {
                assert(spec_strings(old_r)[j] == spec_strings(v@).subrange(start as int, i as int)[j]);
            }
        }
        assert(spec_strings(r@) =~= spec_strings(v@).subrange(start as int, i + 1));
        i = i + 1;
    }
    r
}

/// The value of a string of decimal digits.
pub open spec fn spec_digits_value(s: Seq<char>) -> nat
    decreases s.len(),
{
    if s.len() == 0 {
        0
    } else {
        spec_digits_value(s.drop_last()) * 10 + ((s.last() as u32) - 48) as nat
    }
}

/// Whether every character is an ASCII decimal digit.
pub open spec fn spec_all_digits(s: Seq<char>) -> bool {
    forall|i: int| 0 <= i < s.len() ==> '0' <= #[trigger] s[i] <= '9'
}

/// The digits part of an unsigned numeral: what follows a leading '+'.
pub open spec fn spec_unsigned_digits(s: Seq<char>) -> Seq<char> {
    if s.len() > 0 && s[0] == '+' {
        s.drop_first()
    } else {
        s
    }
}

/// What std's `str::parse` gives for an unsigned integer type whose maximum
/// is `max`: an optional '+', then at least one decimal digit and nothing
/// else, with a value not above `max`.
pub open spec fn spec_parse_unsigned(s: Seq<char>, max: nat) -> Option<nat> {
    let d = spec_unsigned_digits(s);
    if d.len() > 0 && spec_all_digits(d) && spec_digits_value(d) <= max {
        Some(spec_digits_value(d))
    } else {
        None
    }
}

proof fn lemma_digits_value_monotone(s: Seq<char>, i: int)
    requires
        0 <= i <= s.len(),
        spec_all_digits(s),
    ensures
        spec_digits_value(s.take(i)) <= spec_digits_value(s),
    decreases s.len() - i,
{
    if i < s.len() {
        lemma_digits_value_monotone(s, i + 1);
        assert(s.take(i + 1).drop_last() =~= s.take(i));
    } else {
        assert(s.take(i) =~= s);
    }
}

/// std's `str::parse` for an unsigned integer whose maximum is `max`.
pub fn parse_unsigned(s: &str, max: u64) -> (r: Option<u64>)
    ensures
        r matches Some(v) ==> spec_parse_unsigned(s@, max as nat) == Some(v as nat),
        r is None ==> spec_parse_unsigned(s@, max as nat) is None,
{
    let n = s.unicode_len();
    let mut start: usize = 0;
    if n > 0 && s.get_char(0) == '+' {
        start = 1;
    }
    let ghost d = spec_unsigned_digits(s@);
    assert(d =~= s@.subrange(start as int, n as int));
    if start >= n {
        return None;
    }
    let mut value: u64 = 0;
    let mut i = start;
    while i < n
        invariant
            start <= i <= n,
            n == s@.len(),
            d == s@.subrange(start as int, n as int),
            d == spec_unsigned_digits(s@),
            spec_all_digits(d.take(i - start)),
            value as nat == spec_digits_value(d.take(i - start)),
            value <= max,
        decreases n - i,
    {
        let c = s.get_char(i);
        assert(d[i - start] == c);
        assert(d.take(i + 1 - start).drop_last() =~= d.take(i - start));
        if c < '0' || c > '9' {
            assert(!spec_all_digits(d));
            return None;
        }
        let digit = (c as u32 - 48) as u64;
        if digit > max || value > (max - digit) / 10 {
            proof {
                if spec_all_digits(d) {
                    lemma_digits_value_monotone(d, i + 1 - start);
                    assert(spec_digits_value(d.take(i + 1 - start)) == value * 10 + digit);
                    if digit <= max {
                        assert(value * 10 + digit > max) by (nonlinear_arith)
                            requires
                                value > (max - digit) / 10,
                                digit <= max,
                        ;
                    }
                }
            }
            return None;
        }
        assert(value * 10 + digit <= max) by (nonlinear_arith)
            requires
                value <= (max - digit) / 10,
                digit <= max,
        ;
        value = value * 10 + digit;
        i = i + 1;
    }
    assert(d.take(n - start) =~= d);
    Some(value)
}

/// What std's `str::to_lowercase` returns for a string: its characters
/// mapped to lower case by Unicode's rules.
pub uninterp spec fn spec_to_lowercase(s: Seq<char>) -> Seq<char>;

/// std's `str::to_lowercase`. Its result is named, not stated: it follows
/// Unicode's case tables.
#[verifier::external_body]
pub(crate) fn str_to_lowercase(s: &str) -> (r: String)
    ensures
        r@ == spec_to_lowercase(s@),
{
    s.to_lowercase()
}

proof fn lemma_digit_char(d: nat)
    requires
        d < 10,
    ensures
        spec_digit_char(d) as u32 == 48 + d,
{
}

proof fn lemma_decimal_digits(n: nat)
    ensures
        spec_decimal(n).len() >= 1,
        spec_all_digits(spec_decimal(n)),
        spec_digits_value(spec_decimal(n)) == n,
    decreases n,
{
    lemma_digit_char(n % 10);
    let s = spec_decimal(n);
    if n < 10 {
        assert(s.drop_last() =~= Seq::<char>::empty());
        assert(s.last() == spec_digit_char(n % 10));
        assert(spec_digits_value(s.drop_last()) == 0);
        assert(spec_digits_value(s) == spec_digits_value(s.drop_last()) * 10 + ((s.last() as u32) - 48) as nat);
    } else {
        lemma_decimal_digits(n / 10);
        assert(spec_decimal(n).last() == spec_digit_char(n % 10));
        assert(spec_decimal(n).drop_last() =~= spec_decimal(n / 10));
        assert(spec_digits_value(s) == spec_digits_value(s.drop_last()) * 10 + ((s.last() as u32) - 48) as nat);
        assert(spec_digits_value(s.drop_last()) == n / 10);
        assert forall|i: int| 0 <= i < spec_decimal(n).len() implies '0' <= #[trigger] spec_decimal(
            n,
        )[i] <= '9' by {
            if i < spec_decimal(n / 10).len() {
                assert(spec_decimal(n)[i] == spec_decimal(n / 10)[i]);
            }
        }
    }
}

/// Parsing the decimal numeral of a number gives the number back, for any
/// integer type whose maximum the number does not exceed.
pub proof fn lemma_decimal_then_parse(n: nat, max: nat)
    requires
        n <= max,
    ensures
        spec_parse_unsigned(spec_decimal(n), max) == Some(n),
{
    lemma_decimal_digits(n);
    assert(spec_unsigned_digits(spec_decimal(n)) == spec_decimal(n));
}

} // verus!
