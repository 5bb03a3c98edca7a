//! Building blocks for text: comparison, repetition, padding, decimal
//! numerals, fixed-point numerals, rounding and HTML escaping.
//!
//! Every function states its result as a sequence of characters given by a
//! spec function of this module.

use vstd::prelude::*;
use vstd::string::*;

verus! {

/// The numeral for a single decimal digit `d`, `0 <= d <= 9`.
pub open spec fn digit(d: int) -> char {
    if d == 0 {
        '0'
    } else if d == 1 {
        '1'
    } else if d == 2 {
        '2'
    } else if d == 3 {
        '3'
    } else if d == 4 {
        '4'
    } else if d == 5 {
        '5'
    } else if d == 6 {
        '6'
    } else if d == 7 {
        '7'
    } else if d == 8 {
        '8'
    } else {
        '9'
    }
}

/// The value of a decimal digit character; -1 for any other character.
pub open spec fn digit_value(c: char) -> int {
    if c == '0' {
        0
    } else if c == '1' {
        1
    } else if c == '2' {
        2
    } else if c == '3' {
        3
    } else if c == '4' {
        4
    } else if c == '5' {
        5
    } else if c == '6' {
        6
    } else if c == '7' {
        7
    } else if c == '8' {
        8
    } else if c == '9' {
        9
    } else {
        -1
    }
}

/// The decimal numeral of `n`, without leading zeros.
pub open spec fn digits(n: nat) -> Seq<char>
    decreases n,
{
    if n < 10 {
        seq![digit(n as int)]
    } else {
        digits(n / 10).push(digit((n % 10) as int))
    }
}

/// The number that a sequence of decimal digit characters denotes.
pub open spec fn numeral_value(s: Seq<char>) -> int
    decreases s.len(),
{
    if s.len() == 0 {
        0
    } else {
        10 * numeral_value(s.drop_last()) + digit_value(s.last())
    }
}

/// The last `width` decimal digits of `n`, with leading zeros.
pub open spec fn zero_padded(n: nat, width: nat) -> Seq<char>
    decreases width,
{
    if width == 0 {
        Seq::empty()
    } else {
        zero_padded(n / 10, (width - 1) as nat).push(digit((n % 10) as int))
    }
}

/// `piece` written `n` times in a row.
pub open spec fn repeated(piece: Seq<char>, n: nat) -> Seq<char>
    decreases n,
{
    if n == 0 {
        Seq::empty()
    } else {
        repeated(piece, (n - 1) as nat) + piece
    }
}

/// The spaces that bring a text of `len` characters to `width` characters;
/// none where the text is as long as that or longer.
pub open spec fn filler(len: nat, width: nat) -> Seq<char> {
    repeated(
        " "@,
        if len >= width {
            0
        } else {
            (width - len) as nat
        },
    )
}

/// `text` followed by as many spaces as it takes to reach `width` characters.
pub open spec fn padded(text: Seq<char>, width: nat) -> Seq<char> {
    text + filler(text.len(), width)
}

/// The absolute value of `v`.
pub open spec fn magnitude(v: int) -> nat {
    if v < 0 {
        (-v) as nat
    } else {
        v as nat
    }
}

/// Ten to the power `places`, for up to three places.
pub open spec fn scale(places: nat) -> nat {
    if places == 0 {
        1
    } else if places == 1 {
        10
    } else if places == 2 {
        100
    } else {
        1000
    }
}

/// `n` without its last `places` decimal digits: `n` divided by ten to the
/// power `places`, the remainder dropped.
pub open spec fn shifted(n: nat, places: nat) -> nat
    decreases places,
{
    if places == 0 {
        n
    } else {
        shifted(n / 10, (places - 1) as nat)
    }
}

/// The fixed-point numeral of `v` divided by ten to the power `places`: an
/// optional minus sign, the whole part, and, where `places > 0`, a point and
/// exactly `places` fractional digits.
pub open spec fn fixed(v: int, places: nat) -> Seq<char> {
    let m = magnitude(v);
    let whole = digits(shifted(m, places));
    let signed = if v < 0 {
        "-"@ + whole
    } else {
        whole
    };
    if places == 0 {
        signed
    } else {
        signed + "."@ + zero_padded(m, places)
    }
}

/// The quotient `n / d` rounded to the nearest integer, a tie going to the
/// neighbour that is farther from zero.
pub open spec fn round_half_away(n: int, d: int) -> int
    recommends
        d > 0,
{
    if n >= 0 {
        (2 * n + d) / (2 * d)
    } else {
        -((2 * (-n) + d) / (2 * d))
    }
}

/// The quotient `n / d` with its fractional part dropped.
pub open spec fn truncated_quotient(n: int, d: int) -> int
    recommends
        d > 0,
{
    if n >= 0 {
        n / d
    } else {
        -((-n) / d)
    }
}

/// What stands for one character in HTML text or in a quoted attribute.
pub open spec fn escaped_char(c: char) -> Seq<char> {
    if c == '&' {
        "&amp;"@
    } else if c == '<' {
        "&lt;"@
    } else if c == '>' {
        "&gt;"@
    } else if c == '"' {
        "&quot;"@
    } else if c == '\'' {
        "&#39;"@
    } else {
        seq![c]
    }
}

/// `s` with each of `& < > " '` replaced by its character reference.
pub open spec fn html_escaped(s: Seq<char>) -> Seq<char>
    decreases s.len(),
{
    if s.len() == 0 {
        Seq::empty()
    } else {
        html_escaped(s.drop_last()) + escaped_char(s.last())
    }
}

/// Whether `c` may open or close markup, or end a quoted attribute.
pub open spec fn is_markup_char(c: char) -> bool {
    c == '<' || c == '>' || c == '"' || c == '\''
}

/// Whether two strings hold the same characters.
pub fn str_equals(a: &str, b: &str) -> (same: bool)
    ensures
        same == (a@ == b@),
{
    let n: usize = a.unicode_len();
    if b.unicode_len() != n {
        return false;
    }
    let mut i: usize = 0;
    while i < n
        invariant
            i <= n,
            n == a@.len(),
            n == b@.len(),
            forall|j: int| 0 <= j < i ==> a@[j] == b@[j],
        decreases n - i,
    {
        if a.get_char(i) != b.get_char(i) {
            return false;
        }
        i = i + 1;
    }
    assert(a@ =~= b@);
    true
}

/// `text` with `other` written after it.
pub fn join(text: &str, other: &str) -> (out: String)
    ensures
        out@ == text@ + other@,
{
    let mut out = String::from_str(text);
    out.append(other);
    out
}

/// `piece` written `n` times in a row.
pub fn repeat(piece: &str, n: usize) -> (out: String)
    ensures
        out@ == repeated(piece@, n as nat),
{
    let mut out = String::new();
    let mut i: usize = 0;
    while i < n
        invariant
            i <= n,
            out@ == repeated(piece@, i as nat),
        decreases n - i,
    {
        out.append(piece);
        i = i + 1;
    }
    out
}

/// The spaces that bring a text of `len` characters to `width` characters.
pub fn fill(len: usize, width: usize) -> (out: String)
    ensures
        out@ == filler(len as nat, width as nat),
{
    if len >= width {
        repeat(" ", 0)
    } else {
        repeat(" ", width - len)
    }
}

/// `text` padded on the right with spaces to `width` characters; a longer
/// text is returned as it is.
pub fn pad_right(text: &str, width: usize) -> (out: String)
    ensures
        out@ == padded(text@, width as nat),
{
    let len: usize = text.unicode_len();
    join(text, fill(len, width).as_str())
}

fn digit_text(d: u64) -> (s: &'static str)
    requires
        d < 10,
    ensures
        s@ == seq![digit(d as int)],
{
    proof {
        reveal_strlit("0");
        reveal_strlit("1");
        reveal_strlit("2");
        reveal_strlit("3");
        reveal_strlit("4");
        reveal_strlit("5");
        reveal_strlit("6");
        reveal_strlit("7");
        reveal_strlit("8");
        reveal_strlit("9");
    }
    let s = if d == 0 {
        "0"
    } else if d == 1 {
        "1"
    } else if d == 2 {
        "2"
    } else if d == 3 {
        "3"
    } else if d == 4 {
        "4"
    } else if d == 5 {
        "5"
    } else if d == 6 {
        "6"
    } else if d == 7 {
        "7"
    } else if d == 8 {
        "8"
    } else {
        "9"
    };
    assert(s@ =~= seq![digit(d as int)]);
    s
}

/// Writes the decimal numeral of `n` at the end of `out`.
pub fn append_digits(out: &mut String, n: u64)
    ensures
        final(out)@ == old(out)@ + digits(n as nat),
    decreases n,
{
    if n >= 10 {
        append_digits(out, n / 10);
    }
    out.append(digit_text(n % 10));
    proof {
        let d = seq![digit((n % 10) as int)];
        if n >= 10 {
            assert((old(out)@ + digits((n / 10) as nat)) + d =~= old(out)@ + digits(
                (n / 10) as nat,
            ).push(digit((n % 10) as int)));
        }
    }
}

/// Writes the last `width` decimal digits of `n`, with leading zeros, at the
/// end of `out`.
pub fn append_zero_padded(out: &mut String, n: u64, width: u8)
    ensures
        final(out)@ == old(out)@ + zero_padded(n as nat, width as nat),
    decreases width,
{
    if width == 0 {
        assert(old(out)@ + Seq::<char>::empty() =~= old(out)@);
    } else {
        append_zero_padded(out, n / 10, width - 1);
        out.append(digit_text(n % 10));
        proof {
            let d = seq![digit((n % 10) as int)];
            let head = zero_padded((n / 10) as nat, (width - 1) as nat);
            assert((old(out)@ + head) + d =~= old(out)@ + head.push(digit((n % 10) as int)));
        }
    }
}

/// The decimal numeral of `n`.
pub fn decimal(n: u64) -> (out: String)
    ensures
        out@ == digits(n as nat),
{
    let mut out = String::new();
    append_digits(&mut out, n);
    assert(Seq::<char>::empty() + digits(n as nat) =~= digits(n as nat));
    out
}

/// The absolute value of `v`.
pub fn magnitude_of(v: i64) -> (m: u64)
    ensures
        m == magnitude(v as int),
{
    if v < 0 {
        ((-(v + 1)) as u64) + 1
    } else {
        v as u64
    }
}

/// `n` without its last `places` decimal digits.
pub fn shift_right(n: u64, places: u8) -> (r: u64)
    ensures
        r == shifted(n as nat, places as nat),
    decreases places,
{
    if places == 0 {
        n
    } else {
        shift_right(n / 10, places - 1)
    }
}

/// The fixed-point numeral of `v` divided by ten to the power `places`.
pub fn fixed_text(v: i64, places: u8) -> (out: String)
    ensures
        out@ == fixed(v as int, places as nat),
{
    let m: u64 = magnitude_of(v);
    let whole: u64 = shift_right(m, places);
    let mut out = if v < 0 {
        let mut signed = String::from_str("-");
        append_digits(&mut signed, whole);
        signed
    } else {
        decimal(whole)
    };
    if places > 0 {
        out.append(".");
        append_zero_padded(&mut out, m, places);
    }
    out
}

/// `n / d` rounded to the nearest integer, ties away from zero.
pub fn round_to_nearest(n: i64, d: i64) -> (r: i64)
    requires
        0 < d,
    ensures
        r == round_half_away(n as int, d as int),
{
    let m: u128 = magnitude_of(n) as u128;
    let step: u128 = d as u128;
    let q: u128 = (2 * m + step) / (2 * step);
    proof {
        if m == 0 {
            vstd::arithmetic::div_mod::lemma_basic_div(step as int, 2 * step as int);
        } else {
            assert(2 * m + step < (2 * step) * (m + 1)) by (nonlinear_arith)
                requires
                    step >= 1,
                    m >= 1,
            ;
            vstd::arithmetic::div_mod::lemma_multiply_divide_lt(
                (2 * m + step) as int,
                (2 * step) as int,
                (m + 1) as int,
            );
        }
        assert(q <= m);
    }
    if n >= 0 {
        q as i64
    } else if q > 9_223_372_036_854_775_807 {
        i64::MIN
    } else {
        -(q as i64)
    }
}

/// `n / d` with the fractional part dropped.
pub fn truncating_div(n: i64, d: i64) -> (r: i64)
    requires
        0 < d,
    ensures
        r == truncated_quotient(n as int, d as int),
{
    if n >= 0 {
        n / d
    } else {
        let m: u64 = magnitude_of(n);
        let q: u64 = m / (d as u64);
        if q > 9_223_372_036_854_775_807 {
            i64::MIN
        } else {
            -(q as i64)
        }
    }
}

/// `s` made safe to place in an HTML document: each of `& < > " '` is
/// replaced by its character reference, every other character is kept.
pub fn escape_html(s: &str) -> (out: String)
    ensures
        out@ == html_escaped(s@),
{
    let n: usize = s.unicode_len();
    let mut out = String::new();
    let mut i: usize = 0;
    while i < n
        invariant
            i <= n,
            n == s@.len(),
            out@ == html_escaped(s@.take(i as int)),
        decreases n - i,
    {
        let c = s.get_char(i);
        proof {
            let next = s@.take(i + 1);
            assert(next.drop_last() =~= s@.take(i as int));
            assert(next.last() == c);
        }
        if c == '&' {
            out.append("&amp;");
        } else if c == '<' {
            out.append("&lt;");
        } else if c == '>' {
            out.append("&gt;");
        } else if c == '"' {
            out.append("&quot;");
        } else if c == '\'' {
            out.append("&#39;");
        } else {
            let one = s.substring_char(i, i + 1);
            assert(one@ =~= seq![c]);
            out.append(one);
        }
        i = i + 1;
    }
    assert(s@.take(n as int) =~= s@);
    out
}

/// What `str::to_lowercase` returns for a text: its lower-case form by the
/// Unicode rules that the standard library follows.
pub uninterp spec fn lowercase_text(s: Seq<char>) -> Seq<char>;

/// What `str::to_uppercase` returns for a text: its upper-case form by the
/// Unicode rules that the standard library follows.
pub uninterp spec fn uppercase_text(s: Seq<char>) -> Seq<char>;

/// `str::to_lowercase` of the standard library. The result is the lower-case
/// form of the text, which depends on the text alone.
#[verifier::external_body]
pub(crate) fn lowercase(s: &str) -> (lowered: String)
    ensures
        lowered@ == lowercase_text(s@),
{
    s.to_lowercase()
}

/// `str::to_uppercase` of the standard library. The result is the upper-case
/// form of the text, which depends on the text alone.
#[verifier::external_body]
pub(crate) fn uppercase(s: &str) -> (raised: String)
    ensures
        raised@ == uppercase_text(s@),
{
    s.to_uppercase()
}

/// The numeral of `n` denotes `n`.
pub proof fn lemma_digits_denote(n: nat)
    ensures
        numeral_value(digits(n)) == n,
        digits(n).len() >= 1,
    decreases n,
{
    if n < 10 {
        assert(digits(n).drop_last() =~= Seq::<char>::empty());
        assert(numeral_value(digits(n).drop_last()) == 0);
    } else {
        lemma_digits_denote(n / 10);
        assert(digits(n).drop_last() =~= digits(n / 10));
    }
}

/// A zero-padded numeral has exactly `width` digits; for up to three digits
/// it denotes `n` modulo ten, a hundred or a thousand.
pub proof fn lemma_zero_padded_denotes(n: nat, width: nat)
    ensures
        zero_padded(n, width).len() == width,
        width <= 3 ==> numeral_value(zero_padded(n, width)) == n % scale(width),
    decreases width,
{
    if width > 0 {
        lemma_zero_padded_denotes(n / 10, (width - 1) as nat);
        assert(zero_padded(n, width).drop_last() =~= zero_padded(n / 10, (width - 1) as nat));
    }
}

/// For up to three places the whole part of a fixed-point numeral is the
/// quotient by ten, a hundred or a thousand, so that the whole part and the
/// fraction together hold the number: `n == shifted * scale + fraction`.
pub proof fn lemma_fixed_parts_hold_the_number(n: nat, places: nat)
    requires
        places <= 3,
    ensures
        shifted(n, places) == n / scale(places),
        n == shifted(n, places) * scale(places) + numeral_value(zero_padded(n, places)),
{
    reveal_with_fuel(shifted, 4);
    lemma_zero_padded_denotes(n, places);
    if places == 0 {
        assert(n == (n / 1) * 1 + n % 1);
    } else if places == 1 {
        assert(n == (n / 10) * 10 + n % 10);
    } else if places == 2 {
        assert(n == (n / 100) * 100 + n % 100);
    } else {
        assert(n == (n / 1000) * 1000 + n % 1000);
    }
}

/// Rounding gives the integer nearest to the exact quotient, and where two
/// integers are equally near, the one farther from zero.
pub proof fn lemma_round_half_away_is_nearest(n: int, d: int)
    requires
        d > 0,
    ensures
        ({
            let r = round_half_away(n, d);
            &&& 2 * magnitude(n - r * d) <= d
            &&& 2 * magnitude(n - r * d) == d ==> magnitude(r * d) > magnitude(n)
            &&& (n >= 0 ==> r >= 0)
            &&& (n <= 0 ==> r <= 0)
        }),
{
    let m: int = if n >= 0 {
        n
    } else {
        -n
    };
    let q = (2 * m + d) / (2 * d);
    let rem = (2 * m + d) % (2 * d);
    let qd = q * d;
    vstd::arithmetic::div_mod::lemma_fundamental_div_mod(2 * m + d, 2 * d);
    vstd::arithmetic::div_mod::lemma_mod_bound(2 * m + d, 2 * d);
    vstd::arithmetic::div_mod::lemma_div_pos_is_pos(2 * m + d, 2 * d);
    assert((2 * d) * q == 2 * qd) by (nonlinear_arith)
        requires
            qd == q * d,
    ;
    assert(qd >= 0) by (nonlinear_arith)
        requires
            qd == q * d,
            q >= 0,
            d > 0,
    ;
    assert(2 * (m - qd) == rem - d);
    if n == 0 {
        vstd::arithmetic::div_mod::lemma_basic_div(d, 2 * d);
    }
    if n >= 0 {
        assert(round_half_away(n, d) == q);
        assert(n - q * d == m - qd);
    } else {
        assert(round_half_away(n, d) == -q);
        assert((-q) * d == -qd) by (nonlinear_arith)
            requires
                qd == q * d,
        ;
        assert(n - (-q) * d == -(m - qd));
    }
}

/// No character of an escaped text can open or close markup or end a quoted
/// attribute.
pub proof fn lemma_escaped_has_no_markup(s: Seq<char>)
    ensures
        forall|i: int| 0 <= i < html_escaped(s).len() ==> !is_markup_char(#[trigger] html_escaped(s)[i]),
    decreases s.len(),
{
    reveal_strlit("&amp;");
    reveal_strlit("&lt;");
    reveal_strlit("&gt;");
    reveal_strlit("&quot;");
    reveal_strlit("&#39;");
    if s.len() > 0 {
        lemma_escaped_has_no_markup(s.drop_last());
        let head = html_escaped(s.drop_last());
        let tail = escaped_char(s.last());
        assert forall|i: int| 0 <= i < html_escaped(s).len() implies !is_markup_char(
            #[trigger] html_escaped(s)[i],
        ) by {
            if i < head.len() {
                assert(html_escaped(s)[i] == head[i]);
            } else {
                assert(html_escaped(s)[i] == tail[i - head.len()]);
            }
        }
    }
}

/// A text without any of `& < > " '` is its own escaped form.
pub proof fn lemma_escape_keeps_plain_text(s: Seq<char>)
    requires
        forall|i: int| 0 <= i < s.len() ==> !is_markup_char(#[trigger] s[i]) && s[i] != '&',
    ensures
        html_escaped(s) == s,
    decreases s.len(),
{
    if s.len() > 0 {
        lemma_escape_keeps_plain_text(s.drop_last());
        assert(s.drop_last().push(s.last()) =~= s);
        assert(s.drop_last() + seq![s.last()] =~= s);
    } else {
        assert(s =~= Seq::<char>::empty());
    }
}

} // verus!
