//! The exact text of the report lines, built from integers.
use vstd::arithmetic::div_mod::lemma_fundamental_div_mod;
use vstd::prelude::*;

use crate::patterns::pattern_table;

verus! {

/// The decimal digit character for `d` (`d < 10`).
pub open spec fn digit_char(d: nat) -> char {
    if d == 0 { '0' }
    else if d == 1 { '1' }
    else if d == 2 { '2' }
    else if d == 3 { '3' }
    else if d == 4 { '4' }
    else if d == 5 { '5' }
    else if d == 6 { '6' }
    else if d == 7 { '7' }
    else if d == 8 { '8' }
    else { '9' }
}

/// The decimal representation of `n`, without leading zeros.
pub open spec fn decimal(n: nat) -> Seq<char>
    decreases n,
{
    if n < 10 {
        seq![digit_char(n)]
    } else {
        decimal(n / 10).push(digit_char(n % 10))
    }
}

/// `h` hundredths written with exactly two decimal places (`1234` is `12.34`).
pub open spec fn fixed2(h: nat) -> Seq<char> {
    decimal(h / 100) + seq!['.', digit_char((h / 10) % 10), digit_char(h % 10)]
}

/// `k` space characters.
pub open spec fn spaces(k: nat) -> Seq<char> {
    Seq::new(k, |i: int| ' ')
}

/// `s` followed by spaces up to `width` characters; never truncated.
pub open spec fn pad_right(s: Seq<char>, width: nat) -> Seq<char> {
    if s.len() < width { s + spaces((width - s.len()) as nat) } else { s }
}

/// `s` preceded by spaces up to `width` characters; never truncated.
pub open spec fn pad_left(s: Seq<char>, width: nat) -> Seq<char> {
    if s.len() < width { spaces((width - s.len()) as nat) + s } else { s }
}

/// `num / den` rounded to the nearest integer, a tie going to the even one.
pub open spec fn round_half_even(num: nat, den: nat) -> nat
    recommends
        den > 0,
{
    let q = num / den;
    let r = num % den;
    if 2 * r > den || (2 * r == den && q % 2 == 1) { q + 1 } else { q }
}

/// Bytes in one mebibyte.
pub const MEBIBYTE: u64 = 1048576;

/// Nanoseconds in one hundredth of a millisecond.
pub const NANOS_PER_HUNDREDTH_MS: u64 = 10000;

/// A corpus size of `bytes` in hundredths of a mebibyte.
pub open spec fn mebibyte_hundredths(bytes: nat) -> nat {
    round_half_even(bytes * 100, MEBIBYTE as nat)
}

/// A duration of `nanos` nanoseconds in hundredths of a millisecond.
pub open spec fn millis_hundredths(nanos: nat) -> nat {
    round_half_even(nanos, NANOS_PER_HUNDREDTH_MS as nat)
}

/// The report's first line, for a corpus of `bytes` bytes.
pub open spec fn header_text(bytes: nat) -> Seq<char> {
    "Rust regex (input: "@ + fixed2(mebibyte_hundredths(bytes)) + " MB)"@
}

/// Number of box-drawing characters in the separator line.
pub const SEPARATOR_WIDTH: usize = 41;

/// The line under the header.
pub open spec fn separator_text() -> Seq<char> {
    Seq::new(SEPARATOR_WIDTH as nat, |i: int| '─')
}

/// Width of the name column.
pub const NAME_WIDTH: usize = 15;

/// Width of the elapsed-time column.
pub const TIME_WIDTH: usize = 10;

/// Width of the match-count column.
pub const COUNT_WIDTH: usize = 6;

/// One result row: the name, the elapsed milliseconds with two decimals and
/// the match count, each in its column.
pub open spec fn row_text(name: Seq<char>, nanos: nat, count: nat) -> Seq<char> {
    pad_right(name, NAME_WIDTH as nat) + "  "@ + pad_left(fixed2(millis_hundredths(nanos)), TIME_WIDTH as nat)
        + " ms  "@ + pad_left(decimal(count), COUNT_WIDTH as nat) + " matches"@
}

fn push_digit(s: &mut String, d: u128)
    requires
        d < 10,
    ensures
        final(s)@ == old(s)@.push(digit_char(d as nat)),
{
    proof {
        reveal_strlit("0");
        reveal_strlit("1");
        reveal_strlit("2");
        reveal_strlit("3");
        reveal_strlit("4");
        reveal_strlit("5");
        reveal_strlit("6");
        reveal_strlit("7");
        reveal_strlit("8");
        reveal_strlit("9");
    }
    let ghost before = s@;
    match d {
        0 => s.append("0"),
        1 => s.append("1"),
        2 => s.append("2"),
        3 => s.append("3"),
        4 => s.append("4"),
        5 => s.append("5"),
        6 => s.append("6"),
        7 => s.append("7"),
        8 => s.append("8"),
        _ => s.append("9"),
    }
    assert(s@ =~= before.push(digit_char(d as nat)));
}

/// Append the decimal representation of `n` to `s`.
fn append_decimal(s: &mut String, n: u128)
    ensures
        final(s)@ == old(s)@ + decimal(n as nat),
    decreases n,
{
    let ghost before = s@;
    if n >= 10 {
        append_decimal(s, n / 10);
    }
    push_digit(s, n % 10);
    assert(s@ =~= before + decimal(n as nat));
}

/// Append `k` spaces to `s`.
fn append_spaces(s: &mut String, k: usize)
    ensures
        final(s)@ == old(s)@ + spaces(k as nat),
{
    let ghost before = s@;
    let mut i: usize = 0;
    while i < k
        invariant
            i <= k,
            s@ == before + spaces(i as nat),
        decreases k - i,
    {
        let ghost prev = s@;
        s.append(" ");
        proof {
            reveal_strlit(" ");
        }
        assert(" "@ =~= seq![' ']);
        i = i + 1;
        assert(s@ =~= prev + seq![' ']);
        assert(s@ =~= before + spaces(i as nat));
    }
}

/// Append `h` hundredths written with two decimal places to `s`.
fn append_fixed2(s: &mut String, h: u128)
    ensures
        final(s)@ == old(s)@ + fixed2(h as nat),
{
    let ghost before = s@;
    append_decimal(s, h / 100);
    let ghost mid = s@;
    s.append(".");
    proof {
        reveal_strlit(".");
    }
    assert(s@ =~= mid.push('.'));
    push_digit(s, (h / 10) % 10);
    push_digit(s, h % 10);
    assert(s@ =~= before + fixed2(h as nat));
}

/// Append `field` to `s`, preceded by spaces up to `width` characters.
fn append_padded_left(s: &mut String, field: &str, width: usize)
    ensures
        final(s)@ == old(s)@ + pad_left(field@, width as nat),
{
    let ghost before = s@;
    let len = field.unicode_len();
    if len < width {
        append_spaces(s, width - len);
    }
    s.append(field);
    assert(s@ =~= before + pad_left(field@, width as nat));
}

/// Append `field` to `s`, followed by spaces up to `width` characters.
fn append_padded_right(s: &mut String, field: &str, width: usize)
    ensures
        final(s)@ == old(s)@ + pad_right(field@, width as nat),
{
    let ghost before = s@;
    let len = field.unicode_len();
    s.append(field);
    if len < width {
        append_spaces(s, width - len);
    }
    assert(s@ =~= before + pad_right(field@, width as nat));
}

/// `num / den` rounded to the nearest integer, a tie going to the even one.
pub fn rounded_quotient(num: u128, den: u128) -> (r: u128)
    requires
        den > 0,
    ensures
        r as nat == round_half_even(num as nat, den as nat),
{
    let q = num / den;
    let rem = num % den;
    if rem > den - rem || (rem == den - rem && q % 2 == 1) {
        proof {
            lemma_fundamental_div_mod(num as int, den as int);
            assert(rem > 0);
            assert(den >= 2);
            assert(q * den <= num);
            assert(2 * q <= num) by (nonlinear_arith)
                requires
                    q * den <= num,
                    den >= 2,
            ;
        }
        q + 1
    } else {
        q
    }
}

/// The report's first line: the corpus size in mebibytes with two decimals.
pub fn header_line(corpus_bytes: usize) -> (r: String)
    ensures
        r@ == header_text(corpus_bytes as nat),
{
    let mut s = String::new();
    s.append("Rust regex (input: ");
    let h = rounded_quotient(corpus_bytes as u128 * 100, MEBIBYTE as u128);
    append_fixed2(&mut s, h);
    s.append(" MB)");
    assert(s@ =~= header_text(corpus_bytes as nat));
    s
}

/// The line printed under the header.
pub fn separator_line() -> (r: String)
    ensures
        r@ == separator_text(),
{
    let mut s = String::new();
    let mut i: usize = 0;
    while i < SEPARATOR_WIDTH
        invariant
            i <= SEPARATOR_WIDTH,
            s@ == Seq::new(i as nat, |j: int| '─'),
        decreases SEPARATOR_WIDTH - i,
    {
        s.append("─");
        proof {
            reveal_strlit("─");
        }
        i = i + 1;
        assert(s@ =~= Seq::new(i as nat, |j: int| '─'));
    }
    s
}

/// One result row for a pattern named `name` that took `elapsed_nanos`
/// nanoseconds and found `matches` matches.
pub fn result_row(name: &str, elapsed_nanos: u64, matches: usize) -> (r: String)
    ensures
        r@ == row_text(name@, elapsed_nanos as nat, matches as nat),
{
    let mut s = String::new();
    append_padded_right(&mut s, name, NAME_WIDTH);
    s.append("  ");
    let mut time = String::new();
    append_fixed2(&mut time, rounded_quotient(elapsed_nanos as u128, NANOS_PER_HUNDREDTH_MS as u128));
    append_padded_left(&mut s, time.as_str(), TIME_WIDTH);
    s.append(" ms  ");
    let mut count = String::new();
    append_decimal(&mut count, matches as u128);
    append_padded_left(&mut s, count.as_str(), COUNT_WIDTH);
    s.append(" matches");
    assert(s@ =~= row_text(name@, elapsed_nanos as nat, matches as nat));
    s
}

/// `s` holds no line break.
pub open spec fn is_single_line(s: Seq<char>) -> bool {
    forall|i: int| 0 <= i < s.len() ==> #[trigger] s[i] != '\n'
}

proof fn lemma_concat_single_line(a: Seq<char>, b: Seq<char>)
    requires
        is_single_line(a),
        is_single_line(b),
    ensures
        is_single_line(a + b),
{
    assert forall|i: int| 0 <= i < (a + b).len() implies #[trigger] (a + b)[i] != '\n' by {
        if i >= a.len() {
            assert((a + b)[i] == b[i - a.len()]);
        }
    }
}

proof fn lemma_decimal_single_line(n: nat)
    ensures
        is_single_line(decimal(n)),
    decreases n,
{
    if n >= 10 {
        lemma_decimal_single_line(n / 10);
    }
}

proof fn lemma_fixed2_single_line(h: nat)
    ensures
        is_single_line(fixed2(h)),
{
    lemma_decimal_single_line(h / 100);
    lemma_concat_single_line(decimal(h / 100), seq!['.', digit_char((h / 10) % 10), digit_char(h % 10)]);
}

proof fn lemma_pad_single_line(s: Seq<char>, width: nat)
    requires
        is_single_line(s),
    ensures
        is_single_line(pad_left(s, width)),
        is_single_line(pad_right(s, width)),
{
    if s.len() < width {
        lemma_concat_single_line(spaces((width - s.len()) as nat), s);
        lemma_concat_single_line(s, spaces((width - s.len()) as nat));
    }
}

/// The report is line-oriented whatever is measured: the header, the
/// separator and the row of every benchmark pattern are each a single line,
/// so a run prints exactly one header line, one separator line and one row
/// per pattern, eight in all.
pub proof fn lemma_report_lines(bytes: nat, nanos: nat, count: nat, k: int)
    requires
        0 <= k < pattern_table().len(),
    ensures
        pattern_table().len() == 8,
        is_single_line(header_text(bytes)),
        is_single_line(separator_text()),
        is_single_line(row_text(pattern_table()[k].0, nanos, count)),
{
    reveal_strlit("Rust regex (input: ");
    reveal_strlit(" MB)");
    reveal_strlit("  ");
    reveal_strlit(" ms  ");
    reveal_strlit(" matches");
    reveal_strlit("literal_alt");
    reveal_strlit("anchored");
    reveal_strlit("inner_literal");
    reveal_strlit("suffix");
    reveal_strlit("char_class");
    reveal_strlit("email");
    reveal_strlit("uri");
    reveal_strlit("ip");
    lemma_fixed2_single_line(mebibyte_hundredths(bytes));
    lemma_concat_single_line("Rust regex (input: "@, fixed2(mebibyte_hundredths(bytes)));
    lemma_concat_single_line("Rust regex (input: "@ + fixed2(mebibyte_hundredths(bytes)), " MB)"@);
    let name = pattern_table()[k].0;
    assert(is_single_line(name));
    let time = pad_left(fixed2(millis_hundredths(nanos)), TIME_WIDTH as nat);
    let num = pad_left(decimal(count), COUNT_WIDTH as nat);
    lemma_pad_single_line(name, NAME_WIDTH as nat);
    lemma_fixed2_single_line(millis_hundredths(nanos));
    lemma_pad_single_line(fixed2(millis_hundredths(nanos)), TIME_WIDTH as nat);
    lemma_decimal_single_line(count);
    lemma_pad_single_line(decimal(count), COUNT_WIDTH as nat);
    let a = pad_right(name, NAME_WIDTH as nat);
    lemma_concat_single_line(a, "  "@);
    lemma_concat_single_line(a + "  "@, time);
    lemma_concat_single_line(a + "  "@ + time, " ms  "@);
    lemma_concat_single_line(a + "  "@ + time + " ms  "@, num);
    lemma_concat_single_line(a + "  "@ + time + " ms  "@ + num, " matches"@);
}

} // verus!
