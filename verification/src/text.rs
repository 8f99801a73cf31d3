//! Text: decimal numerals, a percentage to two decimal places, and the file
//! name of a student's report card.

use vstd::prelude::*;
use vstd::string::*;
use crate::grade::Percentage;

verus! {

/// `String::push` appends the character to the end of the string.
pub assume_specification[ String::push ](s: &mut String, c: char)
    ensures
        final(s)@ == old(s)@.push(c),
;

/// The numeral of a digit; `'0'` stands for anything above 9.
pub open spec fn digit(d: nat) -> char {
    if d == 1 {
        '1'
    } else if d == 2 {
        '2'
    } else if d == 3 {
        '3'
    } else if d == 4 {
        '4'
    } else if d == 5 {
        '5'
    } else if d == 6 {
        '6'
    } else if d == 7 {
        '7'
    } else if d == 8 {
        '8'
    } else if d == 9 {
        '9'
    } else {
        '0'
    }
}

/// The decimal numeral of `n`, without leading zeros.
pub open spec fn decimal(n: nat) -> Seq<char>
    decreases n,
{
    if n < 10 {
        seq![digit(n)]
    } else {
        decimal(n / 10).push(digit(n % 10))
    }
}

/// A number of hundredths written with two decimal places: `9000` is
/// `90.00`, `5` is `0.05`.
pub open spec fn two_decimals(hundredths: nat) -> Seq<char> {
    decimal(hundredths / 100) + seq!['.', digit((hundredths / 10) % 10), digit(hundredths % 10)]
}

/// The percentage in hundredths of a percent point, rounded to the nearest;
/// a value half way between two goes to the even one.
pub open spec fn hundredths_of(p: Percentage) -> nat {
    if p.denominator == 0 {
        0
    } else {
        let scaled = p.numerator as nat * 100;
        let low = scaled / (p.denominator as nat);
        let rest = scaled % (p.denominator as nat);
        if 2 * rest > p.denominator || (2 * rest == p.denominator && low % 2 == 1) {
            low + 1
        } else {
            low
        }
    }
}

/// What stands for a character in a file name: `_` for a space, the
/// character itself otherwise.
pub open spec fn file_name_char(c: char) -> char {
    if c == ' ' {
        '_'
    } else {
        c
    }
}

/// The name of the file that holds the report card of `name`: the name with
/// each space replaced by `_`, then `_report_card.pdf`.
pub open spec fn file_name_of(name: Seq<char>) -> Seq<char> {
    name.map_values(|c: char| file_name_char(c)) + "_report_card.pdf"@
}

/// The numeral of `d`.
pub fn digit_char(d: u8) -> (c: char)
    ensures
        c == digit(d as nat),
{
    match d {
        1 => '1',
        2 => '2',
        3 => '3',
        4 => '4',
        5 => '5',
        6 => '6',
        7 => '7',
        8 => '8',
        9 => '9',
        _ => '0',
    }
}

/// Appends the decimal numeral of `n` to `s`.
pub fn push_decimal(s: &mut String, n: u128)
    ensures
        final(s)@ == old(s)@ + decimal(n as nat),
    decreases n,
{
    if n >= 10 {
        push_decimal(s, n / 10);
    }
    let ghost before = s@;
    s.push(digit_char((n % 10) as u8));
    proof {
        if n >= 10 {
            assert(before.push(digit((n % 10) as nat)) =~= old(s)@ + decimal(n as nat));
        } else {
            assert(before.push(digit(n as nat)) =~= old(s)@ + decimal(n as nat));
        }
    }
}

/// The decimal numeral of `n`.
pub fn decimal_string(n: u32) -> (s: String)
    ensures
        s@ == decimal(n as nat),
{
    let mut s = String::new();
    push_decimal(&mut s, n as u128);
    assert(Seq::<char>::empty() + decimal(n as nat) =~= decimal(n as nat));
    s
}

/// The percentage in hundredths of a percent point, rounded half to even.
pub fn hundredths(p: &Percentage) -> (h: u128)
    ensures
        h == hundredths_of(*p),
{
    if p.denominator == 0 {
        return 0;
    }
    let den: u128 = p.denominator as u128;
    let scaled: u128 = (p.numerator as u128) * 100;
    let low: u128 = scaled / den;
    let rest: u128 = scaled % den;
    if 2 * rest > den || (2 * rest == den && low % 2 == 1) {
        low + 1
    } else {
        low
    }
}

/// The percentage with exactly two decimal places.
pub fn format_percentage(p: &Percentage) -> (s: String)
    ensures
        s@ == two_decimals(hundredths_of(*p)),
{
    let h: u128 = hundredths(p);
    let mut s = String::new();
    push_decimal(&mut s, h / 100);
    s.push('.');
    s.push(digit_char(((h / 10) % 10) as u8));
    s.push(digit_char((h % 10) as u8));
    assert(s@ =~= two_decimals(h as nat));
    s
}

/// The name of the file that holds the report card of `name`.
pub fn report_file_name(name: &str) -> (file: String)
    ensures
        file@ == file_name_of(name@),
{
    let n: usize = name.unicode_len();
    let mut file = String::new();
    let mut i: usize = 0;
    while i < n
        invariant
            n == name@.len(),
            i <= n,
            file@ == name@.take(i as int).map_values(|c: char| file_name_char(c)),
        decreases n - i,
    {
        let c: char = name.get_char(i);
        file.push(if c == ' ' { '_' } else { c });
        i = i + 1;
        assert(file@ =~= name@.take(i as int).map_values(|c: char| file_name_char(c)));
    }
    assert(name@.take(n as int) =~= name@);
    file.append("_report_card.pdf");
    file
}

/// Whether two texts are the same.
pub fn same_text(a: &str, b: &str) -> (r: bool)
    ensures
        r == (a@ == b@),
{
    let n: usize = a.unicode_len();
    if b.unicode_len() != n {
        return false;
    }
    let mut i: usize = 0;
    while i < n
        invariant
            n == a@.len(),
            n == b@.len(),
            i <= n,
            forall|j: int| 0 <= j < i ==> a@[j] == b@[j],
        decreases n - i,
    {
        if a.get_char(i) != b.get_char(i) {
            return false;
        }
        i = i + 1;
    }
    assert(a@ =~= b@);
    true
}

/// The digit that a numeral stands for; 0 for any other character.
pub open spec fn digit_value(c: char) -> nat {
    if c == '1' {
        1
    } else if c == '2' {
        2
    } else if c == '3' {
        3
    } else if c == '4' {
        4
    } else if c == '5' {
        5
    } else if c == '6' {
        6
    } else if c == '7' {
        7
    } else if c == '8' {
        8
    } else if c == '9' {
        9
    } else {
        0
    }
}

/// The number that a sequence of numerals stands for in base ten.
pub open spec fn numeral_value(s: Seq<char>) -> nat
    decreases s.len(),
{
    if s.len() == 0 {
        0
    } else {
        numeral_value(s.drop_last()) * 10 + digit_value(s.last())
    }
}

/// The decimal numeral of a number reads back as that number, is not empty,
/// and begins with `0` only where the number is zero.
pub proof fn lemma_decimal_reads_back(n: nat)
    ensures
        numeral_value(decimal(n)) == n,
        decimal(n).len() >= 1,
        n > 0 ==> decimal(n)[0] != '0',
    decreases n,
{
    if n < 10 {
        let s = decimal(n);
        assert(s.drop_last() =~= Seq::<char>::empty());
        assert(numeral_value(s.drop_last()) == 0);
        assert(s.last() == digit(n));
    } else {
        lemma_decimal_reads_back(n / 10);
        let s = decimal(n);
        assert(s.drop_last() =~= decimal(n / 10));
        assert(s.last() == digit(n % 10));
        assert(s[0] == decimal(n / 10)[0]);
    }
}

/// The rounded hundredths are nearest to the percentage: they differ from
/// it by at most half a hundredth.
pub proof fn lemma_hundredths_is_nearest(p: Percentage)
    requires
        p.wf(),
    ensures
        2 * (hundredths_of(p) * p.denominator - p.numerator * 100) <= p.denominator,
        2 * (p.numerator * 100 - hundredths_of(p) * p.denominator) <= p.denominator,
{
    let den = p.denominator as int;
    let scaled = p.numerator as int * 100;
    let low = scaled / den;
    let rest = scaled % den;
    assert(scaled == low * den + rest && 0 <= rest < den) by (nonlinear_arith)
        requires
            den > 0,
            low == scaled / den,
            rest == scaled % den,
    ;
    assert((low + 1) * den == low * den + den) by (nonlinear_arith);
}

} // verus!
