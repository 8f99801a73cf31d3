use report_card::grade::Percentage;
use report_card::text::{
    decimal_string, digit_char, format_percentage, hundredths, push_decimal, report_file_name,
    same_text,
};

fn pct(numerator: u64, denominator: u64) -> String {
    format_percentage(&Percentage { numerator, denominator })
}

#[test]
fn digits() {
    assert_eq!(digit_char(0), '0');
    assert_eq!(digit_char(7), '7');
    assert_eq!(digit_char(9), '9');
    assert_eq!(digit_char(10), '0');
}

#[test]
fn decimal_numerals() {
    assert_eq!(decimal_string(0), "0");
    assert_eq!(decimal_string(5), "5");
    assert_eq!(decimal_string(10), "10");
    assert_eq!(decimal_string(450), "450");
    assert_eq!(decimal_string(u32::MAX), "4294967295");
}

#[test]
fn push_decimal_appends() {
    let mut s = "n=".to_string();
    push_decimal(&mut s, 1203);
    assert_eq!(s, "n=1203");
    push_decimal(&mut s, u128::MAX);
    assert_eq!(s, format!("n=1203{}", u128::MAX));
}

#[test]
fn two_decimal_places() {
    assert_eq!(pct(45000, 500), "90.00");
    assert_eq!(pct(0, 1), "0.00");
    assert_eq!(pct(5, 100), "0.05");
    assert_eq!(pct(100, 3), "33.33");
    assert_eq!(pct(200, 3), "66.67");
    assert_eq!(pct(60000, 500), "120.00");
    assert_eq!(pct(7, 0), "0.00");
}

#[test]
fn halves_round_to_even() {
    assert_eq!(pct(12125, 1000), "12.12");
    assert_eq!(pct(12135, 1000), "12.14");
    assert_eq!(pct(12126, 1000), "12.13");
    assert_eq!(pct(12124, 1000), "12.12");
    assert_eq!(hundredths(&Percentage { numerator: 1, denominator: 200 }), 0);
    assert_eq!(hundredths(&Percentage { numerator: 3, denominator: 200 }), 2);
}

#[test]
fn hundredths_of_the_largest() {
    let h = hundredths(&Percentage { numerator: u64::MAX, denominator: 1 });
    assert_eq!(h, u64::MAX as u128 * 100);
    assert_eq!(pct(u64::MAX, 1), format!("{}.00", u64::MAX));
}

#[test]
fn file_name_replaces_spaces() {
    assert_eq!(report_file_name("Asha Rao"), "Asha_Rao_report_card.pdf");
    assert_eq!(report_file_name(""), "_report_card.pdf");
    assert_eq!(report_file_name("  a  "), "__a___report_card.pdf");
    assert_eq!(report_file_name("Zoë\tK"), "Zoë\tK_report_card.pdf");
}

#[test]
fn same_text_compares_characters() {
    assert!(same_text("", ""));
    assert!(same_text("abc", "abc"));
    assert!(!same_text("abc", "abd"));
    assert!(!same_text("abc", "ab"));
    assert!(!same_text("é", "e"));
}
