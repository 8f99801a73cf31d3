use report_card::grade::{generate_report_card, Grade, Percentage, ReportCard};

fn grade_of(numerator: u64, denominator: u64) -> Grade {
    Percentage { numerator, denominator }.grade()
}

fn card(marks: u32, max: u32) -> ReportCard {
    generate_report_card("Asha Rao".to_string(), marks, max, 5)
}

#[test]
fn ninety_percent_is_an_a() {
    let c = card(450, 500);
    assert_eq!(c.name, "Asha Rao");
    assert_eq!(c.total_marks, 450);
    assert_eq!(c.num_subjects, 5);
    assert_eq!(c.average, Percentage { numerator: 45000, denominator: 500 });
    assert_eq!(c.grade, Grade::A);
    assert_eq!(c.grade.as_str(), "A");
}

#[test]
fn average_is_the_exact_ratio() {
    let c = card(1, 3);
    assert_eq!(c.average.numerator * 3, 1 * 100 * c.average.denominator);
    assert_eq!(c.grade, Grade::D);
    let c = card(u32::MAX, 1);
    assert_eq!(c.average.numerator, u32::MAX as u64 * 100);
    assert_eq!(c.average.denominator, 1);
    assert_eq!(c.grade, Grade::A);
}

#[test]
fn zero_maximum_gives_zero_and_d() {
    for marks in [0u32, 1, 450, u32::MAX] {
        for subjects in [0u32, 1, 5] {
            let c = generate_report_card("n".to_string(), marks, 0, subjects);
            assert_eq!(c.average.numerator, 0);
            assert!(c.average.denominator > 0);
            assert_eq!(c.grade, Grade::D);
            assert_eq!(c.total_marks, marks);
            assert_eq!(c.num_subjects, subjects);
        }
    }
}

#[test]
fn thresholds_are_closed_below() {
    assert_eq!(grade_of(89_999, 1000), Grade::B);
    assert_eq!(grade_of(90_000, 1000), Grade::A);
    assert_eq!(grade_of(74_999, 1000), Grade::C);
    assert_eq!(grade_of(75_000, 1000), Grade::B);
    assert_eq!(grade_of(60_000, 1000), Grade::C);
    assert_eq!(grade_of(59_999, 1000), Grade::D);
}

#[test]
fn thresholds_on_marks() {
    assert_eq!(card(899, 1000).grade, Grade::B);
    assert_eq!(card(900, 1000).grade, Grade::A);
    assert_eq!(card(749, 1000).grade, Grade::C);
    assert_eq!(card(750, 1000).grade, Grade::B);
    assert_eq!(card(600, 1000).grade, Grade::C);
    assert_eq!(card(599, 1000).grade, Grade::D);
    assert_eq!(card(0, 1000).grade, Grade::D);
}

#[test]
fn marks_above_the_maximum_are_graded_a() {
    let c = card(600, 500);
    assert_eq!(c.average, Percentage { numerator: 60000, denominator: 500 });
    assert_eq!(c.grade, Grade::A);
}

#[test]
fn a_zero_denominator_reads_as_zero() {
    let p = Percentage { numerator: 95, denominator: 0 };
    assert!(p.reaches(0));
    assert!(!p.reaches(60));
    assert_eq!(p.grade(), Grade::D);
}

#[test]
fn reaches_compares_exactly() {
    let p = Percentage { numerator: u64::MAX, denominator: u64::MAX };
    assert!(p.reaches(1));
    assert!(!p.reaches(2));
    assert_eq!(p.grade(), Grade::D);
}

#[test]
fn grade_never_falls_as_marks_rise() {
    let rank = |g: Grade| match g {
        Grade::A => 3,
        Grade::B => 2,
        Grade::C => 1,
        Grade::D => 0,
    };
    let mut last = 0;
    for marks in 0..=120u32 {
        let r = rank(card(marks, 100).grade);
        assert!(r >= last);
        last = r;
    }
    assert_eq!(last, 3);
}

#[test]
fn letters_parse_back() {
    for g in [Grade::A, Grade::B, Grade::C, Grade::D] {
        assert_eq!(Grade::parse(g.as_str()), Some(g));
    }
    assert_eq!(Grade::parse(""), None);
    assert_eq!(Grade::parse("E"), None);
    assert_eq!(Grade::parse("a"), None);
    assert_eq!(Grade::parse("AB"), None);
}

#[test]
fn marks_within_the_maximum_stay_within_hundred() {
    for (marks, max) in [(0u32, 1u32), (1, 1), (450, 500), (500, 500), (u32::MAX, u32::MAX)] {
        let c = card(marks, max);
        assert!(c.average.numerator <= 100 * c.average.denominator);
        assert_eq!(c.average.reaches(100), marks == max);
    }
}
