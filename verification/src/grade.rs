//! The grade engine: marks to a percentage and a letter grade.
//!
//! A percentage is held exactly, as a ratio of two integers, so that every
//! threshold comparison is a comparison of integers.

use vstd::prelude::*;
use crate::text::same_text;

verus! {

/// The letter categories, best first.
#[derive(Clone, Copy, Debug, PartialEq, Eq, Structural)]
pub enum Grade {
    A,
    B,
    C,
    D,
}

impl Grade {
    /// The grade that a letter names; `None` for any other text.
    pub fn parse(letter: &str) -> (g: Option<Grade>)
        ensures
            match g {
                Some(grade) => letter@ == grade.letter(),
                None => forall|grade: Grade| letter@ != grade.letter(),
            },
    {
        proof {
            reveal_strlit("A");
            reveal_strlit("B");
            reveal_strlit("C");
            reveal_strlit("D");
            assert("A"@ =~= Grade::A.letter());
            assert("B"@ =~= Grade::B.letter());
            assert("C"@ =~= Grade::C.letter());
            assert("D"@ =~= Grade::D.letter());
        }
        if same_text(letter, "A") {
            Some(Grade::A)
        } else if same_text(letter, "B") {
            Some(Grade::B)
        } else if same_text(letter, "C") {
            Some(Grade::C)
        } else if same_text(letter, "D") {
            Some(Grade::D)
        } else {
            None
        }
    }

    /// The letter as text.
    pub open spec fn letter(self) -> Seq<char> {
        match self {
            Grade::A => seq!['A'],
            Grade::B => seq!['B'],
            Grade::C => seq!['C'],
            Grade::D => seq!['D'],
        }
    }

    /// The letter as text: `"A"`, `"B"`, `"C"` or `"D"`.
    pub fn as_str(self) -> (s: &'static str)
        ensures
            s@ == self.letter(),
    {
        proof {
            reveal_strlit("A");
            reveal_strlit("B");
            reveal_strlit("C");
            reveal_strlit("D");
        }
        match self {
            Grade::A => {
                assert("A"@ =~= seq!['A']);
                "A"
            },
            Grade::B => {
                assert("B"@ =~= seq!['B']);
                "B"
            },
            Grade::C => {
                assert("C"@ =~= seq!['C']);
                "C"
            },
            Grade::D => {
                assert("D"@ =~= seq!['D']);
                "D"
            },
        }
    }
}

/// A percentage: `numerator / denominator` percent points.
///
/// The grade engine makes only percentages with a positive denominator. One
/// with a zero denominator counts as zero percent wherever it is read.
#[derive(Clone, Copy, Debug, PartialEq, Eq, Structural)]
pub struct Percentage {
    pub numerator: u64,
    pub denominator: u64,
}

impl Percentage {
    /// The denominator is positive.
    pub open spec fn wf(self) -> bool {
        self.denominator > 0
    }

    /// The percentage is at least `points` percent points.
    pub open spec fn at_least(self, points: nat) -> bool {
        if self.denominator == 0 {
            points == 0
        } else {
            self.numerator as int >= points * self.denominator
        }
    }

    /// The percentage is exactly `marks / max_marks * 100`.
    pub open spec fn is_ratio_of(self, marks: nat, max_marks: nat) -> bool {
        self.numerator * max_marks == marks * 100 * self.denominator
    }

    /// The percentage is exactly zero.
    pub open spec fn is_zero(self) -> bool {
        self.numerator == 0
    }

    /// Whether the percentage reaches `points` percent points.
    pub fn reaches(&self, points: u8) -> (r: bool)
        ensures
            r == self.at_least(points as nat),
    {
        if self.denominator == 0 {
            return points == 0;
        }
        let lhs: u128 = self.numerator as u128;
        assert(points * self.denominator <= 255 * 0xffff_ffff_ffff_ffff) by (nonlinear_arith)
            requires
                points <= 255,
                self.denominator <= 0xffff_ffff_ffff_ffff,
        ;
        let rhs: u128 = (points as u128) * (self.denominator as u128);
        lhs >= rhs
    }

    /// The grade that the threshold table gives this percentage.
    pub fn grade(&self) -> (g: Grade)
        ensures
            g == grade_for(*self),
    {
        if self.reaches(90) {
            Grade::A
        } else if self.reaches(75) {
            Grade::B
        } else if self.reaches(60) {
            Grade::C
        } else {
            Grade::D
        }
    }
}

/// The threshold table: lower bounds are inclusive, the highest that is
/// reached decides.
pub open spec fn grade_for(p: Percentage) -> Grade {
    if p.at_least(90) {
        Grade::A
    } else if p.at_least(75) {
        Grade::B
    } else if p.at_least(60) {
        Grade::C
    } else {
        Grade::D
    }
}

/// What the percentage of `marks` out of `max_marks` is: the exact ratio
/// times 100, and zero where `max_marks` is zero.
pub open spec fn percentage_of(marks: u32, max_marks: u32) -> Percentage {
    if max_marks > 0 {
        Percentage { numerator: (marks * 100) as u64, denominator: max_marks as u64 }
    } else {
        Percentage { numerator: 0, denominator: 1 }
    }
}

/// The grading record of one student.
#[derive(Clone, Debug)]
pub struct ReportCard {
    pub name: String,
    pub total_marks: u32,
    pub num_subjects: u32,
    pub average: Percentage,
    pub grade: Grade,
}

impl ReportCard {
    /// The average is well formed and the grade is the one that the
    /// threshold table gives it.
    pub open spec fn wf(&self) -> bool {
        &&& self.average.wf()
        &&& self.grade == grade_for(self.average)
    }
}

/// Grades `total_marks` out of `total_max_marks`.
///
/// Every input is accepted. A zero `total_max_marks` gives an average of zero
/// and the grade `D`; marks above the maximum give an average above 100 and
/// the grade `A`.
pub fn generate_report_card(
    name: String,
    total_marks: u32,
    total_max_marks: u32,
    num_subjects: u32,
) -> (card: ReportCard)
    ensures
        card.name == name,
        card.total_marks == total_marks,
        card.num_subjects == num_subjects,
        card.average == percentage_of(total_marks, total_max_marks),
        card.grade == grade_for(card.average),
        card.wf(),
{
    let average = if total_max_marks > 0 {
        Percentage { numerator: (total_marks as u64) * 100, denominator: total_max_marks as u64 }
    } else {
        Percentage { numerator: 0, denominator: 1 }
    };
    let grade = average.grade();
    ReportCard { name, total_marks, num_subjects, average, grade }
}

/// With a positive maximum the average is exactly
/// `total_marks / total_max_marks * 100`, and the grade is `A` from 90
/// percent of the maximum on, `B` from 75, `C` from 60, and `D` below.
pub proof fn lemma_average_is_exact_ratio(total_marks: u32, total_max_marks: u32)
    requires
        total_max_marks > 0,
    ensures
        percentage_of(total_marks, total_max_marks).wf(),
        percentage_of(total_marks, total_max_marks).is_ratio_of(
            total_marks as nat,
            total_max_marks as nat,
        ),
        grade_for(percentage_of(total_marks, total_max_marks)) == (if total_marks * 100 >= 90
            * total_max_marks {
            Grade::A
        } else if total_marks * 100 >= 75 * total_max_marks {
            Grade::B
        } else if total_marks * 100 >= 60 * total_max_marks {
            Grade::C
        } else {
            Grade::D
        }),
{
    let p = percentage_of(total_marks, total_max_marks);
    assert(p.numerator * total_max_marks == total_marks * 100 * p.denominator) by (nonlinear_arith)
        requires
            p.numerator == total_marks * 100,
            p.denominator == total_max_marks,
    ;
}

/// Marks that do not exceed a positive maximum give an average of at most
/// 100 percent.
pub proof fn lemma_average_within_hundred(total_marks: u32, total_max_marks: u32)
    requires
        0 < total_max_marks,
        total_marks <= total_max_marks,
    ensures
        percentage_of(total_marks, total_max_marks).numerator <= 100 * percentage_of(
            total_marks,
            total_max_marks,
        ).denominator,
        total_marks < total_max_marks ==> !percentage_of(total_marks, total_max_marks).at_least(
            100,
        ),
{
}

/// With a zero maximum the average is zero and the grade is `D`, whatever
/// the marks.
pub proof fn lemma_zero_maximum_grades_d(total_marks: u32)
    ensures
        percentage_of(total_marks, 0).wf(),
        percentage_of(total_marks, 0).is_zero(),
        grade_for(percentage_of(total_marks, 0)) == Grade::D,
{
}

/// The grade never gets worse as the percentage rises: of two well-formed
/// percentages, the larger reaches every threshold that the smaller
/// reaches.
pub proof fn lemma_grade_is_monotone(low: Percentage, high: Percentage)
    requires
        low.wf(),
        high.wf(),
        low.numerator * high.denominator <= high.numerator * low.denominator,
    ensures
        forall|points: nat| low.at_least(points) ==> high.at_least(points),
        grade_for(low) == Grade::A ==> grade_for(high) == Grade::A,
        grade_for(low) == Grade::B ==> grade_for(high) == Grade::A || grade_for(high) == Grade::B,
        grade_for(high) == Grade::D ==> grade_for(low) == Grade::D,
{
    assert forall|points: nat| low.at_least(points) implies high.at_least(points) by {
        lemma_at_least_carries(low, high, points);
    }
}

proof fn lemma_at_least_carries(low: Percentage, high: Percentage, points: nat)
    requires
        low.wf(),
        high.wf(),
        low.numerator * high.denominator <= high.numerator * low.denominator,
        low.at_least(points),
    ensures
        high.at_least(points),
{
    let ln = low.numerator as int;
    let ld = low.denominator as int;
    let hn = high.numerator as int;
    let hd = high.denominator as int;
    let k = points as int;
    assert(hn >= k * hd) by (nonlinear_arith)
        requires
            ld > 0,
            hd > 0,
            k >= 0,
            ln * hd <= hn * ld,
            ln >= k * ld,
    ;
}

} // verus!
