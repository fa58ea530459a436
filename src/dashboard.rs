use vstd::prelude::*;
use vstd::string::{StrSliceExecFns, StringExecFns};

use chrono::Datelike;

use crate::model::Goal;
use crate::values::{digit_char, digit_text};

verus! {

/// The number of stages a goal moves through.
pub const STAGE_COUNT: usize = 4;

/// The goals of `goals` at `stage`, in their order.
pub open spec fn goals_at_stage(goals: Seq<Goal>, stage: int) -> Seq<Goal>
    decreases goals.len(),
{
    if goals.len() == 0 {
        Seq::empty()
    } else {
        let rest = goals_at_stage(goals.drop_last(), stage);
        if goals.last().stage == stage {
            rest.push(goals.last())
        } else {
            rest
        }
    }
}

/// Sorts goals into one column per stage, keeping their order. Goals whose
/// stage is outside the stages are left out.
pub fn group_goals_by_stage(goals: Vec<Goal>) -> (r: Vec<Vec<Goal>>)
    ensures
        r@.len() == STAGE_COUNT,
        forall|s: int| 0 <= s < STAGE_COUNT ==> #[trigger] r@[s]@ == goals_at_stage(goals@, s),
{
    let ghost all = goals@;
    let mut rest = goals;
    let mut s0: Vec<Goal> = Vec::new();
    let mut s1: Vec<Goal> = Vec::new();
    let mut s2: Vec<Goal> = Vec::new();
    let mut s3: Vec<Goal> = Vec::new();
    while rest.len() > 0
        invariant
            rest@.len() <= all.len(),
            rest@ == all.subrange(all.len() - rest@.len(), all.len() as int),
            s0@ == goals_at_stage(all.subrange(0, all.len() - rest@.len()), 0),
            s1@ == goals_at_stage(all.subrange(0, all.len() - rest@.len()), 1),
            s2@ == goals_at_stage(all.subrange(0, all.len() - rest@.len()), 2),
            s3@ == goals_at_stage(all.subrange(0, all.len() - rest@.len()), 3),
        decreases rest@.len(),
    {
        let ghost done = all.len() - rest@.len();
        let goal = rest.remove(0);
        proof {
            assert(goal == all[done]);
            assert(all.subrange(0, done + 1).drop_last() =~= all.subrange(0, done));
            assert(all.subrange(0, done + 1).last() == goal);
            assert(rest@ =~= all.subrange(done + 1, all.len() as int));
        }
        if goal.stage == 0 {
            s0.push(goal);
        } else if goal.stage == 1 {
            s1.push(goal);
        } else if goal.stage == 2 {
            s2.push(goal);
        } else if goal.stage == 3 {
            s3.push(goal);
        }
    }
    proof {
        assert(all.subrange(0, all.len() as int) =~= all);
    }
    let r = vec![s0, s1, s2, s3];
    assert forall|s: int| 0 <= s < STAGE_COUNT implies #[trigger] r@[s]@ == goals_at_stage(all, s) by {
        if s == 0 {
        } else if s == 1 {
        } else if s == 2 {
        } else {
        }
    }
    r
}

/// The background class of a stage.
pub fn stage_color(stage: i64) -> (r: &'static str)
    ensures
        r@ == (if stage == 0 {
            "bg-rose-500"@
        } else if stage == 1 {
            "bg-amber-500"@
        } else if stage == 2 {
            "bg-sky-500"@
        } else if stage == 3 {
            "bg-emerald-500"@
        } else {
            "bg-gray-500"@
        }),
{
    if stage == 0 {
        "bg-rose-500"
    } else if stage == 1 {
        "bg-amber-500"
    } else if stage == 2 {
        "bg-sky-500"
    } else if stage == 3 {
        "bg-emerald-500"
    } else {
        "bg-gray-500"
    }
}

/// The light background class of a stage.
pub fn stage_color_light(stage: i64) -> (r: &'static str)
    ensures
        r@ == (if stage == 0 {
            "bg-rose-200"@
        } else if stage == 1 {
            "bg-amber-200"@
        } else if stage == 2 {
            "bg-sky-200"@
        } else if stage == 3 {
            "bg-emerald-200"@
        } else {
            "bg-gray-200"@
        }),
{
    if stage == 0 {
        "bg-rose-200"
    } else if stage == 1 {
        "bg-amber-200"
    } else if stage == 2 {
        "bg-sky-200"
    } else if stage == 3 {
        "bg-emerald-200"
    } else {
        "bg-gray-200"
    }
}

/// The light border class of a stage.
pub fn stage_border_light(stage: i64) -> (r: &'static str)
    ensures
        r@ == (if stage == 0 {
            "border-rose-200"@
        } else if stage == 1 {
            "border-amber-200"@
        } else if stage == 2 {
            "border-sky-200"@
        } else if stage == 3 {
            "border-emerald-200"@
        } else {
            "border-gray-200"@
        }),
{
    if stage == 0 {
        "border-rose-200"
    } else if stage == 1 {
        "border-amber-200"
    } else if stage == 2 {
        "border-sky-200"
    } else if stage == 3 {
        "border-emerald-200"
    } else {
        "border-gray-200"
    }
}

/// Whether a goal at `stage` belongs in the column with index `index`.
pub fn stage_loop_comp(stage: i64, index: usize) -> (r: bool)
    ensures
        r == (0 <= stage && stage as int == index as int),
{
    0 <= stage && stage as u64 == index as u64
}

/// The label of a stage in a tone, or `unknown` where the tone has no such
/// stage.
pub fn stage_text(index: i64, stages: &Vec<String>) -> (r: String)
    ensures
        0 <= index < stages@.len() ==> r@ == stages@[index as int]@,
        !(0 <= index < stages@.len()) ==> r@ == "unknown"@,
{
    if 0 <= index && (index as u64) < (stages.len() as u64) {
        stages[index as usize].clone()
    } else {
        String::from_str("unknown")
    }
}

/// Why a goal's stage was refused.
#[derive(Debug, Clone, Copy, PartialEq, Eq, Structural)]
pub enum StageError {
    OutOfRange,
}

/// Accepts a requested stage from 0 to 4.
pub fn check_stage(stage: i64) -> (r: Result<i64, StageError>)
    ensures
        0 <= stage <= 4 ==> r == Ok::<i64, StageError>(stage),
        !(0 <= stage <= 4) ==> r == Err::<i64, StageError>(StageError::OutOfRange),
{
    if stage > 4 || stage < 0 {
        Err(StageError::OutOfRange)
    } else {
        Ok(stage)
    }
}

/// A calendar day.
#[derive(Debug, Clone, Copy, PartialEq, Eq, Structural)]
pub struct CalendarDate {
    pub year: i32,
    pub month: u32,
    pub day: u32,
}

/// `a` is an earlier day than `b`.
pub open spec fn date_before(a: CalendarDate, b: CalendarDate) -> bool {
    a.year < b.year || (a.year == b.year && (a.month < b.month || (a.month == b.month && a.day
        < b.day)))
}

/// The day that chrono reads out of a `%Y-%m-%d` text, if it names one.
pub uninterp spec fn date_of_text(s: Seq<char>) -> Option<CalendarDate>;

/// Relies on chrono's `NaiveDate::parse_from_str` with the format `%Y-%m-%d`.
#[verifier::external_body]
fn parse_date(s: &str) -> (r: Option<CalendarDate>)
    ensures
        r == date_of_text(s@),
{
    chrono::NaiveDate::parse_from_str(s, "%Y-%m-%d").ok().map(
        |d| CalendarDate { year: d.year(), month: d.month(), day: d.day() },
    )
}

/// Why a deadline could not be read.
#[derive(Debug, Clone, Copy, PartialEq, Eq, Structural)]
pub enum DeadlineError {
    Unparsable,
}

/// Whether a goal's deadline lies before `today`; a goal without a deadline
/// is never past it.
pub fn is_past_deadline(goal: &Goal, today: CalendarDate) -> (r: Result<bool, DeadlineError>)
    ensures
        match goal.deadline {
            None => r == Ok::<bool, DeadlineError>(false),
            Some(d) => match date_of_text(d@) {
                Some(day) => r == Ok::<bool, DeadlineError>(date_before(day, today)),
                None => r == Err::<bool, DeadlineError>(DeadlineError::Unparsable),
            },
        },
{
    match &goal.deadline {
        None => Ok(false),
        Some(d) => match parse_date(d.as_str()) {
            Some(day) => Ok(day.year < today.year || (day.year == today.year && (day.month
                < today.month || (day.month == today.month && day.day < today.day)))),
            None => Err(DeadlineError::Unparsable),
        },
    }
}

/// What `char::to_uppercase` makes of a character.
pub uninterp spec fn upper_of(c: char) -> Seq<char>;

/// Relies on `char::to_uppercase`: the upper-case form of one character, which
/// may be several characters long.
#[verifier::external_body]
fn uppercase_char(c: char) -> (r: String)
    ensures
        r@ == upper_of(c),
{
    c.to_uppercase().collect::<String>()
}

/// Why no icon letter could be made.
#[derive(Debug, Clone, Copy, PartialEq, Eq, Structural)]
pub enum IconError {
    EmptyWord,
}

/// The icon letter of a word: its first character in upper case.
pub fn icon_from_word(word: &str) -> (r: Result<String, IconError>)
    ensures
        word@.len() == 0 ==> r == Err::<String, IconError>(IconError::EmptyWord),
        word@.len() > 0 ==> r is Ok && r->Ok_0@ == upper_of(word@[0]),
{
    if word.is_empty() {
        Err(IconError::EmptyWord)
    } else {
        let first = word.get_char(0);
        Ok(uppercase_char(first))
    }
}

/// The decimal digits of `n`, without leading zeros.
pub open spec fn nat_text(n: nat) -> Seq<char>
    decreases n,
{
    if n < 10 {
        seq![digit_char(n)]
    } else {
        nat_text(n / 10).push(digit_char(n % 10))
    }
}

/// The decimal text of `n`, with a minus sign where it is negative.
pub open spec fn int_text(n: int) -> Seq<char> {
    if n < 0 {
        "-"@ + nat_text((-n) as nat)
    } else {
        nat_text(n as nat)
    }
}

/// Writes the decimal digits of `n`.
fn nat_decimal(n: u64) -> (r: String)
    ensures
        r@ == nat_text(n as nat),
    decreases n,
{
    if n < 10 {
        String::from_str(digit_text(n as u32))
    } else {
        let mut s = nat_decimal(n / 10);
        s.append(digit_text((n % 10) as u32));
        s
    }
}

/// The page of the group with id `group_id`.
pub fn group_path(group_id: i64) -> (r: String)
    ensures
        r@ == "/groups/"@ + int_text(group_id as int),
{
    let mut path = String::from_str("/groups/");
    if group_id < 0 {
        path.append("-");
        let magnitude = (0i128 - group_id as i128) as u64;
        let digits = nat_decimal(magnitude);
        path.append(digits.as_str());
        proof {
            assert(path@ =~= "/groups/"@ + int_text(group_id as int));
        }
    } else {
        let digits = nat_decimal(group_id as u64);
        path.append(digits.as_str());
    }
    path
}

/// Where a group edit returns to.
#[derive(Debug, Clone, Copy, PartialEq, Eq, Structural)]
pub enum ReturnTo {
    Dashboard,
    Group,
}

/// Why a return address was refused.
#[derive(Debug, Clone, Copy, PartialEq, Eq, Structural)]
pub enum ReturnToError {
    NotAllowed,
}

/// Accepts the two pages a group edit may return to: the dashboard and the
/// edited group's own page.
pub fn parse_return_to(return_to: &str, group_id: i64) -> (r: Result<ReturnTo, ReturnToError>)
    ensures
        return_to@ == "/dashboard"@ ==> r == Ok::<ReturnTo, ReturnToError>(ReturnTo::Dashboard),
        return_to@ != "/dashboard"@ && return_to@ == "/groups/"@ + int_text(group_id as int) ==> r
            == Ok::<ReturnTo, ReturnToError>(ReturnTo::Group),
        return_to@ != "/dashboard"@ && return_to@ != "/groups/"@ + int_text(group_id as int) ==> r
            == Err::<ReturnTo, ReturnToError>(ReturnToError::NotAllowed),
{
    let given = String::from_str(return_to);
    if given == String::from_str("/dashboard") {
        Ok(ReturnTo::Dashboard)
    } else if given == group_path(group_id) {
        Ok(ReturnTo::Group)
    } else {
        Err(ReturnToError::NotAllowed)
    }
}

} // verus!
