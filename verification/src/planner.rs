//! The plan of one run: the same brightness and gamma for every monitor, and
//! the arguments with which the display utility is to be called for each.

use vstd::prelude::*;
use vstd::string::StringExecFns;
use crate::gamma::{gamma_spec, kelvin_to_gamma, CurveSamples, GammaTriple};
use crate::units::{ColorTemperature, Level, UNIT};

verus! {

/// What is to be set on one monitor.
#[derive(Debug, PartialEq, Eq)]
pub struct MonitorPlan {
    pub monitor_name: String,
    pub brightness: Level,
    pub gamma: GammaTriple,
}

/// A plan entry as plain values: the name as characters, the levels in
/// millionths.
pub struct MonitorPlanView {
    pub monitor_name: Seq<char>,
    pub brightness: int,
    pub gamma: (int, int, int),
}

impl MonitorPlan {
    pub open spec fn view(self) -> MonitorPlanView {
        MonitorPlanView {
            monitor_name: self.monitor_name@,
            brightness: self.brightness@,
            gamma: self.gamma@,
        }
    }
}

/// The entries of a plan as plain values, in order.
pub open spec fn plan_views(plans: Seq<MonitorPlan>) -> Seq<MonitorPlanView> {
    Seq::new(plans.len(), |i: int| plans[i]@)
}

/// The plan for `monitors`: one entry per monitor, in the order given, each
/// with the same brightness and gamma.
pub open spec fn plan_spec(
    brightness: int,
    gamma: (int, int, int),
    monitors: Seq<Seq<char>>,
) -> Seq<MonitorPlanView> {
    Seq::new(
        monitors.len(),
        |i: int| MonitorPlanView { monitor_name: monitors[i], brightness, gamma },
    )
}

/// The plan has one entry per monitor, and every entry carries the
/// brightness and the gamma that were put in.
pub proof fn plan_is_uniform(brightness: int, gamma: (int, int, int), monitors: Seq<Seq<char>>)
    ensures
        plan_spec(brightness, gamma, monitors).len() == monitors.len(),
        forall|i: int|
            0 <= i < monitors.len() ==> {
                let entry = #[trigger] plan_spec(brightness, gamma, monitors)[i];
                &&& entry.monitor_name == monitors[i]
                &&& entry.brightness == brightness
                &&& entry.gamma == gamma
            },
{
}

/// Two plans that both meet the planner's contract for the same inputs are
/// the same plan, entry by entry.
pub proof fn plan_is_deterministic(
    first: Seq<MonitorPlan>,
    second: Seq<MonitorPlan>,
    brightness: int,
    gamma: (int, int, int),
    monitors: Seq<Seq<char>>,
)
    requires
        plan_views(first) == plan_spec(brightness, gamma, monitors),
        plan_views(second) == plan_spec(brightness, gamma, monitors),
    ensures
        first.len() == second.len(),
        forall|i: int| 0 <= i < first.len() ==> (#[trigger] first[i])@ == second[i]@,
{
    assert(plan_views(first).len() == first.len());
    assert(plan_views(second).len() == second.len());
    assert forall|i: int| 0 <= i < first.len() implies (#[trigger] first[i])@ == second[i]@ by {
        assert(plan_views(first)[i] == first[i]@);
        assert(plan_views(second)[i] == second[i]@);
    }
}

/// Plans the run: the gamma triple of `temp` (with the curves evaluated to
/// `samples`) and `brightness`, for each of `monitors` in turn.
pub fn plan(
    brightness: Level,
    temp: ColorTemperature,
    samples: CurveSamples,
    monitors: &Vec<String>,
) -> (plans: Vec<MonitorPlan>)
    ensures
        plan_views(plans@) == plan_spec(
            brightness@,
            gamma_spec(temp@, samples),
            monitors.deep_view(),
        ),
        plans.len() == monitors.len(),
        forall|i: int| 0 <= i < plans.len() ==> (#[trigger] plans[i]).brightness == brightness,
{
    let gamma = kelvin_to_gamma(temp, samples);
    let mut plans: Vec<MonitorPlan> = Vec::new();
    let mut i: usize = 0;
    while i < monitors.len()
        invariant
            i <= monitors.len(),
            plans.len() == i,
            gamma@ == gamma_spec(temp@, samples),
            forall|j: int|
                0 <= j < i ==> {
                    &&& (#[trigger] plans[j]).monitor_name@ == monitors[j]@
                    &&& plans[j].brightness == brightness
                    &&& plans[j].gamma == gamma
                },
        decreases monitors.len() - i,
    {
        plans.push(MonitorPlan { monitor_name: monitors[i].clone(), brightness, gamma });
        i = i + 1;
    }
    proof {
        let expected = plan_spec(brightness@, gamma_spec(temp@, samples), monitors.deep_view());
        assert(monitors.deep_view().len() == monitors.len());
        assert forall|j: int| 0 <= j < plans.len() implies plan_views(plans@)[j] == expected[j] by {
            assert(monitors.deep_view()[j] == monitors[j]@);
        }
        assert(plan_views(plans@) =~= expected);
    }
    plans
}

/// A level rounded to thousandths, halves upward.
pub open spec fn thousandths(level: int) -> int {
    (level + 500) / 1000
}

/// The character of a decimal digit.
pub open spec fn digit_char(d: int) -> char {
    if d == 0 {
        '0'
    } else if d == 1 {
        '1'
    } else if d == 2 {
        '2'
    } else if d == 3 {
        '3'
    } else if d == 4 {
        '4'
    } else if d == 5 {
        '5'
    } else if d == 6 {
        '6'
    } else if d == 7 {
        '7'
    } else if d == 8 {
        '8'
    } else {
        '9'
    }
}

/// A level as text with three decimals: `0.000` to `1.000`.
pub open spec fn level_text(level: int) -> Seq<char> {
    let t = thousandths(level);
    seq![
        digit_char(t / 1000),
        '.',
        digit_char(t / 100 % 10),
        digit_char(t / 10 % 10),
        digit_char(t % 10),
    ]
}

/// A gamma triple as text: red, green and blue with three decimals each,
/// separated by colons.
pub open spec fn gamma_text(gamma: (int, int, int)) -> Seq<char> {
    level_text(gamma.0) + seq![':'] + level_text(gamma.1) + seq![':'] + level_text(gamma.2)
}

/// The arguments with which the display utility sets one plan entry.
pub open spec fn command_spec(entry: MonitorPlanView) -> Seq<Seq<char>> {
    seq![
        "--output"@,
        entry.monitor_name,
        "--brightness"@,
        level_text(entry.brightness),
        "--gamma"@,
        gamma_text(entry.gamma),
    ]
}

fn digit_text(d: u32) -> (text: &'static str)
    requires
        d < 10,
    ensures
        text@ == seq![digit_char(d as int)],
{
    proof {
        reveal_strlit("0");
        reveal_strlit("1");
        reveal_strlit("2");
        reveal_strlit("3");
        reveal_strlit("4");
        reveal_strlit("5");
        reveal_strlit("6");
        reveal_strlit("7");
        reveal_strlit("8");
        reveal_strlit("9");
    }
    let text = if d == 0 {
        "0"
    } else if d == 1 {
        "1"
    } else if d == 2 {
        "2"
    } else if d == 3 {
        "3"
    } else if d == 4 {
        "4"
    } else if d == 5 {
        "5"
    } else if d == 6 {
        "6"
    } else if d == 7 {
        "7"
    } else if d == 8 {
        "8"
    } else {
        "9"
    };
    assert(text@ =~= seq![digit_char(d as int)]);
    text
}

/// Appends `level` with three decimals to `out`.
fn push_level(out: &mut String, level: Level)
    ensures
        final(out)@ == old(out)@ + level_text(level@),
{
    let micros: u32 = level.micros();
    let t: u32 = (micros + 500) / 1000;
    proof {
        reveal_strlit(".");
    }
    out.append(digit_text(t / 1000));
    out.append(".");
    out.append(digit_text(t / 100 % 10));
    out.append(digit_text(t / 10 % 10));
    out.append(digit_text(t % 10));
    assert(out@ =~= old(out)@ + level_text(level@));
}

/// The text of a level with three decimals.
pub fn format_level(level: Level) -> (text: String)
    ensures
        text@ == level_text(level@),
{
    let mut text = String::new();
    push_level(&mut text, level);
    assert(text@ =~= level_text(level@));
    text
}

/// The text of a gamma triple: `R:G:B` with three decimals each.
pub fn format_gamma(gamma: GammaTriple) -> (text: String)
    ensures
        text@ == gamma_text(gamma@),
{
    let mut text = String::new();
    proof {
        reveal_strlit(":");
    }
    push_level(&mut text, gamma.red);
    text.append(":");
    push_level(&mut text, gamma.green);
    text.append(":");
    push_level(&mut text, gamma.blue);
    assert(text@ =~= gamma_text(gamma@));
    text
}

/// The arguments with which the display utility is to be called for `entry`.
pub fn command_arguments(entry: &MonitorPlan) -> (arguments: Vec<String>)
    ensures
        arguments.deep_view() == command_spec(entry@),
{
    let mut arguments: Vec<String> = Vec::new();
    arguments.push(String::from_str("--output"));
    arguments.push(entry.monitor_name.clone());
    arguments.push(String::from_str("--brightness"));
    arguments.push(format_level(entry.brightness));
    arguments.push(String::from_str("--gamma"));
    arguments.push(format_gamma(entry.gamma));
    assert(arguments.deep_view() =~= command_spec(entry@));
    arguments
}

} // verus!
