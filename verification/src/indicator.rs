//! What the panel indicator shows: which budgets, and whether the data is live.

use vstd::prelude::*;
use crate::config::{Config, Scope};
use crate::text::{decimal, decimal_writes_the_number, digits_value, push_char, push_signed_decimal, signed_decimal};
use crate::usage::UsageSample;

verus! {

/// Colour band of a gauge.
#[derive(Clone, Copy, Debug, PartialEq, Eq, Structural)]
pub enum Level {
    Green,
    Amber,
    Red,
}

/// The usage figure a gauge displays.
#[derive(Clone, Copy, Debug, PartialEq, Eq, Structural)]
pub enum Budget {
    Session,
    Weekly,
    /// The larger of the session and weekly fractions.
    Worst,
}

/// What the indicator renders: nothing known yet, or gauges that are either
/// live or stale (drawn dimmed).
#[derive(Clone, Debug)]
pub enum IndicatorState<G> {
    NoData,
    Live(Vec<G>),
    Stale(Vec<G>),
}

/// The budgets a scope puts on the panel, in display order.
pub open spec fn scope_budgets(scope: Scope) -> Seq<Budget> {
    match scope {
        Scope::Session => seq![Budget::Session],
        Scope::Weekly => seq![Budget::Weekly],
        Scope::Worst => seq![Budget::Worst],
        Scope::Both => seq![Budget::Session, Budget::Weekly],
    }
}

/// Every scope shows its own budget as a single gauge, except `Both`, which
/// shows the session gauge and then the weekly one.
pub proof fn both_scope_shows_session_then_weekly()
    ensures
        scope_budgets(Scope::Both) == scope_budgets(Scope::Session) + scope_budgets(Scope::Weekly),
        scope_budgets(Scope::Session).len() == 1 && scope_budgets(Scope::Session)[0] == Budget::Session,
        scope_budgets(Scope::Weekly).len() == 1 && scope_budgets(Scope::Weekly)[0] == Budget::Weekly,
        scope_budgets(Scope::Worst).len() == 1 && scope_budgets(Scope::Worst)[0] == Budget::Worst,
{
    assert(scope_budgets(Scope::Both) =~= scope_budgets(Scope::Session) + scope_budgets(Scope::Weekly));
}

/// One gauge for the session, weekly or worst scope; two for both, session first.
pub fn gauge_budgets(scope: Scope) -> (budgets: Vec<Budget>)
    ensures
        budgets@ == scope_budgets(scope),
{
    let mut budgets: Vec<Budget> = Vec::new();
    match scope {
        Scope::Session => budgets.push(Budget::Session),
        Scope::Weekly => budgets.push(Budget::Weekly),
        Scope::Worst => budgets.push(Budget::Worst),
        Scope::Both => {
            budgets.push(Budget::Session);
            budgets.push(Budget::Weekly);
        },
    }
    assert(budgets@ =~= scope_budgets(scope));
    budgets
}

/// The gauge label for a whole percentage, e.g. `"38%"`.
pub fn percent_label(pct: i64) -> (label: String)
    ensures
        label@ == signed_decimal(pct as int).push('%'),
{
    let mut label = String::new();
    push_signed_decimal(&mut label, pct);
    push_char(&mut label, '%');
    assert(label@ =~= signed_decimal(pct as int).push('%'));
    label
}

/// A percentage label writes the number and then `%`, with a minus sign first
/// for a negative number.
pub proof fn percent_label_writes_the_number(pct: int)
    ensures
        ({
            let label = signed_decimal(pct).push('%');
            &&& label.last() == '%'
            &&& pct >= 0 ==> digits_value(label.drop_last()) == pct && label[0] != '-'
            &&& pct < 0 ==> label[0] == '-' && digits_value(label.subrange(1, label.len() - 1)) == -pct
        }),
{
    let label = signed_decimal(pct).push('%');
    if pct >= 0 {
        decimal_writes_the_number(pct as nat);
        assert(label.drop_last() =~= decimal(pct as nat));
        assert(label[0] == decimal(pct as nat)[0]);
    } else {
        decimal_writes_the_number((-pct) as nat);
        assert(label.subrange(1, label.len() - 1) =~= decimal((-pct) as nat));
    }
}

/// No record gives `NoData`; otherwise the gauges are live or stale by the
/// record's age against `cfg.stale_after`.
pub fn indicator_state<F, G>(
    sample: Option<&UsageSample<F>>,
    now: i64,
    cfg: &Config<F>,
    gauges: Vec<G>,
) -> (state: IndicatorState<G>)
    requires
        sample matches Some(s) ==> i64::MIN <= now - s.ts <= i64::MAX,
    ensures
        match sample {
            None => state is NoData,
            Some(s) => if s.stale_at(now as int, cfg.stale_after) {
                state == IndicatorState::Stale(gauges)
            } else {
                state == IndicatorState::Live(gauges)
            },
        },
{
    match sample {
        None => IndicatorState::NoData,
        Some(s) => {
            if s.is_stale(now, cfg.stale_after) {
                IndicatorState::Stale(gauges)
            } else {
                IndicatorState::Live(gauges)
            }
        },
    }
}

} // verus!
