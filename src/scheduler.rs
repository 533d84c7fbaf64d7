use vstd::prelude::*;

verus! {

/// The collectors that can be switched off.
#[derive(Clone, Copy, Debug, PartialEq, Eq, Structural, PartialOrd, Ord, Hash)]
pub enum Collectors {
    CronTriggers,
    EventTriggers,
    ScheduledEvents,
    MetadataInconsistency,
}

/// The switchable collectors in their order.
pub open spec fn all_collectors() -> Seq<Collectors> {
    seq![
        Collectors::CronTriggers,
        Collectors::EventTriggers,
        Collectors::ScheduledEvents,
        Collectors::MetadataInconsistency,
    ]
}

/// Whether a collector ends up off: asked for, or needing the admin secret
/// where none was given (all switchable collectors need it).
pub open spec fn is_off(requested: Seq<Collectors>, has_admin_secret: bool, c: Collectors) -> bool {
    requested.contains(c) || !has_admin_secret
}

/// The collectors of `cs` that end up off, in order.
pub open spec fn off_among(
    cs: Seq<Collectors>,
    requested: Seq<Collectors>,
    has_admin_secret: bool,
) -> Seq<Collectors> {
    cs.filter(|c: Collectors| is_off(requested, has_admin_secret, c))
}

/// What runs in one round of collection.
#[derive(Clone, Copy, Debug, PartialEq, Eq, Structural)]
pub struct TickPlan {
    pub health: bool,
    pub version: bool,
    pub cron_triggers: bool,
    pub scheduled_events: bool,
    pub metadata_consistency: bool,
    pub event_triggers: bool,
}

/// The round that a set of switched-off collectors leaves: health and
/// version always run; each other collector runs where it is not off.
pub open spec fn tick_plan(disabled: Seq<Collectors>) -> TickPlan {
    TickPlan {
        health: true,
        version: true,
        cron_triggers: !disabled.contains(Collectors::CronTriggers),
        scheduled_events: !disabled.contains(Collectors::ScheduledEvents),
        metadata_consistency: !disabled.contains(Collectors::MetadataInconsistency),
        event_triggers: !disabled.contains(Collectors::EventTriggers),
    }
}

/// What the scheduler does next.
#[derive(Clone, Copy, Debug, PartialEq, Eq, Structural)]
pub enum SchedulerAction {
    /// Termination was signalled: stop.
    Stop,
    /// The timer fired: run one round, to its end, before waiting again.
    RunTick,
    /// Nothing is ready: wait for the timer or for termination.
    Wait,
}

/// Termination wins over a due tick.
pub open spec fn scheduler_next(terminated: bool, tick_due: bool) -> SchedulerAction {
    if terminated {
        SchedulerAction::Stop
    } else if tick_due {
        SchedulerAction::RunTick
    } else {
        SchedulerAction::Wait
    }
}

/// Whether a collector is in a list.
pub fn contains_collector(list: &Vec<Collectors>, c: Collectors) -> (r: bool)
    ensures
        r == list@.contains(c),
{
    let mut i: usize = 0;
    while i < list.len()
        invariant
            i <= list@.len(),
            forall|k: int| 0 <= k < i ==> list@[k] != c,
        decreases list@.len() - i,
    {
        if list[i] == c {
            assert(list@[i as int] == c);
            return true;
        }
        i = i + 1;
    }
    false
}

/// The collectors that are off for the whole run: those asked for, and,
/// without an admin secret, all of them; each once, in their order.
pub fn resolve_disabled_collectors(requested: &Vec<Collectors>, has_admin_secret: bool) -> (r: Vec<
    Collectors,
>)
    ensures
        r@ == off_among(all_collectors(), requested@, has_admin_secret),
{
    let mut out: Vec<Collectors> = Vec::new();
    let mut all: Vec<Collectors> = Vec::new();
    all.push(Collectors::CronTriggers);
    all.push(Collectors::EventTriggers);
    all.push(Collectors::ScheduledEvents);
    all.push(Collectors::MetadataInconsistency);
    assert(all@ =~= all_collectors());
    let mut i: usize = 0;
    while i < all.len()
        invariant
            i <= all@.len(),
            all@ == all_collectors(),
            out@ == off_among(all@.subrange(0, i as int), requested@, has_admin_secret),
        decreases all@.len() - i,
    {
        let c = all[i];
        let ghost pre = all@.subrange(0, i as int);
        assert(all@.subrange(0, i + 1) =~= pre.push(c));
        reveal(Seq::filter);
        assert(pre.push(c).drop_last() =~= pre);
        if contains_collector(requested, c) || !has_admin_secret {
            out.push(c);
        }
        i = i + 1;
    }
    assert(all@.subrange(0, all@.len() as int) =~= all@);
    out
}

/// What runs in a round, given the collectors that are off.
pub fn plan_tick(disabled: &Vec<Collectors>) -> (r: TickPlan)
    ensures
        r == tick_plan(disabled@),
{
    TickPlan {
        health: true,
        version: true,
        cron_triggers: !contains_collector(disabled, Collectors::CronTriggers),
        scheduled_events: !contains_collector(disabled, Collectors::ScheduledEvents),
        metadata_consistency: !contains_collector(disabled, Collectors::MetadataInconsistency),
        event_triggers: !contains_collector(disabled, Collectors::EventTriggers),
    }
}

/// Whether the metadata is to be exported in a round: only for the event
/// trigger collection, and only once the metadata was found consistent.
pub fn should_export_metadata(plan: &TickPlan, consistency: Option<bool>) -> (r: bool)
    ensures
        r == (plan.event_triggers && consistency == Some(true)),
{
    plan.event_triggers && match consistency {
        Some(c) => c,
        None => false,
    }
}

/// The scheduler's choice when it wakes.
pub fn scheduler_step(terminated: bool, tick_due: bool) -> (r: SchedulerAction)
    ensures
        r == scheduler_next(terminated, tick_due),
{
    if terminated {
        SchedulerAction::Stop
    } else if tick_due {
        SchedulerAction::RunTick
    } else {
        SchedulerAction::Wait
    }
}

} // verus!
