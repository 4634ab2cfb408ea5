use vstd::prelude::*;

use crate::mode::SimulationMode;

verus! {

/// How many earlier attempts stay on screen beside the current one.
pub const HISTORY_LIMIT: usize = 3;

/// The history after one attempt has been recorded: the attempt goes last and,
/// when the history was already full, its oldest attempt leaves.
pub open spec fn recorded<T>(history: Seq<T>, attempt: T) -> Seq<T> {
    if history.len() == HISTORY_LIMIT {
        history.drop_first().push(attempt)
    } else {
        history.push(attempt)
    }
}

/// The history after one attempt has been recorded in `mode`: a mission keeps
/// the latest `HISTORY_LIMIT` attempts, a free exploration keeps them all.
pub open spec fn recorded_in<T>(mode: SimulationMode, history: Seq<T>, attempt: T) -> Seq<T> {
    match mode {
        SimulationMode::Mission => recorded(history, attempt),
        SimulationMode::Exploration => history.push(attempt),
    }
}

/// The history after each attempt of `attempts` has been recorded in `mode`, in order.
pub open spec fn recorded_all<T>(mode: SimulationMode, history: Seq<T>, attempts: Seq<T>) -> Seq<T>
    decreases attempts.len(),
{
    if attempts.len() == 0 {
        history
    } else {
        recorded_in(mode, recorded_all(mode, history, attempts.drop_last()), attempts.last())
    }
}

/// The last `HISTORY_LIMIT` items of `items`, or all of them when there are fewer.
pub open spec fn latest<T>(items: Seq<T>) -> Seq<T> {
    if items.len() <= HISTORY_LIMIT {
        items
    } else {
        items.skip(items.len() - HISTORY_LIMIT)
    }
}

/// Records `attempt` as the most recent one, dropping the oldest attempt when
/// the history already holds `HISTORY_LIMIT` of them.
pub fn push_attempt<T>(history: &mut Vec<T>, attempt: T)
    ensures
        final(history)@ == recorded(old(history)@, attempt),
        old(history)@.len() <= HISTORY_LIMIT ==> final(history)@.len() <= HISTORY_LIMIT,
        final(history)@.last() == attempt,
{
    if history.len() == HISTORY_LIMIT {
        let _oldest = history.remove(0);
    }
    history.push(attempt);
}

/// Records `attempt` as the most recent one in `mode`: a mission keeps only the
/// latest `HISTORY_LIMIT` attempts, a free exploration keeps every one.
pub fn record_attempt<T>(history: &mut Vec<T>, attempt: T, mode: SimulationMode)
    ensures
        final(history)@ == recorded_in(mode, old(history)@, attempt),
{
    match mode {
        SimulationMode::Mission => push_attempt(history, attempt),
        SimulationMode::Exploration => history.push(attempt),
    }
}

/// Moves the attempt on display, if there is one, into the history; nothing is
/// on display afterwards.
pub fn archive_active_attempt<T>(active: &mut Option<T>, history: &mut Vec<T>)
    ensures
        *final(active) == None::<T>,
        final(history)@ == match *old(active) {
            Some(attempt) => recorded(old(history)@, attempt),
            None => old(history)@,
        },
{
    if let Some(attempt) = active.take() {
        push_attempt(history, attempt);
    }
}

/// Recording one attempt after the latest items of a run keeps the latest
/// items of the run extended by that attempt.
proof fn lemma_recorded_latest<T>(items: Seq<T>, attempt: T)
    ensures
        recorded(latest(items), attempt) == latest(items.push(attempt)),
{
    if items.len() >= HISTORY_LIMIT {
        assert(latest(items).drop_first().push(attempt) =~= latest(items.push(attempt)));
    } else {
        assert(latest(items).push(attempt) =~= latest(items.push(attempt)));
    }
}

/// Whatever attempts are recorded, one after another, into a history that is
/// not over its limit, the history is then the last `HISTORY_LIMIT` items of
/// the old history followed by those attempts, in the order they came.
pub proof fn lemma_history_keeps_latest<T>(history: Seq<T>, attempts: Seq<T>)
    requires
        history.len() <= HISTORY_LIMIT,
    ensures
        recorded_all(SimulationMode::Mission, history, attempts) == latest(history + attempts),
        recorded_all(SimulationMode::Mission, history, attempts).len() <= HISTORY_LIMIT,
    decreases attempts.len(),
{
    if attempts.len() == 0 {
        assert(history + attempts =~= history);
    } else {
        let rest = attempts.drop_last();
        lemma_history_keeps_latest(history, rest);
        lemma_recorded_latest(history + rest, attempts.last());
        assert((history + rest).push(attempts.last()) =~= history + attempts);
    }
}

/// In a free exploration every attempt is kept: recording attempts one after
/// another appends them all to the history, in the order they came.
pub proof fn lemma_exploration_keeps_every_attempt<T>(history: Seq<T>, attempts: Seq<T>)
    ensures
        recorded_all(SimulationMode::Exploration, history, attempts) == history + attempts,
    decreases attempts.len(),
{
    if attempts.len() == 0 {
        assert(history + attempts =~= history);
    } else {
        let rest = attempts.drop_last();
        lemma_exploration_keeps_every_attempt(history, rest);
        assert((history + rest).push(attempts.last()) =~= history + attempts);
    }
}

} // verus!
