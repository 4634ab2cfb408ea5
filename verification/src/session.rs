use vstd::prelude::*;

use crate::history::{record_attempt, recorded_in, HISTORY_LIMIT};
use crate::mode::SimulationMode;

verus! {

/// The state of a play session, apart from the current intensity (a float,
/// kept by the interface): the zone being played, the chosen adjustment step,
/// the simulation mode, the attempts on display and the release animation.
/// `T` is an attempt.
pub struct Session<T> {
    level: usize,
    level_count: usize,
    step: usize,
    step_count: usize,
    mode: SimulationMode,
    history: Vec<T>,
    active: Option<T>,
    animation: usize,
    animating: bool,
}

/// What a session is, as the contracts speak of it.
pub ghost struct SessionView<T> {
    /// Index of the zone being played.
    pub level: nat,
    /// Number of zones.
    pub level_count: nat,
    /// Index of the chosen adjustment step.
    pub step: nat,
    /// Number of adjustment steps offered.
    pub step_count: nat,
    /// How releases are simulated, and how many earlier attempts stay shown.
    pub mode: SimulationMode,
    /// Earlier attempts, oldest first.
    pub history: Seq<T>,
    /// The attempt whose trajectory is on display.
    pub active: Option<T>,
    /// How many releases were started so far.
    pub animation: nat,
    /// Whether the release animation is shown.
    pub animating: bool,
}

impl<T> View for Session<T> {
    type V = SessionView<T>;

    closed spec fn view(&self) -> SessionView<T> {
        SessionView {
            level: self.level as nat,
            level_count: self.level_count as nat,
            step: self.step as nat,
            step_count: self.step_count as nat,
            mode: self.mode,
            history: self.history@,
            active: self.active,
            animation: self.animation as nat,
            animating: self.animating,
        }
    }
}

impl<T> SessionView<T> {
    /// The session's indices point at an existing zone and step, and in a
    /// mission the history holds no more than `HISTORY_LIMIT` attempts.
    pub open spec fn wf(self) -> bool {
        &&& self.level < self.level_count
        &&& self.step < self.step_count
        &&& self.mode == SimulationMode::Mission ==> self.history.len() <= HISTORY_LIMIT
    }

    /// The history after the attempt on display, if any, was moved into it.
    pub open spec fn archived_history(self) -> Seq<T> {
        match self.active {
            Some(attempt) => recorded_in(self.mode, self.history, attempt),
            None => self.history,
        }
    }

    /// The zone that "next zone" leads to: the following one, or the last one
    /// when this is already the last.
    pub open spec fn next_level(self) -> nat {
        if self.level + 1 < self.level_count {
            self.level + 1
        } else {
            (self.level_count - 1) as nat
        }
    }

    /// Whether the release animation should be shown: a release was started
    /// and its attempt is still on display.
    pub open spec fn animation_due(self) -> bool {
        self.animation > 0 && self.active is Some
    }
}

/// "Next zone" leads to the following zone exactly when there is one, and
/// from the last zone it stays on that zone; either way it names a zone that exists.
pub proof fn lemma_next_level<T>(session: SessionView<T>)
    requires
        session.wf(),
    ensures
        session.next_level() < session.level_count,
        session.level + 1 < session.level_count ==> session.next_level() == session.level + 1,
        !(session.level + 1 < session.level_count) ==> session.next_level() == session.level,
{
}

/// Archiving moves the attempt on display to the end of the history, whatever
/// the animation is doing: a free exploration appends it to every earlier
/// attempt, a mission appends it and, when three earlier attempts were
/// already kept, lets the oldest of them go.
pub proof fn lemma_archive_keeps_displayed_attempt<T>(session: SessionView<T>, attempt: T)
    requires
        session.active == Some(attempt),
    ensures
        session.archived_history().len() > 0,
        session.archived_history().last() == attempt,
        session.mode == SimulationMode::Exploration ==> session.archived_history()
            == session.history.push(attempt),
        session.mode == SimulationMode::Exploration ==> session.archived_history().len()
            == session.history.len() + 1,
        session.mode == SimulationMode::Mission && session.history.len() < HISTORY_LIMIT
            ==> session.archived_history() == session.history.push(attempt),
        session.mode == SimulationMode::Mission && session.history.len() == HISTORY_LIMIT
            ==> session.archived_history() == session.history.subrange(1, HISTORY_LIMIT as int).push(
            attempt,
        ),
        session.mode == SimulationMode::Mission && session.history.len() <= HISTORY_LIMIT
            ==> session.archived_history().len() <= HISTORY_LIMIT,
{
    if session.mode == SimulationMode::Mission && session.history.len() == HISTORY_LIMIT {
        assert(session.history.drop_first() =~= session.history.subrange(1, HISTORY_LIMIT as int));
    }
}

/// With nothing on display, archiving leaves the earlier attempts as they were.
pub proof fn lemma_archive_without_display<T>(session: SessionView<T>)
    requires
        session.active is None,
    ensures
        session.archived_history() == session.history,
{
}

/// The release animation is due after every release whose attempt is still on
/// display, and never before the first release or with nothing on display.
pub proof fn lemma_animation_due<T>(session: SessionView<T>)
    ensures
        session.animation >= 1 && session.active is Some ==> session.animation_due(),
        session.animation == 0 ==> !session.animation_due(),
        session.active is None ==> !session.animation_due(),
{
}

impl<T> Session<T> {
    /// Every session, whatever events it went through, points at an existing
    /// zone and step and, in a mission, shows at most `HISTORY_LIMIT` earlier attempts.
    #[verifier::type_invariant]
    spec fn inv(self) -> bool {
        self@.wf()
    }

    /// A new mission on the first zone, with adjustment step `step`, no
    /// attempt and no animation.
    pub fn new(level_count: usize, step_count: usize, step: usize) -> (session: Self)
        requires
            level_count > 0,
            step < step_count,
        ensures
            session@ == (SessionView::<T> {
                level: 0,
                level_count: level_count as nat,
                step: step as nat,
                step_count: step_count as nat,
                mode: SimulationMode::Mission,
                history: Seq::empty(),
                active: None,
                animation: 0,
                animating: false,
            }),
            session@.wf(),
    {
        Session {
            level: 0,
            level_count,
            step,
            step_count,
            mode: SimulationMode::Mission,
            history: Vec::new(),
            active: None,
            animation: 0,
            animating: false,
        }
    }

    /// Index of the zone being played.
    pub fn level(&self) -> (level: usize)
        ensures
            level == self@.level,
            self@.wf(),
    {
        proof { use_type_invariant(self); }
        self.level
    }

    /// Index of the chosen adjustment step.
    pub fn step(&self) -> (step: usize)
        ensures
            step == self@.step,
            self@.wf(),
    {
        proof { use_type_invariant(self); }
        self.step
    }

    /// How releases are simulated.
    pub fn mode(&self) -> (mode: SimulationMode)
        ensures
            mode == self@.mode,
    {
        self.mode
    }

    /// The earlier attempts, oldest first.
    pub fn history(&self) -> (history: &Vec<T>)
        ensures
            history@ == self@.history,
            self@.wf(),
    {
        proof { use_type_invariant(self); }
        &self.history
    }

    /// The attempt on display.
    pub fn active(&self) -> (active: &Option<T>)
        ensures
            *active == self@.active,
    {
        &self.active
    }

    /// How many releases were started so far.
    pub fn animation_id(&self) -> (id: usize)
        ensures
            id == self@.animation,
    {
        self.animation
    }

    /// Whether the release animation is shown.
    pub fn animating(&self) -> (animating: bool)
        ensures
            animating == self@.animating,
    {
        self.animating
    }

    /// Switches to zone `level` with adjustment step `step`; the attempts of
    /// the previous zone are cleared.
    pub fn select_level(&mut self, level: usize, step: usize)
        requires
            level < old(self)@.level_count,
            step < old(self)@.step_count,
        ensures
            final(self)@ == (SessionView::<T> {
                level: level as nat,
                step: step as nat,
                history: Seq::empty(),
                active: None,
                ..old(self)@
            }),
            final(self)@.wf(),
    {
        proof { use_type_invariant(&*self); }
        self.history = Vec::new();
        self.active = None;
        self.level = level;
        self.step = step;
    }

    /// Switches between a mission and a free exploration; the attempts made
    /// under the other mode are cleared.
    pub fn select_mode(&mut self, mode: SimulationMode)
        ensures
            final(self)@ == (SessionView::<T> {
                mode: mode,
                history: Seq::empty(),
                active: None,
                ..old(self)@
            }),
            final(self)@.wf(),
    {
        proof { use_type_invariant(&*self); }
        self.history = Vec::new();
        self.active = None;
        self.mode = mode;
    }

    /// Whether there is a zone after the one being played.
    pub fn has_next_level(&self) -> (has_next: bool)
        ensures
            has_next <==> self@.level + 1 < self@.level_count,
    {
        proof { use_type_invariant(self); }
        self.level + 1 < self.level_count
    }

    /// Whether the "next zone" button is offered: the attempt on display won
    /// (`active_won`) and there is a zone after this one.
    pub fn offers_next_level(&self, active_won: bool) -> (offered: bool)
        ensures
            offered <==> active_won && self@.level + 1 < self@.level_count,
    {
        active_won && self.has_next_level()
    }

    /// The zone that "next zone" leads to: the following one, or the last
    /// one when this is already the last.
    pub fn next_level_index(&self) -> (next: usize)
        ensures
            next == self@.next_level(),
            next < self@.level_count,
    {
        proof { use_type_invariant(self); }
        let following = self.level + 1;
        let last = self.level_count - 1;
        if following < last {
            following
        } else {
            last
        }
    }

    /// Moves the attempt on display, if any, into the history of this mode.
    fn archive(&mut self)
        ensures
            final(self)@ == (SessionView::<T> {
                history: old(self)@.archived_history(),
                active: None,
                ..old(self)@
            }),
    {
        proof { use_type_invariant(&*self); }
        let mut history = Vec::new();
        std::mem::swap(&mut history, &mut self.history);
        let mut active = None;
        std::mem::swap(&mut active, &mut self.active);
        if let Some(attempt) = active {
            record_attempt(&mut history, attempt, self.mode);
        }
        self.history = history;
    }

    /// The intensity was set again; when it really changed, the attempt on
    /// display goes to the history.
    pub fn adjust_intensity(&mut self, changed: bool)
        ensures
            final(self)@ == (if changed {
                SessionView::<T> {
                    history: old(self)@.archived_history(),
                    active: None,
                    ..old(self)@
                }
            } else {
                old(self)@
            }),
            final(self)@.wf(),
            old(self)@.active is None ==> final(self)@.history == old(self)@.history,
            changed ==> final(self)@.active is None,
            changed && old(self)@.active is Some ==> final(self)@.history.len() > 0
                && final(self)@.history.last() == old(self)@.active->0,
            changed && old(self)@.active is Some && old(self)@.mode == SimulationMode::Exploration
                ==> final(self)@.history == old(self)@.history.push(old(self)@.active->0),
    {
        if changed {
            self.archive();
        }
        proof { use_type_invariant(&*self); }
    }

    /// Chooses adjustment step `step`; when this changed the intensity, the
    /// attempt on display goes to the history.
    pub fn select_step(&mut self, step: usize, changed: bool)
        requires
            step < old(self)@.step_count,
        ensures
            final(self)@ == (if changed {
                SessionView::<T> {
                    step: step as nat,
                    history: old(self)@.archived_history(),
                    active: None,
                    ..old(self)@
                }
            } else {
                SessionView::<T> { step: step as nat, ..old(self)@ }
            }),
            final(self)@.wf(),
            old(self)@.active is None ==> final(self)@.history == old(self)@.history,
            changed && old(self)@.active is Some ==> final(self)@.history.len() > 0
                && final(self)@.history.last() == old(self)@.active->0,
            changed && old(self)@.active is Some && old(self)@.mode == SimulationMode::Exploration
                ==> final(self)@.history == old(self)@.history.push(old(self)@.active->0),
    {
        if changed {
            self.archive();
        }
        proof { use_type_invariant(&*self); }
        self.step = step;
    }

    /// Releases the probe: the attempt on display goes to the history, the new
    /// attempt is displayed and a new animation starts hidden.
    pub fn launch(&mut self, attempt: T)
        requires
            old(self)@.animation < usize::MAX,
        ensures
            final(self)@ == (SessionView::<T> {
                history: old(self)@.archived_history(),
                active: Some(attempt),
                animation: old(self)@.animation + 1,
                animating: false,
                ..old(self)@
            }),
            final(self)@.wf(),
            final(self)@.active == Some(attempt),
            final(self)@.animation >= 1,
            old(self)@.active is None ==> final(self)@.history == old(self)@.history,
            old(self)@.active is Some ==> final(self)@.history.len() > 0
                && final(self)@.history.last() == old(self)@.active->0,
            old(self)@.active is Some && old(self)@.mode == SimulationMode::Exploration
                ==> final(self)@.history == old(self)@.history.push(old(self)@.active->0),
    {
        proof { use_type_invariant(&*self); }
        self.animating = false;
        self.animation = self.animation + 1;
        self.archive();
        proof { use_type_invariant(&*self); }
        self.active = Some(attempt);
    }

    /// Clears every attempt of the zone.
    pub fn reset(&mut self)
        ensures
            final(self)@ == (SessionView::<T> { history: Seq::empty(), active: None, ..old(self)@ }),
            final(self)@.wf(),
    {
        proof { use_type_invariant(&*self); }
        self.history = Vec::new();
        self.active = None;
    }

    /// Whether the animation flag differs from what the session calls for.
    pub fn animation_stale(&self) -> (stale: bool)
        ensures
            stale <==> self@.animating != self@.animation_due(),
            stale <==> self@.animating != (self@.animation > 0 && self@.active is Some),
    {
        let due = self.animation > 0 && self.active.is_some();
        self.animating != due
    }

    /// Shows the release animation exactly when it is due.
    pub fn refresh_animation(&mut self)
        ensures
            final(self)@ == (SessionView::<T> { animating: old(self)@.animation_due(), ..old(self)@ }),
            final(self)@.wf(),
            final(self)@.animating <==> old(self)@.animation > 0 && old(self)@.active is Some,
    {
        proof { use_type_invariant(&*self); }
        let due = self.animation > 0 && self.active.is_some();
        if self.animating != due {
            self.animating = due;
        }
    }
}

} // verus!
