//! Control-loop supervisor: the enable/disable lifecycle, guaranteed to
//! keep at most one control loop alive.
//!
//! The supervisor tracks loop ownership with a generation counter rather
//! than the enabled flag alone. `enable` hands out a generation token
//! only when no loop is tracked as running; a loop holding a token may
//! actuate only while its token is the current generation, and reports
//! back when it exits. The host runs the actual tasks; the model below
//! carries the set of live loop tasks alongside the supervisor's fields,
//! and the lemmas show that every sequence of lifecycle steps keeps that
//! set to at most one element — enabling twice never spawns a duplicate
//! loop, and a disable followed at once by an enable cannot put two loop
//! instances behind the same actuator bit.

use vstd::prelude::*;

verus! {

broadcast use vstd::set::group_set_axioms;

/// The supervisor's own fields, as the contracts speak of them.
pub struct SupervisorModel {
    pub enabled: bool,
    pub generation: nat,
    pub loop_running: bool,
}

/// The supervisor together with the set of generations whose loop task
/// is actually alive in the host. The host owns the tasks; this model
/// is what the lemmas quantify over.
pub struct SystemModel {
    pub sup: SupervisorModel,
    pub live: Set<nat>,
}

/// What every lifecycle step preserves: at most one loop task is alive,
/// the tracking flag mirrors that, and any live task holds the current
/// generation.
pub open spec fn system_inv(sys: SystemModel) -> bool {
    &&& sys.live.finite()
    &&& sys.live.len() <= 1
    &&& (sys.sup.loop_running <==> sys.live.len() == 1)
    &&& forall|g: nat| sys.live.contains(g) ==> g == sys.sup.generation
}

/// The supervisor's step on `enable`: the flag is set, and a fresh
/// generation token is handed out exactly when no loop is tracked as
/// running.
pub open spec fn enable_step(sup: SupervisorModel) -> (SupervisorModel, Option<nat>) {
    if !sup.loop_running {
        let g = (sup.generation + 1) as nat;
        (SupervisorModel { enabled: true, generation: g, loop_running: true }, Some(g))
    } else {
        (SupervisorModel { enabled: true, ..sup }, None)
    }
}

/// The supervisor's step on `disable`: only the intent flag is cleared;
/// the running loop observes it at its next poll boundary.
pub open spec fn disable_step(sup: SupervisorModel) -> SupervisorModel {
    SupervisorModel { enabled: false, ..sup }
}

/// The supervisor's step when a loop holding `g` reports that it has
/// terminated.
pub open spec fn exit_step(sup: SupervisorModel, g: nat) -> SupervisorModel {
    if g == sup.generation {
        SupervisorModel { loop_running: false, ..sup }
    } else {
        sup
    }
}

/// The whole system's step on `enable`: when a token is handed out, the
/// host spawns a task under it.
pub open spec fn enable_transition(sys: SystemModel) -> (SystemModel, Option<nat>) {
    let (sup, token) = enable_step(sys.sup);
    match token {
        Some(g) => (SystemModel { sup, live: sys.live.insert(g) }, token),
        None => (SystemModel { sup, live: sys.live }, token),
    }
}

/// The whole system's step on `disable`.
pub open spec fn disable_transition(sys: SystemModel) -> SystemModel {
    SystemModel { sup: disable_step(sys.sup), live: sys.live }
}

/// The whole system's step when the loop task holding `g` observes that
/// it must stop, reports back, and ends.
pub open spec fn exit_transition(sys: SystemModel, g: nat) -> SystemModel {
    SystemModel { sup: exit_step(sys.sup, g), live: sys.live.remove(g) }
}

/// Whether the loop task holding `g` may read the sensor and drive the
/// actuator bit in its next iteration.
pub open spec fn may_actuate(sys: SystemModel, g: nat) -> bool {
    &&& sys.sup.enabled
    &&& g == sys.sup.generation
    &&& sys.live.contains(g)
}

/// `enable` keeps the invariant: a token is handed out only when no loop
/// is alive, so the live set never grows past one element.
pub proof fn lemma_enable_preserves_inv(sys: SystemModel)
    requires
        system_inv(sys),
    ensures
        system_inv(enable_transition(sys).0),
{
    if !sys.sup.loop_running {
        sys.live.lemma_len0_is_empty();
    }
}

/// `disable` keeps the invariant: it only clears the intent flag.
pub proof fn lemma_disable_preserves_inv(sys: SystemModel)
    requires
        system_inv(sys),
    ensures
        system_inv(disable_transition(sys)),
{
}

/// A loop task's exit keeps the invariant: the live set only shrinks,
/// and the tracking flag follows it.
pub proof fn lemma_exit_preserves_inv(sys: SystemModel, g: nat)
    requires
        system_inv(sys),
        sys.live.contains(g),
    ensures
        system_inv(exit_transition(sys, g)),
{
    let after = exit_transition(sys, g);
    assert(g == sys.sup.generation);
    after.live.lemma_len0_is_empty();
}

/// Calling `enable` twice in succession never yields two concurrently
/// running loop tasks: after the first call a loop is tracked as
/// running, so the second call hands out no token, and at most one loop
/// task is alive afterwards.
pub proof fn lemma_enable_twice_spawns_once(sys: SystemModel)
    requires
        system_inv(sys),
    ensures
        ({
            let (once, _) = enable_transition(sys);
            let (twice, second_token) = enable_transition(once);
            &&& second_token is None
            &&& twice.live == once.live
            &&& system_inv(twice)
            &&& twice.live.len() <= 1
        }),
{
    lemma_enable_preserves_inv(sys);
    lemma_enable_preserves_inv(enable_transition(sys).0);
}

/// `disable` immediately followed by `enable` never puts two loop
/// instances behind the actuator bit: at most one loop task is alive
/// afterwards, and at most one generation may actuate at all — even when
/// the running loop has not yet observed the change.
pub proof fn lemma_disable_then_enable_single_loop(sys: SystemModel)
    requires
        system_inv(sys),
    ensures
        ({
            let (after, _) = enable_transition(disable_transition(sys));
            &&& system_inv(after)
            &&& after.live.len() <= 1
            &&& forall|g1: nat, g2: nat|
                may_actuate(after, g1) && may_actuate(after, g2) ==> g1 == g2
        }),
{
    lemma_disable_preserves_inv(sys);
    lemma_enable_preserves_inv(disable_transition(sys));
}

/// The supervisor as the host holds it.
pub struct ControlLoopSupervisor {
    pub enabled: bool,
    pub generation: u64,
    pub loop_running: bool,
}

impl View for ControlLoopSupervisor {
    type V = SupervisorModel;

    open spec fn view(&self) -> SupervisorModel {
        SupervisorModel {
            enabled: self.enabled,
            generation: self.generation as nat,
            loop_running: self.loop_running,
        }
    }
}

impl ControlLoopSupervisor {
    /// A fresh supervisor: disabled, no loop running.
    pub fn new() -> (sup: ControlLoopSupervisor)
        ensures
            !sup.enabled,
            !sup.loop_running,
            sup.generation == 0,
    {
        ControlLoopSupervisor { enabled: false, generation: 0, loop_running: false }
    }

    /// Sets the enabled flag. Returns the generation token for a loop
    /// task the host must now spawn, or `None` when a loop is already
    /// tracked as running — so a second `enable` never spawns a
    /// duplicate.
    pub fn enable(&mut self) -> (token: Option<u64>)
        requires
            old(self).generation < u64::MAX,
        ensures
            final(self)@ == enable_step(old(self)@).0,
            token matches Some(g) ==> enable_step(old(self)@).1 == Some(g as nat),
            token is None ==> enable_step(old(self)@).1 is None,
    {
        self.enabled = true;
        if !self.loop_running {
            self.generation = self.generation + 1;
            self.loop_running = true;
            Some(self.generation)
        } else {
            None
        }
    }

    /// Clears the enabled flag; the running loop observes this at its
    /// next poll boundary and terminates. Always succeeds.
    pub fn disable(&mut self)
        ensures
            final(self)@ == disable_step(old(self)@),
    {
        self.enabled = false;
    }

    /// Whether the loop task holding `generation` may run another
    /// iteration: the supervisor is enabled and the token is still the
    /// current generation.
    pub fn should_continue(&self, generation: u64) -> (r: bool)
        ensures
            r == (self@.enabled && generation as nat == self@.generation),
    {
        self.enabled && generation == self.generation
    }

    /// Called by a loop task as it terminates, so that a later `enable`
    /// may spawn a fresh loop.
    pub fn loop_exited(&mut self, generation: u64)
        ensures
            final(self)@ == exit_step(old(self)@, generation as nat),
    {
        if generation == self.generation {
            self.loop_running = false;
        }
    }
}

} // verus!
