use vstd::prelude::*;

verus! {

/// A stage of a simulation tick, in the order a driver performs them.
#[derive(Clone, Copy, Debug, PartialEq, Eq, Structural)]
pub enum Stage {
    /// Inject environmental and propulsive forces into the accumulators.
    InjectForces,
    /// Run guidance to refresh the commanded control-surface deflections.
    Guidance,
    /// Recompute air density, speed and drag base of each aerodynamic body.
    RefreshAero,
    /// Add body drag to the accumulators.
    BodyDrag,
    /// Add control-surface forces to the accumulators.
    ControlSurface,
    /// Integrate every body over one timestep, which clears its accumulators.
    Integrate,
    /// Hand the state of every body to the telemetry sink.
    Telemetry,
    /// Evaluate the termination predicates.
    CheckTermination,
    /// The run is over.
    Finished,
}

/// Position of a stage within a tick; `Finished` comes after all of them.
pub open spec fn stage_index(s: Stage) -> nat {
    match s {
        Stage::InjectForces => 0,
        Stage::Guidance => 1,
        Stage::RefreshAero => 2,
        Stage::BodyDrag => 3,
        Stage::ControlSurface => 4,
        Stage::Integrate => 5,
        Stage::Telemetry => 6,
        Stage::CheckTermination => 7,
        Stage::Finished => 8,
    }
}

/// Stages that add to the force/moment accumulators, or prepare what is added.
pub open spec fn is_contributor(s: Stage) -> bool {
    stage_index(s) < stage_index(Stage::Integrate)
}

/// The stage that follows `s` within the same tick (for every stage but the
/// last of a tick and `Finished`).
pub open spec fn next_in_tick(s: Stage) -> Stage {
    match s {
        Stage::InjectForces => Stage::Guidance,
        Stage::Guidance => Stage::RefreshAero,
        Stage::RefreshAero => Stage::BodyDrag,
        Stage::BodyDrag => Stage::ControlSurface,
        Stage::ControlSurface => Stage::Integrate,
        Stage::Integrate => Stage::Telemetry,
        Stage::Telemetry => Stage::CheckTermination,
        _ => Stage::Finished,
    }
}

/// The frame and stage that follow `stage` of frame `frame` in a run of
/// `limit` frames, where `terminate` is the outcome of the termination
/// predicates (read only when `stage` is `CheckTermination`).
pub open spec fn successor(frame: nat, limit: nat, stage: Stage, terminate: bool) -> (nat, Stage) {
    match stage {
        Stage::Finished => (frame, Stage::Finished),
        Stage::CheckTermination => if terminate || frame + 1 >= limit {
            (frame, Stage::Finished)
        } else {
            (frame + 1, Stage::InjectForces)
        },
        _ => (frame, next_in_tick(stage)),
    }
}

/// Within a tick the stages come in strictly increasing order, so every
/// contributor runs before the integration step; a new tick, whose
/// contributors add to freshly cleared accumulators, begins only after the
/// previous one has been integrated, reported and checked for termination.
pub proof fn lemma_tick_order(frame: nat, limit: nat, s: Stage, terminate: bool)
    ensures
        ({
            let (f2, s2) = successor(frame, limit, s, terminate);
            &&& s != Stage::Finished && f2 == frame && s2 != Stage::Finished
                ==> stage_index(s2) == stage_index(s) + 1
            &&& f2 != frame ==> f2 == frame + 1 && s == Stage::CheckTermination
                && s2 == Stage::InjectForces
            &&& s2 == Stage::Integrate ==> f2 == frame && s == Stage::ControlSurface
            &&& is_contributor(s2) && !is_contributor(s) ==> f2 == frame + 1
        }),
{
}

/// The decisions of a fixed-rate simulation loop.
///
/// The driver asks for the current stage, performs it, and reports back with
/// `advance`; the only outside outcome it reports is whether the termination
/// predicates held. A run stops when they hold or after `frame_limit` ticks.
pub struct TickDriver {
    frame: u64,
    frame_limit: u64,
    stage: Stage,
}

impl TickDriver {
    /// The tick being run, counted from 0.
    pub closed spec fn frame(&self) -> nat {
        self.frame as nat
    }

    /// The largest number of ticks in the run.
    pub closed spec fn frame_limit(&self) -> nat {
        self.frame_limit as nat
    }

    /// The stage to perform now.
    pub closed spec fn stage(&self) -> Stage {
        self.stage
    }

    /// A running driver is within its frame budget.
    pub closed spec fn wf(&self) -> bool {
        self.stage != Stage::Finished ==> self.frame < self.frame_limit
    }

    /// A driver at the first stage of tick 0, or finished at once when the run
    /// has no tick.
    pub fn new(frame_limit: u64) -> (r: Self)
        ensures
            r.wf(),
            r.frame() == 0,
            r.frame_limit() == frame_limit,
            r.stage() == (if frame_limit == 0 { Stage::Finished } else { Stage::InjectForces }),
    {
        let stage = if frame_limit == 0 { Stage::Finished } else { Stage::InjectForces };
        TickDriver { frame: 0, frame_limit, stage }
    }

    /// The stage to perform now.
    pub fn current_stage(&self) -> (r: Stage)
        ensures
            r == self.stage(),
    {
        self.stage
    }

    /// The tick being run.
    pub fn current_frame(&self) -> (r: u64)
        ensures
            r == self.frame(),
    {
        self.frame
    }

    /// Whether the run is over.
    pub fn is_finished(&self) -> (r: bool)
        ensures
            r == (self.stage() == Stage::Finished),
    {
        self.stage == Stage::Finished
    }

    /// Moves past the current stage, which the driver has just performed.
    ///
    /// `terminate` is what the termination predicates gave; it is read only at
    /// `CheckTermination`.
    pub fn advance(&mut self, terminate: bool)
        requires
            old(self).wf(),
        ensures
            final(self).wf(),
            final(self).frame_limit() == old(self).frame_limit(),
            (final(self).frame(), final(self).stage()) == successor(
                old(self).frame(),
                old(self).frame_limit(),
                old(self).stage(),
                terminate,
            ),
    {
        match self.stage {
            Stage::Finished => {},
            Stage::CheckTermination => {
                if terminate || self.frame_limit - self.frame <= 1 {
                    self.stage = Stage::Finished;
                } else {
                    self.frame = self.frame + 1;
                    self.stage = Stage::InjectForces;
                }
            },
            Stage::InjectForces => {
                self.stage = Stage::Guidance;
            },
            Stage::Guidance => {
                self.stage = Stage::RefreshAero;
            },
            Stage::RefreshAero => {
                self.stage = Stage::BodyDrag;
            },
            Stage::BodyDrag => {
                self.stage = Stage::ControlSurface;
            },
            Stage::ControlSurface => {
                self.stage = Stage::Integrate;
            },
            Stage::Integrate => {
                self.stage = Stage::Telemetry;
            },
            Stage::Telemetry => {
                self.stage = Stage::CheckTermination;
            },
        }
    }
}

} // verus!
