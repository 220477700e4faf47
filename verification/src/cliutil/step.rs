//! The progress display of one task that prints nothing of its own: an
//! animated title line.
//!
//! `Step` is the state machine behind it. It decides what `show`, each
//! tick and `stop` do, and which bytes each of them has written; the
//! thread that ticks and the terminal are the caller's.

use crate::cliutil::common::{completed_frame_spec, completed_frame_with, done_marker, done_text};
use crate::cliutil::common::{next_tick, Phase};
use crate::cliutil::common::{progress_frame, progress_frame_spec};
use crate::cliutil::term::{hide_code, hide_cursor, show_code, show_cursor, styled};
use vstd::prelude::*;

verus! {

/// What a `Step` is, mathematically.
pub struct StepState {
    /// The label of the title line.
    pub name: Seq<char>,
    /// Where the step stands in its life.
    pub phase: Phase,
    /// The count of repaints so far.
    pub tick: nat,
}

impl StepState {
    /// A step that was just created.
    pub open spec fn fresh(name: Seq<char>) -> StepState {
        StepState { name, phase: Phase::Idle, tick: 0 }
    }

    /// The step after `show`: an idle one runs, any other is unchanged.
    pub open spec fn show(self) -> StepState {
        if self.phase == Phase::Idle {
            StepState { phase: Phase::Running, ..self }
        } else {
            self
        }
    }

    /// The step after one repaint.
    pub open spec fn repainted(self) -> StepState {
        StepState { tick: next_tick(self.tick), ..self }
    }

    /// The step after `stop`: a running one is stopped, any other is
    /// unchanged.
    pub open spec fn stop(self) -> StepState {
        if self.phase == Phase::Running {
            StepState { phase: Phase::Stopped, ..self }
        } else {
            self
        }
    }
}

/// The bytes that end the display of a step called `name`: show the
/// cursor, then replace the title line by that of a finished task.
pub open spec fn step_closing_spec(marker: Seq<char>, name: Seq<char>) -> Seq<char> {
    show_code() + completed_frame_spec(marker, name)
}

/// A step starts at most once: showing it again changes nothing, and a
/// step that was shown is never idle again.
pub proof fn lemma_step_show_once(s: StepState)
    ensures
        s.show().show() == s.show(),
        s.show().phase != Phase::Idle,
        s.show().stop().phase != Phase::Idle,
{
}

/// Stopping twice is stopping once, and after a stop nothing runs.
pub proof fn lemma_step_stop_idempotent(s: StepState)
    ensures
        s.stop().stop() == s.stop(),
        s.stop().phase != Phase::Running,
{
}

/// The progress display of one task.
#[derive(Debug)]
pub struct Step {
    name: String,
    phase: Phase,
    tick: usize,
}

impl View for Step {
    type V = StepState;

    closed spec fn view(&self) -> StepState {
        StepState { name: self.name@, phase: self.phase, tick: self.tick as nat }
    }
}

impl Step {
    /// An idle step called `name`.
    pub fn new(name: &str) -> (r: Self)
        ensures
            r@ == StepState::fresh(name@),
    {
        Step { name: String::from_str(name), phase: Phase::Idle, tick: 0 }
    }

    /// Whether the step was shown and not yet stopped.
    pub fn is_running(&self) -> (r: bool)
        ensures
            r == (self@.phase == Phase::Running),
    {
        match self.phase {
            Phase::Running => true,
            _ => false,
        }
    }

    /// Starts an idle step. Returns whether it did: a step that runs or
    /// has stopped is left as it is.
    pub fn show(&mut self) -> (started: bool)
        ensures
            final(self)@ == old(self)@.show(),
            started == (old(self)@.phase == Phase::Idle),
    {
        match self.phase {
            Phase::Idle => {
                self.phase = Phase::Running;
                true
            },
            _ => false,
        }
    }

    /// What is written before the first repaint: the sequence that hides
    /// the cursor.
    pub fn opening(&self) -> (r: String)
        ensures
            r@ == hide_code(),
    {
        hide_cursor()
    }

    /// One repaint of a running step: the bytes to write, after which the
    /// tick has advanced. `None` where the step does not run.
    pub fn render(&mut self) -> (r: Option<String>)
        ensures
            match r {
                Some(frame_text) => {
                    &&& old(self)@.phase == Phase::Running
                    &&& final(self)@ == old(self)@.repainted()
                    &&& frame_text@ == progress_frame_spec(old(self)@.name, old(self)@.tick)
                },
                None => old(self)@.phase != Phase::Running && final(self)@ == old(self)@,
            },
    {
        if !self.is_running() {
            return None;
        }
        let frame_text = progress_frame(self.name.as_str(), self.tick);
        self.tick = if self.tick == usize::MAX {
            0
        } else {
            self.tick + 1
        };
        Some(frame_text)
    }

    /// What is written after the last repaint, given the marker of the
    /// finished title as it is to be shown.
    pub fn closing_with(&self, marker: &str) -> (r: String)
        ensures
            r@ == step_closing_spec(marker@, self@.name),
    {
        let mut out = show_cursor();
        out.append(completed_frame_with(marker, self.name.as_str()).as_str());
        out
    }

    /// What is written after the last repaint: the cursor is shown again
    /// and the title line becomes that of a finished task.
    pub fn closing(&self) -> (r: String)
        ensures
            exists|marker: Seq<char>|
                styled(marker, done_text()) && r@ == step_closing_spec(marker, self@.name),
    {
        let marker = done_marker();
        self.closing_with(marker.as_str())
    }

    /// Stops a running step. Returns whether it ran, so whether its
    /// worker is now to be waited for; a step that does not run is left
    /// as it is.
    pub fn stop(&mut self) -> (was_running: bool)
        ensures
            final(self)@ == old(self)@.stop(),
            was_running == (old(self)@.phase == Phase::Running),
    {
        match self.phase {
            Phase::Running => {
                self.phase = Phase::Stopped;
                true
            },
            _ => false,
        }
    }
}

} // verus!
