use vstd::prelude::*;
use crate::error::{error_text, Error};

verus! {

/// A reaction that marks where a command stands.
#[derive(Debug, Clone, Copy, PartialEq, Eq, Structural)]
pub enum Marker {
    Working,
    Success,
    Failed,
}

/// Where one command's reaction lifecycle stands.
#[derive(Debug, Clone, Copy, PartialEq, Eq, Structural)]
pub enum Phase {
    Idle,
    Working,
    Succeeded,
    Failed,
}

/// A request to the chat gateway on the command's message.
#[derive(Debug, Clone, PartialEq, Eq)]
pub enum Action {
    /// Attach a marker reaction.
    React(Marker),
    /// Remove a marker reaction.
    Unreact(Marker),
    /// Reply with the text of the command's error.
    ReplyError(String),
    /// Reply that a marker reaction could not be attached or removed.
    ReplyProblem(String),
}

/// An action as plain values.
pub enum ActionView {
    React(Marker),
    Unreact(Marker),
    ReplyError(Seq<char>),
    ReplyProblem(Seq<char>),
}

pub open spec fn action_view(a: Action) -> ActionView {
    match a {
        Action::React(m) => ActionView::React(m),
        Action::Unreact(m) => ActionView::Unreact(m),
        Action::ReplyError(t) => ActionView::ReplyError(t@),
        Action::ReplyProblem(t) => ActionView::ReplyProblem(t@),
    }
}

pub open spec fn actions_view(s: Seq<Action>) -> Seq<ActionView> {
    s.map_values(|a: Action| action_view(a))
}

/// The reply when the working marker could not be attached.
pub open spec fn attach_problem_text(problem: Seq<char>) -> Seq<char> {
    "Emoji Reaction Failed. Solve it and try again. The problem was:\n```"@ + problem + "```"@
}

/// The reply when a command failed.
pub open spec fn failure_text(e: Error) -> Seq<char> {
    "Command Failed. The problem was:\n```"@ + error_text(e) + "```"@
}

/// The reply when the working marker could not be removed.
pub open spec fn removal_problem_text(problem: Seq<char>) -> Seq<char> {
    "Emoji Reaction Remove Failed. The problem was:\n```"@ + problem + "```"@
}

/// The markers that stay once the working marker is gone.
pub open spec fn without_working(s: Seq<Marker>) -> Seq<Marker>
    decreases s.len(),
{
    if s.len() == 0 {
        s
    } else if s.last() == Marker::Working {
        without_working(s.drop_last())
    } else {
        without_working(s.drop_last()).push(s.last())
    }
}

/// Where a report stands: its phase and the markers it has attached.
pub struct ReportView {
    pub phase: Phase,
    pub markers: Seq<Marker>,
}

/// Before dispatch: `attached` is what the gateway answered when asked to
/// attach the working marker. Only on success does the command run.
pub open spec fn begin_model(v: ReportView, attached: Result<(), String>) -> (
    ReportView,
    Seq<ActionView>,
) {
    if v.phase != Phase::Idle {
        (v, Seq::empty())
    } else {
        match attached {
            Ok(_) => (
                ReportView { phase: Phase::Working, markers: v.markers.push(Marker::Working) },
                Seq::empty(),
            ),
            Err(p) => (v, seq![ActionView::ReplyProblem(attach_problem_text(p@))]),
        }
    }
}

/// After dispatch: reports the outcome and asks to remove the working marker.
pub open spec fn finish_model(v: ReportView, outcome: Result<(), Error>) -> (
    ReportView,
    Seq<ActionView>,
) {
    if v.phase != Phase::Working {
        (v, Seq::empty())
    } else {
        match outcome {
            Ok(_) => (
                ReportView { phase: Phase::Succeeded, markers: v.markers.push(Marker::Success) },
                seq![ActionView::React(Marker::Success), ActionView::Unreact(Marker::Working)],
            ),
            Err(e) => (
                ReportView { phase: Phase::Failed, markers: v.markers.push(Marker::Failed) },
                seq![
                    ActionView::React(Marker::Failed),
                    ActionView::ReplyError(failure_text(e)),
                    ActionView::Unreact(Marker::Working),
                ],
            ),
        }
    }
}

/// Once removal was tried: back to idle, whatever `removed` says; a failed
/// removal is reported and changes nothing else.
pub open spec fn release_model(v: ReportView, removed: Result<(), String>) -> (
    ReportView,
    Seq<ActionView>,
) {
    if v.phase != Phase::Succeeded && v.phase != Phase::Failed {
        (v, Seq::empty())
    } else {
        let next = ReportView { phase: Phase::Idle, markers: without_working(v.markers) };
        match removed {
            Ok(_) => (next, Seq::empty()),
            Err(p) => (next, seq![ActionView::ReplyProblem(removal_problem_text(p@))]),
        }
    }
}

/// The reaction lifecycle of one command: Idle, then Working, then
/// Succeeded or Failed, then Idle again.
pub struct ReactionReport {
    phase: Phase,
    markers: Vec<Marker>,
}

impl View for ReactionReport {
    type V = ReportView;

    closed spec fn view(&self) -> ReportView {
        ReportView { phase: self.phase, markers: self.markers@ }
    }
}

fn fenced(head: &str, body: &str) -> (r: String)
    ensures
        r@ == head@ + body@ + "```"@,
{
    let mut s = String::from_str(head);
    s.append(body);
    s.append("```");
    s
}

impl ReactionReport {
    /// A report for a command that has not started.
    pub fn new() -> (r: ReactionReport)
        ensures
            r@.phase == Phase::Idle,
            r@.markers == Seq::<Marker>::empty(),
    {
        ReactionReport { phase: Phase::Idle, markers: Vec::new() }
    }

    pub fn phase(&self) -> (r: Phase)
        ensures
            r == self@.phase,
    {
        self.phase
    }

    /// The markers this report has attached and not removed.
    pub fn markers(&self) -> (r: &Vec<Marker>)
        ensures
            r@ == self@.markers,
    {
        &self.markers
    }

    /// Whether the command may run.
    pub fn is_working(&self) -> (r: bool)
        ensures
            r == (self@.phase == Phase::Working),
    {
        match self.phase {
            Phase::Working => true,
            _ => false,
        }
    }

    /// Records the answer to attaching the working marker; returns the
    /// actions that follow.
    pub fn begin(&mut self, attached: Result<(), String>) -> (r: Vec<Action>)
        ensures
            (final(self)@, actions_view(r@)) == begin_model(old(self)@, attached),
    {
        let mut out: Vec<Action> = Vec::new();
        match self.phase {
            Phase::Idle => {},
            _ => {
                assert(actions_view(out@) =~= Seq::empty());
                return out;
            },
        }
        match attached {
            Ok(_) => {
                self.phase = Phase::Working;
                self.markers.push(Marker::Working);
            },
            Err(p) => {
                out.push(
                    Action::ReplyProblem(
                        fenced(
                            "Emoji Reaction Failed. Solve it and try again. The problem was:\n```",
                            p.as_str(),
                        ),
                    ),
                );
            },
        }
        assert(actions_view(out@) =~= begin_model(old(self)@, attached).1);
        out
    }

    /// Records how the command ended; returns the actions that follow.
    pub fn finish(&mut self, outcome: &Result<(), Error>) -> (r: Vec<Action>)
        ensures
            (final(self)@, actions_view(r@)) == finish_model(old(self)@, *outcome),
    {
        let mut out: Vec<Action> = Vec::new();
        match self.phase {
            Phase::Working => {},
            _ => {
                assert(actions_view(out@) =~= Seq::empty());
                return out;
            },
        }
        match outcome {
            Ok(_) => {
                self.phase = Phase::Succeeded;
                self.markers.push(Marker::Success);
                out.push(Action::React(Marker::Success));
            },
            Err(e) => {
                self.phase = Phase::Failed;
                self.markers.push(Marker::Failed);
                out.push(Action::React(Marker::Failed));
                let m = e.message();
                out.push(
                    Action::ReplyError(fenced("Command Failed. The problem was:\n```", m.as_str())),
                );
            },
        }
        out.push(Action::Unreact(Marker::Working));
        assert(actions_view(out@) =~= finish_model(old(self)@, *outcome).1);
        out
    }

    /// Records the answer to removing the working marker; returns the
    /// actions that follow.
    pub fn release(&mut self, removed: Result<(), String>) -> (r: Vec<Action>)
        ensures
            (final(self)@, actions_view(r@)) == release_model(old(self)@, removed),
    {
        let mut out: Vec<Action> = Vec::new();
        match self.phase {
            Phase::Succeeded => {},
            Phase::Failed => {},
            _ => {
                assert(actions_view(out@) =~= Seq::empty());
                return out;
            },
        }
        let mut kept: Vec<Marker> = Vec::new();
        let mut i: usize = 0;
        while i < self.markers.len()
            invariant
                i <= self.markers@.len(),
                self.markers@ == old(self)@.markers,
                kept@ == without_working(self.markers@.subrange(0, i as int)),
            decreases self.markers@.len() - i,
        {
            let m = self.markers[i];
            assert(self.markers@.subrange(0, i + 1).drop_last() == self.markers@.subrange(
                0,
                i as int,
            ));
            match m {
                Marker::Working => {},
                _ => kept.push(m),
            }
            i = i + 1;
        }
        assert(self.markers@.subrange(0, self.markers@.len() as int) == self.markers@);
        self.markers = kept;
        self.phase = Phase::Idle;
        match removed {
            Ok(_) => {},
            Err(p) => {
                out.push(
                    Action::ReplyProblem(
                        fenced("Emoji Reaction Remove Failed. The problem was:\n```", p.as_str()),
                    ),
                );
            },
        }
        assert(actions_view(out@) =~= release_model(old(self)@, removed).1);
        out
    }
}

} // verus!
