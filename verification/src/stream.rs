//! The state of a running session, and what a step of the driver asks for.
//!
//! The driver decides; the application acts. A step hands out effects, to be carried
//! out in order, and at most one effect whose outcome the driver has to hear of before
//! it goes on (see [`Checked`]).

use crate::json::{Json, JsonView};
use crate::model::{DriverEvent, DriverEventView};
use crate::table::Table;
use crate::views::{viewed, views};
use vstd::prelude::*;

verus! {

/// An answer that the user can give to a question.
#[derive(Debug, PartialEq, Eq)]
pub struct Answer {
    pub index: usize,
    pub question: String,
    pub answer: String,
}

/// What an [`Answer`] means.
pub struct AnswerView {
    pub index: usize,
    pub question: Seq<char>,
    pub answer: Seq<char>,
}

impl View for Answer {
    type V = AnswerView;

    open spec fn view(&self) -> AnswerView {
        AnswerView { index: self.index, question: self.question@, answer: self.answer@ }
    }
}

/// A request of the agent that waits for the user.
pub enum PendingInteraction {
    Approval { rpc_id: String },
    Question { rpc_id: String, answers: Table<Answer> },
}

/// What a [`PendingInteraction`] means.
pub enum PendingView {
    Approval { rpc_id: Seq<char> },
    Question { rpc_id: Seq<char>, answers: Seq<(Seq<char>, AnswerView)> },
}

impl View for PendingInteraction {
    type V = PendingView;

    open spec fn view(&self) -> PendingView {
        match self {
            PendingInteraction::Approval { rpc_id } => PendingView::Approval { rpc_id: rpc_id@ },
            PendingInteraction::Question { rpc_id, answers } => PendingView::Question {
                rpc_id: rpc_id@,
                answers: answers@,
            },
        }
    }
}

/// A tool that was called and has not returned: its name, and the title it was shown
/// under.
#[derive(Debug, PartialEq, Eq)]
pub struct ToolRecord {
    pub tool_name: String,
    pub title: String,
}

/// What a [`ToolRecord`] means.
pub struct ToolRecordView {
    pub tool_name: Seq<char>,
    pub title: Seq<char>,
}

impl View for ToolRecord {
    type V = ToolRecordView;

    open spec fn view(&self) -> ToolRecordView {
        ToolRecordView { tool_name: self.tool_name@, title: self.title@ }
    }
}

/// The state of a running session.
pub struct StreamState {
    pub turn_active: bool,
    pub auto_approve: bool,
    pub tools: Table<ToolRecord>,
    pub pending: Table<PendingInteraction>,
}

/// What a [`StreamState`] means.
pub struct StateView {
    pub turn_active: bool,
    pub auto_approve: bool,
    pub tools: Seq<(Seq<char>, ToolRecordView)>,
    pub pending: Seq<(Seq<char>, PendingView)>,
}

impl View for StreamState {
    type V = StateView;

    open spec fn view(&self) -> StateView {
        StateView {
            turn_active: self.turn_active,
            auto_approve: self.auto_approve,
            tools: self.tools@,
            pending: self.pending@,
        }
    }
}

/// The state in which a session starts.
pub open spec fn initial_state(auto_approve: bool) -> StateView {
    StateView { turn_active: false, auto_approve, tools: Seq::empty(), pending: Seq::empty() }
}

impl StreamState {
    /// The state in which a session starts: no turn runs, no tool is at work and nothing
    /// waits for the user.
    pub fn new(auto_approve: bool) -> (state: StreamState)
        ensures
            state@ == initial_state(auto_approve),
    {
        StreamState { turn_active: false, auto_approve, tools: Table::new(), pending: Table::new() }
    }
}

/// Something that the application does for the driver.
#[derive(Debug, PartialEq, Eq)]
pub enum Effect {
    /// Hand an event to the application's user interface.
    Emit(DriverEvent),
    /// Write a message to the process.
    Send(Json),
    /// Flush what was written to the process.
    Flush,
}

/// What an [`Effect`] means.
pub enum EffectView {
    Emit(DriverEventView),
    Send(JsonView),
    Flush,
}

impl View for Effect {
    type V = EffectView;

    open spec fn view(&self) -> EffectView {
        match self {
            Effect::Emit(event) => EffectView::Emit(event@),
            Effect::Send(message) => EffectView::Send(message@),
            Effect::Flush => EffectView::Flush,
        }
    }
}

/// What the driver was about when it asked for the outcome of an effect.
#[derive(Debug, PartialEq, Eq)]
pub enum Followup {
    /// A prompt was sent.
    Prompt,
    /// A message for the running turn was sent.
    Steer { message: String },
    /// The process was told to interrupt the turn.
    Interrupt,
    /// Session settings were sent, under which requests are or are not approved without
    /// asking.
    Options { auto_approve: bool },
    /// The user was shown a request for approval.
    Approval { request_id: String },
    /// The user was shown a question.
    Question { request_id: String },
}

/// What a [`Followup`] means.
pub enum FollowupView {
    Prompt,
    Steer { message: Seq<char> },
    Interrupt,
    Options { auto_approve: bool },
    Approval { request_id: Seq<char> },
    Question { request_id: Seq<char> },
}

impl View for Followup {
    type V = FollowupView;

    open spec fn view(&self) -> FollowupView {
        match self {
            Followup::Prompt => FollowupView::Prompt,
            Followup::Steer { message } => FollowupView::Steer { message: message@ },
            Followup::Interrupt => FollowupView::Interrupt,
            Followup::Options { auto_approve } => FollowupView::Options {
                auto_approve: *auto_approve,
            },
            Followup::Approval { request_id } => FollowupView::Approval { request_id: request_id@ },
            Followup::Question { request_id } => FollowupView::Question { request_id: request_id@ },
        }
    }
}

/// An effect whose outcome is to be reported back, with what it was for.
#[derive(Debug, PartialEq, Eq)]
pub struct Checked {
    pub effect: Effect,
    pub followup: Followup,
}

/// What a [`Checked`] means.
pub struct CheckedView {
    pub effect: EffectView,
    pub followup: FollowupView,
}

impl View for Checked {
    type V = CheckedView;

    open spec fn view(&self) -> CheckedView {
        CheckedView { effect: self.effect@, followup: self.followup@ }
    }
}

/// What the driver asks for after a command or a message.
#[derive(Debug, PartialEq, Eq)]
pub struct Step {
    /// To be carried out in this order. Whether they succeed does not matter.
    pub effects: Vec<Effect>,
    /// To be carried out after the effects, and its outcome reported.
    pub checked: Option<Checked>,
    /// Whether the session goes on.
    pub running: bool,
}

/// What a [`Step`] means.
pub struct StepView {
    pub effects: Seq<EffectView>,
    pub checked: Option<CheckedView>,
    pub running: bool,
}

impl View for Step {
    type V = StepView;

    open spec fn view(&self) -> StepView {
        StepView {
            effects: views(self.effects),
            checked: viewed(self.checked),
            running: self.running,
        }
    }
}

/// The step of a session that goes on and has nothing to check.
pub open spec fn step_of(effects: Seq<EffectView>) -> StepView {
    StepView { effects, checked: None, running: true }
}

/// The step of a session that goes on with effects and then one to check.
pub open spec fn step_checking(effects: Seq<EffectView>, checked: CheckedView) -> StepView {
    StepView { effects, checked: Some(checked), running: true }
}

/// The list with one effect.
pub(crate) fn one(effect: Effect) -> (effects: Vec<Effect>)
    ensures
        views(effects) == seq![effect@],
{
    let mut effects: Vec<Effect> = Vec::new();
    effects.push(effect);
    assert(views(effects) =~= seq![effect@]);
    effects
}

/// The list with two effects.
pub(crate) fn two(first: Effect, second: Effect) -> (effects: Vec<Effect>)
    ensures
        views(effects) == seq![first@, second@],
{
    let mut effects: Vec<Effect> = Vec::new();
    effects.push(first);
    effects.push(second);
    assert(views(effects) =~= seq![first@, second@]);
    effects
}

impl Step {
    /// The step that asks for nothing.
    pub(crate) fn nothing() -> (step: Step)
        ensures
            step@ == step_of(Seq::empty()),
    {
        let step = Step { effects: Vec::new(), checked: None, running: true };
        assert(step@.effects =~= Seq::empty());
        step
    }

    /// The step with the given effects.
    pub(crate) fn of(effects: Vec<Effect>) -> (step: Step)
        ensures
            step@ == step_of(views(effects)),
    {
        Step { effects, checked: None, running: true }
    }

    /// The step with the given effects and one to check.
    pub(crate) fn checking(effects: Vec<Effect>, effect: Effect, followup: Followup) -> (step: Step)
        ensures
            step@ == step_checking(
                views(effects),
                (CheckedView { effect: effect@, followup: followup@ }),
            ),
    {
        Step { effects, checked: Some(Checked { effect, followup }), running: true }
    }
}

} // verus!
