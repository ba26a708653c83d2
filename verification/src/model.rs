//! The provider-neutral vocabulary that the driver shares with the application: session
//! settings on the way in, events on the way out.

use crate::json::{Json, JsonView};
use crate::views::{viewed, views};
use vstd::prelude::*;

verus! {

/// How much an agent may do without asking.
#[derive(Clone, Copy, Debug, PartialEq, Eq, Structural)]
pub enum RuntimeMode {
    Ask,
    AutoAcceptEdits,
    Auto,
    FullAccess,
    Plan,
}

/// Whether the user wants changes or a plan.
#[derive(Clone, Copy, Debug, PartialEq, Eq, Structural)]
pub enum InteractionMode {
    Build,
    Plan,
}

/// The settings of a session that the user may change while it runs.
#[derive(Debug, PartialEq, Eq)]
pub struct SessionOptions {
    pub mode: RuntimeMode,
    pub interaction_mode: InteractionMode,
    pub model: Option<String>,
    pub reasoning_effort: Option<String>,
}

/// What a [`SessionOptions`] means.
pub struct SessionOptionsView {
    pub mode: RuntimeMode,
    pub interaction_mode: InteractionMode,
    pub model: Option<Seq<char>>,
    pub reasoning_effort: Option<Seq<char>>,
}

impl View for SessionOptions {
    type V = SessionOptionsView;

    open spec fn view(&self) -> SessionOptionsView {
        SessionOptionsView {
            mode: self.mode,
            interaction_mode: self.interaction_mode,
            model: viewed(self.model),
            reasoning_effort: viewed(self.reasoning_effort),
        }
    }
}

/// Where a provider left off, kept by the application to resume a session.
#[derive(Debug, PartialEq, Eq)]
pub enum ProviderResumeCursor {
    /// A Factory session.
    Droid { session_id: String },
    /// The cursor of another provider.
    Other,
}

/// What a [`ProviderResumeCursor`] means.
pub enum CursorView {
    Droid { session_id: Seq<char> },
    Other,
}

impl View for ProviderResumeCursor {
    type V = CursorView;

    open spec fn view(&self) -> CursorView {
        match self {
            ProviderResumeCursor::Droid { session_id } => CursorView::Droid {
                session_id: session_id@,
            },
            ProviderResumeCursor::Other => CursorView::Other,
        }
    }
}

/// One choice that the user has when the agent asks.
#[derive(Debug, PartialEq, Eq)]
pub struct PermissionOption {
    pub id: String,
    pub label: String,
    pub allow: bool,
}

/// What a [`PermissionOption`] means.
pub struct PermissionOptionView {
    pub id: Seq<char>,
    pub label: Seq<char>,
    pub allow: bool,
}

impl View for PermissionOption {
    type V = PermissionOptionView;

    open spec fn view(&self) -> PermissionOptionView {
        PermissionOptionView { id: self.id@, label: self.label@, allow: self.allow }
    }
}

/// A text for the user: as it stands, or an entry of the message catalogue with the
/// value of its one parameter.
#[derive(Debug, PartialEq, Eq)]
pub enum Text {
    Plain(String),
    Localized { key: String, parameter: String, value: String },
}

/// What a [`Text`] means.
pub enum TextView {
    Plain(Seq<char>),
    Localized { key: Seq<char>, parameter: Seq<char>, value: Seq<char> },
}

impl View for Text {
    type V = TextView;

    open spec fn view(&self) -> TextView {
        match self {
            Text::Plain(text) => TextView::Plain(text@),
            Text::Localized { key, parameter, value } => TextView::Localized {
                key: key@,
                parameter: parameter@,
                value: value@,
            },
        }
    }
}

/// A tool at work, or done.
#[derive(Debug, PartialEq, Eq)]
pub struct ToolActivity {
    pub id: Option<String>,
    /// The name of the tool, from which the application tells the kind of activity.
    pub tool_name: String,
    pub title: String,
    pub arguments: Option<Json>,
    pub output: Option<Json>,
    pub failed: bool,
    pub complete: bool,
}

/// What a [`ToolActivity`] means.
pub struct ToolActivityView {
    pub id: Option<Seq<char>>,
    pub tool_name: Seq<char>,
    pub title: Seq<char>,
    pub arguments: Option<JsonView>,
    pub output: Option<JsonView>,
    pub failed: bool,
    pub complete: bool,
}

impl View for ToolActivity {
    type V = ToolActivityView;

    open spec fn view(&self) -> ToolActivityView {
        ToolActivityView {
            id: viewed(self.id),
            tool_name: self.tool_name@,
            title: self.title@,
            arguments: viewed(self.arguments),
            output: viewed(self.output),
            failed: self.failed,
            complete: self.complete,
        }
    }
}

/// What the driver tells the application.
#[derive(Debug, PartialEq, Eq)]
pub enum DriverEvent {
    Connected { provider_cursor: Option<ProviderResumeCursor> },
    TurnStarted,
    TurnFinished { success: bool, summary: Option<Text> },
    SteerAccepted { message: String },
    SteerRejected { message: String, reason: String },
    Permission { request_id: String, title: String, detail: Text, options: Vec<PermissionOption> },
    TextDelta(String),
    ReasoningDelta(String),
    RichActivity(ToolActivity),
    UsageUpdated { context_tokens: Option<u64>, context_window: Option<u64> },
    AutoTitleUpdated(Option<String>),
    Error(String),
    ProcessExited,
}

/// What a [`DriverEvent`] means.
pub enum DriverEventView {
    Connected { provider_cursor: Option<CursorView> },
    TurnStarted,
    TurnFinished { success: bool, summary: Option<TextView> },
    SteerAccepted { message: Seq<char> },
    SteerRejected { message: Seq<char>, reason: Seq<char> },
    Permission {
        request_id: Seq<char>,
        title: Seq<char>,
        detail: TextView,
        options: Seq<PermissionOptionView>,
    },
    TextDelta(Seq<char>),
    ReasoningDelta(Seq<char>),
    RichActivity(ToolActivityView),
    UsageUpdated { context_tokens: Option<u64>, context_window: Option<u64> },
    AutoTitleUpdated(Option<Seq<char>>),
    Error(Seq<char>),
    ProcessExited,
}

impl View for DriverEvent {
    type V = DriverEventView;

    open spec fn view(&self) -> DriverEventView {
        match self {
            DriverEvent::Connected { provider_cursor } => DriverEventView::Connected {
                provider_cursor: viewed(*provider_cursor),
            },
            DriverEvent::TurnStarted => DriverEventView::TurnStarted,
            DriverEvent::TurnFinished { success, summary } => DriverEventView::TurnFinished {
                success: *success,
                summary: viewed(*summary),
            },
            DriverEvent::SteerAccepted { message } => DriverEventView::SteerAccepted {
                message: message@,
            },
            DriverEvent::SteerRejected { message, reason } => DriverEventView::SteerRejected {
                message: message@,
                reason: reason@,
            },
            DriverEvent::Permission { request_id, title, detail, options } =>
                DriverEventView::Permission {
                request_id: request_id@,
                title: title@,
                detail: detail@,
                options: views(*options),
            },
            DriverEvent::TextDelta(text) => DriverEventView::TextDelta(text@),
            DriverEvent::ReasoningDelta(text) => DriverEventView::ReasoningDelta(text@),
            DriverEvent::RichActivity(activity) => DriverEventView::RichActivity(activity@),
            DriverEvent::UsageUpdated { context_tokens, context_window } =>
                DriverEventView::UsageUpdated {
                context_tokens: *context_tokens,
                context_window: *context_window,
            },
            DriverEvent::AutoTitleUpdated(title) => DriverEventView::AutoTitleUpdated(
                viewed(*title),
            ),
            DriverEvent::Error(message) => DriverEventView::Error(message@),
            DriverEvent::ProcessExited => DriverEventView::ProcessExited,
        }
    }
}

} // verus!
