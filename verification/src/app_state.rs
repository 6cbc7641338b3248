//! The application's state: which view is shown, which dialog is open,
//! and what the dialog or a request to the mentor is for.

use vstd::prelude::verus;
use vstd::prelude::Structural;

verus! {

/// Which view is shown.
#[derive(Debug, Clone, Copy, PartialEq, Eq, Structural)]
pub enum View {
    Dashboard,
    Staging,
    Commit,
    Branches,
    Timeline,
    TimeTravel,
    Reflog,
    GitHub,
    AiMentor,
    Stash,
}

/// What a confirmed dialog does.
#[derive(Debug, Clone, PartialEq, Eq)]
pub enum ConfirmAction {
    DeleteBranch(String),
    HardReset(String),
    MixedReset(String),
    SoftReset(String),
    RemoveCollaborator(String),
    ClearStash,
}

/// What the text of an input dialog is for.
#[derive(Debug, Clone, Copy, PartialEq, Eq, Structural)]
pub enum InputAction {
    CreateBranch,
    RenameBranch,
    SearchCommits,
    SearchFiles,
    CommitMessage,
    AddCollaborator,
    AiSetupEndpoint,
    AiSetupApiKey,
    StashPush,
}

/// The request to the mentor that is under way.
#[derive(Debug, Clone, PartialEq, Eq)]
pub enum AiAction {
    CommitSuggest,
    ExplainRepo,
    ExplainError(String),
    Recommend,
    HealthCheck,
    /// The path of the file under review.
    ReviewDiff(String),
    AskQuestion,
    Learn,
}

/// The dialog that is open.
#[derive(Debug, Clone, PartialEq, Eq)]
pub enum Popup {
    /// No dialog is open.
    Closed,
    Help,
    Confirm { title: String, message: String, on_confirm: ConfirmAction },
    Input { title: String, prompt: String, value: String, on_submit: InputAction },
    Message { title: String, message: String },
}

/// What a follow-up does.
#[derive(Debug, Clone, Copy, PartialEq, Eq, Structural)]
pub enum FollowUpAction {
    ContinueMerge,
    SwitchToView(View),
    CommitNow,
}

/// One thing to do next, offered once a step is done.
#[derive(Debug, Clone, PartialEq, Eq)]
pub struct FollowUpItem {
    pub label: String,
    pub description: String,
    pub action: FollowUpAction,
}

} // verus!
