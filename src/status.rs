//! Session lifecycle: the status values, the transition relation and a
//! manager that applies it.
use vstd::prelude::*;
use crate::error::{error_text, lemma_error_text_not_empty, TerminalError};
use crate::text::{joined, owned, str_eq};

verus! {

/// Lifecycle status of a terminal session.
#[derive(Debug, Clone, Copy, PartialEq, Eq, Structural)]
pub enum SessionStatus {
    Init,
    Connecting,
    Running,
    Done,
    Error,
}

/// The lower-case token a status is written as on the wire.
pub open spec fn status_name(s: SessionStatus) -> Seq<char> {
    match s {
        SessionStatus::Init => "init"@,
        SessionStatus::Connecting => "connecting"@,
        SessionStatus::Running => "running"@,
        SessionStatus::Done => "done"@,
        SessionStatus::Error => "error"@,
    }
}

/// The name a status is shown with in diagnostics.
pub open spec fn status_label(s: SessionStatus) -> Seq<char> {
    match s {
        SessionStatus::Init => "Init"@,
        SessionStatus::Connecting => "Connecting"@,
        SessionStatus::Running => "Running"@,
        SessionStatus::Done => "Done"@,
        SessionStatus::Error => "Error"@,
    }
}

/// The transition relation: a self-transition is always allowed, any state may
/// enter Error, and otherwise a state only moves forward along
/// Init -> Connecting -> Running -> Done.
pub open spec fn transition_allowed(from: SessionStatus, to: SessionStatus) -> bool {
    if from == to || to == SessionStatus::Error {
        true
    } else {
        match from {
            SessionStatus::Init => to == SessionStatus::Connecting || to == SessionStatus::Running
                || to == SessionStatus::Done,
            SessionStatus::Connecting => to == SessionStatus::Running || to == SessionStatus::Done,
            SessionStatus::Running => to == SessionStatus::Done,
            SessionStatus::Done => false,
            SessionStatus::Error => false,
        }
    }
}

/// Every state may enter Error, and Done and Error are closed: from either one
/// the only allowed moves are staying put and entering Error.
pub proof fn lemma_error_always_reachable_terminal_closed(s: SessionStatus, t: SessionStatus)
    ensures
        transition_allowed(s, SessionStatus::Error),
        (s == SessionStatus::Done || s == SessionStatus::Error) && t != s && t
            != SessionStatus::Error ==> !transition_allowed(s, t),
{
}

impl SessionStatus {
    /// The lower-case wire token of this status.
    pub fn as_wire_str(&self) -> (r: &'static str)
        ensures
            r@ == status_name(*self),
    {
        match self {
            SessionStatus::Init => "init",
            SessionStatus::Connecting => "connecting",
            SessionStatus::Running => "running",
            SessionStatus::Done => "done",
            SessionStatus::Error => "error",
        }
    }

    /// The status whose wire token is `s`, if any.
    pub fn from_wire_str(s: &str) -> (r: Option<SessionStatus>)
        ensures
            r == status_from_name(s@),
    {
        if str_eq(s, "init") {
            Some(SessionStatus::Init)
        } else if str_eq(s, "connecting") {
            Some(SessionStatus::Connecting)
        } else if str_eq(s, "running") {
            Some(SessionStatus::Running)
        } else if str_eq(s, "done") {
            Some(SessionStatus::Done)
        } else if str_eq(s, "error") {
            Some(SessionStatus::Error)
        } else {
            None
        }
    }

    /// The diagnostic name of this status.
    pub fn label(&self) -> (r: &'static str)
        ensures
            r@ == status_label(*self),
    {
        match self {
            SessionStatus::Init => "Init",
            SessionStatus::Connecting => "Connecting",
            SessionStatus::Running => "Running",
            SessionStatus::Done => "Done",
            SessionStatus::Error => "Error",
        }
    }
}

/// The status a wire token names, if any.
pub open spec fn status_from_name(t: Seq<char>) -> Option<SessionStatus> {
    if t == "init"@ {
        Some(SessionStatus::Init)
    } else if t == "connecting"@ {
        Some(SessionStatus::Connecting)
    } else if t == "running"@ {
        Some(SessionStatus::Running)
    } else if t == "done"@ {
        Some(SessionStatus::Done)
    } else if t == "error"@ {
        Some(SessionStatus::Error)
    } else {
        None
    }
}

/// Writing a status as its wire token and reading the token back gives the status.
pub proof fn lemma_status_wire_round_trip(s: SessionStatus)
    ensures
        status_from_name(status_name(s)) == Some(s),
{
    reveal_strlit("init");
    reveal_strlit("connecting");
    reveal_strlit("running");
    reveal_strlit("done");
    reveal_strlit("error");
    // the tokens differ in length, except "init" and "done", which differ in their first letter
    assert("init"@.len() == 4 && "connecting"@.len() == 10 && "running"@.len() == 7);
    assert("done"@.len() == 4 && "error"@.len() == 5);
    assert("init"@[0] != "done"@[0]);
}

/// Outcome of a requested status change.
#[derive(Debug, Clone, PartialEq, Eq)]
pub enum StateTransitionResult {
    /// The status now equals the requested one.
    Success,
    /// The change is not allowed; the status is unchanged.
    Invalid { from: SessionStatus, to: SessionStatus, reason: String },
}

impl StateTransitionResult {
    pub fn is_success(&self) -> (r: bool)
        ensures
            r == (*self is Success),
    {
        match self {
            StateTransitionResult::Success => true,
            _ => false,
        }
    }

    pub fn is_invalid(&self) -> (r: bool)
        ensures
            r == (*self is Invalid),
    {
        match self {
            StateTransitionResult::Invalid { .. } => true,
            _ => false,
        }
    }
}

/// What a manager holds: its status, the session it belongs to and the message
/// recorded on entering Error.
pub struct ManagerView {
    pub status: SessionStatus,
    pub session_id: Seq<char>,
    pub error_message: Option<Seq<char>>,
}

/// The message recorded when a session enters Error without one of its own.
pub open spec fn default_error_message() -> Seq<char> {
    "会话进入错误状态"@
}

/// Why a transition from `from` to `to` is refused.
pub open spec fn invalid_reason(from: SessionStatus, to: SessionStatus) -> Seq<char> {
    match from {
        SessionStatus::Done => "会话已完成，不能再转换状态"@,
        SessionStatus::Error => "会话处于错误状态，不能再转换状态"@,
        _ => "不允许从 "@ + status_label(from) + " 转换到 "@ + status_label(to),
    }
}

/// Applies the transition relation to the status of one session.
#[derive(Debug, Clone)]
pub struct SessionStateManager {
    current_status: SessionStatus,
    session_id: String,
    error_message: Option<String>,
}

impl View for SessionStateManager {
    type V = ManagerView;

    closed spec fn view(&self) -> ManagerView {
        ManagerView {
            status: self.current_status,
            session_id: self.session_id@,
            error_message: match self.error_message {
                Some(m) => Some(m@),
                None => None,
            },
        }
    }
}

impl SessionStateManager {
    /// A manager for `session_id`, starting in Init with no error message.
    pub fn new(session_id: &str) -> (r: SessionStateManager)
        ensures
            r@.status == SessionStatus::Init,
            r@.session_id == session_id@,
            r@.error_message is None,
    {
        SessionStateManager {
            current_status: SessionStatus::Init,
            session_id: owned(session_id),
            error_message: None,
        }
    }

    /// A manager for `session_id`, starting in `status` with no error message.
    pub fn with_status(session_id: &str, status: SessionStatus) -> (r: SessionStateManager)
        ensures
            r@.status == status,
            r@.session_id == session_id@,
            r@.error_message is None,
    {
        SessionStateManager {
            current_status: status,
            session_id: owned(session_id),
            error_message: None,
        }
    }

    pub fn status(&self) -> (r: SessionStatus)
        ensures
            r == self@.status,
    {
        self.current_status
    }

    pub fn error_message(&self) -> (r: Option<&str>)
        ensures
            r matches Some(m) ==> self@.error_message == Some(m@),
            r is None ==> self@.error_message is None,
    {
        match &self.error_message {
            Some(m) => Some(m.as_str()),
            None => None,
        }
    }

    /// Whether the relation allows moving from the current status to `target`.
    pub fn can_transition_to(&self, target: SessionStatus) -> (r: bool)
        ensures
            r == transition_allowed(self@.status, target),
    {
        Self::is_valid_transition(self.current_status, target)
    }

    /// Moves to `target` if the relation allows it. Entering a status other than
    /// Error clears the error message; entering Error from another status records
    /// a message when none is present. A refused transition changes nothing.
    pub fn transition_to(&mut self, target: SessionStatus) -> (r: StateTransitionResult)
        ensures
            final(self)@.session_id == old(self)@.session_id,
            transition_allowed(old(self)@.status, target) ==> {
                &&& r is Success
                &&& final(self)@.status == target
                &&& target != SessionStatus::Error ==> final(self)@.error_message is None
                &&& target == SessionStatus::Error && old(self)@.status == SessionStatus::Error
                    ==> final(self)@.error_message == old(self)@.error_message
                &&& target == SessionStatus::Error && old(self)@.status != SessionStatus::Error ==> {
                    ||| (old(self)@.error_message matches Some(m) && m.len() > 0
                        && final(self)@.error_message == old(self)@.error_message)
                    ||| final(self)@.error_message == Some(default_error_message())
                }
            },
            target == SessionStatus::Error && old(self)@.status != SessionStatus::Error
                ==> (final(self)@.error_message matches Some(m) && m.len() > 0),
            !transition_allowed(old(self)@.status, target) ==> {
                &&& final(self)@ == old(self)@
                &&& r matches StateTransitionResult::Invalid { from, to, reason } && from == old(
                    self,
                )@.status && to == target && reason@ == invalid_reason(from, to)
            },
    {
        proof {
            reveal_strlit("会话进入错误状态");
        }
        if Self::is_valid_transition(self.current_status, target) {
            let from = self.current_status;
            self.current_status = target;
            if target != SessionStatus::Error {
                self.error_message = None;
            } else if from != SessionStatus::Error {
                let keep = match &self.error_message {
                    Some(m) => !m.as_str().is_empty(),
                    None => false,
                };
                if !keep {
                    self.error_message = Some(owned("会话进入错误状态"));
                }
            }
            StateTransitionResult::Success
        } else {
            let reason = Self::get_invalid_transition_reason(self.current_status, target);
            StateTransitionResult::Invalid { from: self.current_status, to: target, reason }
        }
    }

    /// Enters Error from any status, recording the (non-empty) message of `error`.
    pub fn transition_to_error(&mut self, error: &TerminalError)
        ensures
            final(self)@.status == SessionStatus::Error,
            final(self)@.session_id == old(self)@.session_id,
            final(self)@.error_message == Some(error_text(*error)),
            error_text(*error).len() > 0,
    {
        proof {
            lemma_error_text_not_empty(*error);
        }
        self.current_status = SessionStatus::Error;
        self.error_message = Some(error.message());
    }

    /// Enters Error from any status, recording `message`.
    pub fn transition_to_error_with_message(&mut self, message: &str)
        ensures
            final(self)@.status == SessionStatus::Error,
            final(self)@.session_id == old(self)@.session_id,
            final(self)@.error_message == Some(message@),
    {
        self.current_status = SessionStatus::Error;
        self.error_message = Some(owned(message));
    }

    /// Sets the status without consulting the relation; the message is kept.
    pub fn force_set_status(&mut self, status: SessionStatus)
        ensures
            final(self)@.status == status,
            final(self)@.session_id == old(self)@.session_id,
            final(self)@.error_message == old(self)@.error_message,
    {
        self.current_status = status;
    }

    /// The transition relation.
    pub fn is_valid_transition(from: SessionStatus, to: SessionStatus) -> (r: bool)
        ensures
            r == transition_allowed(from, to),
    {
        if from == to {
            return true;
        }
        if to == SessionStatus::Error {
            return true;
        }
        match from {
            SessionStatus::Init => to == SessionStatus::Connecting || to == SessionStatus::Running
                || to == SessionStatus::Done,
            SessionStatus::Connecting => to == SessionStatus::Running || to == SessionStatus::Done,
            SessionStatus::Running => to == SessionStatus::Done,
            SessionStatus::Done => false,
            SessionStatus::Error => false,
        }
    }

    fn get_invalid_transition_reason(from: SessionStatus, to: SessionStatus) -> (r: String)
        ensures
            r@ == invalid_reason(from, to),
    {
        match from {
            SessionStatus::Done => owned("会话已完成，不能再转换状态"),
            SessionStatus::Error => owned("会话处于错误状态，不能再转换状态"),
            _ => {
                let mut m = joined("不允许从 ", from.label());
                m.append(" 转换到 ");
                m.append(to.label());
                m
            },
        }
    }

    /// Whether the status is Done or Error.
    pub fn is_terminal(&self) -> (r: bool)
        ensures
            r == (self@.status == SessionStatus::Done || self@.status == SessionStatus::Error),
    {
        self.current_status == SessionStatus::Done || self.current_status == SessionStatus::Error
    }

    /// Whether the status is Init, Connecting or Running.
    pub fn is_active(&self) -> (r: bool)
        ensures
            r == (self@.status == SessionStatus::Init || self@.status == SessionStatus::Connecting
                || self@.status == SessionStatus::Running),
    {
        match self.current_status {
            SessionStatus::Init | SessionStatus::Connecting | SessionStatus::Running => true,
            _ => false,
        }
    }

    pub fn is_error(&self) -> (r: bool)
        ensures
            r == (self@.status == SessionStatus::Error),
    {
        self.current_status == SessionStatus::Error
    }
}

impl Default for SessionStateManager {
    fn default() -> (r: SessionStateManager)
        ensures
            r@.status == SessionStatus::Init,
            r@.session_id == "unknown"@,
            r@.error_message is None,
    {
        SessionStateManager::new("unknown")
    }
}

} // verus!
