//! The status carried by every response.

use vstd::prelude::*;
use vstd::string::*;

verus! {

/// The five states a response can be in, without the message.
#[derive(Clone, Copy, Debug, PartialEq, Eq, Structural)]
pub enum StatusKind {
    Success,
    Fail,
    Ready,
    Pending,
    NotStart,
}

/// Mathematical model of a status: its kind and its message text.
pub struct StatusView {
    pub kind: StatusKind,
    pub message: Seq<char>,
}

/// Status of a response, each state carrying a human-readable message.
///
/// `Success` and `Fail` are terminal; `Ready`, `Pending` and `NotStart`
/// are transient.
#[derive(Debug)]
pub enum StatusCode {
    /// The handler ran to completion.
    Success(String),
    /// The request failed; the message says why.
    Fail(String),
    /// Accepted and waiting for an answer.
    Ready(String),
    /// The handler is running.
    Pending(String),
    /// Not yet handed to a handler.
    NotStart(String),
}

impl View for StatusCode {
    type V = StatusView;

    open spec fn view(&self) -> StatusView {
        match self {
            StatusCode::Success(m) => StatusView { kind: StatusKind::Success, message: m@ },
            StatusCode::Fail(m) => StatusView { kind: StatusKind::Fail, message: m@ },
            StatusCode::Ready(m) => StatusView { kind: StatusKind::Ready, message: m@ },
            StatusCode::Pending(m) => StatusView { kind: StatusKind::Pending, message: m@ },
            StatusCode::NotStart(m) => StatusView { kind: StatusKind::NotStart, message: m@ },
        }
    }
}

impl StatusView {
    /// A status is terminal once the request has been answered.
    pub open spec fn is_terminal(self) -> bool {
        self.kind == StatusKind::Success || self.kind == StatusKind::Fail
    }
}

/// The default message of each kind of status.
pub open spec fn default_message(kind: StatusKind) -> Seq<char> {
    match kind {
        StatusKind::Success => "执行成功"@,
        StatusKind::Fail => "执行失败"@,
        StatusKind::Ready => "准备就绪"@,
        StatusKind::Pending => "正在执行"@,
        StatusKind::NotStart => "未执行"@,
    }
}

/// The status of the given kind with its default message.
pub open spec fn default_status(kind: StatusKind) -> StatusView {
    StatusView { kind, message: default_message(kind) }
}

impl StatusCode {
    pub fn ok() -> (s: StatusCode)
        ensures
            s@ == default_status(StatusKind::Success),
    {
        StatusCode::Success(String::from_str("执行成功"))
    }

    pub fn fail() -> (s: StatusCode)
        ensures
            s@ == default_status(StatusKind::Fail),
    {
        StatusCode::Fail(String::from_str("执行失败"))
    }

    pub fn pending() -> (s: StatusCode)
        ensures
            s@ == default_status(StatusKind::Pending),
    {
        StatusCode::Pending(String::from_str("正在执行"))
    }

    pub fn ready() -> (s: StatusCode)
        ensures
            s@ == default_status(StatusKind::Ready),
    {
        StatusCode::Ready(String::from_str("准备就绪"))
    }

    pub fn not_start() -> (s: StatusCode)
        ensures
            s@ == default_status(StatusKind::NotStart),
    {
        StatusCode::NotStart(String::from_str("未执行"))
    }

    /// A failure with the given message.
    pub fn failed(message: String) -> (s: StatusCode)
        ensures
            s@ == (StatusView { kind: StatusKind::Fail, message: message@ }),
    {
        StatusCode::Fail(message)
    }

    pub fn is_ok(&self) -> (b: bool)
        ensures
            b == (self@.kind == StatusKind::Success),
    {
        match self {
            StatusCode::Success(_) => true,
            _ => false,
        }
    }

    /// Which of the five states this is.
    pub fn kind(&self) -> (k: StatusKind)
        ensures
            k == self@.kind,
    {
        match self {
            StatusCode::Success(_) => StatusKind::Success,
            StatusCode::Fail(_) => StatusKind::Fail,
            StatusCode::Ready(_) => StatusKind::Ready,
            StatusCode::Pending(_) => StatusKind::Pending,
            StatusCode::NotStart(_) => StatusKind::NotStart,
        }
    }

    /// The message carried by the status.
    pub fn message(&self) -> (m: &String)
        ensures
            m@ == self@.message,
    {
        match self {
            StatusCode::Success(m) => m,
            StatusCode::Fail(m) => m,
            StatusCode::Ready(m) => m,
            StatusCode::Pending(m) => m,
            StatusCode::NotStart(m) => m,
        }
    }

    /// A copy of the status with the same kind and message.
    pub fn duplicate(&self) -> (s: StatusCode)
        ensures
            s@ == self@,
    {
        match self {
            StatusCode::Success(m) => StatusCode::Success(m.clone()),
            StatusCode::Fail(m) => StatusCode::Fail(m.clone()),
            StatusCode::Ready(m) => StatusCode::Ready(m.clone()),
            StatusCode::Pending(m) => StatusCode::Pending(m.clone()),
            StatusCode::NotStart(m) => StatusCode::NotStart(m.clone()),
        }
    }
}

impl Default for StatusCode {
    fn default() -> (s: StatusCode)
        ensures
            s@ == default_status(StatusKind::Ready),
    {
        StatusCode::ready()
    }
}

impl Clone for StatusCode {
    fn clone(&self) -> (s: StatusCode)
        ensures
            s@ == self@,
    {
        self.duplicate()
    }
}

} // verus!
