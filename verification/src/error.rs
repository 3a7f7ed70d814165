//! The errors of the broker and their message texts.

use vstd::prelude::*;
use vstd::string::*;

verus! {

/// The kinds of error, without their detail text.
#[derive(Clone, Copy, Debug, PartialEq, Eq, Structural)]
pub enum ErrorKind {
    ReqExistInQueue,
    ReqSendError,
    Io,
    ParseJsonError,
    BodyNoData,
    ParamNoData,
    NotUtf8,
    PathNotFoundError,
    GetDataError,
    Custom,
}

/// Mathematical model of an error: its kind and its detail text (empty for
/// the kinds that carry none).
pub struct ErrorView {
    pub kind: ErrorKind,
    pub detail: Seq<char>,
}

/// Everything that can go wrong between submitting a request and reading
/// its response.
#[derive(Debug)]
pub enum ChannelError {
    /// A request for the same URI is already in flight.
    ReqExistInQueue,
    /// The request channel is closed or full.
    ReqSendError,
    /// An I/O failure; carries the text of the underlying error.
    Io(String),
    /// The body or the parameter is not well-formed JSON.
    ParseJsonError,
    /// The body was absent or has been taken by another extractor.
    BodyNoData,
    /// The request has no parameter.
    ParamNoData,
    /// The body is not valid UTF-8; carries the decoder's explanation.
    NotUtf8(String),
    /// No handler is registered under the URI that is carried.
    PathNotFoundError(String),
    /// No shared value of the named type was attached.
    GetDataError(String),
    /// Any other failure, with its description.
    Custom(String),
}

impl View for ChannelError {
    type V = ErrorView;

    open spec fn view(&self) -> ErrorView {
        match self {
            ChannelError::ReqExistInQueue => ErrorView {
                kind: ErrorKind::ReqExistInQueue,
                detail: Seq::empty(),
            },
            ChannelError::ReqSendError => ErrorView {
                kind: ErrorKind::ReqSendError,
                detail: Seq::empty(),
            },
            ChannelError::Io(d) => ErrorView { kind: ErrorKind::Io, detail: d@ },
            ChannelError::ParseJsonError => ErrorView {
                kind: ErrorKind::ParseJsonError,
                detail: Seq::empty(),
            },
            ChannelError::BodyNoData => ErrorView {
                kind: ErrorKind::BodyNoData,
                detail: Seq::empty(),
            },
            ChannelError::ParamNoData => ErrorView {
                kind: ErrorKind::ParamNoData,
                detail: Seq::empty(),
            },
            ChannelError::NotUtf8(d) => ErrorView { kind: ErrorKind::NotUtf8, detail: d@ },
            ChannelError::PathNotFoundError(d) => ErrorView {
                kind: ErrorKind::PathNotFoundError,
                detail: d@,
            },
            ChannelError::GetDataError(d) => ErrorView { kind: ErrorKind::GetDataError, detail: d@ },
            ChannelError::Custom(d) => ErrorView { kind: ErrorKind::Custom, detail: d@ },
        }
    }
}

/// The fixed part of each kind's message: the whole message for the kinds
/// without detail, the prefix before the detail for the others.
pub open spec fn message_prefix(kind: ErrorKind) -> Seq<char> {
    match kind {
        ErrorKind::ReqExistInQueue => "请求已经在队列中"@,
        ErrorKind::ReqSendError => "请求发送失败"@,
        ErrorKind::Io => "io: "@,
        ErrorKind::ParseJsonError => "解析json异常"@,
        ErrorKind::BodyNoData => "the request body has no data"@,
        ErrorKind::ParamNoData => "the request param has no data"@,
        ErrorKind::NotUtf8 => "parse utf8: "@,
        ErrorKind::PathNotFoundError => "路径未找到: "@,
        ErrorKind::GetDataError => "Get data 异常: "@,
        ErrorKind::Custom => "异常: "@,
    }
}

impl ErrorView {
    /// The human-readable message: the kind's fixed text followed by the
    /// detail.
    pub open spec fn message(self) -> Seq<char> {
        message_prefix(self.kind) + self.detail
    }
}

impl ChannelError {
    /// Which kind of error this is.
    pub fn kind(&self) -> (k: ErrorKind)
        ensures
            k == self@.kind,
    {
        match self {
            ChannelError::ReqExistInQueue => ErrorKind::ReqExistInQueue,
            ChannelError::ReqSendError => ErrorKind::ReqSendError,
            ChannelError::Io(_) => ErrorKind::Io,
            ChannelError::ParseJsonError => ErrorKind::ParseJsonError,
            ChannelError::BodyNoData => ErrorKind::BodyNoData,
            ChannelError::ParamNoData => ErrorKind::ParamNoData,
            ChannelError::NotUtf8(_) => ErrorKind::NotUtf8,
            ChannelError::PathNotFoundError(_) => ErrorKind::PathNotFoundError,
            ChannelError::GetDataError(_) => ErrorKind::GetDataError,
            ChannelError::Custom(_) => ErrorKind::Custom,
        }
    }

    /// The message shown to a caller; a failed response carries it as its
    /// status message.
    pub fn to_string(&self) -> (s: String)
        ensures
            s@ == self@.message(),
    {
        match self {
            ChannelError::ReqExistInQueue => {
                let s = String::from_str("请求已经在队列中");
                assert(s@ =~= self@.message());
                s
            },
            ChannelError::ReqSendError => {
                let s = String::from_str("请求发送失败");
                assert(s@ =~= self@.message());
                s
            },
            ChannelError::Io(d) => String::from_str("io: ").concat(d.as_str()),
            ChannelError::ParseJsonError => {
                let s = String::from_str("解析json异常");
                assert(s@ =~= self@.message());
                s
            },
            ChannelError::BodyNoData => {
                let s = String::from_str("the request body has no data");
                assert(s@ =~= self@.message());
                s
            },
            ChannelError::ParamNoData => {
                let s = String::from_str("the request param has no data");
                assert(s@ =~= self@.message());
                s
            },
            ChannelError::NotUtf8(d) => String::from_str("parse utf8: ").concat(d.as_str()),
            ChannelError::PathNotFoundError(d) => String::from_str("路径未找到: ").concat(
                d.as_str(),
            ),
            ChannelError::GetDataError(d) => String::from_str("Get data 异常: ").concat(
                d.as_str(),
            ),
            ChannelError::Custom(d) => String::from_str("异常: ").concat(d.as_str()),
        }
    }
}

} // verus!
