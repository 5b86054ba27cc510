//! What one GET came to, as plain values.

use vstd::prelude::*;
use crate::error::{RequestCause, RequestCauseView};
use crate::json::{Json, JsonValue};

verus! {

/// The body of an answer.
#[derive(Debug, PartialEq, Eq)]
pub enum Body {
    /// The body could not be read as JSON text; `detail` is the reader's message.
    Unreadable { detail: String },
    /// The body, read as JSON.
    Json(JsonValue),
}

/// The outcome of one GET.
#[derive(Debug, PartialEq, Eq)]
pub enum HttpReply {
    /// The transport gave up before any answer arrived; `detail` is its message.
    Unreachable { detail: String },
    /// The server answered.
    Answered { status: u16, body: Body },
}

/// The mathematical value of a [`Body`].
pub enum BodyView {
    Unreadable { detail: Seq<char> },
    Json(Json),
}

/// The mathematical value of an [`HttpReply`].
pub enum ReplyView {
    Unreachable { detail: Seq<char> },
    Answered { status: u16, body: BodyView },
}

impl View for Body {
    type V = BodyView;

    open spec fn view(&self) -> BodyView {
        match self {
            Body::Unreadable { detail } => BodyView::Unreadable { detail: detail@ },
            Body::Json(value) => BodyView::Json(value@),
        }
    }
}

impl View for HttpReply {
    type V = ReplyView;

    open spec fn view(&self) -> ReplyView {
        match self {
            HttpReply::Unreachable { detail } => ReplyView::Unreachable { detail: detail@ },
            HttpReply::Answered { status, body } => ReplyView::Answered {
                status: *status,
                body: body@,
            },
        }
    }
}

/// Whether `status` is one of the success codes, 200 to 299.
pub open spec fn is_success(status: u16) -> bool {
    200 <= status <= 299
}

/// Whether `status` is one of the success codes, 200 to 299.
pub fn is_success_status(status: u16) -> (success: bool)
    ensures
        success == is_success(status),
{
    200 <= status && status <= 299
}

/// The body that a reply has to offer, or why it has none: the transport
/// failed, or the status is no success code. The status decides before the
/// body is looked at.
pub open spec fn body_of(reply: ReplyView) -> Result<BodyView, RequestCauseView> {
    match reply {
        ReplyView::Unreachable { detail } => Err(RequestCauseView::Transport { detail }),
        ReplyView::Answered { status, body } => if is_success(status) {
            Ok(body)
        } else {
            Err(RequestCauseView::Status { code: status })
        },
    }
}

/// Hands out the body of a successful answer, or says why there is none.
pub fn accept(reply: &HttpReply) -> (accepted: Result<&Body, RequestCause>)
    ensures
        (match body_of(reply@) {
            Ok(body) => accepted matches Ok(b) && b@ == body,
            Err(cause) => accepted matches Err(c) && c@ == cause,
        }),
{
    match reply {
        HttpReply::Unreachable { detail } => Err(RequestCause::Transport { detail: detail.clone() }),
        HttpReply::Answered { status, body } => if is_success_status(*status) {
            Ok(body)
        } else {
            Err(RequestCause::Status { code: *status })
        },
    }
}

} // verus!
