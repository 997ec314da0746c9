//! What a handler produces for one event: the message under construction
//! and the destination hint (a repository full name), when any.

use vstd::prelude::*;

use crate::message_builder::MessageBuilder;
use crate::message_builder::MessageModel;

verus! {

/// A handler's output: the built message and an optional destination hint.
pub struct Response {
    /// The message to deliver.
    pub message: MessageBuilder,
    /// The natural key of the origin, used to pick a room; absence means the
    /// default room.
    pub repo: Option<String>,
}

/// The mathematical value of a [`Response`].
#[verifier::ext_equal]
pub struct ResponseModel {
    /// The state of the built message.
    pub message: MessageModel,
    /// The destination hint.
    pub repo: Option<Seq<char>>,
}

impl View for Response {
    type V = ResponseModel;

    open spec fn view(&self) -> ResponseModel {
        ResponseModel { message: self.message@, repo: self.repo.deep_view() }
    }
}

/// The model of an optional handler output.
pub open spec fn response_view(r: Option<Response>) -> Option<ResponseModel> {
    match r {
        Some(resp) => Some(resp@),
        None => None,
    }
}

} // verus!
