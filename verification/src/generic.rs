//! The generic multi-tenant alert: a tagged free-form message with an
//! optional link, relayed as-is.

use vstd::prelude::*;
use vstd::string::StringExecFns;

use crate::message_builder::MessageBuilder;
use crate::message_builder::MessageModel;
use crate::response::response_view;
use crate::response::Response;
use crate::response::ResponseModel;

verus! {

/// The body of a generic alert.
pub struct GenericPayload {
    pub tag: Option<String>,
    pub message: String,
    pub url: Option<String>,
}

/// A normalized generic alert.
pub struct GenericEvent(pub GenericPayload);

/// What a generic alert announces: its optional tag, its message, and its
/// optional URL in parentheses.
pub open spec fn generic_response(event: GenericEvent) -> Option<ResponseModel> {
    let payload = event.0;
    let tagged = match payload.tag {
        Some(t) => MessageModel::empty().tagged(t@, None).written(" "@),
        None => MessageModel::empty(),
    };
    let written = tagged.written(payload.message@);
    let with_url = match payload.url {
        Some(u) => written.written(" ("@ + u@ + ")"@),
        None => written,
    };
    Some(ResponseModel { message: with_url, repo: None })
}

/// Announces a generic alert.
pub fn handle_generic_event(event: GenericEvent) -> (r: Option<Response>)
    ensures
        response_view(r) == generic_response(event),
{
    let GenericEvent(payload) = event;

    let mut message = MessageBuilder::new();

    match &payload.tag {
        Some(tag) => {
            message.tag(tag.as_str(), None);
            message.write_str(" ");
        },
        None => {},
    }

    message.write_str(payload.message.as_str());

    match &payload.url {
        Some(url) => {
            let mut seg = String::from_str(" (");
            seg.append(url.as_str());
            seg.append(")");
            message.write_str(seg.as_str());
        },
        None => {},
    }

    Some(Response { message, repo: None })
}

} // verus!
