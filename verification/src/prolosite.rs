//! Events reported by the website: crash reports, forum activity, new
//! schools, and impersonation notices, with one handler per variant.

use vstd::prelude::*;
use vstd::string::StringExecFns;

use crate::message_builder::MessageBuilder;
use crate::message_builder::MessageModel;
use crate::response::response_view;
use crate::response::Response;
use crate::response::ResponseModel;
use crate::utils::shorten_content_length;
use crate::utils::shortened;
use crate::utils::TITLE_CONTENT_BUDGET;

verus! {

/// The request that crashed.
pub struct Request {
    pub user: Option<String>,
    pub method: String,
    pub path: String,
}

/// The exception that a crash reported.
pub struct Exception {
    pub value: String,
    pub trace: Vec<String>,
}

/// A crash report from the website.
pub struct DjangoErrorPayload {
    pub request: Request,
    pub exception: Exception,
}

/// A new forum thread.
pub struct ForumPayload {
    pub username: String,
    pub forum: String,
    pub title: String,
    pub url: String,
}

/// A newly added school.
pub struct NewSchoolPayload {
    pub name: String,
    pub url: String,
}

/// A website account.
pub struct User {
    pub username: String,
    pub url: String,
}

/// An impersonation started or ended.
pub struct ImpersonatePayload {
    pub event: String,
    pub hijacker: User,
    pub hijacked: User,
}

/// One normalized website event.
pub enum ProloSiteEvent {
    Error(DjangoErrorPayload),
    Forum(ForumPayload),
    NewSchool(NewSchoolPayload),
    Impersonate(ImpersonatePayload),
}

/// What a crash report announces.
pub open spec fn error_response(event: DjangoErrorPayload) -> Option<ResponseModel> {
    let tagged = MessageModel::empty().tagged("django crash"@, Some("ðŸ”¥"@));
    let with_user = match event.request.user {
        Some(u) => tagged.written(" ("@ + u@ + ")"@),
        None => tagged,
    };
    Some(
        ResponseModel {
            message: with_user.written(
                " "@ + event.request.method@ + " "@,
            ).coded().written(event.request.path@).closed_last().written(": "@).coded().written(
                event.exception.value@,
            ).closed_last(),
            repo: None,
        },
    )
}

/// Announces a crash of the website.
pub fn handle_prolosite_error(event: DjangoErrorPayload) -> (r: Option<Response>)
    ensures
        response_view(r) == error_response(event),
{
    let mut message = MessageBuilder::new();

    message.tag("django crash", Some("ðŸ”¥"));

    match &event.request.user {
        Some(user) => {
            let mut seg = String::from_str(" (");
            seg.append(user.as_str());
            seg.append(")");
            message.write_str(seg.as_str());
        },
        None => {},
    }

    let mut seg = String::from_str(" ");
    seg.append(event.request.method.as_str());
    seg.append(" ");
    message.write_str(seg.as_str());

    message.code();
    message.write_str(event.request.path.as_str());
    message.close_last();

    message.write_str(": ");

    message.code();
    message.write_str(event.exception.value.as_str());
    message.close_last();

    Some(Response { message, repo: None })
}

/// What a new forum thread announces.
pub open spec fn forum_response(event: ForumPayload) -> Option<ResponseModel> {
    Some(
        ResponseModel {
            message: MessageModel::empty().tagged("forum"@, Some("💬"@)).written(
                " "@ + event.username@ + " created "@,
            ).main_linked("new thread"@, event.url@).written(
                " in "@ + event.forum@ + ": "@ + shortened(
                    event.title@,
                    TITLE_CONTENT_BUDGET as int,
                ),
            ),
            repo: None,
        },
    )
}

/// Announces a new forum thread.
pub fn handle_prolosite_forum(event: ForumPayload) -> (r: Option<Response>)
    ensures
        response_view(r) == forum_response(event),
{
    let mut message = MessageBuilder::new();

    message.tag("forum", Some("💬"));

    let mut seg = String::from_str(" ");
    seg.append(event.username.as_str());
    seg.append(" created ");
    message.write_str(seg.as_str());

    message.main_link("new thread", event.url.as_str());

    let mut tail = String::from_str(" in ");
    tail.append(event.forum.as_str());
    tail.append(": ");
    tail.append(shorten_content_length(event.title.as_str(), TITLE_CONTENT_BUDGET).as_str());
    message.write_str(tail.as_str());

    Some(Response { message, repo: None })
}

/// What a newly added school announces.
pub open spec fn new_school_response(event: NewSchoolPayload) -> Option<ResponseModel> {
    Some(
        ResponseModel {
            message: MessageModel::empty().tagged("school"@, Some("🎓"@)).written(
                " New school added: "@,
            ).main_linked(event.name@, event.url@),
            repo: None,
        },
    )
}

/// Announces a newly added school.
pub fn handle_prolosite_new_school(event: NewSchoolPayload) -> (r: Option<Response>)
    ensures
        response_view(r) == new_school_response(event),
{
    let mut message = MessageBuilder::new();

    message.tag("school", Some("🎓"));
    message.write_str(" New school added: ");
    message.main_link(event.name.as_str(), event.url.as_str());

    Some(Response { message, repo: None })
}

/// What an impersonation notice announces.
pub open spec fn impersonate_response(event: ImpersonatePayload) -> Option<ResponseModel> {
    Some(
        ResponseModel {
            message: MessageModel::empty().tagged("impersonate"@, Some("ðŸš¨"@)).written(
                " "@,
            ).linked(event.hijacker.username@, event.hijacker.url@).written(
                " "@ + event.event@ + "ed impersonation of "@,
            ).main_linked(event.hijacked.username@, event.hijacked.url@),
            repo: None,
        },
    )
}

/// Announces a started or ended impersonation.
pub fn handle_prolosite_impersonate(event: ImpersonatePayload) -> (r: Option<Response>)
    ensures
        response_view(r) == impersonate_response(event),
{
    let mut message = MessageBuilder::new();

    message.tag("impersonate", Some("ðŸš¨"));
    message.write_str(" ");
    message.link(event.hijacker.username.as_str(), event.hijacker.url.as_str());

    let mut seg = String::from_str(" ");
    seg.append(event.event.as_str());
    seg.append("ed impersonation of ");
    message.write_str(seg.as_str());

    message.main_link(event.hijacked.username.as_str(), event.hijacked.url.as_str());

    Some(Response { message, repo: None })
}

/// What any website event announces: the variant's handler decides.
pub open spec fn prolosite_response(event: ProloSiteEvent) -> Option<ResponseModel> {
    match event {
        ProloSiteEvent::Error(e) => error_response(e),
        ProloSiteEvent::Forum(e) => forum_response(e),
        ProloSiteEvent::NewSchool(e) => new_school_response(e),
        ProloSiteEvent::Impersonate(e) => impersonate_response(e),
    }
}

/// Dispatches a website event to the handler of its variant.
pub fn handle_prolosite_event(event: ProloSiteEvent) -> (r: Option<Response>)
    ensures
        response_view(r) == prolosite_response(event),
{
    match event {
        ProloSiteEvent::Error(e) => handle_prolosite_error(e),
        ProloSiteEvent::Forum(e) => handle_prolosite_forum(e),
        ProloSiteEvent::NewSchool(e) => handle_prolosite_new_school(e),
        ProloSiteEvent::Impersonate(e) => handle_prolosite_impersonate(e),
    }
}

} // verus!
