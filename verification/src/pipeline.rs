//! The consumer's step of the delivery pipeline: for one dequeued event,
//! decide whether it yields a message, finish the message, and resolve the
//! room it goes to. Performing the send — and logging and dropping a failed
//! one without halting the loop — is the caller's business.

use vstd::prelude::*;

use crate::config::route_result_view;
use crate::config::route_spec;
use crate::config::ProloloConfig;
use crate::config::RouteFailure;
use crate::config::RoutingError;
use crate::generic::generic_response;
use crate::generic::GenericEvent;
use crate::github_events::GitHubEvent;
use crate::github_handlers::github_event_wf;
use crate::github_handlers::github_response;
use crate::message_builder::MessageModel;
use crate::prolosite::prolosite_response;
use crate::prolosite::ProloSiteEvent;
use crate::response::response_view;
use crate::response::Response;
use crate::response::ResponseModel;

verus! {

/// One normalized event, whatever its source.
pub enum Event {
    GitHub(GitHubEvent),
    ProloSite(ProloSiteEvent),
    Generic(GenericEvent),
}

/// When an event carries everything its handler needs.
pub open spec fn event_wf(event: Event) -> bool {
    match event {
        Event::GitHub(e) => github_event_wf(e),
        Event::ProloSite(_) => true,
        Event::Generic(_) => true,
    }
}

/// What any event announces: its source's handler set decides.
pub open spec fn event_response(event: Event) -> Option<ResponseModel> {
    match event {
        Event::GitHub(e) => github_response(e),
        Event::ProloSite(e) => prolosite_response(e),
        Event::Generic(e) => generic_response(e),
    }
}

/// Checks [`event_wf`] at run time, for callers outside the library that
/// receive events from parsed payloads.
pub fn event_is_wf(event: &Event) -> (r: bool)
    ensures
        r == event_wf(*event),
{
    match event {
        Event::GitHub(e) => crate::github_handlers::github_event_is_wf(e),
        Event::ProloSite(_) => true,
        Event::Generic(_) => true,
    }
}

/// Dispatches an event to its source's handler set.
pub fn handle_event(event: Event) -> (r: Option<Response>)
    requires
        event_wf(event),
    ensures
        response_view(r) == event_response(event),
{
    match event {
        Event::GitHub(e) => crate::github_handlers::handle_github_event(e),
        Event::ProloSite(e) => crate::prolosite::handle_prolosite_event(e),
        Event::Generic(e) => crate::generic::handle_generic_event(e),
    }
}

/// A message ready to send: the resolved room and the two final
/// representations.
pub struct OutboundMessage {
    pub room_id: String,
    pub plain: String,
    pub html: String,
}

/// Every handler leaves all of its styles closed.
pub proof fn lemma_response_styles_closed(event: Event)
    ensures
        match event_response(event) {
            Some(m) => m.message.styles.len() == 0,
            None => true,
        },
{
    match event_response(event) {
        Some(m) => {
            assert(m.message.styles.len() == 0);
        },
        None => {},
    }
}

/// What the consumer does with one event: no message means nothing to send;
/// a message is finished and routed by its hint; a routing failure is
/// reported (and the caller logs and drops it, never halting the loop).
pub fn process_event(event: Event, config: &ProloloConfig) -> (r: Result<
    Option<OutboundMessage>,
    RoutingError,
>)
    requires
        event_wf(event),
    ensures
        match event_response(event) {
            None => r matches Ok(out) && out is None,
            Some(model) => match route_spec(
                config.matrix_rooms@,
                config.destinations@,
                model.repo,
            ) {
                Ok(room) => r matches Ok(out) && out matches Some(m) && m.room_id@ == room
                    && m.plain@ == model.message.built_plain() && m.html@ == model.message.html,
                Err(f) => r matches Err(e) && route_result_view(Err(e)) == Err::<
                    Seq<char>,
                    RouteFailure,
                >(f),
            },
        },
{
    proof {
        lemma_response_styles_closed(event);
    }
    let response = match handle_event(event) {
        Some(response) => response,
        None => {
            return Ok(None);
        },
    };
    let Response { message, repo } = response;

    let room_id = match &repo {
        Some(name) => config.find_room_for(name.as_str()),
        None => config.default_room(),
    };
    let room_id = match room_id {
        Ok(id) => id,
        Err(e) => {
            return Err(e);
        },
    };

    let content = message.build();
    Ok(Some(OutboundMessage { room_id, plain: content.plain, html: content.html }))
}

} // verus!
