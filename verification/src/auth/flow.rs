//! The order of events in browser authorization: the URL is shown, a failed
//! browser launch is reported, the flow waits for the callback, and the code
//! is exchanged. The shell performs each step and reports it here; this says
//! which events to report and where the flow stands.

use vstd::prelude::*;

use super::event::AuthEvent;

verus! {

/// Where browser authorization stands.
#[derive(Debug, Clone, PartialEq, Eq)]
pub enum BrowserFlow {
    /// No authorization URL yet.
    Start,
    /// The URL is shown; the browser launch comes next.
    UrlShown { callback_addr: String },
    /// Waiting for the callback with the code.
    Waiting,
    /// The code arrived and is being exchanged for tokens.
    Exchanging,
}

/// What the shell did for the flow.
#[derive(Debug, Clone, PartialEq, Eq)]
pub enum BrowserFlowInput {
    /// The authorization URL was built and the listener waits at `callback_addr`.
    UrlReady { url: String, callback_addr: String },
    /// The browser was launched; `failure` is the launch error, if any.
    BrowserLaunched { failure: Option<String> },
    /// The callback delivered a code.
    CodeReceived,
}

/// The stage after `input` and the events it reports, or `None` when the
/// input does not belong to the stage.
pub open spec fn browser_flow(stage: BrowserFlow, input: BrowserFlowInput) -> Option<
    (BrowserFlow, Seq<AuthEvent>),
> {
    match (stage, input) {
        (BrowserFlow::Start, BrowserFlowInput::UrlReady { url, callback_addr }) => Some(
            (
                BrowserFlow::UrlShown { callback_addr },
                seq![AuthEvent::AuthorizationUrl { url, callback_addr }],
            ),
        ),
        (BrowserFlow::UrlShown { callback_addr }, BrowserFlowInput::BrowserLaunched { failure }) => {
            let waiting = AuthEvent::WaitingForCallback { callback_addr };
            match failure {
                Some(message) => Some(
                    (BrowserFlow::Waiting, seq![AuthEvent::BrowserOpenFailed { message }, waiting]),
                ),
                None => Some((BrowserFlow::Waiting, seq![waiting])),
            }
        },
        (BrowserFlow::Waiting, BrowserFlowInput::CodeReceived) => Some(
            (BrowserFlow::Exchanging, seq![AuthEvent::ExchangingCode]),
        ),
        _ => None,
    }
}

/// The stage a step leads to (the start, for a refused step).
pub open spec fn stage_after(step: Option<(BrowserFlow, Seq<AuthEvent>)>) -> BrowserFlow {
    match step {
        Some((stage, _)) => stage,
        None => BrowserFlow::Start,
    }
}

/// The events a step reports (none, for a refused step).
pub open spec fn events_of(step: Option<(BrowserFlow, Seq<AuthEvent>)>) -> Seq<AuthEvent> {
    match step {
        Some((_, events)) => events,
        None => Seq::empty(),
    }
}

/// Takes the flow one step: the next stage and the events to report, in
/// order, or `None` for an input that does not belong to the stage.
pub fn browser_flow_step(stage: BrowserFlow, input: BrowserFlowInput) -> (r: Option<
    (BrowserFlow, Vec<AuthEvent>),
>)
    ensures
        match browser_flow(stage, input) {
            None => r is None,
            Some((next, events)) => r matches Some((s, v)) && s == next && v@ == events,
        },
{
    match (stage, input) {
        (BrowserFlow::Start, BrowserFlowInput::UrlReady { url, callback_addr }) => {
            let event = AuthEvent::AuthorizationUrl { url, callback_addr: callback_addr.clone() };
            let mut events = Vec::new();
            events.push(event);
            Some((BrowserFlow::UrlShown { callback_addr }, events))
        },
        (BrowserFlow::UrlShown { callback_addr }, BrowserFlowInput::BrowserLaunched { failure }) => {
            let mut events = Vec::new();
            if let Some(message) = failure {
                events.push(AuthEvent::BrowserOpenFailed { message });
            }
            events.push(AuthEvent::WaitingForCallback { callback_addr });
            Some((BrowserFlow::Waiting, events))
        },
        (BrowserFlow::Waiting, BrowserFlowInput::CodeReceived) => {
            let mut events = Vec::new();
            events.push(AuthEvent::ExchangingCode);
            Some((BrowserFlow::Exchanging, events))
        },
        _ => None,
    }
}

/// A flow that is handed its URL, its browser launch and its code, in that
/// order, reports the URL, the launch failure if there was one, that it
/// waits for the callback, and that it exchanges the code, and nothing else.
pub proof fn law_browser_flow_order(
    url: String,
    callback_addr: String,
    failure: Option<String>,
)
    ensures
        ({
            let s1 = browser_flow(
                BrowserFlow::Start,
                BrowserFlowInput::UrlReady { url, callback_addr },
            );
            let s2 = browser_flow(stage_after(s1), BrowserFlowInput::BrowserLaunched { failure });
            let s3 = browser_flow(stage_after(s2), BrowserFlowInput::CodeReceived);
            &&& s1 is Some && s2 is Some && s3 is Some
            &&& stage_after(s3) == BrowserFlow::Exchanging
            &&& events_of(s1) + events_of(s2) + events_of(s3) == match failure {
                Some(message) => seq![
                    AuthEvent::AuthorizationUrl { url, callback_addr },
                    AuthEvent::BrowserOpenFailed { message },
                    AuthEvent::WaitingForCallback { callback_addr },
                    AuthEvent::ExchangingCode,
                ],
                None => seq![
                    AuthEvent::AuthorizationUrl { url, callback_addr },
                    AuthEvent::WaitingForCallback { callback_addr },
                    AuthEvent::ExchangingCode,
                ],
            }
        }),
{
    let s1 = browser_flow(BrowserFlow::Start, BrowserFlowInput::UrlReady { url, callback_addr });
    let s2 = browser_flow(stage_after(s1), BrowserFlowInput::BrowserLaunched { failure });
    let s3 = browser_flow(stage_after(s2), BrowserFlowInput::CodeReceived);
    match failure {
        Some(message) => {
            assert(events_of(s1) + events_of(s2) + events_of(s3) =~= seq![
                AuthEvent::AuthorizationUrl { url, callback_addr },
                AuthEvent::BrowserOpenFailed { message },
                AuthEvent::WaitingForCallback { callback_addr },
                AuthEvent::ExchangingCode,
            ]);
        },
        None => {
            assert(events_of(s1) + events_of(s2) + events_of(s3) =~= seq![
                AuthEvent::AuthorizationUrl { url, callback_addr },
                AuthEvent::WaitingForCallback { callback_addr },
                AuthEvent::ExchangingCode,
            ]);
        },
    }
}

/// Every other order of inputs is refused: a stage takes exactly one kind of
/// input, and the exchange takes none.
pub proof fn law_browser_flow_refuses_other_orders(stage: BrowserFlow, input: BrowserFlowInput)
    ensures
        browser_flow(stage, input) is Some <==> match stage {
            BrowserFlow::Start => input is UrlReady,
            BrowserFlow::UrlShown { .. } => input is BrowserLaunched,
            BrowserFlow::Waiting => input is CodeReceived,
            BrowserFlow::Exchanging => false,
        },
{
}

} // verus!
