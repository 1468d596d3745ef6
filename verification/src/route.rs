//! The routing decision: whether an event is telemetry, which span gives
//! its routing key, and which message is to be delivered.

use crate::attrs::after_fields;
use crate::attrs::empty_attrs;
use crate::attrs::extract;
use crate::attrs::MalformedEvent;
use crate::attrs::TelemetryAttrs;
use crate::attrs::TelemetryAttrsView;
use crate::event::scope_view;
use crate::event::SpanFrame;
use crate::event::SpanFrameView;
use crate::event::TelemetryEvent;
use crate::event::TelemetryEventView;
use crate::text::str_eq;
use vstd::prelude::*;

verus! {

/// The name that marks both a telemetry event (as its target) and a
/// telemetry span.
pub const TELEMETRY_LOG_SPAN: &'static str = "telemetry-logger";

/// The characters of [`TELEMETRY_LOG_SPAN`].
pub open spec fn telemetry_marker() -> Seq<char> {
    "telemetry-logger"@
}

/// What is to be done with an event.
#[derive(Debug)]
pub enum Routing {
    /// The event is not telemetry: nothing is done.
    Ignore,
    /// The event is telemetry, but no telemetry span encloses it.
    NoSpan,
    /// The message is to be offered to the channel registered under `id`.
    Deliver { id: u64, verbosity: u8, json: String },
}

/// The mathematical value of a [`Routing`].
pub enum RoutingView {
    Ignore,
    NoSpan,
    Deliver { id: u64, verbosity: u8, json: Seq<char> },
}

impl View for Routing {
    type V = RoutingView;

    open spec fn view(&self) -> RoutingView {
        match self {
            Routing::Ignore => RoutingView::Ignore,
            Routing::NoSpan => RoutingView::NoSpan,
            Routing::Deliver { id, verbosity, json } => RoutingView::Deliver {
                id: *id,
                verbosity: *verbosity,
                json: json@,
            },
        }
    }
}

/// The id of the first span of `scope`, in the scope's own order, that
/// bears the telemetry marker.
pub open spec fn first_telemetry_span(scope: Seq<SpanFrameView>) -> Option<u64>
    decreases scope.len(),
{
    if scope.len() == 0 {
        None
    } else if scope[0].name == telemetry_marker() {
        Some(scope[0].id)
    } else {
        first_telemetry_span(scope.drop_first())
    }
}

/// The message that a decoded record stands for. Both fields must have
/// been decoded, and the verbosity must fit in one byte.
pub open spec fn checked_message(attrs: TelemetryAttrsView) -> Result<
    (u8, Seq<char>),
    MalformedEvent,
> {
    match attrs.message_verbosity {
        Some(verbosity) => match attrs.json {
            Some(json) => if verbosity <= u8::MAX {
                Ok((verbosity as u8, json))
            } else {
                Err(MalformedEvent::VerbosityOutOfRange)
            },
            None => Err(MalformedEvent::MissingFields),
        },
        None => Err(MalformedEvent::MissingFields),
    }
}

/// The routing of an event emitted inside `scope`.
///
/// An event whose target is not the marker is ignored before anything else
/// is looked at. Otherwise the scope decides the routing key; without one
/// the event is dropped undecoded. Only then are the fields decoded and
/// checked.
pub open spec fn routing_of(event: TelemetryEventView, scope: Seq<SpanFrameView>) -> Result<
    RoutingView,
    MalformedEvent,
> {
    if event.target != telemetry_marker() {
        Ok(RoutingView::Ignore)
    } else {
        match first_telemetry_span(scope) {
            None => Ok(RoutingView::NoSpan),
            Some(id) => match after_fields(empty_attrs(id), event.fields) {
                Err(e) => Err(e),
                Ok(attrs) => match checked_message(attrs) {
                    Err(e) => Err(e),
                    Ok(message) => Ok(
                        RoutingView::Deliver { id, verbosity: message.0, json: message.1 },
                    ),
                },
            },
        }
    }
}

/// Whether `target` marks an event as telemetry.
pub fn is_telemetry_target(target: &str) -> (relevant: bool)
    ensures
        relevant == (target@ == telemetry_marker()),
{
    str_eq(target, TELEMETRY_LOG_SPAN)
}

/// Searches `scope`, in its own order, for the first telemetry span.
pub fn find_telemetry_span(scope: &Vec<SpanFrame>) -> (found: Option<u64>)
    ensures
        found == first_telemetry_span(scope_view(scope@)),
{
    let ghost all = scope_view(scope@);
    let mut i: usize = 0;
    assert(all.subrange(0, all.len() as int) =~= all);
    while i < scope.len()
        invariant
            i <= scope.len(),
            all == scope_view(scope@),
            first_telemetry_span(all.subrange(i as int, all.len() as int)) == first_telemetry_span(
                all,
            ),
        decreases scope.len() - i,
    {
        let ghost rest = all.subrange(i as int, all.len() as int);
        assert(rest[0] == scope@[i as int]@);
        assert(rest.drop_first() =~= all.subrange(i as int + 1, all.len() as int));
        if str_eq(scope[i].name.as_str(), TELEMETRY_LOG_SPAN) {
            return Some(scope[i].id);
        }
        i += 1;
    }
    assert(all.subrange(i as int, all.len() as int).len() == 0);
    None
}

impl TelemetryAttrs {
    /// Turns the decoded record into the message to deliver.
    pub fn into_message(self) -> (message: Result<(u8, String), MalformedEvent>)
        ensures
            match checked_message(self@) {
                Ok(m) => message matches Ok(got) && got.0 == m.0 && got.1@ == m.1,
                Err(e) => message matches Err(got) && got == e,
            },
    {
        match self.message_verbosity {
            Some(verbosity) => match self.json {
                Some(json) => if verbosity <= 255 {
                    Ok((verbosity as u8, json))
                } else {
                    Err(MalformedEvent::VerbosityOutOfRange)
                },
                None => Err(MalformedEvent::MissingFields),
            },
            None => Err(MalformedEvent::MissingFields),
        }
    }
}

/// Decides what is to be done with `event`, emitted inside `scope`.
pub fn route(event: &TelemetryEvent, scope: &Vec<SpanFrame>) -> (routed: Result<
    Routing,
    MalformedEvent,
>)
    ensures
        match routing_of(event@, scope_view(scope@)) {
            Ok(routing) => routed matches Ok(got) && got@ == routing,
            Err(e) => routed matches Err(got) && got == e,
        },
{
    if !is_telemetry_target(event.target.as_str()) {
        return Ok(Routing::Ignore);
    }
    match find_telemetry_span(scope) {
        None => Ok(Routing::NoSpan),
        Some(id) => {
            match extract(id, &event.fields) {
                Err(e) => Err(e),
                Ok(attrs) => match attrs.into_message() {
                    Err(e) => Err(e),
                    Ok(message) => Ok(Routing::Deliver { id, verbosity: message.0, json: message.1 }),
                },
            }
        },
    }
}

} // verus!
