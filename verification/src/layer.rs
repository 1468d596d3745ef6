//! The routing layer: called once per event, it decides whether the event
//! is telemetry and delivers its message through the sender registry.

use crate::attrs::MalformedEvent;
use crate::event::scope_view;
use crate::event::SpanFrame;
use crate::event::TelemetryEvent;
use crate::route::route;
use crate::route::routing_of;
use crate::route::Routing;
use crate::route::RoutingView;
use crate::senders::Delivery;
use crate::senders::Senders;
use futures::channel::mpsc::Sender;
use vstd::prelude::*;

verus! {

/// How loud a diagnostic is.
#[derive(Clone, Copy, Debug, PartialEq, Eq, Structural)]
pub enum Severity {
    Trace,
    Warn,
}

/// What became of one event.
#[derive(Clone, Copy, Debug, PartialEq, Eq, Structural)]
pub enum Disposition {
    /// The event is not telemetry and was passed over.
    Ignored,
    /// No telemetry span encloses the event; it was dropped.
    NoTelemetrySpan,
    /// No sender is registered for the event's routing key; it was dropped.
    NotConfigured,
    /// The message was enqueued on the channel of its routing key.
    Delivered,
    /// The channel was full or closed; the message was dropped.
    Dropped,
}

impl Disposition {
    /// The disposition of an event whose message was offered to the
    /// registry with the given outcome.
    pub open spec fn after(delivery: Delivery) -> Disposition {
        match delivery {
            Delivery::Delivered => Disposition::Delivered,
            Delivery::NoDestination => Disposition::NotConfigured,
            Delivery::Rejected => Disposition::Dropped,
        }
    }

    /// The severity of the diagnostic that goes with a disposition, if any:
    /// a trace where telemetry has nowhere to go, a warning where a channel
    /// refused the message, nothing otherwise.
    pub open spec fn severity(self) -> Option<Severity> {
        match self {
            Disposition::Ignored => None,
            Disposition::NoTelemetrySpan => Some(Severity::Trace),
            Disposition::NotConfigured => Some(Severity::Trace),
            Disposition::Delivered => None,
            Disposition::Dropped => Some(Severity::Warn),
        }
    }

    /// The disposition that the outcome of a delivery stands for.
    pub fn of_delivery(delivery: Delivery) -> (disposition: Disposition)
        ensures
            disposition == Disposition::after(delivery),
    {
        match delivery {
            Delivery::Delivered => Disposition::Delivered,
            Delivery::NoDestination => Disposition::NotConfigured,
            Delivery::Rejected => Disposition::Dropped,
        }
    }

    /// The severity at which this disposition is to be reported, or `None`
    /// where nothing is to be reported.
    pub fn diagnostic(&self) -> (level: Option<Severity>)
        ensures
            level == self.severity(),
    {
        match self {
            Disposition::Ignored => None,
            Disposition::NoTelemetrySpan => Some(Severity::Trace),
            Disposition::NotConfigured => Some(Severity::Trace),
            Disposition::Delivered => None,
            Disposition::Dropped => Some(Severity::Warn),
        }
    }
}

/// What becomes of an event with the given routing, where `delivery` is what
/// the registry answers if the routing has a message offered to it. Only a
/// routing that delivers depends on that answer.
pub open spec fn disposition_of(routing: RoutingView, delivery: Delivery) -> Disposition {
    match routing {
        RoutingView::Ignore => Disposition::Ignored,
        RoutingView::NoSpan => Disposition::NoTelemetrySpan,
        RoutingView::Deliver { .. } => Disposition::after(delivery),
    }
}

/// The shared state of the telemetry subsystem that the layer reads: the
/// registry of senders.
#[derive(Debug)]
pub struct Telemetries {
    senders: Senders,
}

impl Telemetries {
    /// A fresh state with a registry of its own, which starts without any
    /// sender.
    pub fn new() -> (telemetries: Self)
        ensures
            telemetries.registry().initial() == Map::<u64, Sender<(u8, String)>>::empty(),
    {
        Telemetries { senders: Senders::new() }
    }

    /// The registry that this state holds.
    pub closed spec fn registry(&self) -> Senders {
        self.senders
    }

    /// The registry, on which destinations are registered.
    pub fn senders(&self) -> (senders: &Senders)
        ensures
            *senders == self.registry(),
    {
        &self.senders
    }
}

impl Clone for Telemetries {
    /// Another handle on the same registry.
    fn clone(&self) -> (other: Self)
        ensures
            other == *self,
    {
        Telemetries { senders: self.senders.clone() }
    }
}

impl Default for Telemetries {
    fn default() -> Self {
        Telemetries::new()
    }
}

/// The layer that routes telemetry events.
#[derive(Debug)]
pub struct TelemetryLayer(Telemetries);

impl TelemetryLayer {
    /// The state that this layer delivers through.
    pub closed spec fn state(&self) -> Telemetries {
        self.0
    }

    /// A layer that delivers through the registry of `telemetries`.
    pub fn new(telemetries: Telemetries) -> (layer: Self)
        ensures
            layer.state() == telemetries,
    {
        TelemetryLayer(telemetries)
    }

    /// A handle on the state that this layer delivers through: senders
    /// registered on it are the ones that the layer finds.
    pub fn telemetries(&self) -> (telemetries: Telemetries)
        ensures
            telemetries == self.state(),
    {
        self.0.clone()
    }

    /// Handles one event emitted inside `scope`, whose spans stand in the
    /// order in which the dispatcher enumerates them.
    ///
    /// What is not telemetry is ignored; telemetry outside any telemetry
    /// span is dropped; a malformed telemetry event is an error, and the
    /// registry is not consulted for it. Otherwise the message is offered
    /// to the registry once, under the routing key of the first telemetry
    /// span, and the disposition says what the registry answered.
    pub fn on_event(&self, event: &TelemetryEvent, scope: &Vec<SpanFrame>) -> (outcome: Result<
        Disposition,
        MalformedEvent,
    >)
        ensures
            match routing_of(event@, scope_view(scope@)) {
                Err(e) => outcome == Err::<Disposition, MalformedEvent>(e),
                Ok(routing) => exists|delivery: Delivery|
                    outcome == Ok::<Disposition, MalformedEvent>(
                        #[trigger] disposition_of(routing, delivery),
                    ),
            },
    {
        match route(event, scope) {
            Err(e) => Err(e),
            Ok(Routing::Ignore) => {
                assert(disposition_of(RoutingView::Ignore, Delivery::NoDestination)
                    == Disposition::Ignored);
                Ok(Disposition::Ignored)
            },
            Ok(Routing::NoSpan) => {
                assert(disposition_of(RoutingView::NoSpan, Delivery::NoDestination)
                    == Disposition::NoTelemetrySpan);
                Ok(Disposition::NoTelemetrySpan)
            },
            Ok(Routing::Deliver { id, verbosity, json }) => {
                let delivery = self.0.senders().get_and_try_send(id, (verbosity, json));
                assert(disposition_of(routing_of(event@, scope_view(scope@))->Ok_0, delivery)
                    == Disposition::after(delivery));
                Ok(Disposition::of_delivery(delivery))
            },
        }
    }
}

impl Default for TelemetryLayer {
    fn default() -> Self {
        TelemetryLayer(Telemetries::new())
    }
}

} // verus!
