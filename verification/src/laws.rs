//! What holds of the routing layer on every input, stated over the
//! specifications of its functions and proved.

use crate::attrs::after_field;
use crate::attrs::after_fields;
use crate::attrs::empty_attrs;
use crate::attrs::json_field;
use crate::attrs::verbosity_field;
use crate::attrs::MalformedEvent;
use crate::attrs::TelemetryAttrsView;
use crate::event::FieldValueView;
use crate::event::FieldView;
use crate::event::SpanFrameView;
use crate::event::TelemetryEventView;
use crate::layer::disposition_of;
use crate::layer::Disposition;
use crate::layer::Severity;
use crate::route::checked_message;
use crate::route::first_telemetry_span;
use crate::route::routing_of;
use crate::route::telemetry_marker;
use crate::route::RoutingView;
use crate::senders::Delivery;
use crate::text::decimal_digits;
use crate::text::has_replaceable_head;
use crate::text::id_key;
use crate::text::inject_id;
use futures::channel::mpsc::Sender;
use vstd::prelude::*;

verus! {

/// Whether a field is one that the extractor takes the verbosity from.
pub open spec fn gives_verbosity(field: FieldView) -> bool {
    field.name == verbosity_field() && field.value is U64
}

/// Whether a field is one that the extractor takes the payload from.
pub open spec fn gives_json(field: FieldView) -> bool {
    field.name == json_field() && field.value is Str
}

/// An event whose target is not the telemetry marker is passed over,
/// whatever its fields and its scope: no routing key is looked for, no
/// message is offered to the registry, and nothing is reported.
pub proof fn law_other_targets_are_ignored(
    event: TelemetryEventView,
    scope: Seq<SpanFrameView>,
    delivery: Delivery,
)
    requires
        event.target != telemetry_marker(),
    ensures
        routing_of(event, scope) == Ok::<RoutingView, MalformedEvent>(RoutingView::Ignore),
        disposition_of(RoutingView::Ignore, delivery) == Disposition::Ignored,
        Disposition::Ignored.severity() is None,
{
}

/// A scope none of whose spans bears the marker has no telemetry span.
pub proof fn law_unmarked_scope_has_no_span(scope: Seq<SpanFrameView>)
    requires
        forall|i: int| 0 <= i < scope.len() ==> (#[trigger] scope[i]).name != telemetry_marker(),
    ensures
        first_telemetry_span(scope) is None,
    decreases scope.len(),
{
    if scope.len() > 0 {
        let rest = scope.drop_first();
        assert forall|i: int| 0 <= i < rest.len() implies (#[trigger] rest[i]).name
            != telemetry_marker() by {
            assert(rest[i] == scope[i + 1]);
        }
        law_unmarked_scope_has_no_span(rest);
    }
}

/// The routing key is the id of the first span, in the scope's order, that
/// bears the marker: spans before it do not count, spans after it are not
/// looked at.
pub proof fn law_first_marked_span_gives_the_key(scope: Seq<SpanFrameView>, at: int)
    requires
        0 <= at < scope.len(),
        scope[at].name == telemetry_marker(),
        forall|i: int| 0 <= i < at ==> (#[trigger] scope[i]).name != telemetry_marker(),
    ensures
        first_telemetry_span(scope) == Some(scope[at].id),
    decreases at,
{
    if at > 0 {
        let rest = scope.drop_first();
        assert(rest[at - 1] == scope[at]);
        assert forall|i: int| 0 <= i < at - 1 implies (#[trigger] rest[i]).name
            != telemetry_marker() by {
            assert(rest[i] == scope[i + 1]);
        }
        law_first_marked_span_gives_the_key(rest, at - 1);
    }
}

/// A telemetry event emitted outside every telemetry span is dropped
/// undecoded, whatever its fields, and reported once, as a trace. No
/// message is offered to the registry.
pub proof fn law_telemetry_outside_span_is_dropped(
    event: TelemetryEventView,
    scope: Seq<SpanFrameView>,
    delivery: Delivery,
)
    requires
        event.target == telemetry_marker(),
        forall|i: int| 0 <= i < scope.len() ==> (#[trigger] scope[i]).name != telemetry_marker(),
    ensures
        routing_of(event, scope) == Ok::<RoutingView, MalformedEvent>(RoutingView::NoSpan),
        disposition_of(RoutingView::NoSpan, delivery) == Disposition::NoTelemetrySpan,
        Disposition::NoTelemetrySpan.severity() == Some(Severity::Trace),
{
    law_unmarked_scope_has_no_span(scope);
}

/// Decoding visits the fields front to back: the record after one more
/// field is the record after the fields before it, with that field
/// applied. So of two fields with the same name the later one wins.
pub proof fn law_fields_are_visited_in_order(
    attrs: TelemetryAttrsView,
    fields: Seq<FieldView>,
    last: FieldView,
)
    ensures
        after_fields(attrs, fields.push(last)) == (match after_fields(attrs, fields) {
            Ok(before) => after_field(before, last),
            Err(e) => Err(e),
        }),
    decreases fields.len(),
{
    let all = fields.push(last);
    if fields.len() == 0 {
        assert(all.drop_first() =~= fields);
        assert(all[0] == last);
        match after_field(attrs, last) {
            Ok(next) => {
                assert(after_fields(next, all.drop_first()) == Ok::<
                    TelemetryAttrsView,
                    MalformedEvent,
                >(next));
            },
            Err(_) => {},
        }
    } else {
        assert(all[0] == fields[0]);
        assert(all.drop_first() =~= fields.drop_first().push(last));
        match after_field(attrs, fields[0]) {
            Ok(next) => {
                law_fields_are_visited_in_order(next, fields.drop_first(), last);
            },
            Err(_) => {},
        }
    }
}

/// Decoding never changes the routing key of a record, leaves the
/// verbosity alone unless a field gives one, and leaves the payload alone
/// unless a field gives one.
pub proof fn law_only_named_fields_are_recorded(attrs: TelemetryAttrsView, fields: Seq<FieldView>)
    ensures
        after_fields(attrs, fields) matches Ok(decoded) ==> {
            &&& decoded.id == attrs.id
            &&& (forall|i: int| 0 <= i < fields.len() ==> !gives_verbosity(#[trigger] fields[i]))
                ==> decoded.message_verbosity == attrs.message_verbosity
            &&& (forall|i: int| 0 <= i < fields.len() ==> !gives_json(#[trigger] fields[i]))
                ==> decoded.json == attrs.json
        },
        (forall|i: int| 0 <= i < fields.len() ==> !gives_json(#[trigger] fields[i]))
            ==> after_fields(attrs, fields) is Ok,
    decreases fields.len(),
{
    if fields.len() > 0 {
        let rest = fields.drop_first();
        assert forall|i: int| 0 <= i < rest.len() implies rest[i] == fields[i + 1] by {}
        match after_field(attrs, fields[0]) {
            Ok(next) => {
                law_only_named_fields_are_recorded(next, rest);
                if forall|i: int| 0 <= i < fields.len() ==> !gives_verbosity(#[trigger] fields[i]) {
                    assert(!gives_verbosity(fields[0]));
                    assert forall|i: int| 0 <= i < rest.len() implies !gives_verbosity(
                        #[trigger] rest[i],
                    ) by {
                        assert(rest[i] == fields[i + 1]);
                    }
                }
                if forall|i: int| 0 <= i < fields.len() ==> !gives_json(#[trigger] fields[i]) {
                    assert(!gives_json(fields[0]));
                    assert forall|i: int| 0 <= i < rest.len() implies !gives_json(
                        #[trigger] rest[i],
                    ) by {
                        assert(rest[i] == fields[i + 1]);
                    }
                }
            },
            Err(_) => {
                if forall|i: int| 0 <= i < fields.len() ==> !gives_json(#[trigger] fields[i]) {
                    assert(!gives_json(fields[0]));
                }
            },
        }
    }
}

/// A telemetry event inside a telemetry span that lacks the verbosity or
/// lacks the payload is malformed: its routing is an error, so no message
/// is offered to the registry. Where no field gives a payload at all, the
/// error is that of the missing fields.
pub proof fn law_missing_field_is_fatal(event: TelemetryEventView, scope: Seq<SpanFrameView>)
    requires
        event.target == telemetry_marker(),
        first_telemetry_span(scope) is Some,
        (forall|i: int| 0 <= i < event.fields.len() ==> !gives_verbosity(#[trigger] event.fields[i]))
            || (forall|i: int| 0 <= i < event.fields.len() ==> !gives_json(
            #[trigger] event.fields[i],
        )),
    ensures
        routing_of(event, scope) is Err,
        (forall|i: int| 0 <= i < event.fields.len() ==> !gives_json(#[trigger] event.fields[i]))
            ==> routing_of(event, scope) == Err::<RoutingView, MalformedEvent>(
            MalformedEvent::MissingFields,
        ),
{
    let id = first_telemetry_span(scope)->Some_0;
    law_only_named_fields_are_recorded(empty_attrs(id), event.fields);
}

/// Rewriting a JSON object replaces its opening brace by `{"id":`, the
/// routing id in decimal and a comma; what followed the brace follows
/// unchanged.
pub proof fn law_rewritten_object_keeps_its_members(id: u64, members: Seq<char>)
    ensures
        has_replaceable_head(seq!['{'] + members),
        inject_id(id, seq!['{'] + members) == id_key() + decimal_digits(id as nat) + seq![',']
            + members,
{
    let object = seq!['{'] + members;
    assert(object[0] == '{');
    assert(object.drop_first() =~= members);
}

/// A telemetry event with a verbosity that fits in a byte and a payload
/// that can be rewritten is routed to the key of its telemetry span, with
/// that verbosity and with the payload rewritten to carry the key.
pub proof fn law_valid_event_is_delivered(
    scope: Seq<SpanFrameView>,
    id: u64,
    verbosity: u64,
    json: Seq<char>,
)
    requires
        first_telemetry_span(scope) == Some(id),
        verbosity <= u8::MAX,
        has_replaceable_head(json),
    ensures
        routing_of(
            TelemetryEventView {
                target: telemetry_marker(),
                fields: seq![
                    FieldView { name: verbosity_field(), value: FieldValueView::U64(verbosity) },
                    FieldView { name: json_field(), value: FieldValueView::Str(json) },
                ],
            },
            scope,
        ) == Ok::<RoutingView, MalformedEvent>(
            RoutingView::Deliver { id, verbosity: verbosity as u8, json: inject_id(id, json) },
        ),
{
    let first = FieldView { name: verbosity_field(), value: FieldValueView::U64(verbosity) };
    let second = FieldView { name: json_field(), value: FieldValueView::Str(json) };
    let fields = seq![first, second];
    let start = empty_attrs(id);
    let one = TelemetryAttrsView { message_verbosity: Some(verbosity), ..start };
    let two = TelemetryAttrsView { json: Some(inject_id(id, json)), ..one };
    assert(fields.drop_first() =~= seq![second]);
    assert(seq![second].drop_first() =~= Seq::<FieldView>::empty());
    assert(after_field(start, first) == Ok::<TelemetryAttrsView, MalformedEvent>(one));
    assert(after_field(one, second) == Ok::<TelemetryAttrsView, MalformedEvent>(two));
    assert(after_fields(two, Seq::<FieldView>::empty()) == Ok::<
        TelemetryAttrsView,
        MalformedEvent,
    >(two));
    assert(after_fields(one, seq![second]) == Ok::<TelemetryAttrsView, MalformedEvent>(two));
    assert(after_fields(start, fields) == Ok::<TelemetryAttrsView, MalformedEvent>(two));
    assert(checked_message(two) == Ok::<(u8, Seq<char>), MalformedEvent>(
        (verbosity as u8, inject_id(id, json)),
    ));
}

/// Registering twice under one key leaves only the second sender in the
/// table: it is the one found under the key, and the table is the one that
/// the second registration alone would have made.
pub proof fn law_insert_replaces(
    table: Map<u64, Sender<(u8, String)>>,
    id: u64,
    first: Sender<(u8, String)>,
    second: Sender<(u8, String)>,
)
    ensures
        table.insert(id, first).insert(id, second) == table.insert(id, second),
        table.insert(id, first).insert(id, second)[id] == second,
{
    assert(table.insert(id, first).insert(id, second) =~= table.insert(id, second));
}

/// Registrations under distinct keys do not disturb each other: either
/// order gives the same table, in which each key finds its own sender.
pub proof fn law_distinct_keys_are_independent(
    table: Map<u64, Sender<(u8, String)>>,
    one: u64,
    sender_one: Sender<(u8, String)>,
    other: u64,
    sender_other: Sender<(u8, String)>,
)
    requires
        one != other,
    ensures
        table.insert(one, sender_one).insert(other, sender_other) == table.insert(
            other,
            sender_other,
        ).insert(one, sender_one),
        table.insert(one, sender_one).insert(other, sender_other)[one] == sender_one,
        table.insert(one, sender_one).insert(other, sender_other)[other] == sender_other,
{
    assert(table.insert(one, sender_one).insert(other, sender_other) =~= table.insert(
        other,
        sender_other,
    ).insert(one, sender_one));
}

/// A message that its channel refuses, full or closed, is dropped and
/// reported as a warning; a message without a registered destination is
/// dropped and reported as a trace; a delivered message is not reported.
pub proof fn law_refused_message_is_dropped_with_warning(id: u64, verbosity: u8, json: Seq<char>)
    ensures
        disposition_of(RoutingView::Deliver { id, verbosity, json }, Delivery::Rejected)
            == Disposition::Dropped,
        Disposition::Dropped.severity() == Some(Severity::Warn),
        disposition_of(RoutingView::Deliver { id, verbosity, json }, Delivery::NoDestination)
            == Disposition::NotConfigured,
        Disposition::NotConfigured.severity() == Some(Severity::Trace),
        disposition_of(RoutingView::Deliver { id, verbosity, json }, Delivery::Delivered)
            == Disposition::Delivered,
        Disposition::Delivered.severity() is None,
{
}

} // verus!
