//! The attribute extractor: decodes the fields of an event into the
//! verbosity and the JSON payload of a telemetry message.

use crate::event::fields_view;
use crate::event::Field;
use crate::event::FieldValue;
use crate::event::FieldValueView;
use crate::event::FieldView;
use crate::text::check_replaceable_head;
use crate::text::has_replaceable_head;
use crate::text::inject_id;
use crate::text::rewrite_payload;
use crate::text::str_eq;
use vstd::prelude::*;

verus! {

/// Why a telemetry event cannot be delivered. Each of these is a defect of
/// the code that emitted the event.
#[derive(Clone, Copy, Debug, PartialEq, Eq, Structural)]
pub enum MalformedEvent {
    /// The event lacks `message_verbosity` or `json`.
    MissingFields,
    /// The verbosity does not fit in one byte.
    VerbosityOutOfRange,
    /// A `json` value has no one-byte first character to replace.
    MalformedJson,
}

/// The name of the field that holds the verbosity.
pub open spec fn verbosity_field() -> Seq<char> {
    "message_verbosity"@
}

/// The name of the field that holds the payload.
pub open spec fn json_field() -> Seq<char> {
    "json"@
}

/// What has been decoded of one event.
#[derive(Debug)]
pub struct TelemetryAttrs {
    pub message_verbosity: Option<u64>,
    pub json: Option<String>,
    pub id: u64,
}

/// The mathematical value of a [`TelemetryAttrs`].
pub struct TelemetryAttrsView {
    pub message_verbosity: Option<u64>,
    pub json: Option<Seq<char>>,
    pub id: u64,
}

impl View for TelemetryAttrs {
    type V = TelemetryAttrsView;

    open spec fn view(&self) -> TelemetryAttrsView {
        TelemetryAttrsView {
            message_verbosity: self.message_verbosity,
            json: match self.json {
                Some(s) => Some(s@),
                None => None,
            },
            id: self.id,
        }
    }
}

/// The record before any field is visited.
pub open spec fn empty_attrs(id: u64) -> TelemetryAttrsView {
    TelemetryAttrsView { message_verbosity: None, json: None, id }
}

/// The record after an unsigned integer field: the verbosity is taken, any
/// other name changes nothing.
pub open spec fn after_u64(attrs: TelemetryAttrsView, name: Seq<char>, value: u64)
    -> TelemetryAttrsView {
    if name == verbosity_field() {
        TelemetryAttrsView { message_verbosity: Some(value), ..attrs }
    } else {
        attrs
    }
}

/// The record after a string field: the payload is taken with the routing
/// id injected, any other name changes nothing.
pub open spec fn after_str(attrs: TelemetryAttrsView, name: Seq<char>, value: Seq<char>)
    -> TelemetryAttrsView {
    if name == json_field() {
        TelemetryAttrsView { json: Some(inject_id(attrs.id, value)), ..attrs }
    } else {
        attrs
    }
}

/// The record after one field of any type, or the error that ends the
/// decoding: a payload that cannot be rewritten.
pub open spec fn after_field(attrs: TelemetryAttrsView, field: FieldView) -> Result<
    TelemetryAttrsView,
    MalformedEvent,
> {
    match field.value {
        FieldValueView::U64(n) => Ok(after_u64(attrs, field.name, n)),
        FieldValueView::Str(s) => if field.name == json_field() && !has_replaceable_head(s) {
            Err(MalformedEvent::MalformedJson)
        } else {
            Ok(after_str(attrs, field.name, s))
        },
        FieldValueView::Other => Ok(attrs),
    }
}

/// The record after all of `fields`, visited in order; a later field of
/// the same name replaces an earlier one. The first error ends the
/// decoding.
pub open spec fn after_fields(attrs: TelemetryAttrsView, fields: Seq<FieldView>) -> Result<
    TelemetryAttrsView,
    MalformedEvent,
>
    decreases fields.len(),
{
    if fields.len() == 0 {
        Ok(attrs)
    } else {
        match after_field(attrs, fields[0]) {
            Ok(next) => after_fields(next, fields.drop_first()),
            Err(e) => Err(e),
        }
    }
}

impl TelemetryAttrs {
    /// An empty record for the routing key `id`.
    pub fn new(id: u64) -> (attrs: Self)
        ensures
            attrs@ == empty_attrs(id),
    {
        Self { message_verbosity: None, json: None, id }
    }

    /// Visits a field whose value is neither an unsigned integer nor a
    /// string: nothing is recorded.
    pub fn record_debug(&mut self, name: &str)
        ensures
            *final(self) == *old(self),
    {
    }

    /// Visits an unsigned integer field.
    pub fn record_u64(&mut self, name: &str, value: u64)
        ensures
            final(self)@ == after_u64(old(self)@, name@, value),
    {
        if str_eq(name, "message_verbosity") {
            self.message_verbosity = Some(value);
        }
    }

    /// Visits a string field. A payload must have a one-byte first
    /// character, which the injected id replaces.
    pub fn record_str(&mut self, name: &str, value: &str)
        requires
            name@ == json_field() ==> has_replaceable_head(value@),
        ensures
            final(self)@ == after_str(old(self)@, name@, value@),
    {
        if str_eq(name, "json") {
            let message = rewrite_payload(self.id, value);
            self.json = Some(message);
        }
    }

    /// Visits one field of any type. A payload that cannot be rewritten is
    /// reported and leaves the record as it was.
    pub fn record(&mut self, field: &Field) -> (done: Result<(), MalformedEvent>)
        ensures
            match after_field(old(self)@, field@) {
                Ok(next) => done is Ok && final(self)@ == next,
                Err(e) => done == Err::<(), MalformedEvent>(e) && final(self)@ == old(self)@,
            },
    {
        match &field.value {
            FieldValue::U64(n) => {
                self.record_u64(field.name.as_str(), *n);
                Ok(())
            },
            FieldValue::Str(s) => {
                if str_eq(field.name.as_str(), "json") && !check_replaceable_head(s.as_str()) {
                    Err(MalformedEvent::MalformedJson)
                } else {
                    self.record_str(field.name.as_str(), s.as_str());
                    Ok(())
                }
            },
            FieldValue::Other => {
                self.record_debug(field.name.as_str());
                Ok(())
            },
        }
    }
}

/// Decodes the fields of an event whose routing key is `id`.
pub fn extract(id: u64, fields: &Vec<Field>) -> (decoded: Result<TelemetryAttrs, MalformedEvent>)
    ensures
        match after_fields(empty_attrs(id), fields_view(fields@)) {
            Ok(attrs) => decoded matches Ok(got) && got@ == attrs,
            Err(e) => decoded matches Err(got) && got == e,
        },
{
    let mut attrs = TelemetryAttrs::new(id);
    let ghost all = fields_view(fields@);
    let mut i: usize = 0;
    assert(all.subrange(0, all.len() as int) =~= all);
    while i < fields.len()
        invariant
            i <= fields.len(),
            all == fields_view(fields@),
            after_fields(attrs@, all.subrange(i as int, all.len() as int)) == after_fields(
                empty_attrs(id),
                all,
            ),
        decreases fields.len() - i,
    {
        let ghost rest = all.subrange(i as int, all.len() as int);
        assert(rest[0] == fields@[i as int]@);
        assert(rest.drop_first() =~= all.subrange(i as int + 1, all.len() as int));
        match attrs.record(&fields[i]) {
            Ok(()) => {},
            Err(e) => {
                return Err(e);
            },
        }
        i += 1;
    }
    assert(all.subrange(i as int, all.len() as int).len() == 0);
    Ok(attrs)
}

} // verus!
