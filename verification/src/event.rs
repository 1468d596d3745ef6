//! What the routing layer reads of an event and of the spans around it.

use vstd::prelude::*;

verus! {

/// The value of one field of an event.
#[derive(Clone, Debug, PartialEq, Eq)]
pub enum FieldValue {
    /// An unsigned integer.
    U64(u64),
    /// A string.
    Str(String),
    /// A value of any other type.
    Other,
}

/// The mathematical value of a [`FieldValue`].
pub enum FieldValueView {
    U64(u64),
    Str(Seq<char>),
    Other,
}

impl View for FieldValue {
    type V = FieldValueView;

    open spec fn view(&self) -> FieldValueView {
        match self {
            FieldValue::U64(n) => FieldValueView::U64(*n),
            FieldValue::Str(s) => FieldValueView::Str(s@),
            FieldValue::Other => FieldValueView::Other,
        }
    }
}

/// One named field of an event.
#[derive(Clone, Debug, PartialEq, Eq)]
pub struct Field {
    pub name: String,
    pub value: FieldValue,
}

/// The mathematical value of a [`Field`].
pub struct FieldView {
    pub name: Seq<char>,
    pub value: FieldValueView,
}

impl View for Field {
    type V = FieldView;

    open spec fn view(&self) -> FieldView {
        FieldView { name: self.name@, value: self.value@ }
    }
}

/// The fields of an event as mathematical values, in order.
pub open spec fn fields_view(fields: Seq<Field>) -> Seq<FieldView> {
    Seq::new(fields.len(), |i: int| fields[i]@)
}

/// An event as the dispatcher hands it over: its target and its fields, in
/// the order in which they are visited.
#[derive(Clone, Debug, PartialEq, Eq)]
pub struct TelemetryEvent {
    pub target: String,
    pub fields: Vec<Field>,
}

/// The mathematical value of a [`TelemetryEvent`].
pub struct TelemetryEventView {
    pub target: Seq<char>,
    pub fields: Seq<FieldView>,
}

impl View for TelemetryEvent {
    type V = TelemetryEventView;

    open spec fn view(&self) -> TelemetryEventView {
        TelemetryEventView { target: self.target@, fields: fields_view(self.fields@) }
    }
}

/// One span of the scope in which an event was emitted.
#[derive(Clone, Debug, PartialEq, Eq)]
pub struct SpanFrame {
    pub name: String,
    pub id: u64,
}

/// The mathematical value of a [`SpanFrame`].
pub struct SpanFrameView {
    pub name: Seq<char>,
    pub id: u64,
}

impl View for SpanFrame {
    type V = SpanFrameView;

    open spec fn view(&self) -> SpanFrameView {
        SpanFrameView { name: self.name@, id: self.id }
    }
}

/// The spans of a scope as mathematical values, in the scope's own order.
pub open spec fn scope_view(scope: Seq<SpanFrame>) -> Seq<SpanFrameView> {
    Seq::new(scope.len(), |i: int| scope[i]@)
}

} // verus!
