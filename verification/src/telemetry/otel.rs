//! The OpenTelemetry form of span attributes.
use crate::telemetry::{Attribute, AttributeArray, AttributeValue};
use vstd::prelude::*;

verus! {

/// An array value as OpenTelemetry holds it: booleans, signed integers,
/// floating-point numbers (by their IEEE-754 bit pattern) or strings.
#[derive(Debug, Clone)]
pub enum OtelArray {
    Bool(Vec<bool>),
    I64(Vec<i64>),
    F64(Vec<u64>),
    String(Vec<String>),
}

/// An attribute value as OpenTelemetry holds it. OpenTelemetry has no unsigned
/// integers; a floating-point number is held by its IEEE-754 bit pattern.
#[derive(Debug, Clone)]
pub enum OtelValue {
    Bool(bool),
    I64(i64),
    F64(u64),
    String(String),
    Array(OtelArray),
}

/// A named OpenTelemetry attribute.
#[derive(Debug, Clone)]
pub struct OtelKeyValue {
    pub key: String,
    pub value: OtelValue,
}

/// Unsigned integers reinterpreted as signed ones of the same width, as `as`
/// does it.
pub open spec fn as_signed(values: Seq<u64>) -> Seq<i64> {
    values.map_values(|v: u64| v as i64)
}

/// `r` is the OpenTelemetry form of the array `a`.
pub open spec fn is_otel_array(a: AttributeArray, r: OtelArray) -> bool {
    match a {
        AttributeArray::Bool(v) => r matches OtelArray::Bool(w) && w@ == v@,
        AttributeArray::I64(v) => r matches OtelArray::I64(w) && w@ == v@,
        AttributeArray::U64(v) => r matches OtelArray::I64(w) && w@ == as_signed(v@),
        AttributeArray::F64(v) => r matches OtelArray::F64(w) && w@ == v@,
        AttributeArray::String(v) => r matches OtelArray::String(w) && w@ == v@,
    }
}

/// `r` is the OpenTelemetry form of the value `v`.
pub open spec fn is_otel_value(v: AttributeValue, r: OtelValue) -> bool {
    match v {
        AttributeValue::Bool(b) => r == OtelValue::Bool(b),
        AttributeValue::I64(i) => r == OtelValue::I64(i),
        AttributeValue::U64(u) => r == OtelValue::I64(u as i64),
        AttributeValue::F64(bits) => r == OtelValue::F64(bits),
        AttributeValue::String(s) => r == OtelValue::String(s),
        AttributeValue::Array(a) => r matches OtelValue::Array(w) && is_otel_array(a, w),
    }
}

/// `r` is the OpenTelemetry form of the attribute `a`: same key, converted value.
pub open spec fn is_otel_key_value(a: Attribute, r: OtelKeyValue) -> bool {
    r.key@ == a.key@ && is_otel_value(a.value, r.value)
}

/// What an attribute value becomes in OpenTelemetry: a boolean stays that
/// boolean, a signed integer that integer, a text that text, and a
/// floating-point number the same bit pattern; an unsigned integer that fits a
/// signed one becomes the same number; an array stays an array of the same
/// length.
pub proof fn lemma_otel_value_keeps_the_value(v: AttributeValue, r: OtelValue)
    requires
        is_otel_value(v, r),
    ensures
        forall|b: bool| v == AttributeValue::Bool(b) ==> r == OtelValue::Bool(b),
        forall|i: i64| v == AttributeValue::I64(i) ==> r == OtelValue::I64(i),
        forall|u: u64| v == AttributeValue::U64(u) && u <= 0x7fff_ffff_ffff_ffffu64 ==> (r matches OtelValue::I64(w)
            && w as int == u as int),
        forall|bits: u64| v == AttributeValue::F64(bits) ==> r == OtelValue::F64(bits),
        forall|t: String| v == AttributeValue::String(t) ==> r == OtelValue::String(t),
        v is Array ==> r is Array,
        v matches AttributeValue::Array(AttributeArray::I64(items)) ==> r matches OtelValue::Array(
            OtelArray::I64(out),
        ) && out@ == items@,
        v matches AttributeValue::Array(AttributeArray::String(items)) ==> r matches OtelValue::Array(
            OtelArray::String(out),
        ) && out@ == items@,
{
    if let AttributeValue::U64(u) = v {
        if u <= 0x7fff_ffff_ffff_ffffu64 {
            assert((u as i64) as int == u as int) by (bit_vector)
                requires
                    u <= 0x7fff_ffff_ffff_ffffu64,
            ;
        }
    }
}

/// Each unsigned integer reinterpreted as a signed one.
fn signed_values(values: Vec<u64>) -> (r: Vec<i64>)
    ensures
        r@ == as_signed(values@),
{
    let mut out: Vec<i64> = Vec::new();
    let mut i: usize = 0;
    while i < values.len()
        invariant
            i <= values.len(),
            out@ == as_signed(values@.subrange(0, i as int)),
        decreases values.len() - i,
    {
        let v = values[i];
        proof {
            assert(values@.subrange(0, i + 1) =~= values@.subrange(0, i as int).push(v));
        }
        out.push(v as i64);
        i += 1;
        proof {
            assert(out@ =~= as_signed(values@.subrange(0, i as int)));
        }
    }
    proof {
        assert(values@.subrange(0, values.len() as int) =~= values@);
    }
    out
}

/// The OpenTelemetry form of an array.
pub fn array_to_otel(array: AttributeArray) -> (r: OtelArray)
    ensures
        is_otel_array(array, r),
{
    match array {
        AttributeArray::Bool(v) => OtelArray::Bool(v),
        AttributeArray::I64(v) => OtelArray::I64(v),
        AttributeArray::U64(v) => OtelArray::I64(signed_values(v)),
        AttributeArray::F64(v) => OtelArray::F64(v),
        AttributeArray::String(v) => OtelArray::String(v),
    }
}

/// The OpenTelemetry form of a value.
pub fn value_to_otel(value: AttributeValue) -> (r: OtelValue)
    ensures
        is_otel_value(value, r),
{
    match value {
        AttributeValue::Bool(b) => OtelValue::Bool(b),
        AttributeValue::I64(i) => OtelValue::I64(i),
        AttributeValue::U64(u) => OtelValue::I64(u as i64),
        AttributeValue::F64(bits) => OtelValue::F64(bits),
        AttributeValue::String(s) => OtelValue::String(s),
        AttributeValue::Array(a) => OtelValue::Array(array_to_otel(a)),
    }
}

/// The OpenTelemetry form of an attribute.
pub fn attribute_to_key_value(attribute: Attribute) -> (r: OtelKeyValue)
    ensures
        is_otel_key_value(attribute, r),
{
    OtelKeyValue { key: attribute.key, value: value_to_otel(attribute.value) }
}

/// Converts a collection of attributes to OpenTelemetry key-value pairs, one for
/// each attribute, in order.
pub fn attributes_to_keyvalues(attributes: Vec<Attribute>) -> (r: Vec<OtelKeyValue>)
    ensures
        r.len() == attributes.len(),
        forall|i: int| 0 <= i < r.len() ==> is_otel_key_value(attributes@[i], #[trigger] r@[i]),
{
    let ghost all = attributes@;
    let mut rest = attributes;
    let mut out: Vec<OtelKeyValue> = Vec::new();
    while rest.len() > 0
        invariant
            out.len() + rest.len() == all.len(),
            rest@ == all.subrange(out.len() as int, all.len() as int),
            forall|i: int| 0 <= i < out.len() ==> is_otel_key_value(all[i], #[trigger] out@[i]),
        decreases rest.len(),
    {
        let attribute = rest.remove(0);
        proof {
            assert(attribute == all[out.len() as int]);
        }
        out.push(attribute_to_key_value(attribute));
        proof {
            assert(rest@ =~= all.subrange(out.len() as int, all.len() as int));
        }
    }
    out
}

/// An OpenTelemetry tracer (`opentelemetry::global::BoxedTracer`): the tracer
/// of this library carries it as it is and reads nothing inside it.
#[verifier::external_type_specification]
#[verifier::external_body]
pub struct ExBoxedTracer(opentelemetry::global::BoxedTracer);

/// A tracer that starts OpenTelemetry spans through an OpenTelemetry tracer.
pub struct OpenTelemetryTracer {
    inner: opentelemetry::global::BoxedTracer,
}

impl OpenTelemetryTracer {
    /// A tracer over the OpenTelemetry tracer `tracer`.
    pub fn new(tracer: opentelemetry::global::BoxedTracer) -> (r: Self)
        ensures
            r.inner_of() == tracer,
    {
        OpenTelemetryTracer { inner: tracer }
    }

    /// The OpenTelemetry tracer the tracer was made with.
    pub closed spec fn inner_of(&self) -> opentelemetry::global::BoxedTracer {
        self.inner
    }

    /// The OpenTelemetry tracer the tracer was made with.
    pub fn inner(&self) -> (r: &opentelemetry::global::BoxedTracer)
        ensures
            *r == self.inner_of(),
    {
        &self.inner
    }
}

/// An OpenTelemetry span (`opentelemetry::global::BoxedSpan`): the span of this
/// library carries it as it is and reads nothing inside it.
#[verifier::external_type_specification]
#[verifier::external_body]
pub struct ExBoxedSpan(opentelemetry::global::BoxedSpan);

/// An OpenTelemetry context (`opentelemetry::Context`): the span of this
/// library carries it as it is and reads nothing inside it.
#[verifier::external_type_specification]
#[verifier::external_body]
pub struct ExContext(opentelemetry::Context);

/// An OpenTelemetry span and the context it was started in.
pub struct OpenTelemetrySpan {
    span: opentelemetry::global::BoxedSpan,
    context: opentelemetry::Context,
}

impl OpenTelemetrySpan {
    /// The OpenTelemetry span.
    pub closed spec fn span_of(&self) -> opentelemetry::global::BoxedSpan {
        self.span
    }

    /// The context the span was started in.
    pub closed spec fn context_of(&self) -> opentelemetry::Context {
        self.context
    }

    /// The span `span`, started in `context`.
    pub fn new(span: opentelemetry::global::BoxedSpan, context: opentelemetry::Context) -> (r: Self)
        ensures
            r.span_of() == span,
            r.context_of() == context,
    {
        OpenTelemetrySpan { span, context }
    }

    /// The context the span was started in.
    pub fn context(&self) -> (r: &opentelemetry::Context)
        ensures
            *r == self.context_of(),
    {
        &self.context
    }

    /// The OpenTelemetry span, for recording on it.
    pub fn span_mut(&mut self) -> (r: &mut opentelemetry::global::BoxedSpan)
        ensures
            *r == old(self).span_of(),
            final(self).span_of() == *final(r),
            final(self).context_of() == old(self).context_of(),
    {
        &mut self.span
    }
}

} // verus!
