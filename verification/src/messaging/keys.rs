//! Message ids, annotation keys and capabilities: the kinds of value that each
//! admits, and their conversions to and from AMQP values.
use crate::value::{AmqpSymbol, AmqpValue};
use vstd::prelude::*;

verus! {

/// A message id: an unsigned long, a UUID, binary data or a string.
#[derive(Debug, Clone, PartialEq)]
pub enum AmqpMessageId {
    Ulong(u64),
    Uuid(u128),
    Binary(Vec<u8>),
    String(String),
}

/// The message id that a value is, if it is one.
pub open spec fn message_id_of(value: AmqpValue) -> Option<AmqpMessageId> {
    match value {
        AmqpValue::ULong(v) => Some(AmqpMessageId::Ulong(v)),
        AmqpValue::Uuid(u) => Some(AmqpMessageId::Uuid(u)),
        AmqpValue::Binary(b) => Some(AmqpMessageId::Binary(b)),
        AmqpValue::String(s) => Some(AmqpMessageId::String(s)),
        _ => None,
    }
}

/// The value that a message id is.
pub open spec fn message_id_value(id: AmqpMessageId) -> AmqpValue {
    match id {
        AmqpMessageId::Ulong(v) => AmqpValue::ULong(v),
        AmqpMessageId::Uuid(u) => AmqpValue::Uuid(u),
        AmqpMessageId::Binary(b) => AmqpValue::Binary(b),
        AmqpMessageId::String(s) => AmqpValue::String(s),
    }
}

/// The message id that `value` is: an unsigned long, a UUID, binary data or a
/// string; `None` for any other value.
pub fn message_id_from_value(value: AmqpValue) -> (r: Option<AmqpMessageId>)
    ensures
        r == message_id_of(value),
{
    match value {
        AmqpValue::ULong(v) => Some(AmqpMessageId::Ulong(v)),
        AmqpValue::Uuid(u) => Some(AmqpMessageId::Uuid(u)),
        AmqpValue::Binary(b) => Some(AmqpMessageId::Binary(b)),
        AmqpValue::String(s) => Some(AmqpMessageId::String(s)),
        _ => None,
    }
}

/// The value that the message id `id` is.
pub fn message_id_to_value(id: AmqpMessageId) -> (r: AmqpValue)
    ensures
        r == message_id_value(id),
{
    match id {
        AmqpMessageId::Ulong(v) => AmqpValue::ULong(v),
        AmqpMessageId::Uuid(u) => AmqpValue::Uuid(u),
        AmqpMessageId::Binary(b) => AmqpValue::Binary(b),
        AmqpMessageId::String(s) => AmqpValue::String(s),
    }
}

/// A message id turned into a value reads back as the same message id, and a
/// value that reads as a message id is that id's value.
pub proof fn lemma_message_id_round_trip(id: AmqpMessageId, value: AmqpValue)
    ensures
        message_id_of(message_id_value(id)) == Some(id),
        message_id_of(value) matches Some(i) ==> message_id_value(i) == value,
{
}

/// The key of an annotation: an unsigned long or a symbol.
#[derive(Debug, Clone, PartialEq)]
pub enum AmqpAnnotationKey {
    Ulong(u64),
    Symbol(AmqpSymbol),
}

/// The annotation key that a value is, if it is one.
pub open spec fn annotation_key_of(value: AmqpValue) -> Option<AmqpAnnotationKey> {
    match value {
        AmqpValue::ULong(v) => Some(AmqpAnnotationKey::Ulong(v)),
        AmqpValue::Symbol(s) => Some(AmqpAnnotationKey::Symbol(s)),
        _ => None,
    }
}

/// The value that an annotation key is.
pub open spec fn annotation_key_value(key: AmqpAnnotationKey) -> AmqpValue {
    match key {
        AmqpAnnotationKey::Ulong(v) => AmqpValue::ULong(v),
        AmqpAnnotationKey::Symbol(s) => AmqpValue::Symbol(s),
    }
}

/// The annotation key that `value` is: an unsigned long or a symbol; `None` for
/// any other value.
pub fn annotation_key_from_value(value: AmqpValue) -> (r: Option<AmqpAnnotationKey>)
    ensures
        r == annotation_key_of(value),
{
    match value {
        AmqpValue::ULong(v) => Some(AmqpAnnotationKey::Ulong(v)),
        AmqpValue::Symbol(s) => Some(AmqpAnnotationKey::Symbol(s)),
        _ => None,
    }
}

/// The value that the annotation key `key` is.
pub fn annotation_key_to_value(key: AmqpAnnotationKey) -> (r: AmqpValue)
    ensures
        r == annotation_key_value(key),
{
    match key {
        AmqpAnnotationKey::Ulong(v) => AmqpValue::ULong(v),
        AmqpAnnotationKey::Symbol(s) => AmqpValue::Symbol(s),
    }
}

/// An annotation key turned into a value reads back as the same key, and a
/// value that reads as a key is that key's value.
pub proof fn lemma_annotation_key_round_trip(key: AmqpAnnotationKey, value: AmqpValue)
    ensures
        annotation_key_of(annotation_key_value(key)) == Some(key),
        annotation_key_of(value) matches Some(k) ==> annotation_key_value(k) == value,
{
}

/// The symbol that a capability value names: a symbol, or a string read as a
/// symbol; `None` for any other value.
pub fn capability_symbol(value: AmqpValue) -> (r: Option<AmqpSymbol>)
    ensures
        r == (match value {
            AmqpValue::Symbol(s) => Some(s),
            AmqpValue::String(s) => Some(AmqpSymbol(s)),
            _ => None,
        }),
{
    match value {
        AmqpValue::Symbol(s) => Some(s),
        AmqpValue::String(s) => Some(AmqpSymbol(s)),
        _ => None,
    }
}

} // verus!
