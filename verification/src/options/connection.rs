//! Options of an AMQP connection, and the settings a connection is opened with.
use super::{properties_from, properties_from_pairs};
use crate::value::{symbol_entries_match, AmqpOrderedMap, AmqpSymbol, AmqpValue};
use vstd::prelude::*;

verus! {
/// The options of an AMQP connection.
#[derive(Debug)]
pub struct AmqpConnectionOptions {
    /// The largest frame size.
    pub max_frame_size: Option<u32>,
    /// The highest channel number.
    pub channel_max: Option<u16>,
    /// The idle timeout.
    pub idle_timeout: Option<time::Duration>,
    /// The outgoing locales.
    pub outgoing_locales: Option<Vec<String>>,
    /// The incoming locales.
    pub incoming_locales: Option<Vec<String>>,
    /// The capabilities offered.
    pub offered_capabilities: Option<Vec<AmqpSymbol>>,
    /// The capabilities desired.
    pub desired_capabilities: Option<Vec<AmqpSymbol>>,
    /// The connection properties.
    pub properties: Option<AmqpOrderedMap<AmqpSymbol, AmqpValue>>,
    /// The buffer size.
    pub buffer_size: Option<usize>,
}

/// AmqpConnectionOptions with nothing set.
pub open spec fn no_connection_options() -> AmqpConnectionOptions {
    AmqpConnectionOptions {
        max_frame_size: None,
        channel_max: None,
        idle_timeout: None,
        outgoing_locales: None,
        incoming_locales: None,
        offered_capabilities: None,
        desired_capabilities: None,
        properties: None,
        buffer_size: None,
    }
}

/// `b` holds the options of `a`: the same numbers and spans, the same locales
/// and capabilities, and properties with the same keys, in order, and values of
/// the same type and contents.
pub open spec fn connection_options_agree(a: AmqpConnectionOptions, b: AmqpConnectionOptions) -> bool {
    &&& a.max_frame_size == b.max_frame_size
    &&& a.channel_max == b.channel_max
    &&& a.idle_timeout == b.idle_timeout
    &&& a.buffer_size == b.buffer_size
    &&& strings_agree(a.outgoing_locales, b.outgoing_locales)
    &&& strings_agree(a.incoming_locales, b.incoming_locales)
    &&& symbols_agree(a.offered_capabilities, b.offered_capabilities)
    &&& symbols_agree(a.desired_capabilities, b.desired_capabilities)
    &&& match (a.properties, b.properties) {
        (None, None) => true,
        (Some(m), Some(n)) => symbol_entries_match(m@, n@),
        _ => false,
    }
}

/// Both are absent, or both hold the same texts in the same order.
pub open spec fn strings_agree(a: Option<Vec<String>>, b: Option<Vec<String>>) -> bool {
    match (a, b) {
        (None, None) => true,
        (Some(u), Some(v)) => u@ == v@,
        _ => false,
    }
}

/// Both are absent, or both hold the same symbols in the same order.
pub open spec fn symbols_agree(a: Option<Vec<AmqpSymbol>>, b: Option<Vec<AmqpSymbol>>) -> bool {
    match (a, b) {
        (None, None) => true,
        (Some(u), Some(v)) => u@ == v@,
        _ => false,
    }
}

fn copy_strings(v: &Vec<String>) -> (r: Vec<String>)
    ensures
        r@ == v@,
{
    let mut r: Vec<String> = Vec::new();
    let n = v.len();
    let mut i: usize = 0;
    while i < n
        invariant
            n == v@.len(),
            i <= n,
            r@ == v@.subrange(0, i as int),
        decreases n - i,
    {
        r.push(v[i].clone());
        i += 1;
    }
    assert(v@.subrange(0, n as int) =~= v@);
    r
}

fn copy_symbols(v: &Vec<AmqpSymbol>) -> (r: Vec<AmqpSymbol>)
    ensures
        r@ == v@,
{
    let mut r: Vec<AmqpSymbol> = Vec::new();
    let n = v.len();
    let mut i: usize = 0;
    while i < n
        invariant
            n == v@.len(),
            i <= n,
            r@ == v@.subrange(0, i as int),
        decreases n - i,
    {
        r.push(AmqpSymbol(v[i].0.clone()));
        i += 1;
    }
    assert(v@.subrange(0, n as int) =~= v@);
    r
}

fn copy_optional_strings(v: &Option<Vec<String>>) -> (r: Option<Vec<String>>)
    ensures
        strings_agree(*v, r),
{
    match v {
        Some(u) => Some(copy_strings(u)),
        None => None,
    }
}

fn copy_optional_symbols(v: &Option<Vec<AmqpSymbol>>) -> (r: Option<Vec<AmqpSymbol>>)
    ensures
        symbols_agree(*v, r),
{
    match v {
        Some(u) => Some(copy_symbols(u)),
        None => None,
    }
}

impl AmqpConnectionOptions {
    /// A builder with nothing set.
    pub fn builder() -> (r: AmqpConnectionOptionsBuilder)
        ensures
            r.pending() == no_connection_options(),
    {
        AmqpConnectionOptionsBuilder::new()
    }
}

/// Builds [`AmqpConnectionOptions`]; each setter changes the builder in place,
/// and `build` leaves it as it was, so that it can build again.
pub struct AmqpConnectionOptionsBuilder {
    options: AmqpConnectionOptions,
}

impl AmqpConnectionOptionsBuilder {
    /// The options that `build` will hand back.
    pub closed spec fn pending(&self) -> AmqpConnectionOptions {
        self.options
    }

    /// A builder with nothing set.
    pub fn new() -> (r: Self)
        ensures
            r.pending() == no_connection_options(),
    {
        AmqpConnectionOptionsBuilder {
            options: AmqpConnectionOptions {
                max_frame_size: None,
                channel_max: None,
                idle_timeout: None,
                outgoing_locales: None,
                incoming_locales: None,
                offered_capabilities: None,
                desired_capabilities: None,
                properties: None,
                buffer_size: None,
            },
        }
    }

    /// Options that agree with those set so far; the builder stays as it is.
    pub fn build(&self) -> (r: AmqpConnectionOptions)
        ensures
            connection_options_agree(self.pending(), r),
    {
        let properties = match &self.options.properties {
            Some(m) => Some(m.duplicate()),
            None => None,
        };
        AmqpConnectionOptions {
            max_frame_size: self.options.max_frame_size,
            channel_max: self.options.channel_max,
            idle_timeout: self.options.idle_timeout,
            outgoing_locales: copy_optional_strings(&self.options.outgoing_locales),
            incoming_locales: copy_optional_strings(&self.options.incoming_locales),
            offered_capabilities: copy_optional_symbols(&self.options.offered_capabilities),
            desired_capabilities: copy_optional_symbols(&self.options.desired_capabilities),
            properties,
            buffer_size: self.options.buffer_size,
        }
    }

    /// Sets `max_frame_size`.
    pub fn with_max_frame_size(&mut self, max_frame_size: u32) -> (r: &mut Self)
        ensures
            r.pending() == (AmqpConnectionOptions { max_frame_size: Some(max_frame_size), ..old(self).pending() }),
            *final(self) == *final(r),
    {
        self.options.max_frame_size = Some(max_frame_size);
        self
    }
    /// Sets `channel_max`.
    pub fn with_channel_max(&mut self, channel_max: u16) -> (r: &mut Self)
        ensures
            r.pending() == (AmqpConnectionOptions { channel_max: Some(channel_max), ..old(self).pending() }),
            *final(self) == *final(r),
    {
        self.options.channel_max = Some(channel_max);
        self
    }

    /// Sets `idle_timeout`.
    pub fn with_idle_timeout(&mut self, idle_timeout: time::Duration) -> (r: &mut Self)
        ensures
            r.pending() == (AmqpConnectionOptions { idle_timeout: Some(idle_timeout), ..old(self).pending() }),
            *final(self) == *final(r),
    {
        self.options.idle_timeout = Some(idle_timeout);
        self
    }

    /// Sets `outgoing_locales`.
    pub fn with_outgoing_locales(&mut self, outgoing_locales: Vec<String>) -> (r: &mut Self)
        ensures
            r.pending() == (AmqpConnectionOptions { outgoing_locales: Some(outgoing_locales), ..old(self).pending() }),
            *final(self) == *final(r),
    {
        self.options.outgoing_locales = Some(outgoing_locales);
        self
    }

    /// Sets `incoming_locales`.
    pub fn with_incoming_locales(&mut self, incoming_locales: Vec<String>) -> (r: &mut Self)
        ensures
            r.pending() == (AmqpConnectionOptions { incoming_locales: Some(incoming_locales), ..old(self).pending() }),
            *final(self) == *final(r),
    {
        self.options.incoming_locales = Some(incoming_locales);
        self
    }

    /// Sets `offered_capabilities`.
    pub fn with_offered_capabilities(&mut self, offered_capabilities: Vec<AmqpSymbol>) -> (r: &mut Self)
        ensures
            r.pending() == (AmqpConnectionOptions { offered_capabilities: Some(offered_capabilities), ..old(self).pending() }),
            *final(self) == *final(r),
    {
        self.options.offered_capabilities = Some(offered_capabilities);
        self
    }

    /// Sets `desired_capabilities`.
    pub fn with_desired_capabilities(&mut self, desired_capabilities: Vec<AmqpSymbol>) -> (r: &mut Self)
        ensures
            r.pending() == (AmqpConnectionOptions { desired_capabilities: Some(desired_capabilities), ..old(self).pending() }),
            *final(self) == *final(r),
    {
        self.options.desired_capabilities = Some(desired_capabilities);
        self
    }

    /// Sets the properties: each (name, value) pair as a symbol and a string value,
    /// in order.
    pub fn with_properties(&mut self, properties: Vec<(&str, &str)>) -> (r: &mut Self)
        ensures
            r.pending().properties matches Some(m) && properties_from(properties@, m@),
            r.pending() == (AmqpConnectionOptions { properties: r.pending().properties, ..old(self).pending() }),
            *final(self) == *final(r),
    {
        self.options.properties = Some(properties_from_pairs(properties));
        self
    }

    /// Sets `buffer_size`.
    pub fn with_buffer_size(&mut self, buffer_size: usize) -> (r: &mut Self)
        ensures
            r.pending() == (AmqpConnectionOptions { buffer_size: Some(buffer_size), ..old(self).pending() }),
            *final(self) == *final(r),
    {
        self.options.buffer_size = Some(buffer_size);
        self
    }
}

/// Builds [`AmqpConnectionOptions`], and opens connections with them.
pub struct AmqpConnectionBuilder {
    options: AmqpConnectionOptions,
}

impl AmqpConnectionBuilder {
    /// The options that `build` will hand back.
    pub closed spec fn pending(&self) -> AmqpConnectionOptions {
        self.options
    }

    /// A builder with nothing set.
    pub fn new() -> (r: Self)
        ensures
            r.pending() == no_connection_options(),
    {
        AmqpConnectionBuilder {
            options: AmqpConnectionOptions {
                max_frame_size: None,
                channel_max: None,
                idle_timeout: None,
                outgoing_locales: None,
                incoming_locales: None,
                offered_capabilities: None,
                desired_capabilities: None,
                properties: None,
                buffer_size: None,
            },
        }
    }

    /// Sets `max_frame_size`.
    pub fn with_max_frame_size(self, max_frame_size: u32) -> (r: Self)
        ensures
            r.pending() == (AmqpConnectionOptions { max_frame_size: Some(max_frame_size), ..self.pending() }),
    {
        let mut b = self;
        b.options.max_frame_size = Some(max_frame_size);
        b
    }

    /// Sets `channel_max`.
    pub fn with_channel_max(self, channel_max: u16) -> (r: Self)
        ensures
            r.pending() == (AmqpConnectionOptions { channel_max: Some(channel_max), ..self.pending() }),
    {
        let mut b = self;
        b.options.channel_max = Some(channel_max);
        b
    }

    /// Sets `idle_timeout`.
    pub fn with_idle_timeout(self, idle_timeout: time::Duration) -> (r: Self)
        ensures
            r.pending() == (AmqpConnectionOptions { idle_timeout: Some(idle_timeout), ..self.pending() }),
    {
        let mut b = self;
        b.options.idle_timeout = Some(idle_timeout);
        b
    }

    /// Sets `outgoing_locales`.
    pub fn with_outgoing_locales(self, outgoing_locales: Vec<String>) -> (r: Self)
        ensures
            r.pending() == (AmqpConnectionOptions { outgoing_locales: Some(outgoing_locales), ..self.pending() }),
    {
        let mut b = self;
        b.options.outgoing_locales = Some(outgoing_locales);
        b
    }

    /// Sets `incoming_locales`.
    pub fn with_incoming_locales(self, incoming_locales: Vec<String>) -> (r: Self)
        ensures
            r.pending() == (AmqpConnectionOptions { incoming_locales: Some(incoming_locales), ..self.pending() }),
    {
        let mut b = self;
        b.options.incoming_locales = Some(incoming_locales);
        b
    }

    /// Sets `offered_capabilities`.
    pub fn with_offered_capabilities(self, offered_capabilities: Vec<AmqpSymbol>) -> (r: Self)
        ensures
            r.pending() == (AmqpConnectionOptions { offered_capabilities: Some(offered_capabilities), ..self.pending() }),
    {
        let mut b = self;
        b.options.offered_capabilities = Some(offered_capabilities);
        b
    }

    /// Sets `desired_capabilities`.
    pub fn with_desired_capabilities(self, desired_capabilities: Vec<AmqpSymbol>) -> (r: Self)
        ensures
            r.pending() == (AmqpConnectionOptions { desired_capabilities: Some(desired_capabilities), ..self.pending() }),
    {
        let mut b = self;
        b.options.desired_capabilities = Some(desired_capabilities);
        b
    }

    /// Sets the properties: each (name, value) pair as a symbol and a string value,
    /// in order.
    pub fn with_properties(self, properties: Vec<(&str, &str)>) -> (r: Self)
        ensures
            r.pending().properties matches Some(m) && properties_from(properties@, m@),
            r.pending() == (AmqpConnectionOptions { properties: r.pending().properties, ..self.pending() }),
    {
        let mut b = self;
        b.options.properties = Some(properties_from_pairs(properties));
        b
    }

    /// Sets the properties to `properties`, each (symbol, value) entry in order.
    pub fn with_property_entries(self, properties: Vec<(AmqpSymbol, AmqpValue)>) -> (r: Self)
        ensures
            r.pending().properties matches Some(m) && m@ == properties@,
            r.pending() == (AmqpConnectionOptions { properties: r.pending().properties, ..self.pending() }),
    {
        let mut b = self;
        b.options.properties = Some(AmqpOrderedMap::from_entries(properties));
        b
    }

    /// Sets `buffer_size`.
    pub fn with_buffer_size(self, buffer_size: usize) -> (r: Self)
        ensures
            r.pending() == (AmqpConnectionOptions { buffer_size: Some(buffer_size), ..self.pending() }),
    {
        let mut b = self;
        b.options.buffer_size = Some(buffer_size);
        b
    }

    /// The options set so far.
    pub fn build(self) -> (r: AmqpConnectionOptions)
        ensures
            r == self.pending(),
    {
        self.options
    }
}

/// The largest frame size a connection is opened with where none is set.
pub const DEFAULT_MAX_FRAME_SIZE: u32 = 65536;

/// What a connection is opened with: the container id, the largest frame size,
/// and the options as set.
#[derive(Debug)]
pub struct ConnectionSettings {
    pub container_id: String,
    pub max_frame_size: u32,
    pub options: AmqpConnectionOptions,
}

impl AmqpConnectionBuilder {
    /// What a connection opened by this builder for the container `container_id`
    /// is opened with: the largest frame size set, or the default one.
    pub fn open_settings(self, container_id: String) -> (r: ConnectionSettings)
        ensures
            r.container_id == container_id,
            r.max_frame_size == (match self.pending().max_frame_size {
                Some(m) => m,
                None => DEFAULT_MAX_FRAME_SIZE,
            }),
            r.options == self.pending(),
    {
        let max_frame_size = match self.options.max_frame_size {
            Some(m) => m,
            None => DEFAULT_MAX_FRAME_SIZE,
        };
        ConnectionSettings { container_id, max_frame_size, options: self.options }
    }
}

} // verus!
