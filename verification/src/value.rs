use vstd::prelude::*;

verus! {

/// A type whose values can serve as keys of an [`AmqpOrderedMap`].
///
/// Two keys are the same key when `key_matches` holds of them; `key_eq`
/// decides it at run time.
pub trait AmqpMapKey: Sized {
    spec fn key_matches(&self, other: &Self) -> bool;

    fn key_eq(&self, other: &Self) -> (r: bool)
        ensures
            r == self.key_matches(other),
    ;
}

impl AmqpMapKey for String {
    open spec fn key_matches(&self, other: &Self) -> bool {
        self@ == other@
    }

    fn key_eq(&self, other: &Self) -> (r: bool) {
        *self == *other
    }
}

/// `i` is the first position of `entries` whose key matches `key`.
pub open spec fn is_first_position<K: AmqpMapKey, V>(entries: Seq<(K, V)>, key: K, i: int) -> bool {
    &&& 0 <= i < entries.len()
    &&& entries[i].0.key_matches(&key)
    &&& forall|j: int| 0 <= j < i ==> !(#[trigger] entries[j].0.key_matches(&key))
}

/// Position of the first entry whose key matches `key`, if any.
pub open spec fn key_position<K: AmqpMapKey, V>(entries: Seq<(K, V)>, key: K) -> Option<int> {
    if exists|i: int| is_first_position(entries, key, i) {
        Some(choose|i: int| is_first_position(entries, key, i))
    } else {
        None
    }
}

/// The value that a lookup of `key` finds in `entries`: the one of its first occurrence.
pub open spec fn lookup<K: AmqpMapKey, V>(entries: Seq<(K, V)>, key: K) -> Option<V> {
    match key_position(entries, key) {
        Some(i) => Some(entries[i].1),
        None => None,
    }
}

pub proof fn lemma_first_position_unique<K: AmqpMapKey, V>(
    entries: Seq<(K, V)>,
    key: K,
    i: int,
    j: int,
)
    requires
        is_first_position(entries, key, i),
        is_first_position(entries, key, j),
    ensures
        i == j,
{
}

/// A key occurs in a sequence of entries exactly when it has a first position there.
pub proof fn lemma_key_position_iff_occurs<K: AmqpMapKey, V>(entries: Seq<(K, V)>, key: K)
    ensures
        key_position(entries, key) is Some <==> exists|i: int|
            0 <= i < entries.len() && #[trigger] entries[i].0.key_matches(&key),
        key_position(entries, key) matches Some(p) ==> is_first_position(entries, key, p),
{
    if exists|i: int| 0 <= i < entries.len() && #[trigger] entries[i].0.key_matches(&key) {
        let i = choose|i: int| 0 <= i < entries.len() && #[trigger] entries[i].0.key_matches(&key);
        lemma_first_position_exists(entries, key, i);
    }
}

proof fn lemma_first_position_exists<K: AmqpMapKey, V>(entries: Seq<(K, V)>, key: K, i: int)
    requires
        0 <= i < entries.len(),
        entries[i].0.key_matches(&key),
    ensures
        exists|p: int| is_first_position(entries, key, p),
    decreases i,
{
    if forall|j: int| 0 <= j < i ==> !(#[trigger] entries[j].0.key_matches(&key)) {
        assert(is_first_position(entries, key, i));
    } else {
        let j = choose|j: int| 0 <= j < i && #[trigger] entries[j].0.key_matches(&key);
        lemma_first_position_exists(entries, key, j);
    }
}

/// `i` is the first position of `entries` whose key reads `name`.
pub open spec fn is_first_text_position<V>(entries: Seq<(String, V)>, name: Seq<char>, i: int) -> bool {
    &&& 0 <= i < entries.len()
    &&& entries[i].0@ == name
    &&& forall|j: int| 0 <= j < i ==> #[trigger] entries[j].0@ != name
}

/// The value stored under the text `name` in string-keyed entries: that of the
/// first entry whose key reads `name`, if any.
pub open spec fn text_lookup<V>(entries: Seq<(String, V)>, name: Seq<char>) -> Option<V> {
    if exists|i: int| is_first_text_position(entries, name, i) {
        Some(entries[choose|i: int| is_first_text_position(entries, name, i)].1)
    } else {
        None
    }
}

/// In string-keyed entries, a lookup of a key finds what a lookup of its text finds.
pub proof fn lemma_lookup_by_text<V>(entries: Seq<(String, V)>, key: String)
    ensures
        lookup(entries, key) == text_lookup(entries, key@),
        key_position(entries, key) is Some <==> text_lookup(entries, key@) is Some,
{
    assert forall|i: int|
        is_first_position(entries, key, i) <==> is_first_text_position(entries, key@, i) by {
        if is_first_text_position(entries, key@, i) {
            assert forall|j: int| 0 <= j < i implies !(#[trigger] entries[j].0.key_matches(&key)) by {
                assert(entries[j].0@ != key@);
            }
        }
        if is_first_position(entries, key, i) {
            assert forall|j: int| 0 <= j < i implies #[trigger] entries[j].0@ != key@ by {
                assert(!entries[j].0.key_matches(&key));
            }
        }
    }
    if exists|i: int| is_first_text_position(entries, key@, i) {
        let q = choose|i: int| is_first_text_position(entries, key@, i);
        assert(is_first_position(entries, key, q));
        let p = choose|i: int| is_first_position(entries, key, i);
        assert(is_first_position(entries, key, p));
        lemma_first_position_unique(entries, key, p, q);
    } else {
        assert forall|i: int| !is_first_position(entries, key, i) by {
            if is_first_position(entries, key, i) {
                assert(is_first_text_position(entries, key@, i));
            }
        }
    }
}

/// `contains_key` holds of a key exactly when `get` finds a value for it.
pub proof fn lemma_contains_iff_lookup<K: AmqpMapKey, V>(entries: Seq<(K, V)>, key: K)
    ensures
        key_position(entries, key) is Some <==> lookup(entries, key) is Some,
{
}

/// Appending an entry never changes the first position of a key already present;
/// a key not present before is found at the new entry exactly when it matches it.
pub proof fn lemma_key_position_after_insert<K: AmqpMapKey, V>(
    entries: Seq<(K, V)>,
    key: K,
    value: V,
    probe: K,
)
    ensures
        key_position(entries.push((key, value)), probe) == (if key_position(entries, probe) is Some {
            key_position(entries, probe)
        } else if key.key_matches(&probe) {
            Some(entries.len() as int)
        } else {
            None::<int>
        }),
{
    let e2 = entries.push((key, value));
    lemma_key_position_iff_occurs(entries, probe);
    lemma_key_position_iff_occurs(e2, probe);
    if key_position(entries, probe) is Some {
        let p = key_position(entries, probe)->0;
        assert forall|j: int| 0 <= j < p implies !(#[trigger] e2[j].0.key_matches(&probe)) by {
            assert(e2[j] == entries[j]);
        }
        assert(is_first_position(e2, probe, p));
        let q = choose|q: int| is_first_position(e2, probe, q);
        lemma_first_position_unique(e2, probe, p, q);
    } else if key.key_matches(&probe) {
        let n = entries.len() as int;
        assert forall|j: int| 0 <= j < n implies !(#[trigger] e2[j].0.key_matches(&probe)) by {
            assert(e2[j] == entries[j]);
        }
        assert(is_first_position(e2, probe, n));
        let q = choose|q: int| is_first_position(e2, probe, q);
        lemma_first_position_unique(e2, probe, n, q);
    } else {
        assert forall|j: int| 0 <= j < e2.len() implies !(#[trigger] e2[j].0.key_matches(&probe)) by {
            if j < entries.len() {
                assert(e2[j] == entries[j]);
            }
        }
    }
}

/// After an insert, a lookup finds what it found before; a key that was absent is
/// found with the inserted value when it matches the inserted key.
pub proof fn lemma_lookup_after_insert<K: AmqpMapKey, V>(
    entries: Seq<(K, V)>,
    key: K,
    value: V,
    probe: K,
)
    ensures
        lookup(entries.push((key, value)), probe) == (if key_position(entries, probe) is Some {
            lookup(entries, probe)
        } else if key.key_matches(&probe) {
            Some(value)
        } else {
            None::<V>
        }),
{
    lemma_key_position_after_insert(entries, key, value, probe);
    lemma_key_position_iff_occurs(entries, probe);
}

/// Inserting a key that was absent makes a lookup of that key find the inserted
/// value, for a key equal to itself (every key but a value that holds a NaN).
pub proof fn lemma_lookup_inserted<K: AmqpMapKey, V>(entries: Seq<(K, V)>, key: K, value: V)
    requires
        key_position(entries, key) is None,
        key.key_matches(&key),
    ensures
        lookup(entries.push((key, value)), key) == Some(value),
{
    lemma_lookup_after_insert(entries, key, value, key);
}

/// Removing a key that was just inserted, and was absent before, gives back the
/// inserted value and restores the entries as they were, for a key equal to
/// itself (every key but a value that holds a NaN).
pub proof fn lemma_remove_after_insert<K: AmqpMapKey, V>(entries: Seq<(K, V)>, key: K, value: V)
    requires
        key_position(entries, key) is None,
        key.key_matches(&key),
    ensures
        key_position(entries.push((key, value)), key) == Some(entries.len() as int),
        entries.push((key, value))[entries.len() as int].1 == value,
        entries.push((key, value)).remove(entries.len() as int) == entries,
{
    lemma_key_position_after_insert(entries, key, value, key);
    assert(entries.push((key, value)).remove(entries.len() as int) =~= entries);
}

/// Removing the first entry of a key leaves every lookup of a key that this entry
/// does not match as it was.
pub proof fn lemma_lookup_after_remove<K: AmqpMapKey, V>(entries: Seq<(K, V)>, key: K, probe: K)
    requires
        key_position(entries, key) is Some,
        !entries[key_position(entries, key)->0].0.key_matches(&probe),
    ensures
        lookup(entries.remove(key_position(entries, key)->0), probe) == lookup(entries, probe),
{
    let p = key_position(entries, key)->0;
    lemma_key_position_iff_occurs(entries, key);
    let e2 = entries.remove(p);
    lemma_key_position_iff_occurs(entries, probe);
    lemma_key_position_iff_occurs(e2, probe);
    if key_position(entries, probe) is Some {
        let q = key_position(entries, probe)->0;
        assert(q != p);
        let q2 = if q < p { q } else { q - 1 };
        assert forall|j: int| 0 <= j < q2 implies !(#[trigger] e2[j].0.key_matches(&probe)) by {
            if j < p {
                assert(e2[j] == entries[j]);
            } else {
                assert(e2[j] == entries[j + 1]);
            }
        }
        assert(e2[q2] == entries[q]);
        assert(is_first_position(e2, probe, q2));
        let r = choose|r: int| is_first_position(e2, probe, r);
        lemma_first_position_unique(e2, probe, q2, r);
    } else {
        assert forall|j: int| 0 <= j < e2.len() implies !(#[trigger] e2[j].0.key_matches(&probe)) by {
            if j < p {
                assert(e2[j] == entries[j]);
            } else {
                assert(e2[j] == entries[j + 1]);
            }
        }
    }
}

/// Removing the only entry of a key leaves the key absent.
pub proof fn lemma_remove_only_entry<K: AmqpMapKey, V>(entries: Seq<(K, V)>, key: K)
    requires
        key_position(entries, key) is Some,
        forall|j: int|
            0 <= j < entries.len() && j != key_position(entries, key)->0
                ==> !(#[trigger] entries[j].0.key_matches(&key)),
    ensures
        key_position(entries.remove(key_position(entries, key)->0), key) is None,
{
    let p = key_position(entries, key)->0;
    let e2 = entries.remove(p);
    lemma_key_position_iff_occurs(entries, key);
    lemma_key_position_iff_occurs(e2, key);
    assert forall|j: int| 0 <= j < e2.len() implies !(#[trigger] e2[j].0.key_matches(&key)) by {
        if j < p {
            assert(e2[j] == entries[j]);
        } else {
            assert(e2[j] == entries[j + 1]);
        }
    }
}

/// An ordered map of AMQP keys and values.
///
/// Entries keep the order in which they were inserted; inserting a key that is
/// already present adds a second entry, and lookups find the first one.
#[derive(Debug, PartialEq, Clone)]
pub struct AmqpOrderedMap<K, V> {
    inner: Vec<(K, V)>,
}

impl<K, V> View for AmqpOrderedMap<K, V> {
    type V = Seq<(K, V)>;

    closed spec fn view(&self) -> Seq<(K, V)> {
        self.inner@
    }
}

impl<K, V> AmqpOrderedMap<K, V> {
    pub fn new() -> (r: Self)
        ensures
            r@ == Seq::<(K, V)>::empty(),
    {
        AmqpOrderedMap { inner: Vec::new() }
    }

    pub fn insert(&mut self, key: K, value: V)
        ensures
            final(self)@ == old(self)@.push((key, value)),
    {
        self.inner.push((key, value));
    }

    /// The entries, in insertion order.
    pub fn iter(&self) -> (r: &[(K, V)])
        ensures
            r@ == self@,
    {
        self.inner.as_slice()
    }

    /// Consumes the map and hands back its entries, in insertion order.
    pub fn into_iter(self) -> (r: Vec<(K, V)>)
        ensures
            r@ == self@,
    {
        self.inner
    }

    /// Builds a map whose entries are `entries`, in their order.
    pub fn from_entries(entries: Vec<(K, V)>) -> (r: Self)
        ensures
            r@ == entries@,
    {
        AmqpOrderedMap { inner: entries }
    }

    pub fn len(&self) -> (r: usize)
        ensures
            r == self@.len(),
    {
        self.inner.len()
    }
}

impl<K: AmqpMapKey, V> AmqpOrderedMap<K, V> {
    fn position(&self, key: &K) -> (r: Option<usize>)
        ensures
            match r {
                Some(p) => key_position(self@, *key) == Some(p as int) && p < self@.len(),
                None => key_position(self@, *key) is None,
            },
    {
        let n = self.inner.len();
        let mut i: usize = 0;
        while i < n
            invariant
                n == self.inner@.len(),
                i <= n,
                forall|j: int| 0 <= j < i ==> !(#[trigger] self.inner@[j].0.key_matches(key)),
            decreases n - i,
        {
            if self.inner[i].0.key_eq(key) {
                proof {
                    assert(is_first_position(self@, *key, i as int));
                    let p = choose|p: int| is_first_position(self@, *key, p);
                    lemma_first_position_unique(self@, *key, i as int, p);
                }
                return Some(i);
            }
            i += 1;
        }
        proof {
            assert forall|p: int| !is_first_position(self@, *key, p) by {
                if is_first_position(self@, *key, p) {
                    assert(self.inner@[p].0.key_matches(key));
                }
            }
        }
        None
    }

    /// The value of the first entry whose key matches `key`.
    pub fn get(&self, key: K) -> (r: Option<&V>)
        ensures
            match key_position(self@, key) {
                Some(i) => r == Some(&self@[i].1),
                None => r is None,
            },
    {
        match self.position(&key) {
            Some(i) => Some(&self.inner[i].1),
            None => None,
        }
    }

    /// Removes the first entry whose key matches `key` and returns its value.
    pub fn remove(&mut self, key: &K) -> (r: Option<V>)
        ensures
            match key_position(old(self)@, *key) {
                Some(i) => r == Some(old(self)@[i].1) && final(self)@ == old(self)@.remove(i),
                None => r is None && final(self)@ == old(self)@,
            },
    {
        match self.position(key) {
            Some(i) => {
                let entry = self.inner.remove(i);
                Some(entry.1)
            },
            None => None,
        }
    }

    pub fn contains_key(&self, key: K) -> (r: bool)
        ensures
            r == key_position(self@, key) is Some,
    {
        self.position(&key).is_some()
    }
}

/// An AMQP symbol: a name drawn from a restricted ASCII vocabulary.
#[derive(Debug, PartialEq, Clone)]
pub struct AmqpSymbol(pub String);

/// A list of AMQP values, possibly of differing types.
#[derive(Debug, PartialEq)]
pub struct AmqpList(pub Vec<AmqpValue>);

/// An AMQP timestamp: milliseconds since the Unix epoch.
#[derive(Debug, PartialEq, Clone, Copy)]
pub struct AmqpTimestamp(pub i64);

/// The descriptor of a described value: a numeric code or a symbolic name.
#[derive(Debug, PartialEq, Clone)]
pub enum AmqpDescriptor {
    Code(u64),
    Name(AmqpSymbol),
}

/// A value together with the descriptor that gives its meaning.
#[derive(Debug, PartialEq)]
pub struct AmqpDescribed {
    pub descriptor: AmqpDescriptor,
    pub value: AmqpValue,
}

/// An AMQP value.
///
/// Floating-point values are carried by their IEEE 754 bit patterns, and a UUID
/// by its 128-bit big-endian number.
#[derive(Debug, PartialEq)]
pub enum AmqpValue {
    Null,
    Boolean(bool),
    UByte(u8),
    UShort(u16),
    UInt(u32),
    ULong(u64),
    Byte(i8),
    Short(i16),
    Int(i32),
    Long(i64),
    Float(u32),
    Double(u64),
    Char(char),
    TimeStamp(AmqpTimestamp),
    Uuid(u128),
    Binary(Vec<u8>),
    String(String),
    Symbol(AmqpSymbol),
    List(AmqpList),
    OrderedMap(AmqpOrderedMap<AmqpValue, AmqpValue>),
    Array(Vec<AmqpValue>),
    Described(Box<AmqpDescribed>),
    Unknown,
}


/// Two descriptors denote the same descriptor.
pub open spec fn descriptors_match(a: AmqpDescriptor, b: AmqpDescriptor) -> bool {
    match a {
        AmqpDescriptor::Code(x) => b matches AmqpDescriptor::Code(y) && x == y,
        AmqpDescriptor::Name(x) => b matches AmqpDescriptor::Name(y) && x.0@ == y.0@,
    }
}

/// Two AMQP values have the same type and the same contents, element by element;
/// text is compared by its characters.
pub closed spec fn values_match(a: AmqpValue, b: AmqpValue) -> bool
    decreases a,
{
    match a {
        AmqpValue::Null => b is Null,
        AmqpValue::Boolean(x) => b matches AmqpValue::Boolean(y) && x == y,
        AmqpValue::UByte(x) => b matches AmqpValue::UByte(y) && x == y,
        AmqpValue::UShort(x) => b matches AmqpValue::UShort(y) && x == y,
        AmqpValue::UInt(x) => b matches AmqpValue::UInt(y) && x == y,
        AmqpValue::ULong(x) => b matches AmqpValue::ULong(y) && x == y,
        AmqpValue::Byte(x) => b matches AmqpValue::Byte(y) && x == y,
        AmqpValue::Short(x) => b matches AmqpValue::Short(y) && x == y,
        AmqpValue::Int(x) => b matches AmqpValue::Int(y) && x == y,
        AmqpValue::Long(x) => b matches AmqpValue::Long(y) && x == y,
        AmqpValue::Float(x) => b matches AmqpValue::Float(y) && x == y,
        AmqpValue::Double(x) => b matches AmqpValue::Double(y) && x == y,
        AmqpValue::Char(x) => b matches AmqpValue::Char(y) && x == y,
        AmqpValue::TimeStamp(x) => b matches AmqpValue::TimeStamp(y) && x == y,
        AmqpValue::Uuid(x) => b matches AmqpValue::Uuid(y) && x == y,
        AmqpValue::Binary(x) => b matches AmqpValue::Binary(y) && x@ == y@,
        AmqpValue::String(x) => b matches AmqpValue::String(y) && x@ == y@,
        AmqpValue::Symbol(x) => b matches AmqpValue::Symbol(y) && x.0@ == y.0@,
        AmqpValue::List(x) => b matches AmqpValue::List(y) && x.0@.len() == y.0@.len() && forall|i: int|
            0 <= i < x.0@.len() ==> values_match(#[trigger] x.0@[i], y.0@[i]),
        AmqpValue::OrderedMap(x) => b matches AmqpValue::OrderedMap(y) && x.inner@.len() == y.inner@.len()
            && forall|i: int|
            0 <= i < x.inner@.len() ==> values_match(#[trigger] x.inner@[i].0, y.inner@[i].0)
                && values_match(x.inner@[i].1, y.inner@[i].1),
        AmqpValue::Array(x) => b matches AmqpValue::Array(y) && x@.len() == y@.len() && forall|i: int|
            0 <= i < x@.len() ==> values_match(#[trigger] x@[i], y@[i]),
        AmqpValue::Described(d) => b matches AmqpValue::Described(e) && descriptors_match(
            d.descriptor,
            e.descriptor,
        ) && values_match(d.value, e.value),
        AmqpValue::Unknown => b is Unknown,
    }
}

/// The bits of an `f32` are those of a NaN: all exponent bits set, and a
/// fraction that is not zero.
pub open spec fn float_bits_nan(x: u32) -> bool {
    (x & 0x7f80_0000u32) == 0x7f80_0000u32 && (x & 0x007f_ffffu32) != 0u32
}

/// Two `f32` bit patterns hold equal numbers by IEEE 754 comparison: a NaN
/// equals nothing, and zero equals zero whatever the signs.
pub open spec fn float_bits_equal(x: u32, y: u32) -> bool {
    &&& !float_bits_nan(x)
    &&& !float_bits_nan(y)
    &&& (x == y || ((x & 0x7fff_ffffu32) == 0u32 && (y & 0x7fff_ffffu32) == 0u32))
}

/// The bits of an `f64` are those of a NaN: all exponent bits set, and a
/// fraction that is not zero.
pub open spec fn double_bits_nan(x: u64) -> bool {
    (x & 0x7ff0_0000_0000_0000u64) == 0x7ff0_0000_0000_0000u64 && (x & 0x000f_ffff_ffff_ffffu64) != 0u64
}

/// Two `f64` bit patterns hold equal numbers by IEEE 754 comparison: a NaN
/// equals nothing, and zero equals zero whatever the signs.
pub open spec fn double_bits_equal(x: u64, y: u64) -> bool {
    &&& !double_bits_nan(x)
    &&& !double_bits_nan(y)
    &&& (x == y || ((x & 0x7fff_ffff_ffff_ffffu64) == 0u64 && (y & 0x7fff_ffff_ffff_ffffu64) == 0u64))
}

/// Two AMQP values are equal as `==` compares them: the same type and equal
/// contents, element by element, with floating-point numbers compared by IEEE
/// 754 (so a value that holds a NaN equals no value, itself included).
pub closed spec fn values_eq(a: AmqpValue, b: AmqpValue) -> bool
    decreases a,
{
    match a {
        AmqpValue::Null => b is Null,
        AmqpValue::Boolean(x) => b matches AmqpValue::Boolean(y) && x == y,
        AmqpValue::UByte(x) => b matches AmqpValue::UByte(y) && x == y,
        AmqpValue::UShort(x) => b matches AmqpValue::UShort(y) && x == y,
        AmqpValue::UInt(x) => b matches AmqpValue::UInt(y) && x == y,
        AmqpValue::ULong(x) => b matches AmqpValue::ULong(y) && x == y,
        AmqpValue::Byte(x) => b matches AmqpValue::Byte(y) && x == y,
        AmqpValue::Short(x) => b matches AmqpValue::Short(y) && x == y,
        AmqpValue::Int(x) => b matches AmqpValue::Int(y) && x == y,
        AmqpValue::Long(x) => b matches AmqpValue::Long(y) && x == y,
        AmqpValue::Float(x) => b matches AmqpValue::Float(y) && float_bits_equal(x, y),
        AmqpValue::Double(x) => b matches AmqpValue::Double(y) && double_bits_equal(x, y),
        AmqpValue::Char(x) => b matches AmqpValue::Char(y) && x == y,
        AmqpValue::TimeStamp(x) => b matches AmqpValue::TimeStamp(y) && x == y,
        AmqpValue::Uuid(x) => b matches AmqpValue::Uuid(y) && x == y,
        AmqpValue::Binary(x) => b matches AmqpValue::Binary(y) && x@ == y@,
        AmqpValue::String(x) => b matches AmqpValue::String(y) && x@ == y@,
        AmqpValue::Symbol(x) => b matches AmqpValue::Symbol(y) && x.0@ == y.0@,
        AmqpValue::List(x) => b matches AmqpValue::List(y) && x.0@.len() == y.0@.len() && forall|i: int|
            0 <= i < x.0@.len() ==> values_eq(#[trigger] x.0@[i], y.0@[i]),
        AmqpValue::OrderedMap(x) => b matches AmqpValue::OrderedMap(y) && x.inner@.len() == y.inner@.len()
            && forall|i: int|
            0 <= i < x.inner@.len() ==> values_eq(#[trigger] x.inner@[i].0, y.inner@[i].0)
                && values_eq(x.inner@[i].1, y.inner@[i].1),
        AmqpValue::Array(x) => b matches AmqpValue::Array(y) && x@.len() == y@.len() && forall|i: int|
            0 <= i < x@.len() ==> values_eq(#[trigger] x@[i], y@[i]),
        AmqpValue::Described(d) => b matches AmqpValue::Described(e) && descriptors_match(
            d.descriptor,
            e.descriptor,
        ) && values_eq(d.value, e.value),
        AmqpValue::Unknown => b is Unknown,
    }
}

fn float_equal(x: u32, y: u32) -> (r: bool)
    ensures
        r == float_bits_equal(x, y),
{
    let x_nan = (x & 0x7f80_0000u32) == 0x7f80_0000u32 && (x & 0x007f_ffffu32) != 0u32;
    let y_nan = (y & 0x7f80_0000u32) == 0x7f80_0000u32 && (y & 0x007f_ffffu32) != 0u32;
    !x_nan && !y_nan && (x == y || ((x & 0x7fff_ffffu32) == 0u32 && (y & 0x7fff_ffffu32) == 0u32))
}

fn double_equal(x: u64, y: u64) -> (r: bool)
    ensures
        r == double_bits_equal(x, y),
{
    let x_nan = (x & 0x7ff0_0000_0000_0000u64) == 0x7ff0_0000_0000_0000u64
        && (x & 0x000f_ffff_ffff_ffffu64) != 0u64;
    let y_nan = (y & 0x7ff0_0000_0000_0000u64) == 0x7ff0_0000_0000_0000u64
        && (y & 0x000f_ffff_ffff_ffffu64) != 0u64;
    !x_nan && !y_nan && (x == y || ((x & 0x7fff_ffff_ffff_ffffu64) == 0u64
        && (y & 0x7fff_ffff_ffff_ffffu64) == 0u64))
}

/// `a` holds no floating-point number, at any depth.
pub open spec fn holds_no_float(a: AmqpValue) -> bool
    decreases a,
{
    match a {
        AmqpValue::Float(_) => false,
        AmqpValue::Double(_) => false,
        AmqpValue::List(x) => forall|i: int| 0 <= i < x.0@.len() ==> holds_no_float(#[trigger] x.0@[i]),
        AmqpValue::OrderedMap(x) => forall|i: int|
            0 <= i < x@.len() ==> holds_no_float(#[trigger] x@[i].0) && holds_no_float(x@[i].1),
        AmqpValue::Array(x) => forall|i: int| 0 <= i < x@.len() ==> holds_no_float(#[trigger] x@[i]),
        AmqpValue::Described(d) => holds_no_float(d.value),
        _ => true,
    }
}

/// Keys of the simple kinds are equal exactly when they are of the same kind
/// and hold the same contents: symbols and strings by their text, binaries by
/// their bytes, numbers, characters, timestamps and UUIDs by their value.
pub proof fn lemma_simple_values_equal_by_contents()
    ensures
        forall|x: AmqpSymbol, y: AmqpSymbol|
            #[trigger] values_eq(AmqpValue::Symbol(x), AmqpValue::Symbol(y)) <==> x.0@ == y.0@,
        forall|x: String, y: String| #[trigger] values_eq(AmqpValue::String(x), AmqpValue::String(y)) <==> x@ == y@,
        forall|x: Vec<u8>, y: Vec<u8>| #[trigger] values_eq(AmqpValue::Binary(x), AmqpValue::Binary(y)) <==> x@ == y@,
        forall|x: bool, y: bool| #[trigger] values_eq(AmqpValue::Boolean(x), AmqpValue::Boolean(y)) <==> x == y,
        forall|x: u8, y: u8| #[trigger] values_eq(AmqpValue::UByte(x), AmqpValue::UByte(y)) <==> x == y,
        forall|x: u16, y: u16| #[trigger] values_eq(AmqpValue::UShort(x), AmqpValue::UShort(y)) <==> x == y,
        forall|x: u32, y: u32| #[trigger] values_eq(AmqpValue::UInt(x), AmqpValue::UInt(y)) <==> x == y,
        forall|x: u64, y: u64| #[trigger] values_eq(AmqpValue::ULong(x), AmqpValue::ULong(y)) <==> x == y,
        forall|x: i8, y: i8| #[trigger] values_eq(AmqpValue::Byte(x), AmqpValue::Byte(y)) <==> x == y,
        forall|x: i16, y: i16| #[trigger] values_eq(AmqpValue::Short(x), AmqpValue::Short(y)) <==> x == y,
        forall|x: i32, y: i32| #[trigger] values_eq(AmqpValue::Int(x), AmqpValue::Int(y)) <==> x == y,
        forall|x: i64, y: i64| #[trigger] values_eq(AmqpValue::Long(x), AmqpValue::Long(y)) <==> x == y,
        forall|x: char, y: char| #[trigger] values_eq(AmqpValue::Char(x), AmqpValue::Char(y)) <==> x == y,
        forall|x: AmqpTimestamp, y: AmqpTimestamp|
            #[trigger] values_eq(AmqpValue::TimeStamp(x), AmqpValue::TimeStamp(y)) <==> x.0 == y.0,
        forall|x: u128, y: u128| #[trigger] values_eq(AmqpValue::Uuid(x), AmqpValue::Uuid(y)) <==> x == y,
        values_eq(AmqpValue::Null, AmqpValue::Null),
        values_eq(AmqpValue::Unknown, AmqpValue::Unknown),
{
    assert forall|x: char, y: char| #[trigger] values_eq(AmqpValue::Char(x), AmqpValue::Char(y)) <==> x == y by {
        lemma_char_values_equal(x, y);
    }
}

proof fn lemma_char_values_equal(x: char, y: char)
    ensures
        values_eq(AmqpValue::Char(x), AmqpValue::Char(y)) <==> x == y,
{
    reveal_with_fuel(values_eq, 2);
}

/// Values of different kinds are never equal: a symbol does not equal the
/// string of its text, nor a `Long` the `Int` of the same number.
pub proof fn lemma_values_of_different_kinds_differ(a: AmqpValue, b: AmqpValue)
    requires
        !((a is Null && b is Null) || (a is Boolean && b is Boolean) || (a is UByte && b is UByte)
            || (a is UShort && b is UShort) || (a is UInt && b is UInt) || (a is ULong && b is ULong)
            || (a is Byte && b is Byte) || (a is Short && b is Short) || (a is Int && b is Int)
            || (a is Long && b is Long) || (a is Float && b is Float) || (a is Double && b is Double)
            || (a is Char && b is Char) || (a is TimeStamp && b is TimeStamp) || (a is Uuid && b is Uuid)
            || (a is Binary && b is Binary) || (a is String && b is String) || (a is Symbol && b is Symbol)
            || (a is List && b is List) || (a is OrderedMap && b is OrderedMap) || (a is Array && b is Array)
            || (a is Described && b is Described) || (a is Unknown && b is Unknown)),
    ensures
        !values_eq(a, b),
{
}

/// Floating-point numbers compare as IEEE 754 numbers: a NaN equals nothing,
/// zero equals zero whatever the signs, and any other number equals a number
/// with the same bits.
pub proof fn lemma_float_values_compare_as_numbers(x: u32, y: u32, p: u64, q: u64)
    ensures
        ((x & 0x7f80_0000u32) == 0x7f80_0000u32 && (x & 0x007f_ffffu32) != 0u32) ==> !values_eq(
            AmqpValue::Float(x),
            AmqpValue::Float(y),
        ) && !values_eq(AmqpValue::Float(y), AmqpValue::Float(x)),
        ((x & 0x7fff_ffffu32) == 0u32 && (y & 0x7fff_ffffu32) == 0u32) ==> values_eq(
            AmqpValue::Float(x),
            AmqpValue::Float(y),
        ),
        (x == y && (x & 0x7f80_0000u32) != 0x7f80_0000u32) ==> values_eq(AmqpValue::Float(x), AmqpValue::Float(y)),
        ((x & 0x7fff_ffffu32) != 0u32 && x != y) ==> !values_eq(AmqpValue::Float(x), AmqpValue::Float(y)),
        ((p & 0x7ff0_0000_0000_0000u64) == 0x7ff0_0000_0000_0000u64 && (p & 0x000f_ffff_ffff_ffffu64) != 0u64)
            ==> !values_eq(AmqpValue::Double(p), AmqpValue::Double(q)) && !values_eq(
            AmqpValue::Double(q),
            AmqpValue::Double(p),
        ),
        ((p & 0x7fff_ffff_ffff_ffffu64) == 0u64 && (q & 0x7fff_ffff_ffff_ffffu64) == 0u64) ==> values_eq(
            AmqpValue::Double(p),
            AmqpValue::Double(q),
        ),
        (p == q && (p & 0x7ff0_0000_0000_0000u64) != 0x7ff0_0000_0000_0000u64) ==> values_eq(
            AmqpValue::Double(p),
            AmqpValue::Double(q),
        ),
        ((p & 0x7fff_ffff_ffff_ffffu64) != 0u64 && p != q) ==> !values_eq(AmqpValue::Double(p), AmqpValue::Double(q)),
{
    assert((x & 0x7fff_ffffu32) == 0u32 ==> (x & 0x7f80_0000u32) != 0x7f80_0000u32) by (bit_vector);
    assert((y & 0x7fff_ffffu32) == 0u32 ==> (y & 0x7f80_0000u32) != 0x7f80_0000u32) by (bit_vector);
    assert((p & 0x7fff_ffff_ffff_ffffu64) == 0u64 ==> (p & 0x7ff0_0000_0000_0000u64) != 0x7ff0_0000_0000_0000u64)
        by (bit_vector);
    assert((q & 0x7fff_ffff_ffff_ffffu64) == 0u64 ==> (q & 0x7ff0_0000_0000_0000u64) != 0x7ff0_0000_0000_0000u64)
        by (bit_vector);
}

/// For values that hold no floating-point number, equality is sameness of type
/// and contents, element by element: the relation that a copy keeps.
pub proof fn lemma_float_free_equality_is_sameness(a: AmqpValue, b: AmqpValue)
    requires
        holds_no_float(a),
    ensures
        values_eq(a, b) <==> values_match(a, b),
    decreases a,
{
    match a {
        AmqpValue::List(x) => {
            if let AmqpValue::List(y) = b {
                assert forall|i: int| 0 <= i < x.0@.len() implies (values_eq(#[trigger] x.0@[i], y.0@[i])
                    <==> values_match(x.0@[i], y.0@[i])) by {
                    lemma_float_free_equality_is_sameness(x.0@[i], y.0@[i]);
                }
            }
        },
        AmqpValue::OrderedMap(x) => {
            if let AmqpValue::OrderedMap(y) = b {
                assert(x@ == x.inner@);
                assert forall|i: int| 0 <= i < x.inner@.len() implies ((values_eq(#[trigger] x.inner@[i].0, y.inner@[i].0)
                    && values_eq(x.inner@[i].1, y.inner@[i].1)) <==> (values_match(x.inner@[i].0, y.inner@[i].0)
                    && values_match(x.inner@[i].1, y.inner@[i].1))) by {
                    lemma_float_free_equality_is_sameness(x.inner@[i].0, y.inner@[i].0);
                    lemma_float_free_equality_is_sameness(x.inner@[i].1, y.inner@[i].1);
                }
            }
        },
        AmqpValue::Array(x) => {
            if let AmqpValue::Array(y) = b {
                assert forall|i: int| 0 <= i < x@.len() implies (values_eq(#[trigger] x@[i], y@[i])
                    <==> values_match(x@[i], y@[i])) by {
                    lemma_float_free_equality_is_sameness(x@[i], y@[i]);
                }
            }
        },
        AmqpValue::Described(d) => {
            if let AmqpValue::Described(e) = b {
                lemma_float_free_equality_is_sameness(d.value, e.value);
            }
        },
        _ => {},
    }
}

/// In a map keyed by AMQP values, looking up a symbol finds the first entry
/// whose key is a symbol of the same text; where no key is such a symbol, the
/// lookup finds nothing.
pub proof fn lemma_symbol_lookup<V>(entries: Seq<(AmqpValue, V)>, s: AmqpSymbol)
    ensures
        key_position(entries, AmqpValue::Symbol(s)) matches Some(i) ==> (entries[i].0 matches AmqpValue::Symbol(t)
            && t.0@ == s.0@ && forall|j: int|
            0 <= j < i ==> !(#[trigger] entries[j].0 matches AmqpValue::Symbol(u) && u.0@ == s.0@)),
        (forall|j: int| 0 <= j < entries.len() ==> !(#[trigger] entries[j].0 matches AmqpValue::Symbol(u) && u.0@
            == s.0@)) ==> lookup(entries, AmqpValue::Symbol(s)) is None,
{
    let key = AmqpValue::Symbol(s);
    lemma_key_position_iff_occurs(entries, key);
    assert forall|j: int| 0 <= j < entries.len() implies (#[trigger] entries[j].0.key_matches(&key) <==> (
        entries[j].0 matches AmqpValue::Symbol(u) && u.0@ == s.0@)) by {
        lemma_simple_values_equal_by_contents();
        if !(entries[j].0 is Symbol) {
            lemma_values_of_different_kinds_differ(entries[j].0, key);
        }
    }
    if key_position(entries, key) is Some {
        let i = key_position(entries, key)->0;
        assert forall|j: int| 0 <= j < i implies !(#[trigger] entries[j].0 matches AmqpValue::Symbol(u) && u.0@
            == s.0@) by {
            assert(!entries[j].0.key_matches(&key));
        }
    }
}

fn bytes_equal(a: &Vec<u8>, b: &Vec<u8>) -> (r: bool)
    ensures
        r == (a@ == b@),
{
    if a.len() != b.len() {
        return false;
    }
    let n = a.len();
    let mut i: usize = 0;
    while i < n
        invariant
            n == a@.len(),
            n == b@.len(),
            i <= n,
            forall|j: int| 0 <= j < i ==> a@[j] == b@[j],
        decreases n - i,
    {
        if a[i] != b[i] {
            return false;
        }
        i += 1;
    }
    assert(a@ =~= b@);
    true
}

fn descriptors_equal(a: &AmqpDescriptor, b: &AmqpDescriptor) -> (r: bool)
    ensures
        r == descriptors_match(*a, *b),
{
    match (a, b) {
        (AmqpDescriptor::Code(x), AmqpDescriptor::Code(y)) => *x == *y,
        (AmqpDescriptor::Name(x), AmqpDescriptor::Name(y)) => x.0 == y.0,
        _ => false,
    }
}

fn values_equal(a: &AmqpValue, b: &AmqpValue) -> (r: bool)
    ensures
        r == values_eq(*a, *b),
    decreases a,
{
    match (a, b) {
        (AmqpValue::Null, AmqpValue::Null) => true,
        (AmqpValue::Boolean(x), AmqpValue::Boolean(y)) => *x == *y,
        (AmqpValue::UByte(x), AmqpValue::UByte(y)) => *x == *y,
        (AmqpValue::UShort(x), AmqpValue::UShort(y)) => *x == *y,
        (AmqpValue::UInt(x), AmqpValue::UInt(y)) => *x == *y,
        (AmqpValue::ULong(x), AmqpValue::ULong(y)) => *x == *y,
        (AmqpValue::Byte(x), AmqpValue::Byte(y)) => *x == *y,
        (AmqpValue::Short(x), AmqpValue::Short(y)) => *x == *y,
        (AmqpValue::Int(x), AmqpValue::Int(y)) => *x == *y,
        (AmqpValue::Long(x), AmqpValue::Long(y)) => *x == *y,
        (AmqpValue::Float(x), AmqpValue::Float(y)) => float_equal(*x, *y),
        (AmqpValue::Double(x), AmqpValue::Double(y)) => double_equal(*x, *y),
        (AmqpValue::Uuid(x), AmqpValue::Uuid(y)) => *x == *y,
        (AmqpValue::Char(x), AmqpValue::Char(y)) => *x == *y,
        (AmqpValue::TimeStamp(x), AmqpValue::TimeStamp(y)) => x.0 == y.0,
        (AmqpValue::Binary(x), AmqpValue::Binary(y)) => bytes_equal(x, y),
        (AmqpValue::String(x), AmqpValue::String(y)) => *x == *y,
        (AmqpValue::Symbol(x), AmqpValue::Symbol(y)) => x.0 == y.0,
        (AmqpValue::List(x), AmqpValue::List(y)) => value_vecs_equal(&x.0, &y.0),
        (AmqpValue::OrderedMap(x), AmqpValue::OrderedMap(y)) => entry_vecs_equal(&x.inner, &y.inner),
        (AmqpValue::Array(x), AmqpValue::Array(y)) => value_vecs_equal(x, y),
        (AmqpValue::Described(d), AmqpValue::Described(e)) => {
            descriptors_equal(&d.descriptor, &e.descriptor) && values_equal(&d.value, &e.value)
        },
        (AmqpValue::Unknown, AmqpValue::Unknown) => true,
        _ => false,
    }
}

fn value_vecs_equal(a: &Vec<AmqpValue>, b: &Vec<AmqpValue>) -> (r: bool)
    ensures
        r == (a@.len() == b@.len() && forall|i: int|
            0 <= i < a@.len() ==> values_eq(#[trigger] a@[i], b@[i])),
    decreases a,
{
    if a.len() != b.len() {
        return false;
    }
    let n = a.len();
    let mut i: usize = 0;
    while i < n
        invariant
            n == a@.len(),
            n == b@.len(),
            i <= n,
            forall|j: int| 0 <= j < i ==> values_eq(#[trigger] a@[j], b@[j]),
        decreases n - i,
    {
        proof {
            vstd::std_specs::vec::axiom_vec_index_decreases(*a, i as int);
        }
        if !values_equal(&a[i], &b[i]) {
            return false;
        }
        i += 1;
    }
    true
}

fn entry_vecs_equal(a: &Vec<(AmqpValue, AmqpValue)>, b: &Vec<(AmqpValue, AmqpValue)>) -> (r: bool)
    ensures
        r == (a@.len() == b@.len() && forall|i: int|
            0 <= i < a@.len() ==> values_eq(#[trigger] a@[i].0, b@[i].0) && values_eq(
                a@[i].1,
                b@[i].1,
            )),
    decreases a,
{
    if a.len() != b.len() {
        return false;
    }
    let n = a.len();
    let mut i: usize = 0;
    while i < n
        invariant
            n == a@.len(),
            n == b@.len(),
            i <= n,
            forall|j: int|
                0 <= j < i ==> values_eq(#[trigger] a@[j].0, b@[j].0) && values_eq(
                    a@[j].1,
                    b@[j].1,
                ),
        decreases n - i,
    {
        proof {
            vstd::std_specs::vec::axiom_vec_index_decreases(*a, i as int);
        }
        if !values_equal(&a[i].0, &b[i].0) {
            return false;
        }
        if !values_equal(&a[i].1, &b[i].1) {
            return false;
        }
        i += 1;
    }
    true
}

fn clone_bytes(a: &Vec<u8>) -> (r: Vec<u8>)
    ensures
        r@ == a@,
{
    let mut r: Vec<u8> = Vec::new();
    let n = a.len();
    let mut i: usize = 0;
    while i < n
        invariant
            n == a@.len(),
            i <= n,
            r@ == a@.subrange(0, i as int),
        decreases n - i,
    {
        r.push(a[i]);
        i += 1;
    }
    assert(a@.subrange(0, n as int) =~= a@);
    r
}

fn clone_descriptor(a: &AmqpDescriptor) -> (r: AmqpDescriptor)
    ensures
        descriptors_match(*a, r),
{
    match a {
        AmqpDescriptor::Code(x) => AmqpDescriptor::Code(*x),
        AmqpDescriptor::Name(x) => AmqpDescriptor::Name(AmqpSymbol(x.0.clone())),
    }
}

fn clone_value(a: &AmqpValue) -> (r: AmqpValue)
    ensures
        values_match(*a, r),
    decreases a,
{
    match a {
        AmqpValue::Null => AmqpValue::Null,
        AmqpValue::Boolean(x) => AmqpValue::Boolean(*x),
        AmqpValue::UByte(x) => AmqpValue::UByte(*x),
        AmqpValue::UShort(x) => AmqpValue::UShort(*x),
        AmqpValue::UInt(x) => AmqpValue::UInt(*x),
        AmqpValue::ULong(x) => AmqpValue::ULong(*x),
        AmqpValue::Byte(x) => AmqpValue::Byte(*x),
        AmqpValue::Short(x) => AmqpValue::Short(*x),
        AmqpValue::Int(x) => AmqpValue::Int(*x),
        AmqpValue::Long(x) => AmqpValue::Long(*x),
        AmqpValue::Float(x) => AmqpValue::Float(*x),
        AmqpValue::Double(x) => AmqpValue::Double(*x),
        AmqpValue::Uuid(x) => AmqpValue::Uuid(*x),
        AmqpValue::Char(x) => AmqpValue::Char(*x),
        AmqpValue::TimeStamp(x) => AmqpValue::TimeStamp(AmqpTimestamp(x.0)),
        AmqpValue::Binary(x) => AmqpValue::Binary(clone_bytes(x)),
        AmqpValue::String(x) => AmqpValue::String(x.clone()),
        AmqpValue::Symbol(x) => AmqpValue::Symbol(AmqpSymbol(x.0.clone())),
        AmqpValue::List(x) => AmqpValue::List(AmqpList(clone_value_vec(&x.0))),
        AmqpValue::OrderedMap(x) => AmqpValue::OrderedMap(AmqpOrderedMap { inner: clone_entry_vec(&x.inner) }),
        AmqpValue::Array(x) => AmqpValue::Array(clone_value_vec(x)),
        AmqpValue::Described(d) => {
            let descriptor = clone_descriptor(&d.descriptor);
            let value = clone_value(&d.value);
            AmqpValue::Described(Box::new(AmqpDescribed { descriptor, value }))
        },
        AmqpValue::Unknown => AmqpValue::Unknown,
    }
}

fn clone_value_vec(a: &Vec<AmqpValue>) -> (r: Vec<AmqpValue>)
    ensures
        r@.len() == a@.len(),
        forall|i: int| 0 <= i < a@.len() ==> values_match(#[trigger] a@[i], r@[i]),
    decreases a,
{
    let mut r: Vec<AmqpValue> = Vec::new();
    let n = a.len();
    let mut i: usize = 0;
    while i < n
        invariant
            n == a@.len(),
            i <= n,
            r@.len() == i,
            forall|j: int| 0 <= j < i ==> values_match(#[trigger] a@[j], r@[j]),
        decreases n - i,
    {
        proof {
            vstd::std_specs::vec::axiom_vec_index_decreases(*a, i as int);
        }
        let v = clone_value(&a[i]);
        r.push(v);
        i += 1;
    }
    r
}

fn clone_entry_vec(a: &Vec<(AmqpValue, AmqpValue)>) -> (r: Vec<(AmqpValue, AmqpValue)>)
    ensures
        r@.len() == a@.len(),
        forall|i: int|
            0 <= i < a@.len() ==> values_match(#[trigger] a@[i].0, r@[i].0) && values_match(
                a@[i].1,
                r@[i].1,
            ),
    decreases a,
{
    let mut r: Vec<(AmqpValue, AmqpValue)> = Vec::new();
    let n = a.len();
    let mut i: usize = 0;
    while i < n
        invariant
            n == a@.len(),
            i <= n,
            r@.len() == i,
            forall|j: int|
                0 <= j < i ==> values_match(#[trigger] a@[j].0, r@[j].0) && values_match(
                    a@[j].1,
                    r@[j].1,
                ),
        decreases n - i,
    {
        proof {
            vstd::std_specs::vec::axiom_vec_index_decreases(*a, i as int);
        }
        let k = clone_value(&a[i].0);
        let v = clone_value(&a[i].1);
        r.push((k, v));
        i += 1;
    }
    r
}

impl AmqpMapKey for AmqpValue {
    open spec fn key_matches(&self, other: &Self) -> bool {
        values_eq(*self, *other)
    }

    fn key_eq(&self, other: &Self) -> (r: bool) {
        values_equal(self, other)
    }
}

/// Two sequences of symbol-keyed entries hold the same keys, in the same order,
/// with values of the same type and contents.
pub open spec fn symbol_entries_match(a: Seq<(AmqpSymbol, AmqpValue)>, b: Seq<(AmqpSymbol, AmqpValue)>) -> bool {
    &&& a.len() == b.len()
    &&& forall|i: int| 0 <= i < a.len() ==> #[trigger] a[i].0 == b[i].0 && values_match(a[i].1, b[i].1)
}

impl AmqpOrderedMap<AmqpSymbol, AmqpValue> {
    /// A copy of the map: the same keys in the same order, each value copied.
    pub fn duplicate(&self) -> (r: Self)
        ensures
            symbol_entries_match(self@, r@),
    {
        let mut inner: Vec<(AmqpSymbol, AmqpValue)> = Vec::new();
        let n = self.inner.len();
        let mut i: usize = 0;
        while i < n
            invariant
                n == self.inner@.len(),
                i <= n,
                inner@.len() == i,
                forall|j: int| 0 <= j < i ==> #[trigger] inner@[j].0 == self.inner@[j].0 && values_match(
                    self.inner@[j].1,
                    inner@[j].1,
                ),
            decreases n - i,
        {
            let key = AmqpSymbol(self.inner[i].0.0.clone());
            let value = clone_value(&self.inner[i].1);
            inner.push((key, value));
            i += 1;
        }
        AmqpOrderedMap { inner }
    }
}

impl Clone for AmqpValue {
    /// A copy with the same type and contents.
    fn clone(&self) -> (r: Self)
        ensures
            values_match(*self, r),
    {
        clone_value(self)
    }
}

impl Clone for AmqpList {
    fn clone(&self) -> (r: Self)
        ensures
            r.0@.len() == self.0@.len(),
            forall|i: int| 0 <= i < self.0@.len() ==> values_match(#[trigger] self.0@[i], r.0@[i]),
    {
        AmqpList(clone_value_vec(&self.0))
    }
}

impl Clone for AmqpDescribed {
    fn clone(&self) -> (r: Self)
        ensures
            descriptors_match(self.descriptor, r.descriptor),
            values_match(self.value, r.value),
    {
        AmqpDescribed { descriptor: clone_descriptor(&self.descriptor), value: clone_value(&self.value) }
    }
}

impl AmqpMapKey for AmqpSymbol {
    open spec fn key_matches(&self, other: &Self) -> bool {
        self.0@ == other.0@
    }

    fn key_eq(&self, other: &Self) -> (r: bool) {
        self.0 == other.0
    }
}

impl AmqpSymbol {
    /// The symbol whose text is `s`.
    pub fn from_text(s: &str) -> (r: AmqpSymbol)
        ensures
            r.0@ == s@,
    {
        AmqpSymbol(s.to_string())
    }
}

impl From<String> for AmqpSymbol {
    fn from(s: String) -> (r: AmqpSymbol) {
        AmqpSymbol(s)
    }
}

impl vstd::std_specs::convert::FromSpecImpl<String> for AmqpSymbol {
    open spec fn obeys_from_spec() -> bool {
        true
    }

    open spec fn from_spec(v: String) -> AmqpSymbol {
        AmqpSymbol(v)
    }
}

impl From<AmqpSymbol> for String {
    fn from(s: AmqpSymbol) -> (r: String) {
        s.0
    }
}

impl vstd::std_specs::convert::FromSpecImpl<AmqpSymbol> for String {
    open spec fn obeys_from_spec() -> bool {
        true
    }

    open spec fn from_spec(v: AmqpSymbol) -> String {
        v.0
    }
}

impl AmqpValue {
    /// The string value whose text is `s`.
    pub fn from_text(s: &str) -> (r: AmqpValue)
        ensures
            r matches AmqpValue::String(t) && t@ == s@,
    {
        AmqpValue::String(s.to_string())
    }
}

impl From<bool> for AmqpValue {
    fn from(v: bool) -> (r: AmqpValue) {
        AmqpValue::Boolean(v)
    }
}

impl vstd::std_specs::convert::FromSpecImpl<bool> for AmqpValue {
    open spec fn obeys_from_spec() -> bool {
        true
    }

    open spec fn from_spec(v: bool) -> AmqpValue {
        AmqpValue::Boolean(v)
    }
}

impl From<u8> for AmqpValue {
    fn from(v: u8) -> (r: AmqpValue) {
        AmqpValue::UByte(v)
    }
}

impl vstd::std_specs::convert::FromSpecImpl<u8> for AmqpValue {
    open spec fn obeys_from_spec() -> bool {
        true
    }

    open spec fn from_spec(v: u8) -> AmqpValue {
        AmqpValue::UByte(v)
    }
}

impl From<u16> for AmqpValue {
    fn from(v: u16) -> (r: AmqpValue) {
        AmqpValue::UShort(v)
    }
}

impl vstd::std_specs::convert::FromSpecImpl<u16> for AmqpValue {
    open spec fn obeys_from_spec() -> bool {
        true
    }

    open spec fn from_spec(v: u16) -> AmqpValue {
        AmqpValue::UShort(v)
    }
}

impl From<u32> for AmqpValue {
    fn from(v: u32) -> (r: AmqpValue) {
        AmqpValue::UInt(v)
    }
}

impl vstd::std_specs::convert::FromSpecImpl<u32> for AmqpValue {
    open spec fn obeys_from_spec() -> bool {
        true
    }

    open spec fn from_spec(v: u32) -> AmqpValue {
        AmqpValue::UInt(v)
    }
}

impl From<u64> for AmqpValue {
    fn from(v: u64) -> (r: AmqpValue) {
        AmqpValue::ULong(v)
    }
}

impl vstd::std_specs::convert::FromSpecImpl<u64> for AmqpValue {
    open spec fn obeys_from_spec() -> bool {
        true
    }

    open spec fn from_spec(v: u64) -> AmqpValue {
        AmqpValue::ULong(v)
    }
}

impl From<i8> for AmqpValue {
    fn from(v: i8) -> (r: AmqpValue) {
        AmqpValue::Byte(v)
    }
}

impl vstd::std_specs::convert::FromSpecImpl<i8> for AmqpValue {
    open spec fn obeys_from_spec() -> bool {
        true
    }

    open spec fn from_spec(v: i8) -> AmqpValue {
        AmqpValue::Byte(v)
    }
}

impl From<i16> for AmqpValue {
    fn from(v: i16) -> (r: AmqpValue) {
        AmqpValue::Short(v)
    }
}

impl vstd::std_specs::convert::FromSpecImpl<i16> for AmqpValue {
    open spec fn obeys_from_spec() -> bool {
        true
    }

    open spec fn from_spec(v: i16) -> AmqpValue {
        AmqpValue::Short(v)
    }
}

impl From<i32> for AmqpValue {
    fn from(v: i32) -> (r: AmqpValue) {
        AmqpValue::Int(v)
    }
}

impl vstd::std_specs::convert::FromSpecImpl<i32> for AmqpValue {
    open spec fn obeys_from_spec() -> bool {
        true
    }

    open spec fn from_spec(v: i32) -> AmqpValue {
        AmqpValue::Int(v)
    }
}

impl From<i64> for AmqpValue {
    fn from(v: i64) -> (r: AmqpValue) {
        AmqpValue::Long(v)
    }
}

impl vstd::std_specs::convert::FromSpecImpl<i64> for AmqpValue {
    open spec fn obeys_from_spec() -> bool {
        true
    }

    open spec fn from_spec(v: i64) -> AmqpValue {
        AmqpValue::Long(v)
    }
}

impl From<char> for AmqpValue {
    fn from(v: char) -> (r: AmqpValue) {
        AmqpValue::Char(v)
    }
}

impl vstd::std_specs::convert::FromSpecImpl<char> for AmqpValue {
    open spec fn obeys_from_spec() -> bool {
        true
    }

    open spec fn from_spec(v: char) -> AmqpValue {
        AmqpValue::Char(v)
    }
}

impl From<AmqpTimestamp> for AmqpValue {
    fn from(v: AmqpTimestamp) -> (r: AmqpValue) {
        AmqpValue::TimeStamp(v)
    }
}

impl vstd::std_specs::convert::FromSpecImpl<AmqpTimestamp> for AmqpValue {
    open spec fn obeys_from_spec() -> bool {
        true
    }

    open spec fn from_spec(v: AmqpTimestamp) -> AmqpValue {
        AmqpValue::TimeStamp(v)
    }
}

impl From<Vec<u8>> for AmqpValue {
    fn from(v: Vec<u8>) -> (r: AmqpValue) {
        AmqpValue::Binary(v)
    }
}

impl vstd::std_specs::convert::FromSpecImpl<Vec<u8>> for AmqpValue {
    open spec fn obeys_from_spec() -> bool {
        true
    }

    open spec fn from_spec(v: Vec<u8>) -> AmqpValue {
        AmqpValue::Binary(v)
    }
}

impl From<String> for AmqpValue {
    fn from(v: String) -> (r: AmqpValue) {
        AmqpValue::String(v)
    }
}

impl vstd::std_specs::convert::FromSpecImpl<String> for AmqpValue {
    open spec fn obeys_from_spec() -> bool {
        true
    }

    open spec fn from_spec(v: String) -> AmqpValue {
        AmqpValue::String(v)
    }
}

impl From<AmqpSymbol> for AmqpValue {
    fn from(v: AmqpSymbol) -> (r: AmqpValue) {
        AmqpValue::Symbol(v)
    }
}

impl vstd::std_specs::convert::FromSpecImpl<AmqpSymbol> for AmqpValue {
    open spec fn obeys_from_spec() -> bool {
        true
    }

    open spec fn from_spec(v: AmqpSymbol) -> AmqpValue {
        AmqpValue::Symbol(v)
    }
}

impl From<AmqpList> for AmqpValue {
    fn from(v: AmqpList) -> (r: AmqpValue) {
        AmqpValue::List(v)
    }
}

impl vstd::std_specs::convert::FromSpecImpl<AmqpList> for AmqpValue {
    open spec fn obeys_from_spec() -> bool {
        true
    }

    open spec fn from_spec(v: AmqpList) -> AmqpValue {
        AmqpValue::List(v)
    }
}

impl From<Vec<AmqpValue>> for AmqpValue {
    fn from(v: Vec<AmqpValue>) -> (r: AmqpValue) {
        AmqpValue::Array(v)
    }
}

impl vstd::std_specs::convert::FromSpecImpl<Vec<AmqpValue>> for AmqpValue {
    open spec fn obeys_from_spec() -> bool {
        true
    }

    open spec fn from_spec(v: Vec<AmqpValue>) -> AmqpValue {
        AmqpValue::Array(v)
    }
}

impl From<AmqpOrderedMap<AmqpValue, AmqpValue>> for AmqpValue {
    fn from(v: AmqpOrderedMap<AmqpValue, AmqpValue>) -> (r: AmqpValue) {
        AmqpValue::OrderedMap(v)
    }
}

impl vstd::std_specs::convert::FromSpecImpl<AmqpOrderedMap<AmqpValue, AmqpValue>> for AmqpValue {
    open spec fn obeys_from_spec() -> bool {
        true
    }

    open spec fn from_spec(v: AmqpOrderedMap<AmqpValue, AmqpValue>) -> AmqpValue {
        AmqpValue::OrderedMap(v)
    }
}

impl From<AmqpDescribed> for AmqpValue {
    fn from(v: AmqpDescribed) -> (r: AmqpValue) {
        AmqpValue::Described(Box::new(v))
    }
}

impl vstd::std_specs::convert::FromSpecImpl<AmqpDescribed> for AmqpValue {
    open spec fn obeys_from_spec() -> bool {
        true
    }

    open spec fn from_spec(v: AmqpDescribed) -> AmqpValue {
        AmqpValue::Described(Box::new(v))
    }
}

impl From<()> for AmqpValue {
    fn from(v: ()) -> (r: AmqpValue) {
        AmqpValue::Null
    }
}

impl vstd::std_specs::convert::FromSpecImpl<()> for AmqpValue {
    open spec fn obeys_from_spec() -> bool {
        true
    }

    open spec fn from_spec(v: ()) -> AmqpValue {
        AmqpValue::Null
    }
}


impl TryFrom<AmqpValue> for bool {
    type Error = AmqpValue;

    fn try_from(v: AmqpValue) -> (r: Result<bool, AmqpValue>) {
        match v {
            AmqpValue::Boolean(x) => Ok(x),
            other => Err(other),
        }
    }
}

impl vstd::std_specs::convert::TryFromSpecImpl<AmqpValue> for bool {
    open spec fn obeys_try_from_spec() -> bool {
        true
    }

    open spec fn try_from_spec(v: AmqpValue) -> Result<bool, AmqpValue> {
        match v {
            AmqpValue::Boolean(x) => Ok(x),
            other => Err(other),
        }
    }
}

impl TryFrom<AmqpValue> for u8 {
    type Error = AmqpValue;

    fn try_from(v: AmqpValue) -> (r: Result<u8, AmqpValue>) {
        match v {
            AmqpValue::UByte(x) => Ok(x),
            other => Err(other),
        }
    }
}

impl vstd::std_specs::convert::TryFromSpecImpl<AmqpValue> for u8 {
    open spec fn obeys_try_from_spec() -> bool {
        true
    }

    open spec fn try_from_spec(v: AmqpValue) -> Result<u8, AmqpValue> {
        match v {
            AmqpValue::UByte(x) => Ok(x),
            other => Err(other),
        }
    }
}

impl TryFrom<AmqpValue> for u16 {
    type Error = AmqpValue;

    fn try_from(v: AmqpValue) -> (r: Result<u16, AmqpValue>) {
        match v {
            AmqpValue::UShort(x) => Ok(x),
            other => Err(other),
        }
    }
}

impl vstd::std_specs::convert::TryFromSpecImpl<AmqpValue> for u16 {
    open spec fn obeys_try_from_spec() -> bool {
        true
    }

    open spec fn try_from_spec(v: AmqpValue) -> Result<u16, AmqpValue> {
        match v {
            AmqpValue::UShort(x) => Ok(x),
            other => Err(other),
        }
    }
}

impl TryFrom<AmqpValue> for u32 {
    type Error = AmqpValue;

    fn try_from(v: AmqpValue) -> (r: Result<u32, AmqpValue>) {
        match v {
            AmqpValue::UInt(x) => Ok(x),
            other => Err(other),
        }
    }
}

impl vstd::std_specs::convert::TryFromSpecImpl<AmqpValue> for u32 {
    open spec fn obeys_try_from_spec() -> bool {
        true
    }

    open spec fn try_from_spec(v: AmqpValue) -> Result<u32, AmqpValue> {
        match v {
            AmqpValue::UInt(x) => Ok(x),
            other => Err(other),
        }
    }
}

impl TryFrom<AmqpValue> for u64 {
    type Error = AmqpValue;

    fn try_from(v: AmqpValue) -> (r: Result<u64, AmqpValue>) {
        match v {
            AmqpValue::ULong(x) => Ok(x),
            other => Err(other),
        }
    }
}

impl vstd::std_specs::convert::TryFromSpecImpl<AmqpValue> for u64 {
    open spec fn obeys_try_from_spec() -> bool {
        true
    }

    open spec fn try_from_spec(v: AmqpValue) -> Result<u64, AmqpValue> {
        match v {
            AmqpValue::ULong(x) => Ok(x),
            other => Err(other),
        }
    }
}

impl TryFrom<AmqpValue> for i8 {
    type Error = AmqpValue;

    fn try_from(v: AmqpValue) -> (r: Result<i8, AmqpValue>) {
        match v {
            AmqpValue::Byte(x) => Ok(x),
            other => Err(other),
        }
    }
}

impl vstd::std_specs::convert::TryFromSpecImpl<AmqpValue> for i8 {
    open spec fn obeys_try_from_spec() -> bool {
        true
    }

    open spec fn try_from_spec(v: AmqpValue) -> Result<i8, AmqpValue> {
        match v {
            AmqpValue::Byte(x) => Ok(x),
            other => Err(other),
        }
    }
}

impl TryFrom<AmqpValue> for i16 {
    type Error = AmqpValue;

    fn try_from(v: AmqpValue) -> (r: Result<i16, AmqpValue>) {
        match v {
            AmqpValue::Short(x) => Ok(x),
            other => Err(other),
        }
    }
}

impl vstd::std_specs::convert::TryFromSpecImpl<AmqpValue> for i16 {
    open spec fn obeys_try_from_spec() -> bool {
        true
    }

    open spec fn try_from_spec(v: AmqpValue) -> Result<i16, AmqpValue> {
        match v {
            AmqpValue::Short(x) => Ok(x),
            other => Err(other),
        }
    }
}

impl TryFrom<AmqpValue> for i32 {
    type Error = AmqpValue;

    fn try_from(v: AmqpValue) -> (r: Result<i32, AmqpValue>) {
        match v {
            AmqpValue::Int(x) => Ok(x),
            other => Err(other),
        }
    }
}

impl vstd::std_specs::convert::TryFromSpecImpl<AmqpValue> for i32 {
    open spec fn obeys_try_from_spec() -> bool {
        true
    }

    open spec fn try_from_spec(v: AmqpValue) -> Result<i32, AmqpValue> {
        match v {
            AmqpValue::Int(x) => Ok(x),
            other => Err(other),
        }
    }
}

impl TryFrom<AmqpValue> for i64 {
    type Error = AmqpValue;

    fn try_from(v: AmqpValue) -> (r: Result<i64, AmqpValue>) {
        match v {
            AmqpValue::Long(x) => Ok(x),
            other => Err(other),
        }
    }
}

impl vstd::std_specs::convert::TryFromSpecImpl<AmqpValue> for i64 {
    open spec fn obeys_try_from_spec() -> bool {
        true
    }

    open spec fn try_from_spec(v: AmqpValue) -> Result<i64, AmqpValue> {
        match v {
            AmqpValue::Long(x) => Ok(x),
            other => Err(other),
        }
    }
}

impl TryFrom<AmqpValue> for char {
    type Error = AmqpValue;

    fn try_from(v: AmqpValue) -> (r: Result<char, AmqpValue>) {
        match v {
            AmqpValue::Char(x) => Ok(x),
            other => Err(other),
        }
    }
}

impl vstd::std_specs::convert::TryFromSpecImpl<AmqpValue> for char {
    open spec fn obeys_try_from_spec() -> bool {
        true
    }

    open spec fn try_from_spec(v: AmqpValue) -> Result<char, AmqpValue> {
        match v {
            AmqpValue::Char(x) => Ok(x),
            other => Err(other),
        }
    }
}

impl TryFrom<AmqpValue> for AmqpTimestamp {
    type Error = AmqpValue;

    fn try_from(v: AmqpValue) -> (r: Result<AmqpTimestamp, AmqpValue>) {
        match v {
            AmqpValue::TimeStamp(x) => Ok(x),
            other => Err(other),
        }
    }
}

impl vstd::std_specs::convert::TryFromSpecImpl<AmqpValue> for AmqpTimestamp {
    open spec fn obeys_try_from_spec() -> bool {
        true
    }

    open spec fn try_from_spec(v: AmqpValue) -> Result<AmqpTimestamp, AmqpValue> {
        match v {
            AmqpValue::TimeStamp(x) => Ok(x),
            other => Err(other),
        }
    }
}

impl TryFrom<AmqpValue> for Vec<u8> {
    type Error = AmqpValue;

    fn try_from(v: AmqpValue) -> (r: Result<Vec<u8>, AmqpValue>) {
        match v {
            AmqpValue::Binary(x) => Ok(x),
            other => Err(other),
        }
    }
}

impl vstd::std_specs::convert::TryFromSpecImpl<AmqpValue> for Vec<u8> {
    open spec fn obeys_try_from_spec() -> bool {
        true
    }

    open spec fn try_from_spec(v: AmqpValue) -> Result<Vec<u8>, AmqpValue> {
        match v {
            AmqpValue::Binary(x) => Ok(x),
            other => Err(other),
        }
    }
}

impl TryFrom<AmqpValue> for String {
    type Error = AmqpValue;

    fn try_from(v: AmqpValue) -> (r: Result<String, AmqpValue>) {
        match v {
            AmqpValue::String(x) => Ok(x),
            other => Err(other),
        }
    }
}

impl vstd::std_specs::convert::TryFromSpecImpl<AmqpValue> for String {
    open spec fn obeys_try_from_spec() -> bool {
        true
    }

    open spec fn try_from_spec(v: AmqpValue) -> Result<String, AmqpValue> {
        match v {
            AmqpValue::String(x) => Ok(x),
            other => Err(other),
        }
    }
}

impl TryFrom<AmqpValue> for AmqpSymbol {
    type Error = AmqpValue;

    fn try_from(v: AmqpValue) -> (r: Result<AmqpSymbol, AmqpValue>) {
        match v {
            AmqpValue::Symbol(x) => Ok(x),
            other => Err(other),
        }
    }
}

impl vstd::std_specs::convert::TryFromSpecImpl<AmqpValue> for AmqpSymbol {
    open spec fn obeys_try_from_spec() -> bool {
        true
    }

    open spec fn try_from_spec(v: AmqpValue) -> Result<AmqpSymbol, AmqpValue> {
        match v {
            AmqpValue::Symbol(x) => Ok(x),
            other => Err(other),
        }
    }
}

impl TryFrom<AmqpValue> for AmqpList {
    type Error = AmqpValue;

    fn try_from(v: AmqpValue) -> (r: Result<AmqpList, AmqpValue>) {
        match v {
            AmqpValue::List(x) => Ok(x),
            other => Err(other),
        }
    }
}

impl vstd::std_specs::convert::TryFromSpecImpl<AmqpValue> for AmqpList {
    open spec fn obeys_try_from_spec() -> bool {
        true
    }

    open spec fn try_from_spec(v: AmqpValue) -> Result<AmqpList, AmqpValue> {
        match v {
            AmqpValue::List(x) => Ok(x),
            other => Err(other),
        }
    }
}

impl TryFrom<AmqpValue> for Vec<AmqpValue> {
    type Error = AmqpValue;

    fn try_from(v: AmqpValue) -> (r: Result<Vec<AmqpValue>, AmqpValue>) {
        match v {
            AmqpValue::Array(x) => Ok(x),
            other => Err(other),
        }
    }
}

impl vstd::std_specs::convert::TryFromSpecImpl<AmqpValue> for Vec<AmqpValue> {
    open spec fn obeys_try_from_spec() -> bool {
        true
    }

    open spec fn try_from_spec(v: AmqpValue) -> Result<Vec<AmqpValue>, AmqpValue> {
        match v {
            AmqpValue::Array(x) => Ok(x),
            other => Err(other),
        }
    }
}

impl TryFrom<AmqpValue> for AmqpOrderedMap<AmqpValue, AmqpValue> {
    type Error = AmqpValue;

    fn try_from(v: AmqpValue) -> (r: Result<AmqpOrderedMap<AmqpValue, AmqpValue>, AmqpValue>) {
        match v {
            AmqpValue::OrderedMap(x) => Ok(x),
            other => Err(other),
        }
    }
}

impl vstd::std_specs::convert::TryFromSpecImpl<AmqpValue> for AmqpOrderedMap<AmqpValue, AmqpValue> {
    open spec fn obeys_try_from_spec() -> bool {
        true
    }

    open spec fn try_from_spec(v: AmqpValue) -> Result<AmqpOrderedMap<AmqpValue, AmqpValue>, AmqpValue> {
        match v {
            AmqpValue::OrderedMap(x) => Ok(x),
            other => Err(other),
        }
    }
}

impl TryFrom<AmqpValue> for AmqpDescribed {
    type Error = AmqpValue;

    fn try_from(v: AmqpValue) -> (r: Result<AmqpDescribed, AmqpValue>) {
        match v {
            AmqpValue::Described(d) => Ok(*d),
            other => Err(other),
        }
    }
}

impl vstd::std_specs::convert::TryFromSpecImpl<AmqpValue> for AmqpDescribed {
    open spec fn obeys_try_from_spec() -> bool {
        true
    }

    open spec fn try_from_spec(v: AmqpValue) -> Result<AmqpDescribed, AmqpValue> {
        match v {
            AmqpValue::Described(d) => Ok(*d),
            other => Err(other),
        }
    }
}

impl TryFrom<AmqpValue> for () {
    type Error = AmqpValue;

    fn try_from(v: AmqpValue) -> (r: Result<(), AmqpValue>) {
        match v {
            AmqpValue::Null => Ok(()),
            other => Err(other),
        }
    }
}

impl vstd::std_specs::convert::TryFromSpecImpl<AmqpValue> for () {
    open spec fn obeys_try_from_spec() -> bool {
        true
    }

    open spec fn try_from_spec(v: AmqpValue) -> Result<(), AmqpValue> {
        match v {
            AmqpValue::Null => Ok(()),
            other => Err(other),
        }
    }
}

/// A value converted into an AMQP value converts back to itself; converted back
/// to a type of another variant, the AMQP value comes back as the error.
pub proof fn lemma_conversion_round_trip(b: bool, l: i64, ul: u64, text: String, symbol: AmqpSymbol, bytes: Vec<u8>, ts: AmqpTimestamp, c: char)
    ensures
        <bool as vstd::std_specs::convert::TryFromSpec<AmqpValue>>::try_from_spec(
            <AmqpValue as vstd::std_specs::convert::FromSpec<bool>>::from_spec(b),
        ) == Ok::<bool, AmqpValue>(b),
        <i64 as vstd::std_specs::convert::TryFromSpec<AmqpValue>>::try_from_spec(
            <AmqpValue as vstd::std_specs::convert::FromSpec<i64>>::from_spec(l),
        ) == Ok::<i64, AmqpValue>(l),
        <u64 as vstd::std_specs::convert::TryFromSpec<AmqpValue>>::try_from_spec(
            <AmqpValue as vstd::std_specs::convert::FromSpec<u64>>::from_spec(ul),
        ) == Ok::<u64, AmqpValue>(ul),
        <String as vstd::std_specs::convert::TryFromSpec<AmqpValue>>::try_from_spec(
            <AmqpValue as vstd::std_specs::convert::FromSpec<String>>::from_spec(text),
        ) == Ok::<String, AmqpValue>(text),
        <AmqpSymbol as vstd::std_specs::convert::TryFromSpec<AmqpValue>>::try_from_spec(
            <AmqpValue as vstd::std_specs::convert::FromSpec<AmqpSymbol>>::from_spec(symbol),
        ) == Ok::<AmqpSymbol, AmqpValue>(symbol),
        <Vec<u8> as vstd::std_specs::convert::TryFromSpec<AmqpValue>>::try_from_spec(
            <AmqpValue as vstd::std_specs::convert::FromSpec<Vec<u8>>>::from_spec(bytes),
        ) == Ok::<Vec<u8>, AmqpValue>(bytes),
        <AmqpTimestamp as vstd::std_specs::convert::TryFromSpec<AmqpValue>>::try_from_spec(
            <AmqpValue as vstd::std_specs::convert::FromSpec<AmqpTimestamp>>::from_spec(ts),
        ) == Ok::<AmqpTimestamp, AmqpValue>(ts),
        <char as vstd::std_specs::convert::TryFromSpec<AmqpValue>>::try_from_spec(
            <AmqpValue as vstd::std_specs::convert::FromSpec<char>>::from_spec(c),
        ) == Ok::<char, AmqpValue>(c),
        <String as vstd::std_specs::convert::TryFromSpec<AmqpValue>>::try_from_spec(
            <AmqpValue as vstd::std_specs::convert::FromSpec<i64>>::from_spec(l),
        ) == Err::<String, AmqpValue>(AmqpValue::Long(l)),
{
}

} // verus!
