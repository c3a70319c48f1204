use vstd::prelude::*;

use crate::identity::Identified;

verus! {

/// Whether `s` holds an entry whose key has the identity of `k`.
pub open spec fn has_key<K: Identified, V>(s: Seq<(K, V)>, k: K) -> bool {
    exists|i: int| 0 <= i < s.len() && s[i].0.id() == k.id()
}

/// No two entries of `s` have keys that share an identity.
pub open spec fn distinct_keys<K: Identified, V>(s: Seq<(K, V)>) -> bool {
    forall|i: int, j: int|
        0 <= i < s.len() && 0 <= j < s.len() && i != j ==> s[i].0.id() != s[j].0.id()
}

/// The shape of every bounded map: distinct keys, at most `cap` entries.
pub open spec fn bounded_map<K: Identified, V>(s: Seq<(K, V)>, cap: nat) -> bool {
    s.len() <= cap && distinct_keys(s)
}

/// The position of the entry whose key has the identity of `k`.
pub open spec fn key_index<K: Identified, V>(s: Seq<(K, V)>, k: K) -> int
    recommends
        has_key(s, k),
{
    choose|i: int| 0 <= i < s.len() && s[i].0.id() == k.id()
}

/// `s` after one insertion of `(k, v)`: a key already held keeps its place
/// and gets the new value, a new key goes to the end, and a full map stays
/// as it is.
pub open spec fn with_entry<K: Identified, V>(s: Seq<(K, V)>, k: K, v: V, cap: nat) -> Seq<(K, V)> {
    if has_key(s, k) {
        s.update(key_index(s, k), (s[key_index(s, k)].0, v))
    } else if s.len() < cap {
        s.push((k, v))
    } else {
        s
    }
}

/// `s` after inserting each entry of `es` in turn.
pub open spec fn with_entries<K: Identified, V>(s: Seq<(K, V)>, es: Seq<(K, V)>, cap: nat) -> Seq<(K, V)>
    decreases es.len(),
{
    if es.len() == 0 {
        s
    } else {
        with_entry(with_entries(s, es.drop_last(), cap), es.last().0, es.last().1, cap)
    }
}

proof fn lemma_key_index<K: Identified, V>(s: Seq<(K, V)>, k: K, i: int)
    requires
        distinct_keys(s),
        0 <= i < s.len(),
        s[i].0.id() == k.id(),
    ensures
        has_key(s, k),
        key_index(s, k) == i,
{
    assert(has_key(s, k));
}

proof fn lemma_with_entry_bounded<K: Identified, V>(s: Seq<(K, V)>, k: K, v: V, cap: nat)
    requires
        bounded_map(s, cap),
    ensures
        bounded_map(with_entry(s, k, v, cap), cap),
{
    if has_key(s, k) {
        let i = key_index(s, k);
        let r = with_entry(s, k, v, cap);
        assert forall|a: int, b: int|
            0 <= a < r.len() && 0 <= b < r.len() && a != b implies r[a].0.id() != r[b].0.id() by {
            assert(r[a].0 == s[a].0);
            assert(r[b].0 == s[b].0);
        }
    }
}

/// Inserting `k` entries with distinct keys, one after the other, into an
/// empty map whose capacity is at least `k` gives exactly those entries, so
/// `k` of them, in the order of insertion.
pub proof fn lemma_distinct_key_insertions<K: Identified, V>(es: Seq<(K, V)>, cap: nat)
    requires
        distinct_keys(es),
        es.len() <= cap,
    ensures
        with_entries(Seq::empty(), es, cap) == es,
        with_entries(Seq::empty(), es, cap).len() == es.len(),
    decreases es.len(),
{
    if es.len() > 0 {
        let init = es.drop_last();
        assert(distinct_keys(init));
        lemma_distinct_key_insertions(init, cap);
        if has_key(init, es.last().0) {
            let i = choose|i: int| 0 <= i < init.len() && init[i].0.id() == es.last().0.id();
            assert(es[i].0.id() == es[es.len() - 1].0.id());
        }
        assert(init.push((es.last().0, es.last().1)) == es);
    }
}

/// Inserting a key that the map holds changes only that entry's value: the
/// length, every key and its position, and every other value stay as they
/// were.
pub proof fn lemma_reinsert_keeps_position<K: Identified, V>(s: Seq<(K, V)>, k: K, v: V, cap: nat)
    requires
        bounded_map(s, cap),
        has_key(s, k),
    ensures
        with_entry(s, k, v, cap).len() == s.len(),
        with_entry(s, k, v, cap)[key_index(s, k)] == (s[key_index(s, k)].0, v),
        s[key_index(s, k)].0.id() == k.id(),
        forall|i: int| 0 <= i < s.len() ==> with_entry(s, k, v, cap)[i].0 == s[i].0,
        forall|i: int|
            0 <= i < s.len() && i != key_index(s, k) ==> with_entry(s, k, v, cap)[i] == s[i],
{
}

/// Inserting into a full map a key that it does not hold leaves the map as
/// it was; no insertion ever grows a map past its capacity or breaks its
/// shape.
pub proof fn lemma_insert_past_capacity<K: Identified, V>(s: Seq<(K, V)>, k: K, v: V, cap: nat)
    requires
        bounded_map(s, cap),
    ensures
        bounded_map(with_entry(s, k, v, cap), cap),
        s.len() == cap && !has_key(s, k) ==> with_entry(s, k, v, cap) == s,
        s.len() == cap ==> with_entry(s, k, v, cap).len() == cap,
{
    lemma_with_entry_bounded(s, k, v, cap);
}

/// Finds the position of the entry of `items` whose key has the identity of `k`.
fn key_position<K: Identified, V>(items: &Vec<(K, V)>, k: &K) -> (r: Option<usize>)
    ensures
        match r {
            Some(i) => i < items@.len() && items@[i as int].0.id() == k.id(),
            None => !has_key(items@, *k),
        },
{
    let mut i: usize = 0;
    while i < items.len()
        invariant
            i <= items@.len(),
            forall|j: int| 0 <= j < i ==> items@[j].0.id() != k.id(),
        decreases items@.len() - i,
    {
        if items[i].0.same(k) {
            return Some(i);
        }
        i = i + 1;
    }
    None
}

/// Inserts `(k, v)` into `items` as `with_entry` says.
fn put_entry<K: Identified + Copy, V: Copy>(items: &mut Vec<(K, V)>, k: K, v: V, cap: usize)
    requires
        bounded_map(old(items)@, cap as nat),
    ensures
        final(items)@ == with_entry(old(items)@, k, v, cap as nat),
        bounded_map(final(items)@, cap as nat),
{
    proof {
        lemma_with_entry_bounded(items@, k, v, cap as nat);
    }
    match key_position(items, &k) {
        Some(i) => {
            proof {
                lemma_key_index(items@, k, i as int);
            }
            let key = items[i].0;
            items.set(i, (key, v));
        },
        None => {
            if items.len() < cap {
                items.push((k, v));
            }
        },
    }
}

/// Inserts each entry of `es` into `items` in turn.
fn put_entries<K: Identified + Copy, V: Copy>(items: &mut Vec<(K, V)>, es: &[(K, V)], cap: usize)
    requires
        bounded_map(old(items)@, cap as nat),
    ensures
        final(items)@ == with_entries(old(items)@, es@, cap as nat),
        bounded_map(final(items)@, cap as nat),
{
    let ghost start = items@;
    let mut i: usize = 0;
    while i < es.len()
        invariant
            i <= es@.len(),
            bounded_map(items@, cap as nat),
            items@ == with_entries(start, es@.take(i as int), cap as nat),
        decreases es@.len() - i,
    {
        proof {
            assert(es@.take(i + 1).drop_last() == es@.take(i as int));
        }
        let (k, v) = es[i];
        put_entry(items, k, v, cap);
        i = i + 1;
    }
    proof {
        assert(es@.take(es@.len() as int) == es@);
    }
}

/// A map for internal storage.
///
/// It keeps the order of insertion, holds at most `N` entries and drops
/// silently what would go past that.
#[derive(Debug, Clone)]
pub struct StorageMap<K, V, const N: usize> {
    items: Vec<(K, V)>,
}

impl<K: Identified + Copy, V: Copy, const N: usize> Default for StorageMap<K, V, N> {
    fn default() -> (r: Self)
        ensures
            r@ == Seq::<(K, V)>::empty(),
            r.wf(),
    {
        Self::new()
    }
}

impl<K, V, const N: usize> View for StorageMap<K, V, N> {
    type V = Seq<(K, V)>;

    closed spec fn view(&self) -> Seq<(K, V)> {
        self.items@
    }
}

impl<K: Identified + Copy, V: Copy, const N: usize> StorageMap<K, V, N> {
    /// The shape every value of this type has: distinct keys, at most `N`.
    pub open spec fn wf(&self) -> bool {
        bounded_map(self@, N as nat)
    }

    /// Creates an empty map.
    pub fn new() -> (r: Self)
        ensures
            r@ == Seq::<(K, V)>::empty(),
            r.wf(),
    {
        StorageMap { items: Vec::new() }
    }

    /// Initializes a map with one entry.
    pub fn init(key: K, value: V) -> (r: Self)
        ensures
            r@ == with_entry(Seq::empty(), key, value, N as nat),
            r.wf(),
    {
        Self::new().insert(key, value)
    }

    /// Inserts an entry, returning the map.
    pub fn insert(self, key: K, value: V) -> (r: Self)
        requires
            self.wf(),
        ensures
            r@ == with_entry(self@, key, value, N as nat),
            r.wf(),
    {
        let mut elements = self;
        elements.add(key, value);
        elements
    }

    /// Adds an entry in place.
    pub fn add(&mut self, key: K, value: V)
        requires
            old(self).wf(),
        ensures
            final(self)@ == with_entry(old(self)@, key, value, N as nat),
            final(self).wf(),
    {
        put_entry(&mut self.items, key, value, N);
    }

    /// Checks whether the map is empty.
    pub fn is_empty(&self) -> (r: bool)
        ensures
            r == (self@.len() == 0),
    {
        self.items.len() == 0
    }

    /// Returns the number of entries.
    pub fn len(&self) -> (r: usize)
        ensures
            r == self@.len(),
    {
        self.items.len()
    }

    /// Checks whether the map holds a key with the identity of `key`.
    pub fn contains_key(&self, key: &K) -> (r: bool)
        ensures
            r == has_key(self@, *key),
    {
        key_position(&self.items, key).is_some()
    }

    /// The entries in insertion order, as a slice that can be walked any
    /// number of times.
    pub fn iter(&self) -> (r: &[(K, V)])
        ensures
            r@ == self@,
    {
        self.items.as_slice()
    }

    /// Initializes a map with a list of `(key, value)`, inserted in turn.
    pub fn init_with_elements(input_elements: &[(K, V)]) -> (r: Self)
        ensures
            r@ == with_entries(Seq::empty(), input_elements@, N as nat),
            r.wf(),
    {
        let mut elements = Self::new();
        put_entries(&mut elements.items, input_elements, N);
        elements
    }

    /// Builds this form of the map from a serial map; entries and order stay as
    /// they are.
    pub fn from_serial(map: SerialMap<K, V, N>) -> (r: Self)
        requires
            map.wf(),
        ensures
            r@ == map@,
            r.wf(),
    {
        Self { items: map.items }
    }

    /// Builds this form of the map from an output map; entries and order stay as
    /// they are.
    pub fn from_output(map: OutputMap<K, V, N>) -> (r: Self)
        requires
            map.wf(),
        ensures
            r@ == map@,
            r.wf(),
    {
        Self { items: map.items }
    }
}

/// A map meant to be encoded.
#[derive(Debug, Clone)]
pub struct SerialMap<K, V, const N: usize> {
    items: Vec<(K, V)>,
}

impl<K: Identified + Copy, V: Copy, const N: usize> Default for SerialMap<K, V, N> {
    fn default() -> (r: Self)
        ensures
            r@ == Seq::<(K, V)>::empty(),
            r.wf(),
    {
        Self::new()
    }
}

impl<K, V, const N: usize> View for SerialMap<K, V, N> {
    type V = Seq<(K, V)>;

    closed spec fn view(&self) -> Seq<(K, V)> {
        self.items@
    }
}

impl<K: Identified + Copy, V: Copy, const N: usize> SerialMap<K, V, N> {
    /// The shape every value of this type has: distinct keys, at most `N`.
    pub open spec fn wf(&self) -> bool {
        bounded_map(self@, N as nat)
    }

    /// Creates an empty map.
    pub fn new() -> (r: Self)
        ensures
            r@ == Seq::<(K, V)>::empty(),
            r.wf(),
    {
        SerialMap { items: Vec::new() }
    }

    /// Initializes a map with one entry.
    pub fn init(key: K, value: V) -> (r: Self)
        ensures
            r@ == with_entry(Seq::empty(), key, value, N as nat),
            r.wf(),
    {
        Self::new().insert(key, value)
    }

    /// Inserts an entry, returning the map.
    pub fn insert(self, key: K, value: V) -> (r: Self)
        requires
            self.wf(),
        ensures
            r@ == with_entry(self@, key, value, N as nat),
            r.wf(),
    {
        let mut elements = self;
        elements.add(key, value);
        elements
    }

    /// Adds an entry in place.
    pub fn add(&mut self, key: K, value: V)
        requires
            old(self).wf(),
        ensures
            final(self)@ == with_entry(old(self)@, key, value, N as nat),
            final(self).wf(),
    {
        put_entry(&mut self.items, key, value, N);
    }

    /// Checks whether the map is empty.
    pub fn is_empty(&self) -> (r: bool)
        ensures
            r == (self@.len() == 0),
    {
        self.items.len() == 0
    }

    /// Returns the number of entries.
    pub fn len(&self) -> (r: usize)
        ensures
            r == self@.len(),
    {
        self.items.len()
    }

    /// Checks whether the map holds a key with the identity of `key`.
    pub fn contains_key(&self, key: &K) -> (r: bool)
        ensures
            r == has_key(self@, *key),
    {
        key_position(&self.items, key).is_some()
    }

    /// The entries in insertion order, as a slice that can be walked any
    /// number of times.
    pub fn iter(&self) -> (r: &[(K, V)])
        ensures
            r@ == self@,
    {
        self.items.as_slice()
    }

    /// Initializes a map with a list of `(key, value)`, inserted in turn.
    pub fn init_with_elements(input_elements: &[(K, V)]) -> (r: Self)
        ensures
            r@ == with_entries(Seq::empty(), input_elements@, N as nat),
            r.wf(),
    {
        let mut elements = Self::new();
        put_entries(&mut elements.items, input_elements, N);
        elements
    }

    /// Builds this form of the map from a storage map; entries and order stay as
    /// they are.
    pub fn from_storage(map: StorageMap<K, V, N>) -> (r: Self)
        requires
            map.wf(),
        ensures
            r@ == map@,
            r.wf(),
    {
        Self { items: map.items }
    }
}

/// A map meant to be encoded and decoded.
#[derive(Debug, Clone)]
pub struct OutputMap<K, V, const N: usize> {
    items: Vec<(K, V)>,
}

impl<K: Identified + Copy, V: Copy, const N: usize> Default for OutputMap<K, V, N> {
    fn default() -> (r: Self)
        ensures
            r@ == Seq::<(K, V)>::empty(),
            r.wf(),
    {
        Self::new()
    }
}

impl<K, V, const N: usize> View for OutputMap<K, V, N> {
    type V = Seq<(K, V)>;

    closed spec fn view(&self) -> Seq<(K, V)> {
        self.items@
    }
}

impl<K: Identified + Copy, V: Copy, const N: usize> OutputMap<K, V, N> {
    /// The shape every value of this type has: distinct keys, at most `N`.
    pub open spec fn wf(&self) -> bool {
        bounded_map(self@, N as nat)
    }

    /// Creates an empty map.
    pub fn new() -> (r: Self)
        ensures
            r@ == Seq::<(K, V)>::empty(),
            r.wf(),
    {
        OutputMap { items: Vec::new() }
    }

    /// Initializes a map with one entry.
    pub fn init(key: K, value: V) -> (r: Self)
        ensures
            r@ == with_entry(Seq::empty(), key, value, N as nat),
            r.wf(),
    {
        Self::new().insert(key, value)
    }

    /// Inserts an entry, returning the map.
    pub fn insert(self, key: K, value: V) -> (r: Self)
        requires
            self.wf(),
        ensures
            r@ == with_entry(self@, key, value, N as nat),
            r.wf(),
    {
        let mut elements = self;
        elements.add(key, value);
        elements
    }

    /// Adds an entry in place.
    pub fn add(&mut self, key: K, value: V)
        requires
            old(self).wf(),
        ensures
            final(self)@ == with_entry(old(self)@, key, value, N as nat),
            final(self).wf(),
    {
        put_entry(&mut self.items, key, value, N);
    }

    /// Checks whether the map is empty.
    pub fn is_empty(&self) -> (r: bool)
        ensures
            r == (self@.len() == 0),
    {
        self.items.len() == 0
    }

    /// Returns the number of entries.
    pub fn len(&self) -> (r: usize)
        ensures
            r == self@.len(),
    {
        self.items.len()
    }

    /// Checks whether the map holds a key with the identity of `key`.
    pub fn contains_key(&self, key: &K) -> (r: bool)
        ensures
            r == has_key(self@, *key),
    {
        key_position(&self.items, key).is_some()
    }

    /// The entries in insertion order, as a slice that can be walked any
    /// number of times.
    pub fn iter(&self) -> (r: &[(K, V)])
        ensures
            r@ == self@,
    {
        self.items.as_slice()
    }

    /// Initializes a map with a list of `(key, value)`, inserted in turn.
    pub fn init_with_elements(input_elements: &[(K, V)]) -> (r: Self)
        ensures
            r@ == with_entries(Seq::empty(), input_elements@, N as nat),
            r.wf(),
    {
        let mut elements = Self::new();
        put_entries(&mut elements.items, input_elements, N);
        elements
    }

    /// Builds this form of the map from a storage map; entries and order stay as
    /// they are.
    pub fn from_storage(map: StorageMap<K, V, N>) -> (r: Self)
        requires
            map.wf(),
        ensures
            r@ == map@,
            r.wf(),
    {
        Self { items: map.items }
    }
}

} // verus!
