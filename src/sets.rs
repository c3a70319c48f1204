use vstd::prelude::*;

use crate::identity::Identified;

verus! {

/// Whether `s` holds an element with the identity of `e`.
pub open spec fn holds<T: Identified>(s: Seq<T>, e: T) -> bool {
    exists|i: int| 0 <= i < s.len() && s[i].id() == e.id()
}

/// No two elements of `s` share an identity.
pub open spec fn distinct<T: Identified>(s: Seq<T>) -> bool {
    forall|i: int, j: int|
        0 <= i < s.len() && 0 <= j < s.len() && i != j ==> s[i].id() != s[j].id()
}

/// The shape of every bounded set: distinct elements, at most `cap` of them.
pub open spec fn bounded<T: Identified>(s: Seq<T>, cap: nat) -> bool {
    s.len() <= cap && distinct(s)
}

/// `s` after one insertion of `e`: an element already held keeps its place
/// and its value, a new one goes to the end, and a full set stays as it is.
pub open spec fn with_element<T: Identified>(s: Seq<T>, e: T, cap: nat) -> Seq<T> {
    if holds(s, e) || s.len() >= cap {
        s
    } else {
        s.push(e)
    }
}

/// `s` after inserting each element of `es` in turn.
pub open spec fn with_all<T: Identified>(s: Seq<T>, es: Seq<T>, cap: nat) -> Seq<T>
    decreases es.len(),
{
    if es.len() == 0 {
        s
    } else {
        with_element(with_all(s, es.drop_last(), cap), es.last(), cap)
    }
}

proof fn lemma_with_element_bounded<T: Identified>(s: Seq<T>, e: T, cap: nat)
    requires
        bounded(s, cap),
    ensures
        bounded(with_element(s, e, cap), cap),
{
}

/// Inserting an element never removes, moves or changes one that is there,
/// and never grows a set past its capacity.
pub proof fn lemma_insert_keeps_elements<T: Identified>(s: Seq<T>, e: T, cap: nat)
    requires
        bounded(s, cap),
    ensures
        bounded(with_element(s, e, cap), cap),
        with_element(s, e, cap).len() <= cap,
        forall|i: int| 0 <= i < s.len() ==> with_element(s, e, cap)[i] == s[i],
        s.len() == cap ==> with_element(s, e, cap) == s,
        holds(s, e) ==> with_element(s, e, cap) == s,
{
}

/// Inserting `k` distinct elements, one after the other, into an empty set
/// whose capacity is at least `k` gives exactly those elements, in the order
/// of insertion.
pub proof fn lemma_distinct_insertions<T: Identified>(es: Seq<T>, cap: nat)
    requires
        distinct(es),
        es.len() <= cap,
    ensures
        with_all(Seq::empty(), es, cap) == es,
        with_all(Seq::empty(), es, cap).len() == es.len(),
    decreases es.len(),
{
    if es.len() > 0 {
        let init = es.drop_last();
        assert(distinct(init));
        lemma_distinct_insertions(init, cap);
        if holds(init, es.last()) {
            let i = choose|i: int| 0 <= i < init.len() && init[i].id() == es.last().id();
            assert(es[i].id() == es[es.len() - 1].id());
        }
        assert(init.push(es.last()) == es);
    }
}

/// Finds the position of the element of `items` that has the identity of `e`.
fn position<T: Identified>(items: &Vec<T>, e: &T) -> (r: Option<usize>)
    ensures
        match r {
            Some(i) => i < items@.len() && items@[i as int].id() == e.id(),
            None => !holds(items@, *e),
        },
{
    let mut i: usize = 0;
    while i < items.len()
        invariant
            i <= items@.len(),
            forall|j: int| 0 <= j < i ==> items@[j].id() != e.id(),
        decreases items@.len() - i,
    {
        if items[i].same(e) {
            return Some(i);
        }
        i = i + 1;
    }
    None
}

/// Appends `e` to `items` unless an element with its identity is there or
/// `items` already holds `cap` elements.
fn put_element<T: Identified>(items: &mut Vec<T>, e: T, cap: usize)
    requires
        bounded(old(items)@, cap as nat),
    ensures
        final(items)@ == with_element(old(items)@, e, cap as nat),
        bounded(final(items)@, cap as nat),
{
    proof {
        lemma_with_element_bounded(items@, e, cap as nat);
    }
    match position(items, &e) {
        Some(_) => {},
        None => {
            if items.len() < cap {
                items.push(e);
            }
        },
    }
}

/// Inserts each element of `es` into `items` in turn.
fn put_all<T: Identified + Copy>(items: &mut Vec<T>, es: &[T], cap: usize)
    requires
        bounded(old(items)@, cap as nat),
    ensures
        final(items)@ == with_all(old(items)@, es@, cap as nat),
        bounded(final(items)@, cap as nat),
{
    let ghost start = items@;
    let mut i: usize = 0;
    while i < es.len()
        invariant
            i <= es@.len(),
            bounded(items@, cap as nat),
            items@ == with_all(start, es@.take(i as int), cap as nat),
        decreases es@.len() - i,
    {
        proof {
            assert(es@.take(i + 1).drop_last() == es@.take(i as int));
        }
        put_element(items, es[i], cap);
        i = i + 1;
    }
    proof {
        assert(es@.take(es@.len() as int) == es@);
    }
}

/// A set of elements for internal storage.
///
/// It keeps the order of insertion, holds at most `N` elements and drops
/// silently what would go past that.
#[derive(Debug, Clone)]
pub struct StorageSet<T, const N: usize> {
    items: Vec<T>,
}

impl<T: Identified, const N: usize> Default for StorageSet<T, N> {
    fn default() -> (r: Self)
        ensures
            r@ == Seq::<T>::empty(),
            r.wf(),
    {
        Self::new()
    }
}

impl<T, const N: usize> View for StorageSet<T, N> {
    type V = Seq<T>;

    closed spec fn view(&self) -> Seq<T> {
        self.items@
    }
}

impl<T: Identified, const N: usize> StorageSet<T, N> {
    /// The shape every value of this type has: distinct elements, at most `N`.
    pub open spec fn wf(&self) -> bool {
        bounded(self@, N as nat)
    }

    /// Creates an empty set.
    pub fn new() -> (r: Self)
        ensures
            r@ == Seq::<T>::empty(),
            r.wf(),
    {
        StorageSet { items: Vec::new() }
    }

    /// Initializes a set with one element.
    pub fn init(element: T) -> (r: Self)
        ensures
            r@ == with_element(Seq::empty(), element, N as nat),
            r.wf(),
    {
        let mut elements = Self::new();
        elements.add(element);
        elements
    }

    /// Inserts an element, returning the set.
    pub fn insert(self, element: T) -> (r: Self)
        requires
            self.wf(),
        ensures
            r@ == with_element(self@, element, N as nat),
            r.wf(),
    {
        let mut elements = self;
        elements.add(element);
        elements
    }

    /// Adds an element in place.
    pub fn add(&mut self, element: T)
        requires
            old(self).wf(),
        ensures
            final(self)@ == with_element(old(self)@, element, N as nat),
            final(self).wf(),
    {
        put_element(&mut self.items, element, N);
    }

    /// Checks whether the set is empty.
    pub fn is_empty(&self) -> (r: bool)
        ensures
            r == (self@.len() == 0),
    {
        self.items.len() == 0
    }

    /// Returns the number of elements.
    pub fn len(&self) -> (r: usize)
        ensures
            r == self@.len(),
    {
        self.items.len()
    }

    /// Checks whether the set holds an element with the identity of `element`.
    pub fn contains(&self, element: &T) -> (r: bool)
        ensures
            r == holds(self@, *element),
    {
        position(&self.items, element).is_some()
    }

    /// The elements in insertion order, as a slice that can be walked any
    /// number of times.
    pub fn iter(&self) -> (r: &[T])
        ensures
            r@ == self@,
    {
        self.items.as_slice()
    }
}

impl<T: Identified + Copy, const N: usize> StorageSet<T, N> {
    /// Initializes a set with a list of elements, inserted in turn.
    pub fn init_with_elements(input_elements: &[T]) -> (r: Self)
        ensures
            r@ == with_all(Seq::empty(), input_elements@, N as nat),
            r.wf(),
    {
        let mut elements = Self::new();
        put_all(&mut elements.items, input_elements, N);
        elements
    }

    /// Merges all elements of `other` into this set: those it does not hold
    /// yet are appended in `other`'s order while room is left.
    pub fn merge(&mut self, other: &Self)
        requires
            old(self).wf(),
        ensures
            final(self)@ == with_all(old(self)@, other@, N as nat),
            final(self).wf(),
    {
        put_all(&mut self.items, other.items.as_slice(), N);
    }
}

impl<T: Identified, const N: usize> StorageSet<T, N> {
    /// Builds this form of the set from a serial set; elements and order stay as
    /// they are.
    pub fn from_serial(set: SerialSet<T, N>) -> (r: Self)
        requires
            set.wf(),
        ensures
            r@ == set@,
            r.wf(),
    {
        Self { items: set.items }
    }

    /// Builds this form of the set from an output set; elements and order stay as
    /// they are.
    pub fn from_output(set: OutputSet<T, N>) -> (r: Self)
        requires
            set.wf(),
        ensures
            r@ == set@,
            r.wf(),
    {
        Self { items: set.items }
    }
}

/// A set of elements meant to be encoded.
#[derive(Debug, Clone)]
pub struct SerialSet<T, const N: usize> {
    items: Vec<T>,
}

impl<T: Identified, const N: usize> Default for SerialSet<T, N> {
    fn default() -> (r: Self)
        ensures
            r@ == Seq::<T>::empty(),
            r.wf(),
    {
        Self::new()
    }
}

impl<T, const N: usize> View for SerialSet<T, N> {
    type V = Seq<T>;

    closed spec fn view(&self) -> Seq<T> {
        self.items@
    }
}

impl<T: Identified, const N: usize> SerialSet<T, N> {
    /// The shape every value of this type has: distinct elements, at most `N`.
    pub open spec fn wf(&self) -> bool {
        bounded(self@, N as nat)
    }

    /// Creates an empty set.
    pub fn new() -> (r: Self)
        ensures
            r@ == Seq::<T>::empty(),
            r.wf(),
    {
        SerialSet { items: Vec::new() }
    }

    /// Initializes a set with one element.
    pub fn init(element: T) -> (r: Self)
        ensures
            r@ == with_element(Seq::empty(), element, N as nat),
            r.wf(),
    {
        let mut elements = Self::new();
        elements.add(element);
        elements
    }

    /// Inserts an element, returning the set.
    pub fn insert(self, element: T) -> (r: Self)
        requires
            self.wf(),
        ensures
            r@ == with_element(self@, element, N as nat),
            r.wf(),
    {
        let mut elements = self;
        elements.add(element);
        elements
    }

    /// Adds an element in place.
    pub fn add(&mut self, element: T)
        requires
            old(self).wf(),
        ensures
            final(self)@ == with_element(old(self)@, element, N as nat),
            final(self).wf(),
    {
        put_element(&mut self.items, element, N);
    }

    /// Checks whether the set is empty.
    pub fn is_empty(&self) -> (r: bool)
        ensures
            r == (self@.len() == 0),
    {
        self.items.len() == 0
    }

    /// Returns the number of elements.
    pub fn len(&self) -> (r: usize)
        ensures
            r == self@.len(),
    {
        self.items.len()
    }

    /// Checks whether the set holds an element with the identity of `element`.
    pub fn contains(&self, element: &T) -> (r: bool)
        ensures
            r == holds(self@, *element),
    {
        position(&self.items, element).is_some()
    }

    /// The elements in insertion order, as a slice that can be walked any
    /// number of times.
    pub fn iter(&self) -> (r: &[T])
        ensures
            r@ == self@,
    {
        self.items.as_slice()
    }
}

impl<T: Identified + Copy, const N: usize> SerialSet<T, N> {
    /// Initializes a set with a list of elements, inserted in turn.
    pub fn init_with_elements(input_elements: &[T]) -> (r: Self)
        ensures
            r@ == with_all(Seq::empty(), input_elements@, N as nat),
            r.wf(),
    {
        let mut elements = Self::new();
        put_all(&mut elements.items, input_elements, N);
        elements
    }

    /// Merges all elements of `other` into this set: those it does not hold
    /// yet are appended in `other`'s order while room is left.
    pub fn merge(&mut self, other: &Self)
        requires
            old(self).wf(),
        ensures
            final(self)@ == with_all(old(self)@, other@, N as nat),
            final(self).wf(),
    {
        put_all(&mut self.items, other.items.as_slice(), N);
    }
}

impl<T: Identified, const N: usize> SerialSet<T, N> {
    /// Builds this form of the set from a storage set; elements and order stay as
    /// they are.
    pub fn from_storage(set: StorageSet<T, N>) -> (r: Self)
        requires
            set.wf(),
        ensures
            r@ == set@,
            r.wf(),
    {
        Self { items: set.items }
    }
}

/// A set of elements meant to be encoded and decoded.
#[derive(Debug, Clone)]
pub struct OutputSet<T, const N: usize> {
    items: Vec<T>,
}

impl<T: Identified, const N: usize> Default for OutputSet<T, N> {
    fn default() -> (r: Self)
        ensures
            r@ == Seq::<T>::empty(),
            r.wf(),
    {
        Self::new()
    }
}

impl<T, const N: usize> View for OutputSet<T, N> {
    type V = Seq<T>;

    closed spec fn view(&self) -> Seq<T> {
        self.items@
    }
}

impl<T: Identified, const N: usize> OutputSet<T, N> {
    /// The shape every value of this type has: distinct elements, at most `N`.
    pub open spec fn wf(&self) -> bool {
        bounded(self@, N as nat)
    }

    /// Creates an empty set.
    pub fn new() -> (r: Self)
        ensures
            r@ == Seq::<T>::empty(),
            r.wf(),
    {
        OutputSet { items: Vec::new() }
    }

    /// Initializes a set with one element.
    pub fn init(element: T) -> (r: Self)
        ensures
            r@ == with_element(Seq::empty(), element, N as nat),
            r.wf(),
    {
        let mut elements = Self::new();
        elements.add(element);
        elements
    }

    /// Inserts an element, returning the set.
    pub fn insert(self, element: T) -> (r: Self)
        requires
            self.wf(),
        ensures
            r@ == with_element(self@, element, N as nat),
            r.wf(),
    {
        let mut elements = self;
        elements.add(element);
        elements
    }

    /// Adds an element in place.
    pub fn add(&mut self, element: T)
        requires
            old(self).wf(),
        ensures
            final(self)@ == with_element(old(self)@, element, N as nat),
            final(self).wf(),
    {
        put_element(&mut self.items, element, N);
    }

    /// Checks whether the set is empty.
    pub fn is_empty(&self) -> (r: bool)
        ensures
            r == (self@.len() == 0),
    {
        self.items.len() == 0
    }

    /// Returns the number of elements.
    pub fn len(&self) -> (r: usize)
        ensures
            r == self@.len(),
    {
        self.items.len()
    }

    /// Checks whether the set holds an element with the identity of `element`.
    pub fn contains(&self, element: &T) -> (r: bool)
        ensures
            r == holds(self@, *element),
    {
        position(&self.items, element).is_some()
    }

    /// The elements in insertion order, as a slice that can be walked any
    /// number of times.
    pub fn iter(&self) -> (r: &[T])
        ensures
            r@ == self@,
    {
        self.items.as_slice()
    }
}

impl<T: Identified + Copy, const N: usize> OutputSet<T, N> {
    /// Initializes a set with a list of elements, inserted in turn.
    pub fn init_with_elements(input_elements: &[T]) -> (r: Self)
        ensures
            r@ == with_all(Seq::empty(), input_elements@, N as nat),
            r.wf(),
    {
        let mut elements = Self::new();
        put_all(&mut elements.items, input_elements, N);
        elements
    }

    /// Merges all elements of `other` into this set: those it does not hold
    /// yet are appended in `other`'s order while room is left.
    pub fn merge(&mut self, other: &Self)
        requires
            old(self).wf(),
        ensures
            final(self)@ == with_all(old(self)@, other@, N as nat),
            final(self).wf(),
    {
        put_all(&mut self.items, other.items.as_slice(), N);
    }
}

impl<T: Identified, const N: usize> OutputSet<T, N> {
    /// Builds this form of the set from a storage set; elements and order stay as
    /// they are.
    pub fn from_storage(set: StorageSet<T, N>) -> (r: Self)
        requires
            set.wf(),
        ensures
            r@ == set@,
            r.wf(),
    {
        Self { items: set.items }
    }
}

} // verus!
