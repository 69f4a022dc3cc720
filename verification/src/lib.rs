//! An immutable, persistent singly-linked list built on structural sharing:
//! pushing an element produces a new list head that borrows, rather than
//! copies, the remainder, so many lists may share a common tail.

use vstd::prelude::*;

verus! {

/// A linked list node pairing one element with a borrowed remainder.
#[derive(Copy, Clone, Debug)]
struct ConstListItem<'a, T> {
    /// The element stored at this node.
    first: T,
    /// The rest of the list, shared by reference.
    rest: &'a ConstList<'a, T>,
}

/// An immutable singly-linked list whose tails may be shared among many
/// list heads. Every operation is pure: a "mutation" such as `push` returns
/// a new list and leaves the old one untouched.
#[derive(Copy, Clone, Debug)]
pub struct ConstList<'a, T>(Option<ConstListItem<'a, T>>);

impl<'a, T> ConstList<'a, T> {
    /// The sequence of elements this list holds, head first.
    pub closed spec fn elements(&self) -> Seq<T>
        decreases self,
    {
        match self.0 {
            None => Seq::empty(),
            Some(item) => seq![item.first] + item.rest.elements(),
        }
    }
}

impl<'a, T> View for ConstList<'a, T> {
    type V = Seq<T>;

    open spec fn view(&self) -> Seq<T> {
        self.elements()
    }
}

impl<'a, T> ConstList<'a, T> {
    /// Creates a new, empty list.
    pub fn new() -> (r: Self)
        ensures
            r@ == Seq::<T>::empty(),
    {
        ConstList(None)
    }

    /// Gets a reference to the item at the provided zero-based index in this
    /// list, if any; out-of-range indices yield `None`, never a panic.
    pub fn get(&self, index: usize) -> (r: Option<&T>)
        ensures
            index < self@.len() ==> (r matches Some(v) && *v == self@[index as int]),
            index >= self@.len() ==> r is None,
        decreases self@.len(),
    {
        if let Some(value) = &self.0 {
            if index == 0 {
                Some(&value.first)
            } else {
                value.rest.get(index - 1)
            }
        } else {
            None
        }
    }

    /// Determines the length of this list by walking the chain; it is not
    /// cached. The length of any list held in memory fits in `usize`.
    pub fn len(&self) -> (n: usize)
        requires
            self@.len() <= usize::MAX,
        ensures
            n == self@.len(),
        decreases self@.len(),
    {
        if let Some(value) = &self.0 {
            value.rest.len() + 1
        } else {
            0
        }
    }

    /// Whether the list is empty. Equivalent to, but cheaper than,
    /// `len() == 0`.
    pub fn is_empty(&self) -> (r: bool)
        ensures
            r == (self@.len() == 0),
    {
        self.0.is_none()
    }

    /// Pushes a new item onto the beginning of this list, producing a new
    /// list head. The pushed-onto list is only borrowed: it stays valid and
    /// unchanged, so several lists may extend the same shared tail.
    pub fn push(&'a self, value: T) -> (r: Self)
        ensures
            r@ == seq![value] + self@,
    {
        ConstList(Some(ConstListItem { first: value, rest: self }))
    }

    /// Decomposes this list into its first item (if any) and the rest of the
    /// list. Nothing is removed from any stored structure: the nodes are
    /// immutable, so this is a pure decomposition of the current reference.
    /// On the empty list the "rest" is the empty list itself, so popping an
    /// empty list any number of times keeps yielding `(None, empty)`.
    pub fn pop(&'a self) -> (r: (Option<&'a T>, &'a Self))
        ensures
            self@.len() == 0 ==> (r.0 is None && *r.1 == *self),
            self@.len() > 0 ==> (r.0 matches Some(v) && *v == self@[0])
                && r.1@ == self@.skip(1),
    {
        if let Some(value) = &self.0 {
            (Some(&value.first), value.rest)
        } else {
            (None, self)
        }
    }

    /// Creates a cursor over the contents of the list. The cursor captures
    /// the list as it is now; since lists are immutable, iterating the same
    /// list again yields the same elements in the same order.
    pub fn iter(&'a self) -> (r: ConstListIterator<'a, T>)
        ensures
            r@ == self@,
    {
        ConstListIterator { target: self }
    }
}

/// A forward cursor over the contents of a `ConstList`. Its only state is
/// the remaining, not yet yielded part of the list; each call to [`Self::next`]
/// decomposes that remainder one step further.
pub struct ConstListIterator<'a, T> {
    /// The remaining list, whose head is the next element to yield.
    target: &'a ConstList<'a, T>,
}

impl<'a, T> View for ConstListIterator<'a, T> {
    type V = Seq<T>;

    closed spec fn view(&self) -> Seq<T> {
        self.target.elements()
    }
}

impl<'a, T> ConstListIterator<'a, T> {
    /// Yields a reference to the next element, or `None` once the cursor is
    /// exhausted, moving the cursor one step forward.
    pub fn next(&mut self) -> (r: Option<&'a T>)
        ensures
            old(self)@.len() == 0 ==> (r is None && final(self)@ == old(self)@),
            old(self)@.len() > 0 ==> (r matches Some(v) && *v == old(self)@[0])
                && final(self)@ == old(self)@.skip(1),
    {
        let (first, rest) = self.target.pop();
        self.target = rest;
        first
    }

    /// Consumes the cursor and counts the elements it yields: exactly the
    /// length of the list it was created from.
    pub fn count(self) -> (n: usize)
        requires
            self@.len() <= usize::MAX,
        ensures
            n == self@.len(),
    {
        let mut cursor = self;
        let ghost whole = cursor@;
        let mut n: usize = 0;
        loop
            invariant
                whole == self@,
                n + cursor@.len() == whole.len(),
                whole.len() <= usize::MAX,
            decreases cursor@.len(),
        {
            if cursor.next().is_none() {
                return n;
            }
            n = n + 1;
        }
    }
}

/// Push then pop round-trips: a list extended with `value` (see
/// [`ConstList::push`]) holds one element more, its head is `value`, and the
/// remainder left by [`ConstList::pop`] holds exactly the original elements.
pub proof fn lemma_push_then_pop<T>(elements: Seq<T>, value: T)
    ensures
        (seq![value] + elements).len() == elements.len() + 1,
        (seq![value] + elements)[0] == value,
        (seq![value] + elements).skip(1) == elements,
{
    assert((seq![value] + elements).skip(1) =~= elements);
}

/// Indexed access agrees with iteration: a cursor that has yielded `i`
/// elements of a list holding `elements` has `elements.skip(i)` left (each
/// step of [`ConstListIterator::next`] turns a remainder of `elements.skip(i)`
/// into `elements.skip(i + 1)`), so the element it yields on the step after
/// those `i` is `elements[i]`, exactly what [`ConstList::get`] returns for
/// index `i`.
pub proof fn lemma_get_agrees_with_iteration<T>(elements: Seq<T>, i: int)
    requires
        0 <= i < elements.len(),
    ensures
        elements.skip(i)[0] == elements[i],
        elements.skip(i).skip(1) == elements.skip(i + 1),
{
    assert(elements.skip(i).skip(1) =~= elements.skip(i + 1));
}

} // verus!
