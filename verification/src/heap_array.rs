//! A non-growable array with its capacity fixed up front: pushes beyond the
//! capacity are refused instead of reallocating.

use vstd::prelude::*;

verus! {

/// Why a push was refused.
#[derive(Debug)]
pub enum TryPushError<T> {
    /// The array is full; the element comes back untouched.
    WouldOverflow(T),
    Other,
}

/// Why an array could not be made.
#[derive(Debug, Clone, Copy, PartialEq, Eq, Structural)]
pub enum HeapArrayError {
    LenIsUnexpectedlyZero,
    MmapFailure,
}

/// A fixed-capacity array: it holds at most `cap` elements, in insertion
/// order.
#[derive(Debug)]
pub struct HeapArray<T> {
    data: Vec<T>,
    cap: usize,
}

impl<T> View for HeapArray<T> {
    type V = Seq<T>;

    closed spec fn view(&self) -> Seq<T> {
        self.data@
    }
}

impl<T> HeapArray<T> {
    /// The fixed capacity.
    pub closed spec fn spec_capacity(&self) -> usize {
        self.cap
    }

    /// The length never passes the capacity.
    pub open spec fn wf(&self) -> bool {
        self@.len() <= self.spec_capacity()
    }

    /// An empty array of the given capacity. A zero capacity is refused:
    /// such an array could never hold anything.
    pub fn with_cap(cap: u32) -> (r: Result<HeapArray<T>, HeapArrayError>)
        ensures
            cap == 0 ==> (r matches Err(e) && e == HeapArrayError::LenIsUnexpectedlyZero),
            cap != 0 ==> (r matches Ok(a) && a@ == Seq::<T>::empty() && a.spec_capacity()
                == cap as usize && a.wf()),
    {
        if cap == 0 {
            return Err(HeapArrayError::LenIsUnexpectedlyZero);
        }
        Ok(HeapArray { data: Vec::new(), cap: cap as usize })
    }

    /// Appends an element if there is room; a full array refuses and hands
    /// the element back.
    pub fn try_push(&mut self, element: T) -> (r: Result<(), TryPushError<T>>)
        requires
            old(self).wf(),
        ensures
            final(self).wf(),
            final(self).spec_capacity() == old(self).spec_capacity(),
            old(self)@.len() < old(self).spec_capacity() ==> (r is Ok && final(self)@ == old(self)@.push(element)),
            old(self)@.len() >= old(self).spec_capacity() ==> (r matches Err(e) && (
            e matches TryPushError::WouldOverflow(x) && x == element)) && final(self)@ == old(self)@,
    {
        if self.data.len() >= self.cap {
            return Err(TryPushError::WouldOverflow(element));
        }
        self.data.push(element);
        Ok(())
    }

    /// Appends an element to an array known to have room.
    pub fn push(&mut self, element: T)
        requires
            old(self).wf(),
            old(self)@.len() < old(self).spec_capacity(),
        ensures
            final(self).wf(),
            final(self).spec_capacity() == old(self).spec_capacity(),
            final(self)@ == old(self)@.push(element),
    {
        self.data.push(element);
    }

    pub fn len(&self) -> (n: usize)
        ensures
            n == self@.len(),
    {
        self.data.len()
    }

    /// Removes and returns the most recently pushed element, if any.
    pub fn pop(&mut self) -> (r: Option<T>)
        requires
            old(self).wf(),
        ensures
            final(self).wf(),
            final(self).spec_capacity() == old(self).spec_capacity(),
            old(self)@.len() == 0 ==> r is None && final(self)@ == old(self)@,
            old(self)@.len() > 0 ==> (r matches Some(x) && x == old(self)@.last()) && final(self)@ == old(self)@.drop_last(),
    {
        if self.data.len() == 0 {
            return None;
        }
        let x = self.data.pop();
        x
    }

    pub fn capacity(&self) -> (c: usize)
        ensures
            c == self.spec_capacity(),
    {
        self.cap
    }

    /// Read access to the element at a position.
    pub fn index_at(&self, i: usize) -> (r: &T)
        requires
            i < self@.len(),
        ensures
            *r == self@[i as int],
    {
        &self.data[i]
    }
}

} // verus!
