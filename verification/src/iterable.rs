//! A vector handed out as a collection that the caller walks with a cursor.
use vstd::prelude::*;

verus! {

/// A collection whose items are walked with a cursor, first to last.
pub struct Iterable<T>(pub Vec<T>);

/// Why a cursor could not give an item.
#[derive(PartialEq, Eq, Structural, Debug, Clone, Copy)]
pub enum IterError {
    /// The cursor stands past the last item.
    OutOfBounds,
}

/// A position in an [`Iterable`].
pub struct IterableCursor<'a, T> {
    owner: &'a Iterable<T>,
    index: usize,
}

impl<T> Iterable<T> {
    /// A cursor on the first item.
    pub fn first(&self) -> (c: IterableCursor<'_, T>)
        ensures
            c.items() == self.0@,
            c.position() == 0,
    {
        IterableCursor { owner: self, index: 0 }
    }
}

impl<'a, T> IterableCursor<'a, T> {
    /// The items walked.
    pub closed spec fn items(&self) -> Seq<T> {
        self.owner.0@
    }

    /// How many times the cursor has moved on.
    pub closed spec fn position(&self) -> nat {
        self.index as nat
    }

    /// The item under the cursor, or `OutOfBounds` past the last item.
    pub fn current(&self) -> (r: Result<&'a T, IterError>)
        ensures
            self.position() < self.items().len() ==> r == Ok::<&'a T, IterError>(
                &self.items()[self.position() as int],
            ),
            self.position() >= self.items().len() ==> r == Err::<&'a T, IterError>(
                IterError::OutOfBounds,
            ),
    {
        if self.index < self.owner.0.len() {
            Ok(&self.owner.0[self.index])
        } else {
            Err(IterError::OutOfBounds)
        }
    }

    /// Whether an item is under the cursor.
    pub fn has_current(&self) -> (b: bool)
        ensures
            b == (self.position() < self.items().len()),
    {
        self.index < self.owner.0.len()
    }

    /// Moves the cursor on by one item; tells whether an item is under it then.
    pub fn move_next(&mut self) -> (b: bool)
        requires
            old(self).position() < usize::MAX,
        ensures
            final(self).items() == old(self).items(),
            final(self).position() == old(self).position() + 1,
            b == (final(self).position() < final(self).items().len()),
    {
        self.index = self.index + 1;
        self.index < self.owner.0.len()
    }
}

} // verus!
