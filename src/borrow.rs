use vstd::prelude::*;

use crate::path::SymbolicPath;

verus! {

/// The region a borrow counter lies in.
#[derive(PartialEq, Eq, Structural, Clone, Copy, Debug)]
pub enum State {
    /// No active borrow (`0`).
    Unused,
    /// That many shared borrows are active (positive).
    Reading,
    /// One exclusive borrow is active (`-1`).
    Writing,
    /// Any other negative value: a corrupted counter.
    Invalid,
}

/// The kind of access a guard stands for.
#[derive(PartialEq, Eq, Structural, Clone, Copy, Debug)]
pub enum Access {
    Shared,
    Exclusive,
}

/// The token handed out by a successful borrow; handing it back to
/// `release` is the only way the counter goes down.
pub struct BorrowGuard {
    access: Access,
}

impl BorrowGuard {
    pub closed spec fn access_spec(&self) -> Access {
        self.access
    }

    pub fn access(&self) -> (r: Access)
        ensures
            r == self.access_spec(),
    {
        self.access
    }
}

pub open spec fn state_of(flag: isize) -> State {
    if flag == 0 {
        State::Unused
    } else if flag > 0 {
        State::Reading
    } else if flag == -1 {
        State::Writing
    } else {
        State::Invalid
    }
}

/// A shared borrow may be taken: the counter is UNUSED or READING.
pub open spec fn shared_allowed(flag: isize) -> bool {
    flag >= 0
}

/// An exclusive borrow may be taken: the counter is UNUSED.
pub open spec fn exclusive_allowed(flag: isize) -> bool {
    flag == 0
}

/// The counter after a shared borrow. The increment is not guarded: at the
/// reader limit it rolls over to `-1`, which reads as WRITING.
pub open spec fn after_shared(flag: isize, max_readers: isize) -> isize {
    if flag < max_readers {
        (flag + 1) as isize
    } else {
        -1isize
    }
}

/// The counter after a guard of the given access is released.
pub open spec fn after_release(flag: isize, access: Access) -> isize {
    match access {
        Access::Shared => if flag > 0 {
            (flag - 1) as isize
        } else {
            flag
        },
        Access::Exclusive => 0,
    }
}

pub fn is_unused(flag: isize) -> (r: bool)
    ensures
        r == (state_of(flag) == State::Unused),
{
    flag == 0
}

pub fn is_reading(flag: isize) -> (r: bool)
    ensures
        r == (state_of(flag) == State::Reading),
{
    flag > 0
}

pub fn is_writing(flag: isize) -> (r: bool)
    ensures
        r == (state_of(flag) == State::Writing),
{
    flag == -1
}

/// No further shared borrow fits under the limit.
pub fn is_reader_limit_reached(flag: isize, max_readers: isize) -> (r: bool)
    ensures
        r == (flag >= max_readers),
{
    flag >= max_readers
}

/// The state a counter value stands for.
pub fn classify(flag: isize) -> (r: State)
    ensures
        r == state_of(flag),
{
    if flag == 0 {
        State::Unused
    } else if flag > 0 {
        State::Reading
    } else if flag == -1 {
        State::Writing
    } else {
        State::Invalid
    }
}

/// From UNUSED, a shared borrow and the release of its guard give UNUSED
/// back; so do the exclusive borrow and the release of its guard.
pub proof fn lemma_borrow_round_trip(max_readers: isize)
    requires
        max_readers >= 1,
    ensures
        shared_allowed(0),
        after_release(after_shared(0, max_readers), Access::Shared) == 0,
        exclusive_allowed(0),
        after_release(-1isize, Access::Exclusive) == 0,
{
}

/// From WRITING neither a shared nor the exclusive borrow is allowed, so
/// each of them fails the path.
pub proof fn lemma_writing_blocks_borrows(flag: isize)
    requires
        state_of(flag) == State::Writing,
    ensures
        !shared_allowed(flag),
        !exclusive_allowed(flag),
{
}

/// A shared borrow at the reader limit rolls the counter over to a
/// negative value that reads as WRITING, from which the exclusive borrow
/// then fails.
pub proof fn lemma_rollover_blocks_exclusive(max_readers: isize)
    requires
        max_readers >= 1,
    ensures
        shared_allowed(max_readers),
        after_shared(max_readers, max_readers) < 0,
        state_of(after_shared(max_readers, max_readers)) == State::Writing,
        !exclusive_allowed(after_shared(max_readers, max_readers)),
{
}

/// A value behind a borrow counter that is a plain signed integer with an
/// unguarded increment, so that exhausting the shared borrows rolls over.
/// This counter is a model for verification scenarios, not a lock.
pub struct BorrowCell<T> {
    value: T,
    flag: isize,
    max_readers: isize,
}

pub struct CellView<T> {
    pub value: T,
    pub flag: isize,
    pub max_readers: isize,
}

impl<T> View for BorrowCell<T> {
    type V = CellView<T>;

    closed spec fn view(&self) -> CellView<T> {
        CellView { value: self.value, flag: self.flag, max_readers: self.max_readers }
    }
}

impl<T> BorrowCell<T> {
    pub open spec fn wf(&self) -> bool {
        self@.max_readers >= 1
    }

    /// An UNUSED cell whose counter holds up to `isize::MAX` readers.
    pub fn new(value: T) -> (r: Self)
        ensures
            r.wf(),
            r@ == (CellView { value: value, flag: 0isize, max_readers: isize::MAX }),
    {
        BorrowCell { value: value, flag: 0, max_readers: isize::MAX }
    }

    /// An UNUSED cell whose counter holds up to `max_readers` readers.
    pub fn with_max_readers(value: T, max_readers: isize) -> (r: Self)
        requires
            max_readers >= 1,
        ensures
            r.wf(),
            r@ == (CellView { value: value, flag: 0isize, max_readers: max_readers }),
    {
        BorrowCell { value: value, flag: 0, max_readers: max_readers }
    }

    /// A cell whose counter starts at `flag`, in whatever state that is.
    pub fn new_with_flag(value: T, flag: isize) -> (r: Self)
        ensures
            r.wf(),
            r@ == (CellView { value: value, flag: flag, max_readers: isize::MAX }),
    {
        BorrowCell { value: value, flag: flag, max_readers: isize::MAX }
    }

    /// Overwrites the counter.
    pub fn set_borrow_state(&mut self, flag: isize)
        ensures
            final(self)@ == (CellView { value: old(self)@.value, flag: flag, max_readers: old(self)@.max_readers }),
    {
        self.flag = flag;
    }

    pub fn borrow_flag(&self) -> (r: isize)
        ensures
            r == self@.flag,
    {
        self.flag
    }

    pub fn max_readers(&self) -> (r: isize)
        ensures
            r == self@.max_readers,
    {
        self.max_readers
    }

    pub fn get_borrow_state(&self) -> (r: State)
        ensures
            r == state_of(self@.flag),
    {
        classify(self.flag)
    }

    pub fn get(&self) -> (r: &T)
        ensures
            *r == self@.value,
    {
        &self.value
    }

    /// Takes a shared borrow. From UNUSED or READING the counter goes up by
    /// one, rolling over to `-1` at the reader limit. From WRITING or INVALID
    /// the path fails and no guard is handed out.
    pub fn borrow(&mut self, path: &mut SymbolicPath) -> (r: Option<BorrowGuard>)
        requires
            old(self).wf(),
        ensures
            final(self).wf(),
            final(self)@.value == old(self)@.value,
            final(self)@.max_readers == old(self)@.max_readers,
            shared_allowed(old(self)@.flag) ==> ({
                &&& r.is_some()
                &&& r.unwrap().access_spec() == Access::Shared
                &&& final(self)@.flag == after_shared(old(self)@.flag, old(self)@.max_readers)
                &&& *final(path) == *old(path)
            }),
            !shared_allowed(old(self)@.flag) ==> ({
                &&& r.is_none()
                &&& final(self)@.flag == old(self)@.flag
                &&& final(path)@ == old(path)@.aborted()
                &&& final(path).wf() == old(path).wf()
            }),
    {
        if self.flag < 0 {
            path.abort();
            None
        } else {
            if self.flag < self.max_readers {
                self.flag = self.flag + 1;
            } else {
                self.flag = -1;
            }
            Some(BorrowGuard { access: Access::Shared })
        }
    }

    /// Takes the exclusive borrow: allowed from UNUSED only, which becomes
    /// WRITING. From any other state the path fails and no guard is handed out.
    pub fn borrow_mut(&mut self, path: &mut SymbolicPath) -> (r: Option<BorrowGuard>)
        requires
            old(self).wf(),
        ensures
            final(self).wf(),
            final(self)@.value == old(self)@.value,
            final(self)@.max_readers == old(self)@.max_readers,
            exclusive_allowed(old(self)@.flag) ==> ({
                &&& r.is_some()
                &&& r.unwrap().access_spec() == Access::Exclusive
                &&& final(self)@.flag == -1
                &&& *final(path) == *old(path)
            }),
            !exclusive_allowed(old(self)@.flag) ==> ({
                &&& r.is_none()
                &&& final(self)@.flag == old(self)@.flag
                &&& final(path)@ == old(path)@.aborted()
                &&& final(path).wf() == old(path).wf()
            }),
    {
        if self.flag != 0 {
            path.abort();
            None
        } else {
            self.flag = -1;
            Some(BorrowGuard { access: Access::Exclusive })
        }
    }

    /// Hands a guard back. A shared one takes one reader off a READING
    /// counter; an exclusive one returns the counter to UNUSED.
    pub fn release(&mut self, guard: BorrowGuard)
        requires
            old(self).wf(),
        ensures
            final(self).wf(),
            final(self)@.value == old(self)@.value,
            final(self)@.max_readers == old(self)@.max_readers,
            final(self)@.flag == after_release(old(self)@.flag, guard.access_spec()),
    {
        match guard.access {
            Access::Shared => {
                if self.flag > 0 {
                    self.flag = self.flag - 1;
                }
            },
            Access::Exclusive => {
                self.flag = 0;
            },
        }
    }
}

} // verus!
