//! Results of intercepted C-library calls and their conversion into the
//! return-value-plus-errno convention of POSIX.
//!
//! The body of a replacement produces a [`LibcResult`]: the value to return
//! and what is to become of the thread's error slot. [`LibcResult::into_outcome`]
//! turns it into the value and the error number that the shim stores, last of
//! all, before it hands control back to the caller.

use vstd::prelude::*;

verus! {

/// An operating-system error number, as stored in the thread's error slot.
#[derive(Clone, Copy, Debug, PartialEq, Eq, Structural)]
pub struct Errno {
    pub raw: i32,
}

impl Errno {
    /// Wraps a raw error number.
    pub fn from_raw(raw: i32) -> (e: Errno)
        ensures
            e.raw == raw,
    {
        Errno { raw }
    }

    /// The raw error number.
    pub fn raw(&self) -> (raw: i32)
        ensures
            raw == self.raw,
    {
        self.raw
    }
}

/// Which error number a result carries.
#[derive(Clone, Copy, Debug, PartialEq, Eq, Structural)]
pub enum PropagateErrno {
    /// The one that the underlying call left behind.
    Last,
    /// This one, in place of whatever the underlying call left behind.
    Override(Errno),
}

/// The outcome of the body of one intercepted call.
#[derive(Debug)]
pub struct LibcResult<T> {
    /// The error number to store, if any.
    pub err: Option<PropagateErrno>,
    /// The value to return.
    pub val: T,
}

/// What a replacement hands back: the value to return and, where there is
/// one, the error number to store in the error slot just before returning.
#[derive(Debug)]
pub struct Outcome<T> {
    pub errno: Option<Errno>,
    pub value: T,
}

/// The error number that a result stores, given the one that the underlying
/// call left behind.
pub open spec fn stored_errno(err: Option<PropagateErrno>, last: Errno) -> Option<Errno> {
    match err {
        None => None,
        Some(PropagateErrno::Last) => Some(last),
        Some(PropagateErrno::Override(e)) => Some(e),
    }
}

impl<T> LibcResult<T> {
    /// A value, with the error slot left alone.
    pub fn return_value(val: T) -> (r: LibcResult<T>)
        ensures
            r.err is None,
            r.val == val,
    {
        Self { err: None, val }
    }

    /// A value, together with the error number of the underlying call.
    pub fn last_error_and_return(val: T) -> (r: LibcResult<T>)
        ensures
            r.err == Some(PropagateErrno::Last),
            r.val == val,
    {
        Self { err: Some(PropagateErrno::Last), val }
    }

    /// A value, together with an error number chosen by the replacement.
    pub fn override_error_and_return(err: Errno, val: T) -> (r: LibcResult<T>)
        ensures
            r.err == Some(PropagateErrno::Override(err)),
            r.val == val,
    {
        Self { err: Some(PropagateErrno::Override(err)), val }
    }

    /// The value to return and the error number to store. `last` is the
    /// error number that the underlying call left behind.
    pub fn into_outcome(self, last: Errno) -> (outcome: Outcome<T>)
        ensures
            outcome.value == self.val,
            outcome.errno == stored_errno(self.err, last),
    {
        let errno = match self.err {
            None => None,
            Some(PropagateErrno::Last) => Some(last),
            Some(PropagateErrno::Override(e)) => Some(e),
        };
        Outcome { errno, value: self.val }
    }
}

/// One entry of the interposition table: the address of a replacement and the
/// address of the entry point that it stands in for.
#[derive(Clone, Copy, Debug, PartialEq, Eq, Structural)]
pub struct InterposeEntry {
    pub replacement: usize,
    pub original: usize,
}

impl InterposeEntry {
    /// The entry that puts `replacement` in the place of `original`.
    pub fn new(replacement: usize, original: usize) -> (e: InterposeEntry)
        ensures
            e.replacement == replacement,
            e.original == original,
    {
        InterposeEntry { replacement, original }
    }
}

} // verus!
