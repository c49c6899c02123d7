//! The slot that holds the offset to use, shared by every caller.
//!
//! The slot starts empty. The first offset stored fills it; later ones replace
//! what it holds, unless somebody else has the slot at that moment: a writer
//! never waits. Readers share the slot among themselves.
use vstd::prelude::*;
use crate::error::Error;
use crate::offset::{from_offset_pair, pair_fault, UtcOffset};
use crate::parse::{offset_fields, parse_offset, trim_new_lines, trimmed};

verus! {

/// `OnceCell` of `once_cell`, a cell that is written once; taken as opaque.
#[verifier::external_type_specification]
#[verifier::external_body]
#[verifier::reject_recursive_types(T)]
pub struct ExOnceCell<T>(once_cell::sync::OnceCell<T>);

/// `RwLock` of `lock_api`, which `parking_lot` hands on as its reader-writer
/// lock; taken as opaque.
#[verifier::external_type_specification]
#[verifier::external_body]
#[verifier::reject_recursive_types(R)]
#[verifier::reject_recursive_types(T)]
pub struct ExRwLock<R, T: ?Sized>(parking_lot::lock_api::RwLock<R, T>);

/// `RawRwLock` of `parking_lot`, the lock inside its `RwLock`; taken as
/// opaque.
#[verifier::external_type_specification]
#[verifier::external_body]
pub struct ExRawRwLock(parking_lot::RawRwLock);

/// A place for one offset, empty until the first is stored. It can be shared
/// between threads: what it holds may change between any two calls, so no
/// contract here says what a later call will find.
pub struct OffsetCache {
    slot: once_cell::sync::OnceCell<parking_lot::RwLock<UtcOffset>>,
}

/// Calls `OnceCell::new` of `once_cell`: a cell that holds nothing yet.
#[verifier::external_body]
fn empty_cell() -> (cell: once_cell::sync::OnceCell<parking_lot::RwLock<UtcOffset>>) {
    once_cell::sync::OnceCell::new()
}

/// Calls `OnceCell::get` of `once_cell`: the lock in the cell, if the cell has
/// been filled. Nothing is claimed of which it is.
#[verifier::external_body]
fn cell_get(cell: &once_cell::sync::OnceCell<parking_lot::RwLock<UtcOffset>>) -> (lock: Option<
    &parking_lot::RwLock<UtcOffset>,
>) {
    cell.get()
}

/// Calls `OnceCell::get_or_init` of `once_cell` with a closure that makes a
/// lock around `o` by `RwLock::new` of `parking_lot`: the lock in the cell,
/// after filling the cell with that new lock if it was empty.
#[verifier::external_body]
fn cell_get_or_init(
    cell: &once_cell::sync::OnceCell<parking_lot::RwLock<UtcOffset>>,
    o: UtcOffset,
) -> (lock: &parking_lot::RwLock<UtcOffset>) {
    cell.get_or_init(|| parking_lot::RwLock::new(o))
}

/// Calls `RwLock::read` of `parking_lot`, which waits until no writer holds
/// the lock, and copies the offset out. Nothing is claimed of which offset it
/// is.
#[verifier::external_body]
fn lock_read(lock: &parking_lot::RwLock<UtcOffset>) -> (o: UtcOffset) {
    *lock.read()
}

/// Calls `RwLock::try_write` of `parking_lot`, which does not wait. Where it
/// hands out the guard, `o` is written through it and the answer is `true`;
/// where the lock is held elsewhere nothing is written and the answer is
/// `false`. Nothing is claimed of which of the two happens.
#[verifier::external_body]
fn lock_try_store(lock: &parking_lot::RwLock<UtcOffset>, o: UtcOffset) -> (stored: bool) {
    match lock.try_write() {
        Some(mut guard) => {
            *guard = o;
            true
        },
        None => false,
    }
}

/// What a reader is told who found `found` in the slot: the offset, or that
/// nothing has been stored yet.
pub fn read_outcome(found: Option<UtcOffset>) -> (res: Result<UtcOffset, Error>)
    ensures
        match found {
            Some(o) => res == Ok::<UtcOffset, Error>(o),
            None => res == Err::<UtcOffset, Error>(Error::Uninitialized),
        },
{
    match found {
        Some(o) => Ok(o),
        None => Err(Error::Uninitialized),
    }
}

/// What a writer is told: success where the offset was stored, `WriteLock`
/// where the slot was held elsewhere.
pub fn store_outcome(stored: bool) -> (res: Result<(), Error>)
    ensures
        stored ==> res == Ok::<(), Error>(()),
        !stored ==> res == Err::<(), Error>(Error::WriteLock),
{
    if stored {
        Ok(())
    } else {
        Err(Error::WriteLock)
    }
}

impl OffsetCache {
    /// An empty cache.
    pub fn new() -> (cache: Self) {
        OffsetCache { slot: empty_cell() }
    }
}

/// The offset in the cache, or `Uninitialized` where none has been stored. A
/// reader waits for a writer to finish, so it never sees half an offset.
pub fn get_global_offset(cache: &OffsetCache) -> (res: Result<UtcOffset, Error>)
    ensures
        match res {
            Ok(o) => o.wf(),
            Err(e) => e == Error::Uninitialized,
        },
{
    let found: Option<UtcOffset> = match cell_get(&cache.slot) {
        Some(lock) => {
            let o: UtcOffset = lock_read(lock);
            proof {
                use_type_invariant(&o);
            }
            Some(o)
        },
        None => None,
    };
    read_outcome(found)
}

/// Stores `o` in the cache: fills an empty cache, replaces what a filled one
/// holds. Never waits: where the slot is held elsewhere at that moment,
/// nothing is stored and `WriteLock` is returned.
pub fn try_set_global_offset(cache: &OffsetCache, o: UtcOffset) -> (res: Result<(), Error>)
    ensures
        res matches Err(e) ==> e == Error::WriteLock,
{
    let lock = cell_get_or_init(&cache.slot, o);
    store_outcome(lock_try_store(lock, o))
}

/// Stores the offset that `input` names, written as `[+|-]HH[:]MM` with white
/// space allowed around it. Input that names none is refused with
/// `InvalidOffsetString` before the cache is touched.
pub fn try_set_global_offset_from_str(cache: &OffsetCache, input: &str) -> (res: Result<(), Error>)
    ensures
        match res {
            Ok(_) => offset_fields(trimmed(input@)) is Some,
            Err(e) => if offset_fields(trimmed(input@)) is Some {
                e == Error::WriteLock
            } else {
                e == Error::InvalidOffsetString
            },
        },
{
    let o: UtcOffset = match parse_offset(trim_new_lines(input)) {
        Ok(o) => o,
        Err(e) => {
            return Err(e);
        },
    };
    try_set_global_offset(cache, o)
}

/// Stores the offset of `offset_hours` and `offset_minutes`. Hours outside
/// `-12..=14` and minutes outside `0..=59` are refused, the hours first, before
/// the cache is touched.
pub fn try_set_global_offset_from_pair(
    cache: &OffsetCache,
    offset_hours: i8,
    offset_minutes: i8,
) -> (res: Result<(), Error>)
    ensures
        match res {
            Ok(_) => pair_fault(offset_hours, offset_minutes) is None,
            Err(e) => if pair_fault(offset_hours, offset_minutes) is None {
                e == Error::WriteLock
            } else {
                pair_fault(offset_hours, offset_minutes) == Some(e)
            },
        },
{
    let o: UtcOffset = match from_offset_pair(offset_hours, offset_minutes) {
        Ok(o) => o,
        Err(e) => {
            return Err(e);
        },
    };
    try_set_global_offset(cache, o)
}

} // verus!
