//! The slab in which requests and sockets are kept.
//!
//! `slab::Slab` stores a value and says under which key it did so. What is stated
//! of it in this file is believed, not proved.

use crate::model::HandleEntry;
use crate::socket::SocketEntry;
use slab::Slab;
use vstd::prelude::*;

verus! {

/// Storage that hands out the keys, `slab::Slab`.
#[verifier::external_type_specification]
#[verifier::external_body]
#[verifier::reject_recursive_types(T)]
pub struct ExSlab<T>(slab::Slab<T>);

/// The requests that a slab holds, by key.
pub uninterp spec fn handle_slots(slab: Slab<HandleEntry>) -> Map<usize, HandleEntry>;

/// The key under which a slab will store the next request.
pub uninterp spec fn handle_vacancy(slab: Slab<HandleEntry>) -> usize;

/// The sockets that a slab holds, by key.
pub uninterp spec fn socket_slots(slab: Slab<SocketEntry>) -> Map<usize, SocketEntry>;

/// The key under which a slab will store the next socket.
pub uninterp spec fn socket_vacancy(slab: Slab<SocketEntry>) -> usize;

/// The most entries that a slab may hold when one is added.
///
/// A slot takes no more than 64 bytes, and a slab may double its storage to add
/// one, so that it stays below the `isize::MAX` bytes that can be allocated.
pub open spec fn max_slots() -> int {
    usize::MAX as int / 256
}

/// What the driver keeps in a slab: requests and sockets, and nothing else.
///
/// With this trait the functions below are stated once for both.
pub(crate) trait Slot: Sized {
    /// What a slab holds, by key.
    spec fn slots(slab: Slab<Self>) -> Map<usize, Self>;

    /// The key that comes next.
    spec fn vacancy(slab: Slab<Self>) -> usize;
}

impl Slot for HandleEntry {
    open spec fn slots(slab: Slab<Self>) -> Map<usize, Self> {
        handle_slots(slab)
    }

    open spec fn vacancy(slab: Slab<Self>) -> usize {
        handle_vacancy(slab)
    }
}

impl Slot for SocketEntry {
    open spec fn slots(slab: Slab<Self>) -> Map<usize, Self> {
        socket_slots(slab)
    }

    open spec fn vacancy(slab: Slab<Self>) -> usize {
        socket_vacancy(slab)
    }
}

/// `Slab::with_capacity`: a slab for requests that holds nothing, and will store
/// the first one under 0.
#[verifier::external_body]
pub(crate) fn new_handles(capacity: usize) -> (slab: Slab<HandleEntry>)
    requires
        capacity <= max_slots(),
    ensures
        handle_slots(slab) == (Map::<usize, HandleEntry>::empty()),
        handle_vacancy(slab) == 0,
{
    Slab::with_capacity(capacity)
}

/// `Slab::with_capacity`: a slab for sockets that holds nothing, and will store
/// the first one under 0.
#[verifier::external_body]
pub(crate) fn new_sockets(capacity: usize) -> (slab: Slab<SocketEntry>)
    requires
        capacity <= max_slots(),
    ensures
        socket_slots(slab) == (Map::<usize, SocketEntry>::empty()),
        socket_vacancy(slab) == 0,
{
    Slab::with_capacity(capacity)
}

/// `Slab::capacity`: how many entries there is room for without another
/// allocation. That is up to the allocator, but no less than there are entries.
#[verifier::external_body]
pub(crate) fn capacity<T: Slot>(slab: &Slab<T>) -> (room: usize)
    ensures
        T::slots(*slab).len() <= room,
{
    slab.capacity()
}

/// `Slab::len`: how many entries there are.
#[verifier::external_body]
pub(crate) fn len<T: Slot>(slab: &Slab<T>) -> (len: usize)
    ensures
        len == T::slots(*slab).len(),
{
    slab.len()
}

/// `Slab::is_empty`: whether there is no entry.
#[verifier::external_body]
pub(crate) fn is_empty<T: Slot>(slab: &Slab<T>) -> (empty: bool)
    ensures
        empty == (T::slots(*slab) == (Map::<usize, T>::empty())),
{
    slab.is_empty()
}

/// `Slab::reserve_exact`: makes room for `additional` more entries, and changes
/// neither what is stored nor the key that comes next.
#[verifier::external_body]
pub(crate) fn reserve_exact<T: Slot>(slab: &mut Slab<T>, additional: usize)
    requires
        T::slots(*old(slab)).len() + additional <= 2 * max_slots(),
    ensures
        T::slots(*final(slab)) == T::slots(*old(slab)),
        T::vacancy(*final(slab)) == T::vacancy(*old(slab)),
{
    slab.reserve_exact(additional)
}

/// `Slab::vacant_key`: the key under which the next entry will be stored. No entry
/// is stored there. It indexes a vector whose elements are no smaller than a
/// `usize`, or is its length, and so is below `isize::MAX`.
#[verifier::external_body]
pub(crate) fn vacant_key<T: Slot>(slab: &Slab<T>) -> (key: usize)
    ensures
        key == T::vacancy(*slab),
        !T::slots(*slab).contains_key(key),
        key < isize::MAX,
{
    slab.vacant_key()
}

/// `Slab::insert`: stores `value` under the key that `vacant_key` gives, where
/// nothing was stored, and returns that key.
#[verifier::external_body]
pub(crate) fn insert<T: Slot>(slab: &mut Slab<T>, value: T) -> (key: usize)
    requires
        T::slots(*old(slab)).len() <= max_slots(),
    ensures
        key == T::vacancy(*old(slab)),
        !T::slots(*old(slab)).contains_key(key),
        T::slots(*final(slab)) == T::slots(*old(slab)).insert(key, value),
{
    slab.insert(value)
}

/// `Slab::get`: the entry under `key`, if there is one. A key in use indexes a
/// vector whose elements are no smaller than a `usize`, and so is below
/// `isize::MAX`.
#[verifier::external_body]
pub(crate) fn get<T: Slot>(slab: &Slab<T>, key: usize) -> (entry: Option<&T>)
    ensures
        entry is Some <==> T::slots(*slab).contains_key(key),
        entry matches Some(value) ==> *value == T::slots(*slab)[key] && key < isize::MAX,
{
    slab.get(key)
}

/// `Slab::get_mut`: the entry under `key`, if there is one, to be changed in
/// place. The key that comes next stays the same, and of `key` holds what `get`
/// says.
#[verifier::external_body]
pub(crate) fn get_mut<T: Slot>(slab: &mut Slab<T>, key: usize) -> (entry: Option<&mut T>)
    ensures
        entry is Some <==> T::slots(*old(slab)).contains_key(key),
        entry is None ==> T::slots(*final(slab)) == T::slots(*old(slab)),
        entry matches Some(value) ==> *value == T::slots(*old(slab))[key] && T::slots(*final(slab))
            == T::slots(*old(slab)).insert(key, *final(value)) && key < isize::MAX,
        T::vacancy(*final(slab)) == T::vacancy(*old(slab)),
{
    slab.get_mut(key)
}

/// `Slab::remove`: takes out the entry under `key`, which has to be there, and
/// leaves the others. The key that was freed is the one that comes next.
#[verifier::external_body]
pub(crate) fn remove<T: Slot>(slab: &mut Slab<T>, key: usize) -> (value: T)
    requires
        T::slots(*old(slab)).contains_key(key),
    ensures
        value == T::slots(*old(slab))[key],
        T::slots(*final(slab)) == T::slots(*old(slab)).remove(key),
        T::vacancy(*final(slab)) == key,
{
    slab.remove(key)
}

} // verus!
