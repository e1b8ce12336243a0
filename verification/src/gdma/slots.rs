//! What the device keeps under a key: DMA regions and receive buffers.
use crate::gdma_defs::bnic::ManaRxcompOob;
use slab::Slab;
use vstd::prelude::*;

verus! {

/// A byte range of guest memory that the driver has registered.
#[derive(Debug)]
pub struct DmaRegion {
    /// The addresses of its pages.
    pub pages: Vec<u64>,
    /// Where it starts in the first page.
    pub offset_in_page: u32,
    /// Its length.
    pub length: u64,
}

/// A piece of guest memory.
#[derive(Debug, Clone, Copy, PartialEq, Eq, Structural)]
pub struct Segment {
    /// Its address.
    pub gpa: u64,
    /// Its length.
    pub len: u32,
}

/// A buffer that waits for a packet, or holds one.
#[derive(Debug)]
pub struct RxPacket {
    /// Where the buffer is.
    pub segments: Vec<Segment>,
    /// Its length.
    pub len: u32,
    /// The work queue entry that it came with.
    pub wqe_offset: u32,
    /// The completion.
    pub oob: ManaRxcompOob,
}

/// What the device keeps under a key.
#[derive(Debug)]
pub enum Slot {
    /// A DMA region.
    Dma(DmaRegion),
    /// A receive buffer.
    Rx(RxPacket),
}

/// `slab::Slab`, an arena that assigns the keys itself.
#[verifier::external_type_specification]
#[verifier::external_body]
#[verifier::reject_recursive_types(T)]
pub struct ExSlab<T>(Slab<T>);

/// The values of a slab, by key.
pub uninterp spec fn slots(s: Slab<Slot>) -> Map<usize, Slot>;

/// The keys that a slab hands out: the last one is the next (`Slab::vacant_key`),
/// the first one has never been in use, and those in between were given back.
pub uninterp spec fn free_keys(s: Slab<Slot>) -> Seq<usize>;

/// The keys that are left after the next one was taken.
pub open spec fn one_taken(keys: Seq<usize>) -> Seq<usize> {
    if keys.len() == 1 {
        seq![(keys[0] + 1) as usize]
    } else {
        keys.drop_last()
    }
}

/// `Slab::new`: an arena without values, whose next key is zero.
#[verifier::external_body]
pub(crate) fn slab_new() -> (s: Slab<Slot>)
    ensures
        forall|key: usize| !(#[trigger] slots(s).contains_key(key)),
        free_keys(s) == seq![0usize],
{
    Slab::new()
}

/// `Slab::insert`: stores a value under the next key, which was not in use, and
/// leaves the other values alone. The key is an index into a vector, so it is less
/// than `isize::MAX`. The next key is then the one that was given back before it,
/// or the first that was never in use.
#[verifier::external_body]
pub(crate) fn slab_insert(s: &mut Slab<Slot>, v: Slot) -> (key: usize)
    ensures
        free_keys(*old(s)).len() >= 1 && key == free_keys(*old(s)).last(),
        !slots(*old(s)).contains_key(key),
        slots(*final(s)) == slots(*old(s)).insert(key, v),
        free_keys(*final(s)) == one_taken(free_keys(*old(s))),
        key < isize::MAX,
{
    s.insert(v)
}

/// `Slab::get`: the value under `key`, if the key is in use.
#[verifier::external_body]
pub(crate) fn slab_get(s: &Slab<Slot>, key: usize) -> (v: Option<&Slot>)
    ensures
        slots(*s).contains_key(key) ==> v is Some && *v->0 == slots(*s)[key],
        !slots(*s).contains_key(key) ==> v is None,
{
    s.get(key)
}

/// `Slab::get_mut`: a place for the value under `key`, if the key is in use. Here
/// the value is replaced, and the other values are left alone.
#[verifier::external_body]
pub(crate) fn slab_set(s: &mut Slab<Slot>, key: usize, v: Slot) -> (found: bool)
    ensures
        found == slots(*old(s)).contains_key(key),
        found ==> slots(*final(s)) == slots(*old(s)).insert(key, v),
        !found ==> slots(*final(s)) == slots(*old(s)),
        free_keys(*final(s)) == free_keys(*old(s)),
{
    match s.get_mut(key) {
        Some(place) => {
            *place = v;
            true
        }
        None => false,
    }
}

/// `Slab::try_remove`: takes the value under `key` out, if the key is in use, and
/// leaves the other values alone. The key is then the next one.
#[verifier::external_body]
pub(crate) fn slab_try_remove(s: &mut Slab<Slot>, key: usize) -> (v: Option<Slot>)
    ensures
        slots(*old(s)).contains_key(key) ==> v == Some(slots(*old(s))[key]),
        !slots(*old(s)).contains_key(key) ==> v is None,
        slots(*final(s)) == slots(*old(s)).remove(key),
        free_keys(*final(s)) == if slots(*old(s)).contains_key(key) {
            free_keys(*old(s)).push(key)
        } else {
            free_keys(*old(s))
        },
{
    s.try_remove(key)
}

} // verus!
