//! Fixed-capacity collections of the `heapless` crate, as the game board and the
//! serial line buffers use them.
//!
//! Each collection is opaque to the verifier; what it holds is given a name
//! (`queue_items`, `set_items`, `line_items`, `prompt_items`) and every method
//! that the library calls has a small wrapper whose contract says, over that
//! name, what the method does according to the `heapless` sources.
use vstd::prelude::*;
use heapless::spsc::Queue;
use heapless::FnvIndexSet;

verus! {

#[verifier::external_type_specification]
#[verifier::external_body]
#[verifier::reject_recursive_types(T)]
pub struct ExQueue<T, const N: usize>(Queue<T, N>);

#[verifier::external_type_specification]
#[verifier::external_body]
#[verifier::reject_recursive_types(T)]
#[verifier::reject_recursive_types(S)]
pub struct ExIndexSet<T, S, const N: usize>(heapless::IndexSet<T, S, N>);

#[verifier::external_type_specification]
#[verifier::external_body]
#[verifier::reject_recursive_types(T)]
pub struct ExVec<T, const N: usize>(heapless::Vec<T, N>);

#[verifier::external_type_specification]
#[verifier::external_body]
pub struct ExFnvHasher(hash32::FnvHasher);

#[verifier::external_type_specification]
#[verifier::external_body]
#[verifier::reject_recursive_types(H)]
pub struct ExBuildHasherDefault<H>(hash32::BuildHasherDefault<H>);

/// The items of a cell queue, front (oldest) first.
pub uninterp spec fn queue_items(q: Queue<(i8, i8), 32>) -> Seq<(i8, i8)>;

/// The items of a cell set.
pub uninterp spec fn set_items(s: FnvIndexSet<(i8, i8), 32>) -> Set<(i8, i8)>;

/// The bytes held by a line buffer of capacity 32, in push order.
pub uninterp spec fn line_items(v: heapless::Vec<u8, 32>) -> Seq<u8>;

/// The bytes held by a prompt buffer of capacity 64, in push order.
pub uninterp spec fn prompt_items(v: heapless::Vec<u8, 64>) -> Seq<u8>;

/// The number of items a `Queue<_, 32>` can hold: one slot stays unused.
pub open spec fn queue_capacity() -> nat {
    31
}

/// The number of items a `FnvIndexSet<_, 32>` can hold.
pub open spec fn set_capacity() -> nat {
    32
}

// ---------------------------------------------------------------- queue

/// `Queue::new`: an empty queue.
#[verifier::external_body]
pub(crate) fn queue_new() -> (q: Queue<(i8, i8), 32>)
    ensures
        queue_items(q) == Seq::<(i8, i8)>::empty(),
{
    Queue::new()
}

/// `Queue::len`: the number of items.
#[verifier::external_body]
pub(crate) fn queue_len(q: &Queue<(i8, i8), 32>) -> (r: usize)
    ensures
        r == queue_items(*q).len(),
{
    q.len()
}

/// `Queue::enqueue`: appends at the back when fewer than 31 items are held,
/// else hands the item back and leaves the queue as it was.
#[verifier::external_body]
pub(crate) fn queue_enqueue(q: &mut Queue<(i8, i8), 32>, v: (i8, i8)) -> (r: Result<(), (i8, i8)>)
    ensures
        queue_items(*old(q)).len() < queue_capacity() ==> r is Ok && queue_items(*final(q))
            == queue_items(*old(q)).push(v),
        queue_items(*old(q)).len() >= queue_capacity() ==> (r matches Err(e) && e == v)
            && queue_items(*final(q)) == queue_items(*old(q)),
{
    q.enqueue(v)
}

/// `Queue::dequeue`: removes and returns the front item, `None` when empty.
#[verifier::external_body]
pub(crate) fn queue_dequeue(q: &mut Queue<(i8, i8), 32>) -> (r: Option<(i8, i8)>)
    ensures
        queue_items(*old(q)).len() == 0 ==> r is None && queue_items(*final(q)) == queue_items(
            *old(q),
        ),
        queue_items(*old(q)).len() > 0 ==> r == Some(queue_items(*old(q))[0]) && queue_items(
            *final(q),
        ) == queue_items(*old(q)).drop_first(),
{
    q.dequeue()
}

/// `Queue::peek`: the front item, `None` when empty.
#[verifier::external_body]
pub(crate) fn queue_peek(q: &Queue<(i8, i8), 32>) -> (r: Option<(i8, i8)>)
    ensures
        queue_items(*q).len() == 0 ==> r is None,
        queue_items(*q).len() > 0 ==> r == Some(queue_items(*q)[0]),
{
    q.peek().copied()
}

/// `Queue::iter`, collected: the items front to back.
#[verifier::external_body]
pub(crate) fn queue_to_vec(q: &Queue<(i8, i8), 32>) -> (r: Vec<(i8, i8)>)
    ensures
        r@ == queue_items(*q),
{
    q.iter().copied().collect()
}

// ---------------------------------------------------------------- set

/// `FnvIndexSet::new`: an empty set.
#[verifier::external_body]
pub(crate) fn set_new() -> (s: FnvIndexSet<(i8, i8), 32>)
    ensures
        set_items(s) == Set::<(i8, i8)>::empty(),
{
    FnvIndexSet::new()
}

/// `FnvIndexSet::contains`.
#[verifier::external_body]
pub(crate) fn set_contains(s: &FnvIndexSet<(i8, i8), 32>, v: (i8, i8)) -> (r: bool)
    ensures
        r == set_items(*s).contains(v),
{
    s.contains(&v)
}

/// `FnvIndexSet::insert`: `Ok(false)` and no change when the item is present;
/// `Ok(true)` and the item added when it is absent and fewer than 32 items
/// are held; otherwise the item handed back and no change.
#[verifier::external_body]
pub(crate) fn set_insert(s: &mut FnvIndexSet<(i8, i8), 32>, v: (i8, i8)) -> (r: Result<bool, (i8, i8)>)
    ensures
        set_items(*old(s)).contains(v) ==> (r matches Ok(false)) && set_items(
            *final(s),
        ) == set_items(*old(s)),
        !set_items(*old(s)).contains(v) && set_items(*old(s)).len() < set_capacity() ==> (r matches Ok(true))
            && set_items(*final(s)) == set_items(*old(s)).insert(v),
        !set_items(*old(s)).contains(v) && set_items(*old(s)).len() >= set_capacity() ==> (r matches Err(e) && e == v)
            && set_items(*final(s)) == set_items(*old(s)),
{
    s.insert(v)
}

/// `FnvIndexSet::remove`: removes the item; `true` when it was present.
#[verifier::external_body]
pub(crate) fn set_remove(s: &mut FnvIndexSet<(i8, i8), 32>, v: (i8, i8)) -> (r: bool)
    ensures
        r == set_items(*old(s)).contains(v),
        set_items(*final(s)) == set_items(*old(s)).remove(v),
{
    s.remove(&v)
}

// ---------------------------------------------------------------- line buffers

/// `heapless::Vec::<u8, 32>::new`: an empty buffer.
#[verifier::external_body]
pub(crate) fn line_new() -> (v: heapless::Vec<u8, 32>)
    ensures
        line_items(v) == Seq::<u8>::empty(),
{
    heapless::Vec::new()
}

/// `heapless::Vec::<u8, 32>::push`: appends when fewer than 32 bytes are held,
/// else hands the byte back and leaves the buffer as it was.
#[verifier::external_body]
pub(crate) fn line_push(v: &mut heapless::Vec<u8, 32>, b: u8) -> (r: Result<(), u8>)
    ensures
        line_items(*old(v)).len() < 32 ==> r is Ok && line_items(*final(v)) == line_items(
            *old(v),
        ).push(b),
        line_items(*old(v)).len() >= 32 ==> (r matches Err(e) && e == b) && line_items(*final(v))
            == line_items(*old(v)),
{
    v.push(b)
}

/// `heapless::Vec::<u8, 32>::clear`.
#[verifier::external_body]
pub(crate) fn line_clear(v: &mut heapless::Vec<u8, 32>)
    ensures
        line_items(*final(v)) == Seq::<u8>::empty(),
{
    v.clear()
}

/// `heapless::Vec::<u8, 32>::as_slice`, copied out.
#[verifier::external_body]
pub(crate) fn line_to_vec(v: &heapless::Vec<u8, 32>) -> (r: Vec<u8>)
    ensures
        r@ == line_items(*v),
{
    v.as_slice().to_vec()
}

/// `heapless::Vec::<u8, 64>::new`: an empty buffer.
#[verifier::external_body]
pub(crate) fn prompt_new() -> (v: heapless::Vec<u8, 64>)
    ensures
        prompt_items(v) == Seq::<u8>::empty(),
{
    heapless::Vec::new()
}

/// `heapless::Vec::<u8, 64>::push`: appends when fewer than 64 bytes are held,
/// else hands the byte back and leaves the buffer as it was.
#[verifier::external_body]
pub(crate) fn prompt_push(v: &mut heapless::Vec<u8, 64>, b: u8) -> (r: Result<(), u8>)
    ensures
        prompt_items(*old(v)).len() < 64 ==> r is Ok && prompt_items(*final(v)) == prompt_items(
            *old(v),
        ).push(b),
        prompt_items(*old(v)).len() >= 64 ==> (r matches Err(e) && e == b) && prompt_items(*final(v))
            == prompt_items(*old(v)),
{
    v.push(b)
}

/// `heapless::Vec::<u8, 64>::clear`.
#[verifier::external_body]
pub(crate) fn prompt_clear(v: &mut heapless::Vec<u8, 64>)
    ensures
        prompt_items(*final(v)) == Seq::<u8>::empty(),
{
    v.clear()
}

/// `heapless::Vec::<u8, 64>::as_slice`, copied out.
#[verifier::external_body]
pub(crate) fn prompt_to_vec(v: &heapless::Vec<u8, 64>) -> (r: Vec<u8>)
    ensures
        r@ == prompt_items(*v),
{
    v.as_slice().to_vec()
}

} // verus!
