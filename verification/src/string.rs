//! Byte strings that the host and the module share, addressed by handle.
//!
//! The host cannot hold a pointer into the module, so every string that
//! crosses the boundary lives in a [`Heap`] and is named by a 32-bit handle.
//! A handle is handed out once and never again, so a stale handle can never
//! name a newer string.

use std::collections::hash_map::Entry;
use std::collections::HashMap;
use vstd::prelude::*;
use vstd::slice::slice_to_vec;
use vstd::utf8::encode_utf8;

verus! {

broadcast use vstd::std_specs::hash::group_hash_axioms;

/// The mathematical content of a [`Heap`]: the byte strings that are live,
/// each under its handle, and the handle that the next allocation gets.
#[verifier::ext_equal]
pub struct HeapView {
    pub memory: Map<u32, Seq<u8>>,
    pub next_free: nat,
}

/// One change to a heap, for statements about runs of changes.
pub enum HeapOp {
    /// Store the bytes under a fresh handle.
    Allocate(Seq<u8>),
    /// Drop the string under the handle.
    Free(u32),
    /// Append the byte to the string under the handle.
    Putch(u32, u8),
}

impl HeapView {
    /// The heap that nothing was ever allocated in. Handle 0 means "no
    /// string", so the first handle is 1.
    pub open spec fn empty() -> HeapView {
        HeapView { memory: Map::empty(), next_free: 1 }
    }

    /// Every live handle was handed out by an allocation: it is not 0 and
    /// lies below `next_free`, which still fits a handle.
    pub open spec fn wf(self) -> bool {
        &&& 1 <= self.next_free <= u32::MAX
        &&& self.memory.dom().finite()
        &&& forall|ptr: u32| self.memory.contains_key(ptr) ==> 1 <= ptr < self.next_free
    }

    /// Whether a handle is left for one more allocation.
    pub open spec fn has_room(self) -> bool {
        self.next_free < u32::MAX
    }

    /// The heap after `bytes` were stored under the next free handle.
    pub open spec fn allocate(self, bytes: Seq<u8>) -> HeapView {
        HeapView {
            memory: self.memory.insert(self.next_free as u32, bytes),
            next_free: self.next_free + 1,
        }
    }

    /// The heap without the string under `ptr`. The handle is not given back.
    pub open spec fn free(self, ptr: u32) -> HeapView {
        HeapView { memory: self.memory.remove(ptr), next_free: self.next_free }
    }

    /// The bytes under `ptr`; none where the handle is not live.
    pub open spec fn string(self, ptr: u32) -> Seq<u8> {
        if self.memory.contains_key(ptr) {
            self.memory[ptr]
        } else {
            Seq::empty()
        }
    }

    /// The length of the string under `ptr` as the host sees it: 32 bits
    /// wide, and 0 where the handle is not live.
    pub open spec fn string_getlen(self, ptr: u32) -> u32 {
        self.string(ptr).len() as u32
    }

    /// The byte at `idx` of the string under `ptr`; 0 where the handle is
    /// not live or the string ends before `idx`.
    pub open spec fn string_getch(self, ptr: u32, idx: u32) -> u8 {
        if idx < self.string(ptr).len() {
            self.string(ptr)[idx as int]
        } else {
            0
        }
    }

    /// The heap after `ch` was appended to the string under `ptr`. Where the
    /// handle is not live, nothing changes.
    pub open spec fn string_putch(self, ptr: u32, ch: u8) -> HeapView {
        if self.memory.contains_key(ptr) {
            HeapView {
                memory: self.memory.insert(ptr, self.memory[ptr].push(ch)),
                next_free: self.next_free,
            }
        } else {
            self
        }
    }

    /// The heap after one change.
    pub open spec fn apply(self, op: HeapOp) -> HeapView {
        match op {
            HeapOp::Allocate(bytes) => self.allocate(bytes),
            HeapOp::Free(ptr) => self.free(ptr),
            HeapOp::Putch(ptr, ch) => self.string_putch(ptr, ch),
        }
    }

    /// The heap after a run of changes, first to last.
    pub open spec fn run(self, ops: Seq<HeapOp>) -> HeapView
        decreases ops.len(),
    {
        if ops.len() == 0 {
            self
        } else {
            self.run(ops.drop_last()).apply(ops.last())
        }
    }

    /// The handle that the change at position `i` of `ops` returns if it is
    /// an allocation.
    pub open spec fn handle_at(self, ops: Seq<HeapOp>, i: int) -> u32 {
        self.run(ops.take(i)).next_free as u32
    }
}

/// Persistent heap for byte strings.
///
/// The heap is kept in the state of a playground session. The host writes
/// the code to run into it byte by byte, and reads the report of a run back
/// out of it.
#[derive(Debug)]
pub struct Heap {
    memory: HashMap<u32, Vec<u8>>,
    next_free: u32,
}

impl View for Heap {
    type V = HeapView;

    closed spec fn view(&self) -> HeapView {
        HeapView {
            memory: Map::new(
                |ptr: u32| self.memory@.contains_key(ptr),
                |ptr: u32| self.memory@[ptr]@,
            ),
            next_free: self.next_free as nat,
        }
    }
}

impl Default for Heap {
    fn default() -> (heap: Self)
        ensures
            heap@ == HeapView::empty(),
    {
        Self::new()
    }
}

impl Clone for Heap {
    fn clone(&self) -> (heap: Self)
        ensures
            heap@ == self@,
    {
        Self { memory: self.memory.clone(), next_free: self.next_free }
    }
}

impl Heap {
    /// The number of strings that the heap was made to hold, as
    /// [`Heap::with_capacity`] was told. It stands for that number only
    /// while the heap is as it was made.
    pub closed spec fn reserved(&self) -> nat {
        reserved_capacity(self.memory)
    }

    /// Construct a new, empty string heap.
    pub fn new() -> (heap: Self)
        ensures
            heap@ == HeapView::empty(),
    {
        let heap = Self { memory: HashMap::new(), next_free: 1 };
        assert(heap@.memory =~= Map::empty());
        heap
    }

    /// Creates an empty string heap with room for at least `capacity`
    /// strings.
    pub fn with_capacity(capacity: usize) -> (heap: Self)
        ensures
            heap@ == HeapView::empty(),
            heap.reserved() == capacity,
    {
        let heap = Self { memory: map_with_capacity(capacity), next_free: 1 };
        assert(heap@.memory =~= Map::empty());
        heap
    }

    /// Returns the number of strings the heap can hold without reallocating:
    /// a lower bound, and no less than a heap that is as it was made reserved.
    pub fn capacity(&self) -> (capacity: usize)
        ensures
            capacity >= self.reserved(),
    {
        map_capacity(&self.memory)
    }

    /// Returns the number of strings in the heap.
    pub fn len(&self) -> (len: usize)
        ensures
            len == self@.memory.len(),
    {
        assert(self@.memory.dom() =~= self.memory@.dom());
        self.memory.len()
    }

    /// Returns `true` if the heap contains no strings.
    pub fn is_empty(&self) -> (empty: bool)
        ensures
            empty <==> self@.memory.len() == 0,
    {
        assert(self@.memory.dom() =~= self.memory@.dom());
        self.memory.is_empty()
    }

    /// Returns `true` if the heap can still hand out a handle.
    pub fn has_room(&self) -> (room: bool)
        ensures
            room == self@.has_room(),
    {
        self.next_free < u32::MAX
    }

    /// Allocate a slot in the heap and store a UTF-8 string in it.
    ///
    /// The value returned names the string from then on. Every call returns
    /// a value that no earlier call returned, and never 0.
    pub fn allocate(&mut self, s: String) -> (ptr: u32)
        requires
            old(self)@.has_room(),
        ensures
            ptr == old(self)@.next_free,
            final(self)@ == old(self)@.allocate(encode_utf8(s@)),
            old(self)@.wf() ==> ptr != 0 && !old(self)@.memory.contains_key(ptr),
            old(self)@.wf() ==> final(self)@.wf(),
    {
        let ptr = self.next_free;
        self.next_free += 1;
        let bytes = slice_to_vec(s.as_str().as_bytes());
        self.memory.insert(ptr, bytes);
        assert(self@.memory =~= old(self)@.memory.insert(ptr, encode_utf8(s@)));
        ptr
    }

    /// Free the string in the heap identified by the given handle.
    ///
    /// If `ptr` refers to a string not present in the heap, this function is
    /// a no-op.
    pub fn free(&mut self, ptr: u32)
        ensures
            final(self)@ == old(self)@.free(ptr),
            !final(self)@.memory.contains_key(ptr),
            old(self)@.wf() ==> final(self)@.wf(),
    {
        self.memory.remove(&ptr);
        assert(self@.memory =~= old(self)@.memory.remove(ptr));
    }

    /// Retrieve the byte contents of the string in the heap identified by
    /// `ptr`.
    ///
    /// If `ptr` refers to a string not present in the heap, this function
    /// returns an empty slice.
    #[must_use]
    pub fn string(&self, ptr: u32) -> (bytes: &[u8])
        ensures
            bytes@ == self@.string(ptr),
    {
        match self.memory.get(&ptr) {
            Some(s) => s.as_slice(),
            None => &[],
        }
    }

    /// Retrieve the byte length of the string in the heap identified by
    /// `ptr`.
    ///
    /// If `ptr` refers to a string not present in the heap, this function
    /// returns `0`. Of a length that does not fit 32 bits, the low 32 bits
    /// are returned.
    #[must_use]
    pub fn string_getlen(&self, ptr: u32) -> (len: u32)
        ensures
            len == self@.string_getlen(ptr),
    {
        if let Some(s) = self.memory.get(&ptr) {
            #[verifier::truncate]
            (s.len() as u32)
        } else {
            0
        }
    }

    /// Retrieve the byte at the given index of the string in the heap
    /// identified by `ptr`.
    ///
    /// If `ptr` refers to a string not present in the heap, or `idx` is out
    /// of bounds for the string, this function returns `0`.
    #[must_use]
    pub fn string_getch(&self, ptr: u32, idx: u32) -> (ch: u8)
        ensures
            ch == self@.string_getch(ptr, idx),
    {
        let s = if let Some(s) = self.memory.get(&ptr) {
            s
        } else {
            return 0;
        };
        let idx = idx as usize;
        if idx < s.len() {
            s[idx]
        } else {
            0
        }
    }

    /// Modify the string in the heap identified by `ptr` by appending a byte
    /// to its end.
    ///
    /// If `ptr` refers to a string not present in the heap, this function is
    /// a no-op: it never brings a string into being.
    pub fn string_putch(&mut self, ptr: u32, ch: u8)
        ensures
            final(self)@ == old(self)@.string_putch(ptr, ch),
            final(self)@.memory.dom() == old(self)@.memory.dom(),
            !old(self)@.memory.contains_key(ptr) ==> final(self)@ == old(self)@,
            old(self)@.wf() ==> final(self)@.wf(),
    {
        match self.memory.entry(ptr) {
            Entry::Occupied(entry) => {
                let s = entry.into_mut();
                s.push(ch);
            },
            Entry::Vacant(_) => {},
        }
        assert(self@.memory =~= old(self)@.string_putch(ptr, ch).memory);
        assert(self@.memory.dom() =~= old(self)@.memory.dom());
    }
}

/// The number of entries that a map was made to hold: what
/// `HashMap::with_capacity` was told when it made the map. It stands for
/// that number only while the map is as it was made; of a map that has been
/// changed since, it is 0.
pub uninterp spec fn reserved_capacity(memory: HashMap<u32, Vec<u8>>) -> nat;

/// Calls `HashMap::with_capacity`.
///
/// Taken on trust from the standard library: the map that it makes is empty,
/// and it is made to hold `capacity` entries.
#[verifier::external_body]
fn map_with_capacity(capacity: usize) -> (made: HashMap<u32, Vec<u8>>)
    ensures
        made@.dom() == Set::<u32>::empty(),
        reserved_capacity(made) == capacity,
{
    HashMap::with_capacity(capacity)
}

/// Calls `HashMap::capacity`.
///
/// Taken on trust from the standard library: a map that is as
/// `HashMap::with_capacity` made it can hold at least as many entries as it
/// was made to hold. The number itself depends on what the allocator gave,
/// and nothing more is claimed of it.
#[verifier::external_body]
fn map_capacity(memory: &HashMap<u32, Vec<u8>>) -> (capacity: usize)
    ensures
        capacity >= reserved_capacity(*memory),
{
    memory.capacity()
}

/// A change never lowers `next_free`: a handle, once handed out, stays behind
/// the counter for good.
pub proof fn lemma_next_free_only_grows(heap: HeapView, ops: Seq<HeapOp>)
    ensures
        heap.next_free <= heap.run(ops).next_free,
    decreases ops.len(),
{
    if ops.len() > 0 {
        lemma_next_free_only_grows(heap, ops.drop_last());
    }
}

/// Along a run of changes `next_free` never falls from one position to a
/// later one.
pub proof fn lemma_next_free_grows_along(heap: HeapView, ops: Seq<HeapOp>, i: int, j: int)
    requires
        0 <= i <= j <= ops.len(),
    ensures
        heap.run(ops.take(i)).next_free <= heap.run(ops.take(j)).next_free,
    decreases j - i,
{
    if i < j {
        lemma_next_free_grows_along(heap, ops, i, j - 1);
        assert(ops.take(j).drop_last() =~= ops.take(j - 1));
    }
}

/// A run of changes keeps a heap well formed as long as the handles last.
pub proof fn lemma_run_keeps_wf(heap: HeapView, ops: Seq<HeapOp>)
    requires
        heap.wf(),
        heap.run(ops).next_free <= u32::MAX,
    ensures
        heap.run(ops).wf(),
    decreases ops.len(),
{
    if ops.len() > 0 {
        let before = heap.run(ops.drop_last());
        assert(before.next_free <= before.apply(ops.last()).next_free);
        lemma_run_keeps_wf(heap, ops.drop_last());
    }
}

/// Uniqueness: whatever is allocated, freed and appended to on a fresh
/// heap, no two allocations return the same handle. This holds of runs that
/// only allocate, and freeing a string in between does not bring its handle
/// back.
pub proof fn lemma_allocated_handles_distinct(ops: Seq<HeapOp>, i: int, j: int)
    requires
        0 <= i < j < ops.len(),
        ops[i] is Allocate,
        ops[j] is Allocate,
        HeapView::empty().run(ops).next_free <= u32::MAX,
    ensures
        HeapView::empty().handle_at(ops, i) != HeapView::empty().handle_at(ops, j),
        HeapView::empty().handle_at(ops, i) != 0,
        HeapView::empty().handle_at(ops, j) != 0,
{
    let fresh = HeapView::empty();
    assert(ops.take(i + 1).drop_last() =~= ops.take(i));
    assert(ops.take(i + 1).last() == ops[i]);
    lemma_next_free_only_grows(fresh, ops.take(i));
    lemma_next_free_grows_along(fresh, ops, i + 1, j);
    lemma_next_free_grows_along(fresh, ops, j, ops.len() as int);
    assert(ops.take(ops.len() as int) =~= ops);
}

/// Right after a handle is freed it reads as the empty string, with length
/// 0, whether it was live before or not.
pub proof fn lemma_freed_handle_reads_empty(heap: HeapView, ptr: u32)
    ensures
        !heap.free(ptr).memory.contains_key(ptr),
        heap.free(ptr).string(ptr) == Seq::<u8>::empty(),
        heap.free(ptr).string_getlen(ptr) == 0,
{
}

/// No resurrection: once a handle that was handed out is freed, it reads as
/// absent whatever happens to the heap afterwards. Later allocations get
/// other handles, and appending to the dead handle changes nothing.
pub proof fn lemma_freed_handle_stays_dead(heap: HeapView, ptr: u32, ops: Seq<HeapOp>)
    requires
        heap.wf(),
        ptr < heap.next_free,
        heap.free(ptr).run(ops).next_free <= u32::MAX,
    ensures
        !heap.free(ptr).run(ops).memory.contains_key(ptr),
        heap.free(ptr).run(ops).string(ptr) == Seq::<u8>::empty(),
        heap.free(ptr).run(ops).string_getlen(ptr) == 0,
    decreases ops.len(),
{
    if ops.len() > 0 {
        let before = heap.free(ptr).run(ops.drop_last());
        assert(before.next_free <= before.apply(ops.last()).next_free);
        lemma_freed_handle_stays_dead(heap, ptr, ops.drop_last());
        lemma_next_free_only_grows(heap.free(ptr), ops.drop_last());
    }
}

/// Graceful absence: a handle that is not live reads as the empty string,
/// with length 0 and byte 0 at every index.
pub proof fn lemma_absent_handle_reads_empty(heap: HeapView, ptr: u32, idx: u32)
    requires
        !heap.memory.contains_key(ptr),
    ensures
        heap.string(ptr) == Seq::<u8>::empty(),
        heap.string_getlen(ptr) == 0,
        heap.string_getch(ptr, idx) == 0,
{
}

/// In a well-formed heap neither 0 nor the largest handle is ever live.
pub proof fn lemma_reserved_handles_absent(heap: HeapView)
    requires
        heap.wf(),
    ensures
        !heap.memory.contains_key(0),
        !heap.memory.contains_key(u32::MAX),
{
}

/// Appending to a handle that is not live never creates an entry: the heap
/// stays as it was.
pub proof fn lemma_putch_absent_is_noop(heap: HeapView, ptr: u32, ch: u8)
    requires
        !heap.memory.contains_key(ptr),
    ensures
        heap.string_putch(ptr, ch) == heap,
{
}

} // verus!
