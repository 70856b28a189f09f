//! The heap, backed by the firmware's pool allocation.

use crate::fatal::Fatal;
use crate::firmware::{Call, CallView, MemoryType};
use crate::status::{Status, SUCCESS};
use vstd::prelude::*;

verus! {

/// The allocator that serves every heap request from the firmware pool.
pub struct Allocator;

/// The address an allocation yields: the one the firmware stored unless it
/// reported an error, and null if it did.
pub open spec fn allocate_outcome(status: Status, addr: usize) -> usize {
    if status.is_error() {
        0
    } else {
        addr
    }
}

/// The request that releases the region at `addr`: none for a null address.
pub open spec fn release_call(addr: usize) -> Option<CallView> {
    if addr == 0 {
        None
    } else {
        Some(CallView::FreePool { addr })
    }
}

/// What a release yields: nothing on success, a fatal condition otherwise.
pub open spec fn dealloc_outcome(status: Status) -> Result<(), Fatal> {
    if status == Status(SUCCESS) {
        Ok(())
    } else {
        Err(Fatal::ReleaseFailed { status })
    }
}

impl Allocator {
    /// The request for `size` bytes, tagged as loader data.
    pub fn allocate_request(&self, size: usize) -> (call: Call)
        ensures
            call@ == (CallView::AllocatePool { memory_type: MemoryType::LoaderData, size }),
    {
        Call::AllocatePool { memory_type: MemoryType::LoaderData, size }
    }

    /// Reads the firmware's reply to an allocation: its status and the
    /// address it stored. Null is the failure marker.
    pub fn allocate(&self, status: Status, addr: usize) -> (ptr: usize)
        ensures
            ptr == allocate_outcome(status, addr),
    {
        if status.is_error() {
            0
        } else {
            addr
        }
    }

    /// The request that returns the region at `addr` to the pool. A null
    /// address is no region, and nothing is asked for it.
    pub fn dealloc_request(&self, addr: usize) -> (call: Option<Call>)
        ensures
            call.deep_view() == release_call(addr),
    {
        if addr == 0 {
            None
        } else {
            Some(Call::FreePool { addr })
        }
    }

    /// Reads the firmware's reply to a release. Anything but success leaves
    /// the heap in doubt and is fatal.
    pub fn dealloc(&self, status: Status) -> (done: Result<(), Fatal>)
        ensures
            done == dealloc_outcome(status),
    {
        if status.0 == SUCCESS {
            Ok(())
        } else {
            Err(Fatal::ReleaseFailed { status })
        }
    }
}

/// The condition raised when the heap is exhausted.
pub fn alloc_error(size: usize, align: usize) -> (fatal: Fatal)
    ensures
        fatal == (Fatal::OutOfMemory { size, align }),
{
    Fatal::OutOfMemory { size, align }
}

/// A write of one byte into memory: `val` goes to the address `addr`.
#[derive(Clone, Copy, Debug, PartialEq, Eq, Structural)]
pub struct Store {
    pub addr: usize,
    pub val: u8,
}

/// A heap region as a value: where it lies and the size asked for. A null
/// address stands for no region.
pub struct Region {
    pub addr: usize,
    pub size: usize,
}

/// A write of several bytes into memory: the first `count` bytes of the
/// source go to the address `to` and the addresses after it, and `ptr` is
/// the address the write reports, null if it failed.
#[derive(Clone, Copy, Debug, PartialEq, Eq, Structural)]
pub struct SliceStore {
    pub ptr: usize,
    pub to: usize,
    pub count: usize,
}

/// The record of one heap region: its address and the size asked for.
///
/// A record with a null address stands for no region. The record does the
/// bounds checks and the address arithmetic; the bytes themselves are in
/// memory, and a write comes back as the [`Store`] or [`SliceStore`] to
/// perform.
pub struct Allocated {
    ptr: usize,
    size: usize,
}

/// The alignment of every region.
pub const ALIGN: usize = 8;

impl View for Allocated {
    type V = Region;

    closed spec fn view(&self) -> Region {
        Region { addr: self.ptr, size: self.size }
    }
}

impl Region {
    /// The region of no address and no size.
    pub open spec fn null() -> Region {
        Region { addr: 0, size: 0 }
    }

    /// The number of bytes that can be reached: none where there is no
    /// region, else the size, as far as the addresses exist.
    pub open spec fn reach(self) -> int {
        if self.addr == 0 {
            0
        } else if self.addr + self.size <= usize::MAX + 1 {
            self.size as int
        } else {
            usize::MAX + 1 - self.addr
        }
    }

    /// The address `index` bytes into the region, null where there is no
    /// region or no such address.
    pub open spec fn offset(self, index: int) -> usize {
        if self.addr != 0 && 0 <= index && self.addr + index <= usize::MAX {
            (self.addr + index) as usize
        } else {
            0
        }
    }

    /// The address of the byte at `index`, null when it is out of bounds.
    pub open spec fn element(self, index: int) -> usize {
        if 0 <= index < self.reach() {
            self.offset(index)
        } else {
            0
        }
    }

    /// The write of `val` to the byte at `index`: none when it is out of
    /// bounds.
    pub open spec fn store_at(self, index: int, val: u8) -> Option<Store> {
        if 0 <= index < self.reach() {
            Some(Store { addr: self.offset(index), val })
        } else {
            None
        }
    }

    /// How many of `length` bytes, written one after another from `index`
    /// on, are in bounds.
    pub open spec fn fit(self, index: int, length: int) -> int {
        if index >= self.reach() {
            0
        } else if index + length <= self.reach() {
            length
        } else {
            self.reach() - index
        }
    }

    /// What a write of `length` bytes at `index` from a source of `source`
    /// bytes amounts to.
    ///
    /// Nothing is written when the source is shorter than `length`. Else the
    /// bytes are written one after another and the write stops at the first
    /// that is out of bounds. It reports the address of the byte at `index`
    /// when every byte was written, and null otherwise.
    pub open spec fn slice_store(self, index: usize, length: usize, source: nat) -> SliceStore {
        let count = if source < length {
            0
        } else {
            self.fit(index as int, length as int)
        };
        SliceStore {
            ptr: if source < length || count < length {
                0
            } else {
                self.offset(index as int)
            },
            to: if count > 0 {
                self.offset(index as int)
            } else {
                0
            },
            count: count as usize,
        }
    }

    /// The region as a span of memory: its address and the number of bytes
    /// that can be reached there, or none where there is no region.
    pub open spec fn span(self) -> Option<(usize, usize)> {
        if self.addr == 0 {
            None
        } else {
            Some((self.addr, self.reach() as usize))
        }
    }

    /// The request that releases the region: none where there is no region.
    pub open spec fn release_call(self) -> Option<CallView> {
        release_call(self.addr)
    }

    /// What a release leaves behind: no region.
    pub open spec fn released(self) -> Region {
        Region::null()
    }
}

impl Allocated {
    /// The record of no region.
    pub fn null() -> (none: Allocated)
        ensures
            none@ == Region::null(),
    {
        Allocated { ptr: 0, size: 0 }
    }

    /// The request for a region of `size` bytes.
    pub fn new_request(size: usize) -> (call: Call)
        ensures
            call@ == (CallView::AllocatePool { memory_type: MemoryType::LoaderData, size }),
    {
        Allocator.allocate_request(size)
    }

    /// The record of the region the firmware gave in reply to
    /// [`Allocated::new_request`]: a null one of the same size if it failed.
    pub fn new(size: usize, status: Status, addr: usize) -> (region: Allocated)
        ensures
            region@ == (Region { addr: allocate_outcome(status, addr), size }),
    {
        Allocated { ptr: Allocator.allocate(status, addr), size }
    }

    /// The address of the region, null when there is none.
    pub fn ptr_mut(&mut self) -> (ptr: usize)
        ensures
            ptr == old(self)@.addr,
            final(self)@ == old(self)@,
    {
        self.ptr
    }

    /// The size asked for.
    pub fn size(&self) -> (size: usize)
        ensures
            size == self@.size,
    {
        self.size
    }

    /// The number of bytes that can be reached through the record.
    pub fn len(&self) -> (n: usize)
        ensures
            n == self@.reach(),
    {
        if self.ptr == 0 {
            0
        } else if self.size <= usize::MAX - self.ptr {
            self.size
        } else {
            usize::MAX - self.ptr + 1
        }
    }

    /// The region as a span of memory: its address and the number of bytes
    /// that can be read and written there. A null record has none.
    pub fn slice_mut(&mut self) -> (span: Option<(usize, usize)>)
        ensures
            span == old(self)@.span(),
            final(self)@ == old(self)@,
    {
        if self.ptr == 0 {
            None
        } else {
            Some((self.ptr, self.len()))
        }
    }

    /// The address of the byte at `index`, null when it is out of bounds.
    pub fn get_at(&self, index: usize) -> (ptr: usize)
        ensures
            ptr == self@.element(index as int),
    {
        if index >= self.len() {
            0
        } else {
            self.ptr + index
        }
    }

    /// The address `index` bytes into the region.
    fn offset_of(&self, index: usize) -> (ptr: usize)
        ensures
            ptr == self@.offset(index as int),
    {
        if self.ptr == 0 || index > usize::MAX - self.ptr {
            0
        } else {
            self.ptr + index
        }
    }

    /// Sets the byte at `index` to `val`: gives the write to perform, or
    /// none when the index is out of bounds.
    pub fn set_at(&mut self, index: usize, val: u8) -> (store: Option<Store>)
        ensures
            store == old(self)@.store_at(index as int, val),
            final(self)@ == old(self)@,
    {
        if index >= self.len() {
            None
        } else {
            Some(Store { addr: self.ptr + index, val })
        }
    }

    /// Sets `length` bytes from `index` on to the first `length` bytes of
    /// `val`: gives the bytes to copy and the address the write reports.
    pub fn set_slice_at(&mut self, index: usize, length: usize, val: &[u8]) -> (store: SliceStore)
        ensures
            store == old(self)@.slice_store(index, length, val@.len()),
            final(self)@ == old(self)@,
    {
        if val.len() < length {
            return SliceStore { ptr: 0, to: 0, count: 0 };
        }
        let reach = self.len();
        let count = if index >= reach {
            0
        } else if length <= reach - index {
            length
        } else {
            reach - index
        };
        SliceStore {
            ptr: if count < length {
                0
            } else {
                self.offset_of(index)
            },
            to: if count > 0 {
                self.ptr + index
            } else {
                0
            },
            count,
        }
    }

    /// Releases the region: gives the request to make, none for a null
    /// record, and leaves the null record, so that a later release finds
    /// nothing to do.
    pub fn free(&mut self) -> (call: Option<Call>)
        ensures
            call.deep_view() == old(self)@.release_call(),
            final(self)@ == old(self)@.released(),
    {
        let ptr = self.ptr;
        self.ptr = 0;
        self.size = 0;
        Allocator.dealloc_request(ptr)
    }
}

/// A write of several bytes is the same as setting them one by one. Each of
/// the bytes it copies is the write that setting that byte alone would give,
/// the byte after them, if one is left, is out of bounds, and it reports an
/// address only if none is left.
pub proof fn lemma_slice_store(region: Region, index: usize, length: usize, val: Seq<u8>)
    requires
        length <= val.len(),
    ensures
        ({
            let store = region.slice_store(index, length, val.len());
            &&& store.count <= length
            &&& forall|i: int|
                0 <= i < store.count ==> region.store_at(index + i, val[i]) == Some(
                    Store { addr: (store.to + i) as usize, val: val[i] },
                )
            &&& store.count < length ==> region.store_at(index + store.count, val[store.count as int])
                is None
            &&& store.ptr != 0 ==> store.count == length
            &&& store.count == length ==> store.ptr == region.offset(index as int)
        }),
{
}

/// Releasing a record that holds no region asks nothing of the firmware.
pub proof fn lemma_null_release(region: Region)
    requires
        region.addr == 0,
    ensures
        region.release_call() is None,
{
}

/// A region is released exactly once. Whatever the firmware replied to the
/// allocation, the first release of the record asks for the region it gave,
/// or for nothing if it gave none; what it leaves asks for nothing more,
/// however often it is released.
pub proof fn lemma_released_once(size: usize, status: Status, addr: usize)
    ensures
        ({
            let region = Region { addr: allocate_outcome(status, addr), size };
            &&& region.release_call() == if status.is_error() || addr == 0 {
                None
            } else {
                Some(CallView::FreePool { addr })
            }
            &&& region.released().release_call() is None
            &&& region.released().released() == region.released()
        }),
{
}

} // verus!
