//! The linear memory shared between host and guest for one session.
//!
//! An owned, resizable byte buffer, sized in fixed pages, with a declared
//! initial size and an optional declared maximum.  Every access is bounds
//! checked; a failed access changes nothing.  The buffer has a single owner
//! and is only reached through these checked accessors, so no raw view of
//! it can outlive a reallocation caused by [`LinearMemory::grow`].

use vstd::prelude::*;
use crate::trap::MemoryError;

verus! {

/// Number of bytes in one page.
pub const PAGE_SIZE: usize = 65536;

/// Host-imposed ceiling on page counts (2 GiB), applied when a module
/// declares no maximum of its own.
pub const CEILING_PAGES: u32 = 32768;

/// The byte sequence after overwriting `mem` at `off` with `data`.
pub open spec fn write_range(mem: Seq<u8>, off: int, data: Seq<u8>) -> Seq<u8> {
    Seq::new(
        mem.len(),
        |i: int| if off <= i < off + data.len() { data[i - off] } else { mem[i] },
    )
}

pub struct LinearMemory {
    data: Vec<u8>,
    maximum_pages: Option<u32>,
}

impl LinearMemory {
    /// The current contents, as a mathematical byte sequence.
    pub closed spec fn bytes(&self) -> Seq<u8> {
        self.data@
    }

    /// The maximum page count the memory was declared with, if any.
    pub closed spec fn spec_maximum_pages(&self) -> Option<u32> {
        self.maximum_pages
    }

    /// The page count growth may never exceed: the declared maximum, or the
    /// host ceiling when none was declared.
    pub open spec fn page_limit(&self) -> nat {
        match self.spec_maximum_pages() {
            Some(m) => m as nat,
            None => CEILING_PAGES as nat,
        }
    }

    /// The current size, in pages.
    pub open spec fn spec_pages(&self) -> nat {
        self.bytes().len() / (PAGE_SIZE as nat)
    }

    /// The size is always a whole number of pages, never above the limit.
    pub open spec fn wf(&self) -> bool {
        &&& self.bytes().len() % (PAGE_SIZE as nat) == 0
        &&& self.bytes().len() <= self.page_limit() * (PAGE_SIZE as nat)
        &&& self.page_limit() <= CEILING_PAGES as nat
    }

    /// Allocates a memory of `initial_pages` zeroed pages, capped at
    /// `maximum_pages` if declared, at the host ceiling otherwise.
    pub fn new(initial_pages: u32, maximum_pages: Option<u32>) -> (m: LinearMemory)
        requires
            match maximum_pages {
                Some(mx) => initial_pages <= mx && mx <= CEILING_PAGES,
                None => initial_pages <= CEILING_PAGES,
            },
        ensures
            m.wf(),
            m.spec_maximum_pages() == maximum_pages,
            m.bytes().len() == initial_pages as nat * PAGE_SIZE as nat,
            forall|i: int| 0 <= i < m.bytes().len() ==> m.bytes()[i] == 0u8,
    {
        proof {
            assert(initial_pages as nat * PAGE_SIZE as nat <= CEILING_PAGES as nat
                * PAGE_SIZE as nat) by (nonlinear_arith)
                requires
                    initial_pages <= CEILING_PAGES,
            ;
        }
        let total: usize = (initial_pages as usize) * PAGE_SIZE;
        let mut data: Vec<u8> = Vec::new();
        while data.len() < total
            invariant
                data@.len() <= total,
                forall|i: int| 0 <= i < data@.len() ==> data@[i] == 0u8,
            decreases total - data@.len(),
        {
            data.push(0u8);
        }
        proof {
            assert(total as nat % (PAGE_SIZE as nat) == 0) by (nonlinear_arith)
                requires
                    total as nat == initial_pages as nat * PAGE_SIZE as nat,
            ;
            assert(total as nat <= (match maximum_pages {
                Some(m) => m as nat,
                None => CEILING_PAGES as nat,
            }) * PAGE_SIZE as nat) by (nonlinear_arith)
                requires
                    total as nat == initial_pages as nat * PAGE_SIZE as nat,
                    initial_pages as nat <= (match maximum_pages {
                        Some(m) => m as nat,
                        None => CEILING_PAGES as nat,
                    }),
            ;
        }
        LinearMemory { data, maximum_pages }
    }

    /// The current size, in bytes.
    pub fn size_bytes(&self) -> (n: usize)
        ensures
            n == self.bytes().len(),
    {
        self.data.len()
    }

    /// The current size, in pages.
    pub fn current_pages(&self) -> (n: u32)
        requires
            self.wf(),
        ensures
            n as nat == self.spec_pages(),
    {
        proof {
            assert(self.bytes().len() / (PAGE_SIZE as nat) <= CEILING_PAGES as nat)
                by (nonlinear_arith)
                requires
                    self.bytes().len() <= self.page_limit() * (PAGE_SIZE as nat),
                    self.page_limit() <= CEILING_PAGES as nat,
            ;
        }
        (self.data.len() / PAGE_SIZE) as u32
    }

    /// One byte of the buffer.
    pub fn get_byte(&self, i: usize) -> (b: u8)
        requires
            i < self.bytes().len(),
        ensures
            b == self.bytes()[i as int],
    {
        self.data[i]
    }

    /// Bounds-checked read: fails, reading nothing, unless
    /// `offset + length <= current size`.
    pub fn read(&self, offset: u32, length: u32) -> (r: Result<Vec<u8>, MemoryError>)
        ensures
            r is Ok <==> offset as int + length as int <= self.bytes().len(),
            r matches Ok(v) ==> v@ == self.bytes().subrange(
                offset as int,
                offset as int + length as int,
            ),
            r matches Err(e) ==> e == MemoryError::OutOfBounds,
    {
        let dlen: usize = self.data.len();
        if (offset as u64) + (length as u64) > (dlen as u64) {
            return Err(MemoryError::OutOfBounds);
        }
        let off = offset as usize;
        let len = length as usize;
        let mut out: Vec<u8> = Vec::new();
        let mut i: usize = 0;
        while i < len
            invariant
                0 <= i <= len,
                off + len <= dlen,
                dlen == self.bytes().len(),
                out@.len() == i,
                forall|j: int| 0 <= j < i ==> out@[j] == self.bytes()[off + j],
            decreases len - i,
        {
            out.push(self.data[off + i]);
            i += 1;
        }
        proof {
            assert(out@ =~= self.bytes().subrange(off as int, off as int + len as int));
        }
        Ok(out)
    }

    /// Bounds-checked write: fails atomically (nothing written) unless
    /// `offset + bytes.len() <= current size`.
    pub fn write(&mut self, offset: u32, bytes: &Vec<u8>) -> (r: Result<(), MemoryError>)
        ensures
            r is Ok <==> offset as int + bytes@.len() <= old(self).bytes().len(),
            r is Ok ==> final(self).bytes() == write_range(
                old(self).bytes(),
                offset as int,
                bytes@,
            ),
            r is Err ==> *final(self) == *old(self),
            r matches Err(e) ==> e == MemoryError::OutOfBounds,
            final(self).spec_maximum_pages() == old(self).spec_maximum_pages(),
            final(self).bytes().len() == old(self).bytes().len(),
            old(self).wf() ==> final(self).wf(),
    {
        let dlen: usize = self.data.len();
        if (bytes.len() as u64) > (dlen as u64)
            || (offset as u64) > (dlen as u64) - (bytes.len() as u64) {
            return Err(MemoryError::OutOfBounds);
        }
        let off = offset as usize;
        let len = bytes.len();
        let mut i: usize = 0;
        while i < len
            invariant
                0 <= i <= len,
                len == bytes@.len(),
                off + len <= dlen,
                dlen == self.data@.len(),
                self.data@.len() == old(self).bytes().len(),
                self.maximum_pages == old(self).spec_maximum_pages(),
                forall|j: int|
                    off <= j < off + i ==> self.data@[j] == bytes@[j - off],
                forall|j: int|
                    0 <= j < self.data@.len() && !(off <= j < off + i)
                        ==> self.data@[j] == old(self).bytes()[j],
            decreases len - i,
        {
            self.data[off + i] = bytes[i];
            i += 1;
        }
        proof {
            assert(self.data@ =~= write_range(old(self).bytes(), off as int, bytes@));
        }
        Ok(())
    }

    /// Grows the memory by whole pages, preserving existing bytes and
    /// zero-filling the new ones.  Permitted only up to the declared
    /// maximum (or the host ceiling if none was declared); a refused growth
    /// changes nothing.  Returns the new size in pages.
    pub fn grow(&mut self, additional_pages: u32) -> (r: Result<u32, MemoryError>)
        requires
            old(self).wf(),
        ensures
            final(self).wf(),
            final(self).spec_maximum_pages() == old(self).spec_maximum_pages(),
            r is Ok <==> old(self).spec_pages() + additional_pages as nat
                <= old(self).page_limit(),
            r matches Ok(n) ==> {
                &&& n as nat == old(self).spec_pages() + additional_pages as nat
                &&& final(self).bytes().len() == old(self).bytes().len()
                    + additional_pages as nat * PAGE_SIZE as nat
                &&& forall|i: int|
                    0 <= i < old(self).bytes().len()
                        ==> final(self).bytes()[i] == old(self).bytes()[i]
                &&& forall|i: int|
                    old(self).bytes().len() <= i < final(self).bytes().len()
                        ==> final(self).bytes()[i] == 0u8
            },
            r is Err ==> *final(self) == *old(self),
            r matches Err(e) ==> e == MemoryError::MaximumExceeded,
    {
        proof {
            vstd::arithmetic::div_mod::lemma_fundamental_div_mod(
                self.bytes().len() as int,
                PAGE_SIZE as int,
            );
        }
        let cur_pages: u32 = self.current_pages();
        let limit: u32 = match self.maximum_pages {
            Some(m) => m,
            None => CEILING_PAGES,
        };
        if (cur_pages as u64) + (additional_pages as u64) > (limit as u64) {
            return Err(MemoryError::MaximumExceeded);
        }
        let new_pages: u32 = cur_pages + additional_pages;
        proof {
            assert(new_pages as nat * PAGE_SIZE as nat <= CEILING_PAGES as nat
                * PAGE_SIZE as nat) by (nonlinear_arith)
                requires
                    new_pages as nat <= CEILING_PAGES as nat,
            ;
            assert(cur_pages as nat * PAGE_SIZE as nat == self.bytes().len());
        }
        let target: usize = (new_pages as usize) * PAGE_SIZE;
        proof {
            assert(target as nat == self.bytes().len() + additional_pages as nat
                * PAGE_SIZE as nat) by (nonlinear_arith)
                requires
                    target as nat == new_pages as nat * PAGE_SIZE as nat,
                    cur_pages as nat * PAGE_SIZE as nat == self.bytes().len(),
                    new_pages as nat == cur_pages as nat + additional_pages as nat,
            ;
        }
        while self.data.len() < target
            invariant
                self.data@.len() <= target,
                self.maximum_pages == old(self).spec_maximum_pages(),
                forall|i: int|
                    0 <= i < old(self).bytes().len() ==> self.data@[i] == old(self).bytes()[i],
                forall|i: int|
                    old(self).bytes().len() <= i < self.data@.len() ==> self.data@[i] == 0u8,
                old(self).bytes().len() <= self.data@.len(),
            decreases target - self.data@.len(),
        {
            self.data.push(0u8);
        }
        proof {
            assert(target as nat % (PAGE_SIZE as nat) == 0) by (nonlinear_arith)
                requires
                    target as nat == new_pages as nat * PAGE_SIZE as nat,
            ;
            assert(target as nat <= self.page_limit() * (PAGE_SIZE as nat))
                by (nonlinear_arith)
                requires
                    new_pages as nat <= self.page_limit(),
                    target as nat == new_pages as nat * PAGE_SIZE as nat,
            ;
        }
        Ok(new_pages)
    }
}

/// Law: a bounds-checked write followed by a read of the same range returns
/// exactly the bytes just written, and every byte outside the range is
/// untouched.
pub proof fn lemma_write_then_read(mem: Seq<u8>, off: int, data: Seq<u8>)
    requires
        0 <= off,
        off + data.len() <= mem.len(),
    ensures
        write_range(mem, off, data).subrange(off, off + data.len() as int) == data,
        write_range(mem, off, data).len() == mem.len(),
        forall|i: int|
            0 <= i < mem.len() && !(off <= i < off + data.len())
                ==> write_range(mem, off, data)[i] == mem[i],
{
    assert(write_range(mem, off, data).subrange(off, off + data.len() as int) =~= data);
}

} // verus!
