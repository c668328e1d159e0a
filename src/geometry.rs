use vstd::prelude::*;

use crate::error::{ErrorCode, ADDRESS_INVALID};

verus! {

/// First address of the programmable flash region.
pub const FLASH_BASE: u32 = 0x0800_0000;

/// Size of the region in bytes (256 KiB).
pub const FLASH_SIZE: u32 = 0x0004_0000;

/// Size of one erasable page in bytes (2 KiB).
pub const PAGE_SIZE: u32 = 0x800;

/// Number of pages in the region.
pub const PAGE_COUNT: u32 = 0x80;

/// Value of every byte of an erased page.
pub const ERASED_BYTE: u8 = 0xFF;

/// The controller programs double words: a write starts on a multiple of 8.
pub const WRITE_ALIGN: u32 = 8;

/// `addr` lies in `[FLASH_BASE, FLASH_BASE + FLASH_SIZE)`.
pub open spec fn in_region(addr: int) -> bool {
    FLASH_BASE <= addr < FLASH_BASE + FLASH_SIZE
}

/// `addr` is the first address of a page of the region.
pub open spec fn is_page_start(addr: int) -> bool {
    in_region(addr) && (addr - FLASH_BASE) % (PAGE_SIZE as int) == 0
}

/// `addr` is a legal destination for a program: in the region, double-word aligned.
pub open spec fn is_write_aligned(addr: int) -> bool {
    in_region(addr) && addr % (WRITE_ALIGN as int) == 0
}

/// First address of page `index`.
pub open spec fn page_start(index: int) -> int {
    FLASH_BASE + index * PAGE_SIZE
}

/// `addr` lies in the page `index`, that is in `[page_start(index), page_start(index) + PAGE_SIZE)`.
pub open spec fn page_covers(index: int, addr: int) -> bool {
    page_start(index) <= addr < page_start(index) + PAGE_SIZE
}

/// One page of the region, known to exist.
#[derive(Clone, Copy, Debug, PartialEq, Eq, Structural)]
pub struct PageRef {
    index: u8,
}

impl PageRef {
    #[verifier::type_invariant]
    closed spec fn inv(self) -> bool {
        self.index < PAGE_COUNT
    }

    /// Index of the page, counted from the start of the region.
    pub closed spec fn idx(self) -> int {
        self.index as int
    }

    /// Index of the page, below `PAGE_COUNT`.
    pub fn index(&self) -> (r: u8)
        ensures
            r == self.idx(),
            r < PAGE_COUNT,
    {
        proof {
            use_type_invariant(self);
        }
        self.index
    }

    /// First address of the page.
    pub fn start(&self) -> (r: u32)
        ensures
            r == page_start(self.idx()),
            is_page_start(r as int),
    {
        proof {
            use_type_invariant(self);
        }
        FLASH_BASE + (self.index as u32) * PAGE_SIZE
    }
}

/// A program destination that satisfies `is_write_aligned`.
#[derive(Clone, Copy, Debug, PartialEq, Eq, Structural)]
pub struct WriteAddr {
    addr: u32,
}

impl WriteAddr {
    #[verifier::type_invariant]
    closed spec fn inv(self) -> bool {
        is_write_aligned(self.addr as int)
    }

    /// The address as a number.
    pub closed spec fn addr_spec(self) -> int {
        self.addr as int
    }

    /// The address, double-word aligned and in the region.
    pub fn addr(&self) -> (r: u32)
        ensures
            r == self.addr_spec(),
            is_write_aligned(r as int),
    {
        proof {
            use_type_invariant(self);
        }
        self.addr
    }
}

/// Resolves `addr` to the page that starts there. Fails with
/// `ADDRESS_INVALID` when `addr` is outside the region or not on a page
/// boundary; no page exists then, so nothing can be erased.
pub fn resolve_page(addr: u32) -> (r: Result<PageRef, ErrorCode>)
    ensures
        r is Ok <==> is_page_start(addr as int),
        r matches Ok(p) ==> page_start(p.idx()) == addr && 0 <= p.idx() < PAGE_COUNT,
        r matches Err(e) ==> e.value() == ADDRESS_INVALID,
{
    if addr < FLASH_BASE || addr - FLASH_BASE >= FLASH_SIZE {
        return Err(ErrorCode::address_invalid());
    }
    let offset: u32 = addr - FLASH_BASE;
    if offset % PAGE_SIZE != 0 {
        return Err(ErrorCode::address_invalid());
    }
    let index: u32 = offset / PAGE_SIZE;
    assert(index < PAGE_COUNT);
    Ok(PageRef { index: index as u8 })
}

/// Checks `addr` as a program destination. Fails with `ADDRESS_INVALID`
/// when it is outside the region or not double-word aligned.
pub fn check_write_addr(addr: u32) -> (r: Result<WriteAddr, ErrorCode>)
    ensures
        r is Ok <==> is_write_aligned(addr as int),
        r matches Ok(w) ==> w.addr_spec() == addr,
        r matches Err(e) ==> e.value() == ADDRESS_INVALID,
{
    if addr < FLASH_BASE || addr - FLASH_BASE >= FLASH_SIZE || addr % WRITE_ALIGN != 0 {
        return Err(ErrorCode::address_invalid());
    }
    Ok(WriteAddr { addr })
}

/// A page boundary of the region is covered by exactly one page, the one
/// that starts there, and that page spans `[addr, addr + PAGE_SIZE)`.
pub proof fn lemma_page_start_unique(addr: int, index: int)
    requires
        is_page_start(addr),
        page_start(index) == addr,
    ensures
        0 <= index < PAGE_COUNT,
        forall|a: int| addr <= a < addr + PAGE_SIZE ==> #[trigger] page_covers(index, a),
        forall|j: int| j != index ==> !#[trigger] page_covers(j, addr),
{
    assert(0 <= index < PAGE_COUNT) by (nonlinear_arith)
        requires
            FLASH_BASE <= addr < FLASH_BASE + FLASH_SIZE,
            addr == FLASH_BASE + index * PAGE_SIZE,
    ;
    assert forall|j: int| j != index implies !#[trigger] page_covers(j, addr) by {
        if j < index {
            assert(page_start(j) + PAGE_SIZE <= page_start(index)) by (nonlinear_arith)
                requires j < index;
        } else {
            assert(page_start(index) + PAGE_SIZE <= page_start(j)) by (nonlinear_arith)
                requires j > index;
        }
    }
}

} // verus!
