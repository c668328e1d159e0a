use vstd::prelude::*;

use crate::error::{ErrorCode, MASS_ERASE_FAILED, OPERATION_FAILED};
use crate::geometry::{
    check_write_addr, in_region, is_page_start, is_write_aligned, lemma_page_start_unique,
    page_covers, page_start, resolve_page, PageRef, WriteAddr, ERASED_BYTE, FLASH_BASE, FLASH_SIZE, PAGE_SIZE, WRITE_ALIGN,
};
use crate::router::route_verify;

verus! {

/// The operation the host starts a session for.
#[derive(Clone, Copy, Debug, PartialEq, Eq, Structural)]
pub enum Function {
    Erase,
    Program,
    Verify,
}

/// Flash access settings: caches, prefetch, cache resets and wait states.
#[derive(Clone, Copy, Debug, PartialEq, Eq, Structural)]
pub struct FlashAccess {
    pub icache: bool,
    pub dcache: bool,
    pub prefetch: bool,
    pub icache_reset: bool,
    pub dcache_reset: bool,
    pub wait_states: u8,
}

/// The settings a session runs under. The routine runs from memory it may
/// erase or program, so nothing may be cached or fetched ahead, both caches
/// are reset, and the clock is low enough for zero wait states.
pub open spec fn session_access_spec() -> FlashAccess {
    FlashAccess {
        icache: false,
        dcache: false,
        prefetch: false,
        icache_reset: true,
        dcache_reset: true,
        wait_states: 0,
    }
}

/// The flash access settings to apply when a session starts.
pub fn session_access() -> (r: FlashAccess)
    ensures
        r == session_access_spec(),
{
    FlashAccess {
        icache: false,
        dcache: false,
        prefetch: false,
        icache_reset: true,
        dcache_reset: true,
        wait_states: 0,
    }
}

/// Offset of an address from the start of the region.
pub open spec fn offset_of(addr: int) -> int {
    addr - FLASH_BASE
}

/// The image after a mass erase: every byte erased.
pub open spec fn erased_image() -> Seq<u8> {
    Seq::new(FLASH_SIZE as nat, |i: int| ERASED_BYTE)
}

/// The image after erasing page `index`: its bytes erased, the rest kept.
pub open spec fn page_erased(img: Seq<u8>, index: int) -> Seq<u8> {
    Seq::new(
        img.len(),
        |i: int|
            if page_covers(index, FLASH_BASE + i) {
                ERASED_BYTE
            } else {
                img[i]
            },
    )
}

/// The image after programming `data` at `addr`. Programming can only clear
/// bits, so each written byte becomes the old byte AND the new one; bytes
/// past the end of the region are not part of the image.
pub open spec fn programmed(img: Seq<u8>, addr: int, data: Seq<u8>) -> Seq<u8> {
    Seq::new(
        img.len(),
        |i: int|
            if offset_of(addr) <= i < offset_of(addr) + data.len() {
                img[i] & data[i - offset_of(addr)]
            } else {
                img[i]
            },
    )
}

/// The `len` bytes of the image that start at address `addr`.
pub open spec fn read_bytes(img: Seq<u8>, addr: int, len: int) -> Seq<u8> {
    img.subrange(offset_of(addr), offset_of(addr) + len)
}

/// Every byte of `[addr, addr + len)` is erased in the image.
pub open spec fn range_erased(img: Seq<u8>, addr: int, len: int) -> bool {
    forall|i: int| offset_of(addr) <= i < offset_of(addr) + len ==> img[i] == ERASED_BYTE
}

/// After a successful mass erase every byte of the region reads as the
/// erased value, and erasing an image that is already erased leaves it as it
/// was.
pub proof fn lemma_erase_all_erases(img: Seq<u8>, addr: int)
    requires
        in_region(addr),
    ensures
        erased_image()[offset_of(addr)] == ERASED_BYTE,
        read_bytes(erased_image(), addr, 1) =~= seq![ERASED_BYTE],
        range_erased(erased_image(), FLASH_BASE as int, FLASH_SIZE as int),
        img.len() == FLASH_SIZE && range_erased(img, FLASH_BASE as int, FLASH_SIZE as int) ==> img
            == erased_image(),
{
    if img.len() == FLASH_SIZE && range_erased(img, FLASH_BASE as int, FLASH_SIZE as int) {
        assert(img =~= erased_image());
    }
}

/// Erasing a page twice leaves the image as erasing it once.
pub proof fn lemma_page_erase_idempotent(img: Seq<u8>, index: int)
    ensures
        page_erased(page_erased(img, index), index) == page_erased(img, index),
{
    assert(page_erased(page_erased(img, index), index) =~= page_erased(img, index));
}

/// Programming `data` at `addr` over bytes that are all erased, then reading
/// `data.len()` bytes at `addr`, gives back `data`.
pub proof fn lemma_program_round_trip(img: Seq<u8>, addr: int, data: Seq<u8>)
    requires
        img.len() == FLASH_SIZE,
        in_region(addr),
        addr + data.len() <= FLASH_BASE + FLASH_SIZE,
        range_erased(img, addr, data.len() as int),
    ensures
        read_bytes(programmed(img, addr, data), addr, data.len() as int) == data,
{
    let out = read_bytes(programmed(img, addr, data), addr, data.len() as int);
    assert forall|k: int| 0 <= k < data.len() implies out[k] == data[k] by {
        let i = offset_of(addr) + k;
        assert(img[i] == ERASED_BYTE);
        let b = data[k];
        assert(0xFFu8 & b == b) by (bit_vector);
    }
    assert(out =~= data);
}

/// Only a session that has been torn down can be followed by another: right
/// after a successful `initialize` a second one fails, and after `teardown`
/// it succeeds again.
pub proof fn lemma_single_session(o: Ownership)
    ensures
        !initialize_succeeds(after_initialize(o)),
        initialize_succeeds(after_teardown(after_initialize(o))),
{
}

/// Erasing the page that a page boundary `addr` resolves to erases exactly
/// `[addr, addr + PAGE_SIZE)` and keeps every other byte of the region.
pub proof fn lemma_sector_erase_exact(img: Seq<u8>, addr: int, index: int)
    requires
        img.len() == FLASH_SIZE,
        is_page_start(addr),
        page_start(index) == addr,
    ensures
        range_erased(page_erased(img, index), addr, PAGE_SIZE as int),
        forall|a: int|
            in_region(a) && !(addr <= a < addr + PAGE_SIZE) ==> #[trigger] page_erased(img, index)[offset_of(a)]
                == img[offset_of(a)],
{
    lemma_page_start_unique(addr, index);
}

/// An address outside the region names no page, so `erase_sector` on it is
/// refused before any erase.
pub proof fn lemma_outside_region_rejected(addr: int)
    requires
        !in_region(addr),
    ensures
        !is_page_start(addr),
        !is_write_aligned(addr),
{
}

/// A program destination that is not a multiple of `WRITE_ALIGN` is refused.
pub proof fn lemma_misaligned_write_rejected(addr: int)
    requires
        addr % (WRITE_ALIGN as int) != 0,
    ensures
        !is_write_aligned(addr),
{
}

/// Holder of the single right to drive the flash peripheral. At most one
/// session is live at a time.
pub struct Ownership {
    held: bool,
}

/// `initialize` on `o` starts a session: none is live.
pub open spec fn initialize_succeeds(o: Ownership) -> bool {
    !o.is_held()
}

/// The holder after `initialize` on `o`, whether it succeeded or not.
pub closed spec fn after_initialize(o: Ownership) -> Ownership {
    Ownership { held: true }
}

/// The holder after `teardown` on `o`.
pub closed spec fn after_teardown(o: Ownership) -> Ownership {
    Ownership { held: false }
}

impl Ownership {
    /// A session is live.
    pub closed spec fn is_held(self) -> bool {
        self.held
    }

    /// No session is live yet.
    pub fn new() -> (r: Ownership)
        ensures
            !r.is_held(),
    {
        Ownership { held: false }
    }

    /// A session is live.
    pub fn held(&self) -> (r: bool)
        ensures
            r == self.is_held(),
    {
        self.held
    }

    /// Starts a session. Fails, changing nothing, while another one is live.
    /// `prior` is the flash access configuration found before the session,
    /// kept so that teardown can restore it.
    pub fn initialize(&mut self, address: u32, clock: u32, function: Function, prior: FlashAccess) -> (r:
        Option<Session>)
        ensures
            r is Some <==> initialize_succeeds(*old(self)),
            *final(self) == after_initialize(*old(self)),
            final(self).is_held(),
            r matches Some(s) ==> s.wf() && s.function() == function && s.prior() == prior,
    {
        if self.held {
            return None;
        }
        self.held = true;
        Some(
            Session {
                image: Ghost(Seq::new(FLASH_SIZE as nat, |i: int| vstd::pervasive::arbitrary())),
                function,
                prior,
            },
        )
    }

    /// Ends a session and hands back the configuration to restore. The
    /// session may have failed operations behind it.
    pub fn teardown(&mut self, session: Session) -> (r: FlashAccess)
        ensures
            *final(self) == after_teardown(*old(self)),
            !final(self).is_held(),
            r == session.prior(),
    {
        self.held = false;
        session.prior
    }
}

/// One live flashing session: the modelled contents of the flash region and
/// what was found before the session started.
pub struct Session {
    image: Ghost<Seq<u8>>,
    function: Function,
    prior: FlashAccess,
}

impl View for Session {
    type V = Seq<u8>;

    /// The modelled contents of the region, byte `i` at `FLASH_BASE + i`.
    closed spec fn view(&self) -> Seq<u8> {
        self.image@
    }
}

impl Session {
    #[verifier::type_invariant]
    closed spec fn inv(self) -> bool {
        self.image@.len() == FLASH_SIZE
    }

    /// The image covers the whole region; true of every session.
    pub open spec fn wf(self) -> bool {
        self@.len() == FLASH_SIZE
    }


    pub closed spec fn function(self) -> Function {
        self.function
    }

    pub closed spec fn prior(self) -> FlashAccess {
        self.prior
    }

    /// The operation the session was started for.
    pub fn function_kind(&self) -> (r: Function)
        ensures
            r == self.function(),
    {
        self.function
    }

    /// The configuration found before the session started.
    pub fn prior_access(&self) -> (r: FlashAccess)
        ensures
            r == self.prior(),
    {
        self.prior
    }

    /// Records the controller's answer to a mass erase. On success the whole
    /// region is erased; on failure the code is `MASS_ERASE_FAILED` and the
    /// session stays live with its contents unknown.
    pub fn erase_all(&mut self, hw_ok: bool) -> (r: Result<(), ErrorCode>)
        ensures
            final(self).wf(),
            r is Ok <==> hw_ok,
            hw_ok ==> final(self)@ == erased_image(),
            r matches Err(e) ==> e.value() == MASS_ERASE_FAILED,
            final(self).function() == old(self).function(),
            final(self).prior() == old(self).prior(),
    {
        if hw_ok {
            self.image = Ghost(erased_image());
            Ok(())
        } else {
            self.image = Ghost(Seq::new(FLASH_SIZE as nat, |i: int| vstd::pervasive::arbitrary()));
            Err(ErrorCode::mass_erase_failed())
        }
    }

    /// The page that `erase_sector(addr)` erases; an address error when
    /// there is none, in which case no erase is issued.
    pub fn erase_sector_target(&self, addr: u32) -> (r: Result<PageRef, ErrorCode>)
        ensures
            r is Ok <==> is_page_start(addr as int),
            r matches Ok(p) ==> page_start(p.idx()) == addr,
            r matches Err(e) ==> e.value() == crate::error::ADDRESS_INVALID,
    {
        resolve_page(addr)
    }

    /// Records the controller's answer to erasing `page`. On success that
    /// page is erased and the rest of the region kept; on failure the code
    /// is `OPERATION_FAILED`, the bytes of the page are unknown and the rest
    /// is kept.
    pub fn erase_sector(&mut self, page: PageRef, hw_ok: bool) -> (r: Result<(), ErrorCode>)
        ensures
            final(self).wf(),
            r is Ok <==> hw_ok,
            hw_ok ==> final(self)@ == page_erased(old(self)@, page.idx()),
            !hw_ok ==> forall|i: int|
                0 <= i < old(self)@.len() && !page_covers(page.idx(), FLASH_BASE + i) ==> final(self)@[i]
                    == old(self)@[i],
            r matches Err(e) ==> e.value() == OPERATION_FAILED,
            final(self).function() == old(self).function(),
            final(self).prior() == old(self).prior(),
    {
        proof {
            use_type_invariant(&*self);
        }
        if hw_ok {
            self.image = Ghost(page_erased(self.image@, page.idx()));
            Ok(())
        } else {
            let ghost img = self.image@;
            self.image = Ghost(
                Seq::new(
                    FLASH_SIZE as nat,
                    |i: int|
                        if page_covers(page.idx(), FLASH_BASE + i) {
                            vstd::pervasive::arbitrary()
                        } else {
                            img[i]
                        },
                ),
            );
            Err(ErrorCode::operation_failed())
        }
    }

    /// The destination that `program_page(addr, _)` writes to; an address
    /// error when `addr` is not a legal destination, in which case nothing
    /// is written.
    pub fn program_target(&self, addr: u32) -> (r: Result<WriteAddr, ErrorCode>)
        ensures
            r is Ok <==> is_write_aligned(addr as int),
            r matches Ok(w) ==> w.addr_spec() == addr,
            r matches Err(e) ==> e.value() == crate::error::ADDRESS_INVALID,
    {
        check_write_addr(addr)
    }

    /// Records the controller's answer to programming `data` at `dest`. On
    /// success the image holds `programmed(old, dest, data)`; on failure the
    /// code is `OPERATION_FAILED`, the bytes of the range are unknown and the
    /// rest is kept.
    pub fn program_page(&mut self, dest: WriteAddr, data: &[u8], hw_ok: bool) -> (r: Result<(), ErrorCode>)
        ensures
            final(self).wf(),
            r is Ok <==> hw_ok,
            hw_ok ==> final(self)@ == programmed(old(self)@, dest.addr_spec(), data@),
            !hw_ok ==> forall|i: int|
                0 <= i < old(self)@.len() && !(offset_of(dest.addr_spec()) <= i < offset_of(
                    dest.addr_spec(),
                ) + data@.len()) ==> final(self)@[i] == old(self)@[i],
            r matches Err(e) ==> e.value() == OPERATION_FAILED,
            final(self).function() == old(self).function(),
            final(self).prior() == old(self).prior(),
    {
        proof {
            use_type_invariant(&*self);
        }
        if hw_ok {
            self.image = Ghost(programmed(self.image@, dest.addr_spec(), data@));
            Ok(())
        } else {
            let ghost img = self.image@;
            let ghost off = offset_of(dest.addr_spec());
            let ghost len = data@.len() as int;
            self.image = Ghost(
                Seq::new(
                    FLASH_SIZE as nat,
                    |i: int|
                        if off <= i < off + len {
                            vstd::pervasive::arbitrary()
                        } else {
                            img[i]
                        },
                ),
            );
            Err(ErrorCode::operation_failed())
        }
    }

    /// The `verify` entry point of a session; it changes nothing. See
    /// `route_verify` for the answers.
    pub fn verify(&self, address: u32, size: u32, data: Option<&[u8]>) -> (r: Result<(), ErrorCode>)
        ensures
            r is Ok <==> (!crate::router::in_command_window(address) || address
                == crate::router::READ_DEVICE_UID || address == crate::router::RUN_SELF_TEST),
            r matches Err(e) ==> e.value() == crate::error::ADDRESS_INVALID,
    {
        route_verify(address, size, data)
    }
}

} // verus!
