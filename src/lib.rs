//! Decision core of an on-target flash programming routine for a 256 KiB
//! STM32WL flash region: address validation, a model of the flash image, the
//! command router behind `verify`, and session ownership.

mod error;
mod geometry;
mod router;
mod session;

pub use error::{ErrorCode, ADDRESS_INVALID, MASS_ERASE_FAILED, OPERATION_FAILED};
pub use geometry::{
    check_write_addr, in_region, is_page_start, is_write_aligned, lemma_page_start_unique,
    page_covers, page_start, resolve_page, PageRef, WriteAddr, ERASED_BYTE, FLASH_BASE,
    FLASH_SIZE, PAGE_COUNT, PAGE_SIZE, WRITE_ALIGN,
};
pub use router::{
    classify, in_command_window, request_of, route_verify, verify_outcome_ok, VerifyRequest,
    COMMAND_WINDOW_END, COMMAND_WINDOW_START, READ_DEVICE_UID, RUN_SELF_TEST,
};
pub use session::{
    after_initialize, after_teardown, erased_image, initialize_succeeds, lemma_erase_all_erases,
    lemma_misaligned_write_rejected, lemma_outside_region_rejected, lemma_page_erase_idempotent,
    lemma_program_round_trip, lemma_sector_erase_exact, lemma_single_session, offset_of,
    page_erased, programmed, range_erased, read_bytes, session_access, session_access_spec,
    FlashAccess, Function, Ownership, Session,
};
