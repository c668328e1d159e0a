use flash_algo::{
    check_write_addr, classify, resolve_page, route_verify, session_access, ErrorCode,
    FlashAccess, Function, Ownership, VerifyRequest, ADDRESS_INVALID, FLASH_BASE, FLASH_SIZE,
    MASS_ERASE_FAILED, OPERATION_FAILED, PAGE_COUNT, PAGE_SIZE,
};

fn prior() -> FlashAccess {
    FlashAccess {
        icache: true,
        dcache: true,
        prefetch: true,
        icache_reset: false,
        dcache_reset: false,
        wait_states: 2,
    }
}

#[test]
fn error_code_new_rejects_zero() {
    assert!(ErrorCode::new(0).is_none());
    assert_eq!(ErrorCode::new(0x70d0).unwrap().get(), 0x70d0);
}

#[test]
fn erase_sector_outside_region_is_address_error() {
    for a in [0u32, FLASH_BASE - PAGE_SIZE, FLASH_BASE - 1, FLASH_BASE + FLASH_SIZE, 0x0804_0800, u32::MAX] {
        let r = resolve_page(a);
        assert_eq!(r.unwrap_err().get(), ADDRESS_INVALID);
    }
}

#[test]
fn erase_sector_misaligned_is_address_error() {
    for a in [FLASH_BASE + 1, FLASH_BASE + 8, FLASH_BASE + PAGE_SIZE - 1, FLASH_BASE + FLASH_SIZE - 1] {
        assert_eq!(resolve_page(a).unwrap_err().get(), ADDRESS_INVALID);
    }
}

#[test]
fn erase_sector_page_start_resolves_to_its_page() {
    let first = resolve_page(0x0800_0000).unwrap();
    assert_eq!(first.index(), 0);
    assert_eq!(first.start(), 0x0800_0000);
    let second = resolve_page(0x0800_0800).unwrap();
    assert_eq!(second.index(), 1);
    assert_eq!(second.start(), 0x0800_0800);
    let last = resolve_page(0x0803_F800).unwrap();
    assert_eq!(last.index() as u32, PAGE_COUNT - 1);
    assert_eq!(last.start(), 0x0803_F800);
}

#[test]
fn every_page_start_resolves_exactly() {
    for i in 0..PAGE_COUNT {
        let a = FLASH_BASE + i * PAGE_SIZE;
        let p = resolve_page(a).unwrap();
        assert_eq!(p.index() as u32, i);
        assert_eq!(p.start(), a);
    }
}

#[test]
fn program_misaligned_is_address_error() {
    for a in [FLASH_BASE + 1, FLASH_BASE + 4, FLASH_BASE + 7, FLASH_BASE + 0x804] {
        assert_eq!(check_write_addr(a).unwrap_err().get(), ADDRESS_INVALID);
    }
}

#[test]
fn program_outside_region_is_address_error() {
    for a in [0u32, FLASH_BASE - 8, FLASH_BASE + FLASH_SIZE, 0xFFFF_FFF8] {
        assert_eq!(check_write_addr(a).unwrap_err().get(), ADDRESS_INVALID);
    }
}

#[test]
fn program_aligned_address_is_accepted() {
    assert_eq!(check_write_addr(FLASH_BASE).unwrap().addr(), FLASH_BASE);
    assert_eq!(check_write_addr(0x0800_0808).unwrap().addr(), 0x0800_0808);
    assert_eq!(check_write_addr(FLASH_BASE + FLASH_SIZE - 8).unwrap().addr(), 0x0803_FFF8);
}

#[test]
fn verify_known_commands_succeed() {
    assert_eq!(route_verify(0xFFFF_F001, 0, None), Ok(()));
    assert_eq!(route_verify(0xFFFF_F002, 16, Some(&[1u8, 2, 3][..])), Ok(()));
    assert_eq!(classify(0xFFFF_F001), VerifyRequest::ReadDeviceUid);
    assert_eq!(classify(0xFFFF_F002), VerifyRequest::RunSelfTest);
}

#[test]
fn verify_unknown_command_is_address_error() {
    for a in [0xFFFF_F000u32, 0xFFFF_F003, 0xFFFF_F800, 0xFFFF_FFF0] {
        assert_eq!(route_verify(a, 0, None).unwrap_err().get(), ADDRESS_INVALID);
        assert_eq!(classify(a), VerifyRequest::Unknown(a));
    }
}

#[test]
fn verify_data_address_always_succeeds() {
    let data = [0x12u8, 0x34, 0x56, 0x78];
    for a in [0u32, FLASH_BASE, 0x0803_FFFC, 0xFFFF_EFFF, 0xFFFF_FFF1, u32::MAX] {
        assert_eq!(route_verify(a, 4, Some(&data[..])), Ok(()));
        assert_eq!(route_verify(a, 4, None), Ok(()));
        assert_eq!(classify(a), VerifyRequest::Data(a));
    }
}

#[test]
fn session_verify_commands_leave_session_alone() {
    let mut owner = Ownership::new();
    let s = owner.initialize(FLASH_BASE, 16_000_000, Function::Verify, prior()).unwrap();
    assert_eq!(s.verify(0xFFFF_F001, 0, None), Ok(()));
    assert_eq!(s.verify(0xFFFF_F002, 0, None), Ok(()));
    assert_eq!(s.verify(FLASH_BASE, 4, Some(&[0u8, 0, 0, 0][..])), Ok(()));
    assert_eq!(s.function_kind(), Function::Verify);
    assert_eq!(s.prior_access(), prior());
}

#[test]
fn second_initialize_without_teardown_fails() {
    let mut owner = Ownership::new();
    assert!(!owner.held());
    let s = owner.initialize(FLASH_BASE, 16_000_000, Function::Erase, prior());
    assert!(s.is_some());
    assert!(owner.held());
    assert!(owner.initialize(FLASH_BASE, 16_000_000, Function::Program, prior()).is_none());
    let restored = owner.teardown(s.unwrap());
    assert_eq!(restored, prior());
    assert!(!owner.held());
    assert!(owner.initialize(FLASH_BASE, 16_000_000, Function::Program, prior()).is_some());
}

#[test]
fn session_access_disables_caches() {
    let a = session_access();
    assert!(!a.icache && !a.dcache && !a.prefetch);
    assert!(a.icache_reset && a.dcache_reset);
    assert_eq!(a.wait_states, 0);
}

#[test]
fn erase_all_outcomes() {
    let mut owner = Ownership::new();
    let mut s = owner.initialize(FLASH_BASE, 0, Function::Erase, prior()).unwrap();
    assert_eq!(s.erase_all(true), Ok(()));
    assert_eq!(s.erase_all(true), Ok(()));
    assert_eq!(s.erase_all(false).unwrap_err().get(), MASS_ERASE_FAILED);
    assert_eq!(s.erase_all(true), Ok(()));
}

#[test]
fn erase_sector_outcomes() {
    let mut owner = Ownership::new();
    let mut s = owner.initialize(FLASH_BASE, 0, Function::Erase, prior()).unwrap();
    assert_eq!(s.erase_sector_target(0x0800_1001).unwrap_err().get(), ADDRESS_INVALID);
    let page = s.erase_sector_target(0x0800_1000).unwrap();
    assert_eq!(page.index(), 2);
    assert_eq!(s.erase_sector(page, true), Ok(()));
    assert_eq!(s.erase_sector(page, false).unwrap_err().get(), OPERATION_FAILED);
}

#[test]
fn program_page_outcomes() {
    let mut owner = Ownership::new();
    let mut s = owner.initialize(FLASH_BASE, 0, Function::Program, prior()).unwrap();
    assert_eq!(s.program_target(0x0800_0003).unwrap_err().get(), ADDRESS_INVALID);
    let dest = s.program_target(0x0800_0010).unwrap();
    assert_eq!(dest.addr(), 0x0800_0010);
    let data = [1u8, 2, 3, 4, 5, 6, 7, 8];
    assert_eq!(s.program_page(dest, &data, true), Ok(()));
    assert_eq!(s.program_page(dest, &data, false).unwrap_err().get(), OPERATION_FAILED);
}
