//! Tests for the platform allocation primitives: error translation,
//! protection encoding, the page-size cache and the aligned-allocation
//! protocol.

use memory_manager::primitives::unix;
use memory_manager::primitives::windows;
use memory_manager::primitives::MMapError;
use memory_manager::primitives::Protection;
use memory_manager::primitives::ProtectionFlags;

#[test]
fn test_is_power_of_2() {
    assert!(unix::is_power_of_2(1));
    assert!(unix::is_power_of_2(2));
    assert!(unix::is_power_of_2(256));
    assert!(!unix::is_power_of_2(257));
}

#[test]
fn test_power_of_two_more_cases() {
    assert!(unix::is_power_of_2(4));
    assert!(unix::is_power_of_2(4096));
    assert!(!unix::is_power_of_2(0));
    assert!(!unix::is_power_of_2(3));
    assert!(!unix::is_power_of_2(6));
}

#[test]
fn test_make_protection_flag() {
    assert_eq!(windows::make_protection_flag(ProtectionFlags::none()), windows::PAGE_NOACCESS);
    assert_eq!(
        windows::make_protection_flag(
            ProtectionFlags::none().with(Protection::Read).with(Protection::Write)
        ),
        windows::PAGE_READWRITE
    );
    assert_eq!(
        windows::make_protection_flag(
            ProtectionFlags::none().with(Protection::Read).with(Protection::Exec)
        ),
        windows::PAGE_EXECUTE_READ
    );
    assert_eq!(
        windows::make_protection_flag(
            ProtectionFlags::none()
                .with(Protection::Read)
                .with(Protection::Write)
                .with(Protection::Exec)
        ),
        windows::PAGE_EXECUTE_READWRITE
    );
}

#[test]
fn test_make_protection_flag_write_implies_read() {
    let write_only = ProtectionFlags::none().with(Protection::Write);
    assert_eq!(windows::make_protection_flag(write_only), windows::PAGE_READWRITE);
    let exec_only = ProtectionFlags::none().with(Protection::Exec);
    assert_eq!(windows::make_protection_flag(exec_only), windows::PAGE_EXECUTE);
}

#[test]
fn test_unix_error_mapping() {
    assert_eq!(MMapError::from_errno(22), MMapError::InvalidArguments);
    assert_eq!(MMapError::from_errno(11), MMapError::TryAgain);
    assert_eq!(MMapError::from_errno(12), MMapError::NoMemory);
    assert_eq!(MMapError::from_errno(75), MMapError::LengthOverflow);
    assert_eq!(MMapError::from_errno(0), MMapError::NoError);
    assert_eq!(MMapError::from_errno(9999), MMapError::UnknownError(9999));
    assert_ne!(MMapError::from_errno(9999), MMapError::NoError);
}

#[test]
fn test_windows_error_mapping() {
    assert_eq!(MMapError::from_native_code(87), MMapError::InvalidArguments);
    assert_eq!(MMapError::from_native_code(0), MMapError::NoError);
    assert_eq!(MMapError::from_native_code(31), MMapError::UnknownError(31));
    assert_ne!(MMapError::from_native_code(31), MMapError::NoError);
}

#[test]
fn test_protection_bits() {
    assert_eq!(unix::protection_bits(ProtectionFlags::none()), 0);
    assert_eq!(unix::protection_bits(ProtectionFlags::none().with(Protection::Read)), 1);
    assert_eq!(unix::protection_bits(ProtectionFlags::none().with(Protection::Write)), 2);
    assert_eq!(unix::protection_bits(ProtectionFlags::none().with(Protection::Exec)), 4);
    let all = ProtectionFlags::none()
        .with(Protection::Read)
        .with(Protection::Write)
        .with(Protection::Exec);
    assert_eq!(unix::protection_bits(all), 7);
    assert!(all.contains(Protection::Read));
    assert!(all.contains(Protection::Write));
    assert!(all.contains(Protection::Exec));
    assert!(!ProtectionFlags::none().contains(Protection::Read));
}

#[test]
fn test_map_flag_bits() {
    let private_anonymous =
        unix::MapFlagSet::none().with(unix::MapFlags::Private).with(unix::MapFlags::Anonymous);
    assert_eq!(private_anonymous.bits(), 0x22);
    assert_eq!(unix::MapFlagSet::none().bits(), 0);
    assert_eq!(unix::MapFlagSet::none().with(unix::MapFlags::Shared).bits(), 0x1);
    assert_eq!(unix::MapFlagSet::none().with(unix::MapFlags::NoReserve).bits(), 0x4000);
}

#[test]
fn test_allocate_request() {
    let protection = ProtectionFlags::none().with(Protection::Read).with(Protection::Write);
    let request = unix::allocate_request(4096, protection).unwrap();
    assert_eq!(request.length, 4096);
    assert_eq!(request.protection_bits, 3);
    assert_eq!(request.flag_bits, 0x22);
    assert_eq!(
        unix::allocate_request(0, protection),
        Err(MMapError::InvalidArguments)
    );
}

#[test]
fn test_allocate_result() {
    assert_eq!(unix::allocate_result(Some(0x7000_0000), 0), Ok(0x7000_0000));
    assert_eq!(unix::allocate_result(None, 12), Err(MMapError::NoMemory));
    assert_eq!(unix::allocate_result(None, 11), Err(MMapError::TryAgain));
}

#[test]
fn test_deallocate_result() {
    assert_eq!(unix::deallocate_result(0, 0), Ok(()));
    assert_eq!(unix::deallocate_result(-1, 22), Err(MMapError::InvalidArguments));
}

#[test]
fn test_page_size_cache() {
    // A cold cache stores the first successful query...
    let mut cache = unix::PageSizeCache::new();
    assert_eq!(cache.get_page_size(4096, 0), Ok(4096));
    // ...and later calls return the identical value whatever the native
    // query produced, even a failure.
    assert_eq!(cache.get_page_size(-1, 12), Ok(4096));
    assert_eq!(cache.get_page_size(8192, 0), Ok(4096));
    assert_eq!(unix::get_minimum_alignment(&mut cache, -1, 22), Ok(4096));
}

#[test]
fn test_page_size_cache_failure_leaves_cache_cold() {
    let mut cache = unix::PageSizeCache::new();
    assert_eq!(cache.get_page_size(-1, 12), Err(MMapError::NoMemory));
    // The failure was not cached; the next successful query populates it.
    assert_eq!(cache.get_page_size(4096, 0), Ok(4096));
}

#[test]
fn test_windows_system_info_cache() {
    let mut cache = windows::SystemInfoCache::new();
    let queried = windows::SystemInfo { page_size: 4096, allocation_granularity: 65536 };
    assert_eq!(windows::get_page_size(&mut cache, queried), 4096);
    // The page size and the allocation granularity are distinct numbers.
    let other = windows::SystemInfo { page_size: 8192, allocation_granularity: 131072 };
    assert_eq!(windows::get_minimum_alignment(&mut cache, other), 65536);
    assert_eq!(windows::get_page_size(&mut cache, other), 4096);
}

#[test]
fn test_aligned_request() {
    let protection = ProtectionFlags::none();
    let request = unix::aligned_request(0x1000, 0x3000, protection);
    assert_eq!(request.length, 0x4000);
    assert_eq!(request.protection_bits, 0);
    assert_eq!(request.flag_bits, 0x22);
}

#[test]
fn test_aligned_trim_misaligned() {
    let plan = unix::aligned_trim(0x12345, 0x1000, 0x3000);
    assert_eq!(plan.start % 0x1000, 0);
    assert_eq!(plan.start, 0x13000);
    assert_eq!(plan.front_padding, 0x1000 - 0x345);
    assert_eq!(plan.back_padding, 0x345);
    assert_eq!(plan.start, 0x12345 + plan.front_padding);
    assert_eq!(plan.front_padding + plan.back_padding, 0x1000);
    assert_eq!(plan.start + 0x3000 + plan.back_padding, 0x12345 + 0x3000 + 0x1000);
}

#[test]
fn test_aligned_trim_already_aligned() {
    // A raw address that is already aligned trims a whole alignment of
    // front padding and no back padding.
    let plan = unix::aligned_trim(0x10000, 0x1000, 0x2000);
    assert_eq!(plan.front_padding, 0x1000);
    assert_eq!(plan.start, 0x11000);
    assert_eq!(plan.back_padding, 0);
    assert_eq!(plan.start % 0x1000, 0);
}
