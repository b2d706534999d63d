use rustclr::error::ClrError;
use rustclr::image::validate_file;

/// Builds an executable-image buffer with the given header fields.
fn make_pe(
    pe32_plus: bool,
    characteristics: u16,
    subsystem: u16,
    ndirs: u32,
    com_va: u32,
    com_size: u32,
) -> Vec<u8> {
    let mut b = vec![0u8; 0x200];
    b[0] = 0x4d;
    b[1] = 0x5a;
    let nt: u32 = 0x80;
    b[60..64].copy_from_slice(&nt.to_le_bytes());
    let nt = nt as usize;
    b[nt..nt + 4].copy_from_slice(&0x4550u32.to_le_bytes());
    b[nt + 22..nt + 24].copy_from_slice(&characteristics.to_le_bytes());
    let opt = nt + 24;
    let magic: u16 = if pe32_plus { 0x20b } else { 0x10b };
    b[opt..opt + 2].copy_from_slice(&magic.to_le_bytes());
    b[opt + 68..opt + 70].copy_from_slice(&subsystem.to_le_bytes());
    let ndir_off = opt + if pe32_plus { 108 } else { 92 };
    b[ndir_off..ndir_off + 4].copy_from_slice(&ndirs.to_le_bytes());
    let com = opt + if pe32_plus { 112 } else { 96 } + 14 * 8;
    b[com..com + 4].copy_from_slice(&com_va.to_le_bytes());
    b[com + 4..com + 8].copy_from_slice(&com_size.to_le_bytes());
    b
}

/// A well-formed managed console executable, 64-bit.
fn managed_exe_pe64() -> Vec<u8> {
    make_pe(true, 0x0022, 3, 16, 0x2008, 0x48)
}

#[test]
fn test_validate_accepts_managed_pe64() {
    assert_eq!(validate_file(&managed_exe_pe64()), Ok(()));
}

#[test]
fn test_validate_accepts_managed_pe32() {
    let b = make_pe(false, 0x0102, 2, 16, 0x2008, 0x48);
    assert_eq!(validate_file(&b), Ok(()));
}

#[test]
fn test_validate_rejects_dll() {
    let b = make_pe(true, 0x2022, 3, 16, 0x2008, 0x48);
    assert_eq!(validate_file(&b), Err(ClrError::InvalidExecutable));
}

#[test]
fn test_validate_rejects_non_executable() {
    let b = make_pe(true, 0x0020, 3, 16, 0x2008, 0x48);
    assert_eq!(validate_file(&b), Err(ClrError::InvalidExecutable));
}

#[test]
fn test_validate_rejects_native_subsystem() {
    let b = make_pe(true, 0x0022, 1, 16, 0x2008, 0x48);
    assert_eq!(validate_file(&b), Err(ClrError::InvalidExecutable));
}

#[test]
fn test_validate_rejects_unmanaged_zero_address() {
    let b = make_pe(true, 0x0022, 3, 16, 0, 0x48);
    assert_eq!(validate_file(&b), Err(ClrError::NotDotNet));
}

#[test]
fn test_validate_rejects_unmanaged_zero_size() {
    let b = make_pe(true, 0x0022, 3, 16, 0x2008, 0);
    assert_eq!(validate_file(&b), Err(ClrError::NotDotNet));
}

#[test]
fn test_validate_rejects_absent_directory_entry() {
    let b = make_pe(true, 0x0022, 3, 14, 0x2008, 0x48);
    assert_eq!(validate_file(&b), Err(ClrError::NotDotNet));
}

#[test]
fn test_validate_rejects_empty_buffer() {
    assert_eq!(validate_file(&[]), Err(ClrError::InvalidNtHeader));
}

#[test]
fn test_validate_rejects_short_buffer() {
    assert_eq!(validate_file(&[0x4d, 0x5a, 0, 0]), Err(ClrError::InvalidNtHeader));
}

#[test]
fn test_validate_rejects_wrong_dos_magic() {
    let mut b = managed_exe_pe64();
    b[0] = 0x50;
    assert_eq!(validate_file(&b), Err(ClrError::InvalidNtHeader));
}

#[test]
fn test_validate_rejects_wrong_nt_signature() {
    let mut b = managed_exe_pe64();
    b[0x80] = 0;
    assert_eq!(validate_file(&b), Err(ClrError::InvalidNtHeader));
}

#[test]
fn test_validate_rejects_unknown_optional_magic() {
    let mut b = managed_exe_pe64();
    b[0x98] = 0x0c;
    assert_eq!(validate_file(&b), Err(ClrError::InvalidNtHeader));
}

#[test]
fn test_validate_rejects_truncated_optional_header() {
    let b = managed_exe_pe64();
    assert_eq!(validate_file(&b[..0x90]), Err(ClrError::InvalidNtHeader));
}
