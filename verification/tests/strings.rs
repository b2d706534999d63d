use rustclr::error::ClrError;
use rustclr::guid::uuid_string;
use rustclr::version::RuntimeVersion;
use rustclr::wide::{
    encode_utf16, encode_wide_nul, str_contains, str_ends_with, str_eq, utf16_to_string_lossy,
    Bstr, ComString,
};

fn units(s: &str) -> Vec<u16> {
    s.encode_utf16().collect()
}

fn units_nul(s: &str) -> Vec<u16> {
    s.encode_utf16().chain(Some(0)).collect::<Vec<u16>>()
}

#[test]
fn test_version_to_vec_v4() {
    assert_eq!(RuntimeVersion::V4.to_vec(), units_nul("v4.0.30319"));
}

#[test]
fn test_version_to_vec_v2() {
    assert_eq!(RuntimeVersion::V2.to_vec(), units_nul("v2.0.50727"));
}

#[test]
fn test_version_to_vec_v3() {
    assert_eq!(RuntimeVersion::V3.to_vec(), units_nul("v3.0"));
}

#[test]
fn test_version_to_vec_unknown() {
    assert_eq!(RuntimeVersion::UNKNOWN.to_vec(), units_nul("UNKNOWN"));
}

#[test]
fn test_encode_utf16_ascii() {
    assert_eq!(encode_utf16("ab"), vec![0x61, 0x62]);
}

#[test]
fn test_encode_utf16_surrogate_pair() {
    assert_eq!(encode_utf16("\u{1F600}"), vec![0xd83d, 0xde00]);
}

#[test]
fn test_encode_utf16_matches_std() {
    let s = "mscorlib \u{00e9}\u{1F600} end";
    assert_eq!(encode_utf16(s), units(s));
}

#[test]
fn test_encode_wide_nul_appends_terminator() {
    assert_eq!(encode_wide_nul(""), vec![0]);
    assert_eq!(encode_wide_nul("A"), vec![0x41, 0]);
}

#[test]
fn test_bstr_new_is_null() {
    let b = Bstr::new();
    assert!(b.is_null());
    assert_eq!(b.len(), 0);
    assert_eq!(b.into_raw(), Vec::<u16>::new());
}

#[test]
fn test_bstr_from_str() {
    let b = Bstr::from_str("abc");
    assert!(!b.is_null());
    assert_eq!(b.len(), 3);
    assert_eq!(b.as_units(), &vec![0x61, 0x62, 0x63]);
    assert_eq!(b.into_raw(), vec![0x61, 0x62, 0x63]);
}

#[test]
fn test_bstr_from_empty_str_is_null() {
    assert!(Bstr::from_str("").is_null());
}

#[test]
fn test_bstr_default_is_null() {
    assert!(Bstr::default().is_null());
}

#[test]
fn test_bstr_from_wide() {
    let b = Bstr::from_wide(&[1, 2, 3]);
    assert_eq!(b.into_raw(), vec![1, 2, 3]);
}

#[test]
fn test_com_string_on_str_and_string() {
    assert_eq!("hi".to_bstr_owned().into_raw(), vec![0x68, 0x69]);
    assert_eq!(String::from("hi").to_bstr_owned().into_raw(), vec![0x68, 0x69]);
}

#[test]
fn test_str_eq() {
    assert!(str_eq("abc", "abc"));
    assert!(!str_eq("abc", "abd"));
    assert!(!str_eq("abc", "ab"));
    assert!(str_eq("", ""));
}

#[test]
fn test_str_ends_with() {
    assert!(str_ends_with("Int32 Main()", "Main()"));
    assert!(!str_ends_with("Int32 Main(Boolean)", "Main()"));
    assert!(!str_ends_with("in()", "Main()"));
    assert!(str_ends_with("x", ""));
}

#[test]
fn test_str_contains() {
    assert!(str_contains("mscorlib, Version=4.0.0.0", "mscorlib"));
    assert!(str_contains("abc", ""));
    assert!(str_contains("abc", "bc"));
    assert!(!str_contains("abc", "bd"));
    assert!(!str_contains("ab", "abc"));
}

#[test]
fn test_to_string_lossy_round_trip() {
    let text = "mscorlib \u{00e9}\u{1F600} end";
    assert_eq!(Bstr::from_str(text).to_string_lossy(), text);
    assert_eq!(Bstr::new().to_string_lossy(), "");
}

#[test]
fn test_to_string_lossy_replaces_unpaired_surrogates() {
    assert_eq!(utf16_to_string_lossy(&[0xd800, 0x61]), "\u{fffd}a");
    assert_eq!(utf16_to_string_lossy(&[0x61, 0xdc00]), "a\u{fffd}");
    assert_eq!(utf16_to_string_lossy(&[0xd83d, 0xde00]), "\u{1F600}");
}

#[test]
fn test_uuid_string_formats_guid() {
    let bytes: Vec<u8> = (0u8..16).collect();
    assert_eq!(uuid_string(&bytes), "00010203-0405-0607-0809-0a0b0c0d0e0f");
}

#[test]
fn test_uuid_string_high_nibbles() {
    let bytes = vec![0xffu8; 16];
    assert_eq!(uuid_string(&bytes), "ffffffff-ffff-ffff-ffff-ffffffffffff");
}

#[test]
fn test_error_message_api_error() {
    let e = ClrError::ApiError("CreateDomain".to_string(), -2147024894);
    assert_eq!(e.message(), "CreateDomain failed with HRESULT: -2147024894");
}

#[test]
fn test_error_message_plain_variants() {
    assert_eq!(ClrError::MethodNotFound.message(), "method not found");
    assert_eq!(ClrError::NotDotNet.message(), "not a .NET application");
    assert_eq!(
        ClrError::InvalidExecutable.message(),
        "invalid or unsupported executable buffer"
    );
    assert_eq!(ClrError::InvalidNtHeader.message(), "invalid PE file");
    assert_eq!(ClrError::RuntimeStartError.message(), "failed to start CLR runtime");
    assert_eq!(
        ClrError::NoDomainAvailable.message(),
        "no domain available in current runtime"
    );
}

#[test]
fn test_error_message_with_detail() {
    let e = ClrError::RuntimeInfoError("0x80131700".to_string());
    assert_eq!(e.message(), "runtime info retrieval failed: 0x80131700");
    assert_eq!(ClrError::Msg("plain".to_string()).message(), "plain");
}
