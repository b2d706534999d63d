//! Image validation: confirms that a byte buffer is a well-formed native
//! executable image that additionally declares a managed-runtime metadata
//! directory.
//!
//! The validator is a pure function of the bytes. The header layout is the
//! portable-executable format: a DOS header whose trailing field points at
//! the NT headers (signature, file header, optional header), with the data
//! directories at the end of the optional header. The managed-metadata
//! directory is entry fourteen.

use vstd::prelude::*;
use crate::error::ClrError;

verus! {

/// First byte of the DOS magic, `'M'`.
pub const DOS_MAGIC_0: u8 = 0x4d;

/// Second byte of the DOS magic, `'Z'`.
pub const DOS_MAGIC_1: u8 = 0x5a;

/// Offset of the NT-headers offset field in the DOS header.
pub const NT_OFFSET_FIELD: usize = 60;

/// The NT signature, `"PE\0\0"` read as a little-endian doubleword.
pub const PE_SIGNATURE: u32 = 0x4550;

/// Optional-header magic of a 32-bit image.
pub const OPT_MAGIC_PE32: u16 = 0x10b;

/// Optional-header magic of a 64-bit image.
pub const OPT_MAGIC_PE32_PLUS: u16 = 0x20b;

/// File-characteristics bit: the image is executable.
pub const FILE_EXECUTABLE_IMAGE: u16 = 0x0002;

/// File-characteristics bit: the image is a library.
pub const FILE_DLL: u16 = 0x2000;

/// Subsystem value of images that run outside the ordinary user subsystems.
pub const SUBSYSTEM_NATIVE: u16 = 1;

/// Index of the managed-runtime descriptor among the data directories.
pub const COM_DESCRIPTOR_INDEX: usize = 14;

/// A 16-bit little-endian value read at `off`.
pub open spec fn u16_le(s: Seq<u8>, off: int) -> u16 {
    (s[off] + 0x100 * s[off + 1]) as u16
}

/// A 32-bit little-endian value read at `off`.
pub open spec fn u32_le(s: Seq<u8>, off: int) -> u32 {
    (s[off] + 0x100 * s[off + 1] + 0x10000 * s[off + 2] + 0x1000000 * s[off + 3]) as u32
}

/// Whether the bit selected by `bit` (a power of two) is set in `x`.
pub open spec fn bit_set(x: u16, bit: u16) -> bool {
    (x / bit) % 2 == 1
}

/// The buffer begins with a DOS header: the magic bytes and room for the
/// NT-headers offset field.
pub open spec fn dos_header_ok(s: Seq<u8>) -> bool {
    &&& s.len() >= 64
    &&& s[0] == DOS_MAGIC_0
    &&& s[1] == DOS_MAGIC_1
}

/// Offset of the NT headers, taken from the DOS header.
pub open spec fn nt_offset(s: Seq<u8>) -> int {
    u32_le(s, NT_OFFSET_FIELD as int) as int
}

/// Offset of the optional header: past the signature and the file header.
pub open spec fn opt_offset(s: Seq<u8>) -> int {
    nt_offset(s) + 24
}

/// The optional-header magic.
pub open spec fn opt_magic(s: Seq<u8>) -> u16 {
    u16_le(s, opt_offset(s))
}

/// Offset of the directory-count field of the optional header.
pub open spec fn dir_count_offset(s: Seq<u8>) -> int {
    opt_offset(s) + if opt_magic(s) == OPT_MAGIC_PE32 {
        92int
    } else {
        108int
    }
}

/// Offset of the managed-runtime descriptor entry among the data directories.
pub open spec fn com_entry_offset(s: Seq<u8>) -> int {
    opt_offset(s) + (if opt_magic(s) == OPT_MAGIC_PE32 {
        96int
    } else {
        112int
    }) + COM_DESCRIPTOR_INDEX * 8
}

/// The headers parse: DOS header, NT signature, a known optional-header
/// magic, and room in the buffer for the fixed optional header through the
/// directory-count field.
pub open spec fn headers_ok(s: Seq<u8>) -> bool {
    &&& dos_header_ok(s)
    &&& nt_offset(s) + 26 <= s.len()
    &&& u32_le(s, nt_offset(s)) == PE_SIGNATURE
    &&& (opt_magic(s) == OPT_MAGIC_PE32 || opt_magic(s) == OPT_MAGIC_PE32_PLUS)
    &&& dir_count_offset(s) + 4 <= s.len()
}

/// The file characteristics of the image.
pub open spec fn characteristics(s: Seq<u8>) -> u16 {
    u16_le(s, nt_offset(s) + 22)
}

/// The subsystem the image targets.
pub open spec fn subsystem(s: Seq<u8>) -> u16 {
    u16_le(s, opt_offset(s) + 68)
}

/// The headers describe a hostable executable: marked executable, not a
/// library, and not targeting the native subsystem.
pub open spec fn is_valid_executable(s: Seq<u8>) -> bool {
    &&& bit_set(characteristics(s), FILE_EXECUTABLE_IMAGE)
    &&& !bit_set(characteristics(s), FILE_DLL)
    &&& subsystem(s) != SUBSYSTEM_NATIVE
}

/// The image declares a managed-runtime metadata directory: the descriptor
/// entry is present and has a nonzero address and size.
pub open spec fn is_dotnet(s: Seq<u8>) -> bool {
    &&& u32_le(s, dir_count_offset(s)) > COM_DESCRIPTOR_INDEX
    &&& com_entry_offset(s) + 8 <= s.len()
    &&& u32_le(s, com_entry_offset(s)) != 0
    &&& u32_le(s, com_entry_offset(s) + 4) != 0
}

/// What `validate_file` decides for a buffer: the first failure among header
/// parsing, executable shape and managed metadata, else success.
pub open spec fn spec_validate(s: Seq<u8>) -> Result<(), ClrError> {
    if !headers_ok(s) {
        Err(ClrError::InvalidNtHeader)
    } else if !is_valid_executable(s) {
        Err(ClrError::InvalidExecutable)
    } else if !is_dotnet(s) {
        Err(ClrError::NotDotNet)
    } else {
        Ok(())
    }
}

/// A 16-bit little-endian read.
fn u16_at(b: &[u8], off: usize) -> (r: u16)
    requires
        off + 2 <= b@.len(),
    ensures
        r == u16_le(b@, off as int),
{
    (b[off] as u16) + 0x100 * (b[off + 1] as u16)
}

/// A 32-bit little-endian read.
fn u32_at(b: &[u8], off: usize) -> (r: u32)
    requires
        off + 4 <= b@.len(),
    ensures
        r == u32_le(b@, off as int),
{
    (b[off] as u32) + 0x100 * (b[off + 1] as u32) + 0x10000 * (b[off + 2] as u32) + 0x1000000 * (b[
        off + 3] as u32)
}

/// Validates that the buffer is a well-formed hostable executable image that
/// declares managed-runtime metadata. A pure function of the bytes: fails
/// with `InvalidNtHeader` when the headers cannot be parsed, with
/// `InvalidExecutable` when the image is a library, is not marked executable
/// or targets the native subsystem, and with `NotDotNet` when the
/// managed-metadata directory entry is absent or zero-sized.
pub fn validate_file(buffer: &[u8]) -> (r: Result<(), ClrError>)
    ensures
        r == spec_validate(buffer@),
        r is Ok <==> headers_ok(buffer@) && is_valid_executable(buffer@) && is_dotnet(buffer@),
{
    let len = buffer.len();
    if len < 64 {
        return Err(ClrError::InvalidNtHeader);
    }
    if !(buffer[0] == DOS_MAGIC_0 && buffer[1] == DOS_MAGIC_1) {
        return Err(ClrError::InvalidNtHeader);
    }
    let nt_u32 = u32_at(buffer, NT_OFFSET_FIELD);
    let nt = nt_u32 as usize;
    if len < 26 || nt > len - 26 {
        return Err(ClrError::InvalidNtHeader);
    }
    if u32_at(buffer, nt) != PE_SIGNATURE {
        return Err(ClrError::InvalidNtHeader);
    }
    let magic = u16_at(buffer, nt + 24);
    if !(magic == OPT_MAGIC_PE32 || magic == OPT_MAGIC_PE32_PLUS) {
        return Err(ClrError::InvalidNtHeader);
    }
    // Room for the fixed optional header through the directory-count field.
    let need: usize = if magic == OPT_MAGIC_PE32 {
        120
    } else {
        136
    };
    if len < need || nt > len - need {
        return Err(ClrError::InvalidNtHeader);
    }

    let chars = u16_at(buffer, nt + 22);
    let subsys = u16_at(buffer, nt + 24 + 68);
    let executable = (chars / FILE_EXECUTABLE_IMAGE) % 2 == 1;
    let library = (chars / FILE_DLL) % 2 == 1;
    if !(executable && !library && subsys != SUBSYSTEM_NATIVE) {
        return Err(ClrError::InvalidExecutable);
    }

    let dir_count_off: usize = nt + 24 + if magic == OPT_MAGIC_PE32 {
        92
    } else {
        108
    };
    let ndirs = u32_at(buffer, dir_count_off);
    if ndirs <= COM_DESCRIPTOR_INDEX as u32 {
        return Err(ClrError::NotDotNet);
    }
    let com_need: usize = if magic == OPT_MAGIC_PE32 {
        240
    } else {
        256
    };
    if len < com_need || nt > len - com_need {
        return Err(ClrError::NotDotNet);
    }
    let com_off: usize = nt + 24 + (if magic == OPT_MAGIC_PE32 {
        96
    } else {
        112
    }) + COM_DESCRIPTOR_INDEX * 8;
    let virtual_address = u32_at(buffer, com_off);
    let size = u32_at(buffer, com_off + 4);
    if virtual_address != 0 && size != 0 {
        Ok(())
    } else {
        Err(ClrError::NotDotNet)
    }
}

/// No buffer that parses as an executable image but lacks managed metadata
/// is ever accepted: validation reports the library or subsystem defect when
/// there is one, and the missing metadata directory otherwise.
pub proof fn lemma_validate_never_accepts_unmanaged(s: Seq<u8>)
    requires
        headers_ok(s),
        !is_dotnet(s),
    ensures
        spec_validate(s) == if !is_valid_executable(s) {
            Err::<(), ClrError>(ClrError::InvalidExecutable)
        } else {
            Err::<(), ClrError>(ClrError::NotDotNet)
        },
{
}

/// Every buffer that parses as a hostable executable image and declares
/// managed metadata is accepted.
pub proof fn lemma_validate_accepts_managed(s: Seq<u8>)
    requires
        headers_ok(s),
        is_valid_executable(s),
        is_dotnet(s),
    ensures
        spec_validate(s) == Ok::<(), ClrError>(()),
{
}

} // verus!
