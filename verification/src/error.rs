//! Error taxonomy of the hosting library.
//!
//! Every foreign call that fails surfaces here as a typed error carrying the
//! attempted operation and, where one exists, the numeric status code.

use vstd::prelude::*;
use vstd::string::StringExecFns;
use vstd::string::StrSliceExecFns;

verus! {

/// Errors reported by the hosting library.
#[derive(Debug, Clone, PartialEq, Eq)]
pub enum ClrError {
    /// The image could not be read from its source.
    FileReadError(String),
    /// A foreign call failed; carries the operation name and its status code.
    ApiError(String, i32),
    /// The entry point expected arguments but none were supplied.
    MissingArguments,
    /// An interface cast failed; carries the target type name.
    CastingError(String),
    /// The buffer is not a hostable executable image.
    InvalidExecutable,
    /// No method with the requested name or signature was found.
    MethodNotFound,
    /// No property with the requested name or signature was found.
    PropertyNotFound,
    /// The buffer lacks the managed-runtime metadata directory.
    NotDotNet,
    /// The process-wide runtime meta locator could not be created.
    MetaHostCreationError(String),
    /// No installed runtime matches the requested version tag.
    RuntimeInfoError(String),
    /// A runtime host control surface could not be obtained.
    RuntimeHostError(String),
    /// The runtime failed to start.
    RuntimeStartError,
    /// An execution context could not be created.
    DomainCreationError(String),
    /// The default execution context could not be obtained.
    DefaultDomainError(String),
    /// No execution context is available; `prepare` has not succeeded.
    NoDomainAvailable,
    /// A foreign call returned null where a handle was expected.
    NullPointerError(String),
    /// A foreign array could not be created.
    SafeArrayError(String),
    /// A tagged-union value of an unsupported type tag was encountered.
    VariantUnsupported,
    /// A free-form message.
    Msg(String),
    /// A free-form message.
    Message(String),
    /// The executable header could not be parsed.
    InvalidNtHeader,
}

/// The character for one decimal digit value.
pub open spec fn digit_char(d: int) -> char {
    if d == 0 {
        '0'
    } else if d == 1 {
        '1'
    } else if d == 2 {
        '2'
    } else if d == 3 {
        '3'
    } else if d == 4 {
        '4'
    } else if d == 5 {
        '5'
    } else if d == 6 {
        '6'
    } else if d == 7 {
        '7'
    } else if d == 8 {
        '8'
    } else {
        '9'
    }
}

/// Decimal digits of a non-negative number, most significant first.
pub open spec fn dec_chars(n: int) -> Seq<char>
    decreases n,
{
    if n < 10 {
        seq![digit_char(n)]
    } else {
        dec_chars(n / 10).push(digit_char(n % 10))
    }
}

/// Decimal rendering of a signed number: a minus sign before the digits of
/// its magnitude when it is negative.
pub open spec fn dec_chars_signed(n: int) -> Seq<char> {
    if n < 0 {
        seq!['-'] + dec_chars(-n)
    } else {
        dec_chars(n)
    }
}

/// One decimal digit as a borrowed one-character string.
fn digit_str(d: u32) -> (r: &'static str)
    requires
        d < 10,
    ensures
        r@ == seq![digit_char(d as int)],
{
    let digits = "0123456789";
    proof {
        reveal_strlit("0123456789");
    }
    let r = digits.substring_ascii(d as usize, d as usize + 1);
    proof {
        assert(r@ =~= seq![digit_char(d as int)]);
    }
    r
}

/// Renders a non-negative number in decimal.
fn dec_string(n: u32) -> (r: String)
    ensures
        r@ == dec_chars(n as int),
    decreases n,
{
    if n < 10 {
        let mut s = String::new();
        s.append(digit_str(n));
        proof {
            assert(s@ =~= dec_chars(n as int));
        }
        s
    } else {
        let mut s = dec_string(n / 10);
        s.append(digit_str(n % 10));
        proof {
            assert(s@ =~= dec_chars(n as int));
        }
        s
    }
}

/// Renders a signed number in decimal.
fn dec_string_signed(n: i32) -> (r: String)
    ensures
        r@ == dec_chars_signed(n as int),
{
    if n >= 0 {
        dec_string(n as u32)
    } else {
        let magnitude: u32 = (-(n as i64)) as u32;
        let mut s = String::new();
        s.append("-");
        proof {
            reveal_strlit("-");
        }
        let digits = dec_string(magnitude);
        s.append(digits.as_str());
        proof {
            assert(s@ =~= dec_chars_signed(n as int));
        }
        s
    }
}

/// The descriptive text of each error, as character sequences.
pub open spec fn spec_message(e: ClrError) -> Seq<char> {
    match e {
        ClrError::FileReadError(s) => "file read error: "@ + s@,
        ClrError::ApiError(name, hr) => name@ + " failed with HRESULT: "@ + dec_chars_signed(
            hr as int,
        ),
        ClrError::MissingArguments => "entrypoint expected arguments but received none"@,
        ClrError::CastingError(s) => "interface cast failed: "@ + s@,
        ClrError::InvalidExecutable => "invalid or unsupported executable buffer"@,
        ClrError::MethodNotFound => "method not found"@,
        ClrError::PropertyNotFound => "property not found"@,
        ClrError::NotDotNet => "not a .NET application"@,
        ClrError::MetaHostCreationError(s) => "metahost creation failed: "@ + s@,
        ClrError::RuntimeInfoError(s) => "runtime info retrieval failed: "@ + s@,
        ClrError::RuntimeHostError(s) => "runtime host retrieval failed: "@ + s@,
        ClrError::RuntimeStartError => "failed to start CLR runtime"@,
        ClrError::DomainCreationError(s) => "domain creation failed: "@ + s@,
        ClrError::DefaultDomainError(s) => "default domain retrieval failed: "@ + s@,
        ClrError::NoDomainAvailable => "no domain available in current runtime"@,
        ClrError::NullPointerError(s) => "null pointer: "@ + s@,
        ClrError::SafeArrayError(s) => "safearray creation failed: "@ + s@,
        ClrError::VariantUnsupported => "unsupported VARIANT type"@,
        ClrError::Msg(s) => s@,
        ClrError::Message(s) => s@,
        ClrError::InvalidNtHeader => "invalid PE file"@,
    }
}

impl ClrError {
    /// The descriptive text of the error.
    pub fn message(&self) -> (r: String)
        ensures
            r@ == spec_message(*self),
    {
        match self {
            ClrError::FileReadError(s) => {
                let mut m = String::from_str("file read error: ");
                m.append(s.as_str());
                m
            },
            ClrError::ApiError(name, hr) => {
                let mut m = String::from_str("");
                m.append(name.as_str());
                m.append(" failed with HRESULT: ");
                let digits = dec_string_signed(*hr);
                m.append(digits.as_str());
                proof {
                    reveal_strlit("");
                    assert(m@ =~= spec_message(*self));
                }
                m
            },
            ClrError::MissingArguments => String::from_str(
                "entrypoint expected arguments but received none",
            ),
            ClrError::CastingError(s) => {
                let mut m = String::from_str("interface cast failed: ");
                m.append(s.as_str());
                m
            },
            ClrError::InvalidExecutable => String::from_str(
                "invalid or unsupported executable buffer",
            ),
            ClrError::MethodNotFound => String::from_str("method not found"),
            ClrError::PropertyNotFound => String::from_str("property not found"),
            ClrError::NotDotNet => String::from_str("not a .NET application"),
            ClrError::MetaHostCreationError(s) => {
                let mut m = String::from_str("metahost creation failed: ");
                m.append(s.as_str());
                m
            },
            ClrError::RuntimeInfoError(s) => {
                let mut m = String::from_str("runtime info retrieval failed: ");
                m.append(s.as_str());
                m
            },
            ClrError::RuntimeHostError(s) => {
                let mut m = String::from_str("runtime host retrieval failed: ");
                m.append(s.as_str());
                m
            },
            ClrError::RuntimeStartError => String::from_str("failed to start CLR runtime"),
            ClrError::DomainCreationError(s) => {
                let mut m = String::from_str("domain creation failed: ");
                m.append(s.as_str());
                m
            },
            ClrError::DefaultDomainError(s) => {
                let mut m = String::from_str("default domain retrieval failed: ");
                m.append(s.as_str());
                m
            },
            ClrError::NoDomainAvailable => String::from_str(
                "no domain available in current runtime",
            ),
            ClrError::NullPointerError(s) => {
                let mut m = String::from_str("null pointer: ");
                m.append(s.as_str());
                m
            },
            ClrError::SafeArrayError(s) => {
                let mut m = String::from_str("safearray creation failed: ");
                m.append(s.as_str());
                m
            },
            ClrError::VariantUnsupported => String::from_str("unsupported VARIANT type"),
            ClrError::Msg(s) => s.clone(),
            ClrError::Message(s) => s.clone(),
            ClrError::InvalidNtHeader => String::from_str("invalid PE file"),
        }
    }
}

} // verus!
