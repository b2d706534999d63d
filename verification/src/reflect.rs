//! Reflection invocation decisions: member-binding flags, exact-match
//! signature lookup, and entry-point dispatch.
//!
//! The runtime recognises exactly two entry-point shapes: a no-argument form
//! and a single-string-array-argument form. Any other shape is rejected.

use vstd::prelude::*;
use crate::error::ClrError;
use crate::variant::{create_safe_array_args, SafeArrayVariant, SpecVariant};
use crate::variant::utf16_all;
use crate::wide::{contains_seq, ends_with, str_contains, str_ends_with, str_eq};

verus! {

/// Binding flag: search instance members.
pub const BINDING_INSTANCE: u32 = 4;

/// Binding flag: search static members.
pub const BINDING_STATIC: u32 = 8;

/// Binding flag: search public members.
pub const BINDING_PUBLIC: u32 = 16;

/// Binding flag: search non-public members.
pub const BINDING_NONPUBLIC: u32 = 32;

/// Binding flag: include inherited members in the search.
pub const BINDING_FLATTEN_HIERARCHY: u32 = 64;

/// Binding flag: the member to bind is a method to invoke.
pub const BINDING_INVOKE_METHOD: u32 = 256;

/// Specifies whether a method is invoked on a type or on an instance.
#[derive(Debug, Clone, Copy, PartialEq, Eq, Structural)]
pub enum Invocation {
    /// The method to invoke is static.
    Static,
    /// The method to invoke is an instance method.
    Instance,
}

/// The binding flags used to invoke a method: public and non-public members
/// are searched, static or instance ones as requested.
pub open spec fn spec_invocation_flags(invocation: Invocation) -> u32 {
    match invocation {
        Invocation::Static => BINDING_NONPUBLIC | BINDING_PUBLIC | BINDING_STATIC
            | BINDING_INVOKE_METHOD,
        Invocation::Instance => BINDING_NONPUBLIC | BINDING_PUBLIC | BINDING_INSTANCE
            | BINDING_INVOKE_METHOD,
    }
}

/// The binding flags used to invoke a method.
pub fn invocation_flags(invocation: Invocation) -> (r: u32)
    ensures
        r == spec_invocation_flags(invocation),
{
    match invocation {
        Invocation::Static => BINDING_NONPUBLIC | BINDING_PUBLIC | BINDING_STATIC
            | BINDING_INVOKE_METHOD,
        Invocation::Instance => BINDING_NONPUBLIC | BINDING_PUBLIC | BINDING_INSTANCE
            | BINDING_INVOKE_METHOD,
    }
}

/// The binding flags used to enumerate or look up members: public,
/// non-public, instance, static and inherited members all at once.
pub open spec fn spec_member_search_flags() -> u32 {
    BINDING_PUBLIC | BINDING_INSTANCE | BINDING_STATIC | BINDING_FLATTEN_HIERARCHY
        | BINDING_NONPUBLIC
}

/// The binding flags used to enumerate or look up members.
pub fn member_search_flags() -> (r: u32)
    ensures
        r == spec_member_search_flags(),
{
    BINDING_PUBLIC | BINDING_INSTANCE | BINDING_STATIC | BINDING_FLATTEN_HIERARCHY
        | BINDING_NONPUBLIC
}

/// Finds the first member whose canonical string representation equals the
/// requested signature exactly. Returns its position, or nothing when no
/// member matches.
pub fn find_signature(names: &Vec<String>, target: &str) -> (r: Option<usize>)
    ensures
        r matches Some(k) ==> k < names@.len() && names@[k as int]@ == target@ && (forall|j: int|
            0 <= j < k ==> names@[j]@ != target@),
        r is None ==> forall|j: int| 0 <= j < names@.len() ==> names@[j]@ != target@,
{
    let n = names.len();
    let mut i: usize = 0;
    while i < n
        invariant
            i <= n,
            n == names@.len(),
            forall|j: int| 0 <= j < i ==> names@[j]@ != target@,
        decreases n - i,
    {
        if str_eq(names[i].as_str(), target) {
            return Some(i);
        }
        i += 1;
    }
    None
}

/// Finds the first loaded assembly whose display name contains the requested
/// fragment. Returns its position, or nothing when no name contains it.
pub fn find_assembly(names: &Vec<String>, fragment: &str) -> (r: Option<usize>)
    ensures
        r matches Some(k) ==> k < names@.len() && contains_seq(names@[k as int]@, fragment@) && (
        forall|j: int| 0 <= j < k ==> !contains_seq(names@[j]@, fragment@)),
        r is None ==> forall|j: int| 0 <= j < names@.len() ==> !contains_seq(
            names@[j]@,
            fragment@,
        ),
{
    let n = names.len();
    let mut i: usize = 0;
    while i < n
        invariant
            i <= n,
            n == names@.len(),
            forall|j: int| 0 <= j < i ==> !contains_seq(names@[j]@, fragment@),
        decreases n - i,
    {
        if str_contains(names[i].as_str(), fragment) {
            return Some(i);
        }
        i += 1;
    }
    None
}

/// The two entry-point shapes the dispatcher recognises.
#[derive(Debug, Clone, Copy, PartialEq, Eq, Structural)]
pub enum EntryPointForm {
    /// The no-argument form.
    NoArgs,
    /// The single-string-array-argument form.
    StringArray,
}

/// The shape of an entry point, judged from the method's canonical string
/// representation: the no-argument form, the string-array form, or neither.
pub open spec fn spec_entry_point_form(sig: Seq<char>) -> Option<EntryPointForm> {
    if ends_with(sig, "Main()"@) {
        Some(EntryPointForm::NoArgs)
    } else if ends_with(sig, "Main(System.String[])"@) {
        Some(EntryPointForm::StringArray)
    } else {
        None
    }
}

/// Judges the shape of an entry point from its canonical string
/// representation.
pub fn entry_point_form(signature: &str) -> (r: Option<EntryPointForm>)
    ensures
        r == spec_entry_point_form(signature@),
{
    if str_ends_with(signature, "Main()") {
        Some(EntryPointForm::NoArgs)
    } else if str_ends_with(signature, "Main(System.String[])") {
        Some(EntryPointForm::StringArray)
    } else {
        None
    }
}

/// How the entry point is to be invoked.
#[derive(Debug, Clone)]
pub enum EntryPointInvocation {
    /// Invoke with no argument container at all.
    WithoutArgs,
    /// Invoke with the given argument container.
    WithArgs(SafeArrayVariant),
}

/// The configured arguments, or none when none were configured.
pub open spec fn spec_configured_args(args: Option<Vec<String>>) -> Seq<String> {
    match args {
        Some(v) => v@,
        None => Seq::empty(),
    }
}

/// Plans the entry-point invocation from the method's canonical string
/// representation and the configured arguments. A no-argument entry point is
/// invoked without arguments even when arguments were configured; a
/// string-array entry point receives exactly the configured arguments in
/// order, and an empty array when none were configured; any other shape
/// fails with `MethodNotFound`.
pub fn plan_entry_point(signature: &str, args: Option<Vec<String>>) -> (r: Result<
    EntryPointInvocation,
    ClrError,
>)
    ensures
        spec_entry_point_form(signature@) is None <==> r == Err::<EntryPointInvocation, ClrError>(
            ClrError::MethodNotFound,
        ),
        spec_entry_point_form(signature@) == Some(EntryPointForm::NoArgs) ==> (r matches Ok(p)
            && p is WithoutArgs),
        spec_entry_point_form(signature@) == Some(EntryPointForm::StringArray) ==> (r matches Ok(p)
            && p matches EntryPointInvocation::WithArgs(a) && a@ == seq![
            SpecVariant::StrArray(utf16_all(spec_configured_args(args))),
        ]),
{
    match entry_point_form(signature) {
        Some(EntryPointForm::NoArgs) => Ok(EntryPointInvocation::WithoutArgs),
        Some(EntryPointForm::StringArray) => {
            let configured = match args {
                Some(v) => v,
                None => Vec::new(),
            };
            proof {
                assert(utf16_all(Seq::<String>::empty()) =~= Seq::<Seq<u16>>::empty());
            }
            Ok(EntryPointInvocation::WithArgs(create_safe_array_args(configured)))
        },
        None => Err(ClrError::MethodNotFound),
    }
}

/// Entry-point dispatch: a signature of the no-argument form is always
/// dispatched without arguments, whatever was configured; a signature of the
/// string-array form is dispatched with exactly the configured argument
/// strings, in order, and with an empty array when none were configured; no
/// other signature is dispatched.
pub proof fn lemma_entry_point_dispatch(sig: Seq<char>, args: Option<Vec<String>>)
    ensures
        ends_with(sig, "Main()"@) ==> spec_entry_point_form(sig) == Some(EntryPointForm::NoArgs),
        !ends_with(sig, "Main()"@) && ends_with(sig, "Main(System.String[])"@)
            ==> spec_entry_point_form(sig) == Some(EntryPointForm::StringArray),
        !ends_with(sig, "Main()"@) && !ends_with(sig, "Main(System.String[])"@)
            ==> spec_entry_point_form(sig) is None,
        utf16_all(spec_configured_args(args)).len() == spec_configured_args(args).len(),
        forall|k: int| 0 <= k < spec_configured_args(args).len() ==> #[trigger] utf16_all(
            spec_configured_args(args),
        )[k] == crate::wide::utf16(spec_configured_args(args)[k]@),
        args is None ==> utf16_all(spec_configured_args(args)) =~= Seq::<Seq<u16>>::empty(),
{
}

} // verus!
