//! Argument and result marshaling: the tagged-union value representation the
//! runtime's invocation surface takes, and the construction of the ordered
//! argument arrays handed to it.

use vstd::prelude::*;
use crate::wide::{utf16, Bstr};

verus! {

/// Type tag of an empty value.
pub const VT_EMPTY: u16 = 0;

/// Type tag of a 32-bit integer.
pub const VT_I4: u16 = 3;

/// Type tag of a wide string.
pub const VT_BSTR: u16 = 8;

/// Type tag of a boolean.
pub const VT_BOOL: u16 = 11;

/// Type tag of a nested tagged-union value.
pub const VT_VARIANT: u16 = 12;

/// Type tag of a foreign-object reference.
pub const VT_UNKNOWN: u16 = 13;

/// Type tag of an unsigned byte.
pub const VT_UI1: u16 = 17;

/// Type tag of a 64-bit integer.
pub const VT_I8: u16 = 20;

/// Tag bit marking an array of the tagged element type.
pub const VT_ARRAY: u16 = 0x2000;

/// The abstract value of a tagged union.
pub enum SpecVariant {
    /// No value.
    Empty,
    /// A boolean.
    Bool(bool),
    /// A 32-bit integer.
    I4(i32),
    /// A 64-bit integer.
    I8(i64),
    /// A wide string, as its code units.
    Str(Seq<u16>),
    /// An array of wide strings: the shape an entry point's string-array
    /// parameter takes, one value tagged as an array of strings.
    StrArray(Seq<Seq<u16>>),
}

/// A tagged-union value as built for the runtime's invocation surface.
#[derive(Debug, Clone)]
pub enum VariantValue {
    /// No value.
    Empty,
    /// A boolean.
    Bool(bool),
    /// A 32-bit integer.
    I4(i32),
    /// A 64-bit integer.
    I8(i64),
    /// A wide string.
    Str(Bstr),
    /// An array of wide strings.
    StrArray(Vec<Bstr>),
}

impl View for VariantValue {
    type V = SpecVariant;

    open spec fn view(&self) -> SpecVariant {
        match self {
            VariantValue::Empty => SpecVariant::Empty,
            VariantValue::Bool(b) => SpecVariant::Bool(*b),
            VariantValue::I4(n) => SpecVariant::I4(*n),
            VariantValue::I8(n) => SpecVariant::I8(*n),
            VariantValue::Str(s) => SpecVariant::Str(s@),
            VariantValue::StrArray(a) => SpecVariant::StrArray(
                a@.map_values(|b: Bstr| b@),
            ),
        }
    }
}

/// The type tag of each abstract value.
pub open spec fn spec_vt(v: SpecVariant) -> u16 {
    match v {
        SpecVariant::Empty => VT_EMPTY,
        SpecVariant::Bool(_) => VT_BOOL,
        SpecVariant::I4(_) => VT_I4,
        SpecVariant::I8(_) => VT_I8,
        SpecVariant::Str(_) => VT_BSTR,
        SpecVariant::StrArray(_) => VT_ARRAY | VT_BSTR,
    }
}

impl VariantValue {
    /// The type tag carried by the value: an array of strings is tagged as
    /// the array bit combined with the string tag.
    pub fn vt(&self) -> (r: u16)
        ensures
            r == spec_vt(self@),
    {
        match self {
            VariantValue::Empty => VT_EMPTY,
            VariantValue::Bool(_) => VT_BOOL,
            VariantValue::I4(_) => VT_I4,
            VariantValue::I8(_) => VT_I8,
            VariantValue::Str(_) => VT_BSTR,
            VariantValue::StrArray(_) => VT_ARRAY | VT_BSTR,
        }
    }
}

/// Conversion of a native value into a tagged-union value.
pub trait Variant {
    /// The abstract tagged-union value this native value becomes.
    spec fn spec_to_variant(&self) -> SpecVariant;

    /// The type tag the conversion yields.
    spec fn spec_var_type() -> u16;

    /// Converts the native value into a tagged-union value.
    fn to_variant(&self) -> (r: VariantValue)
        ensures
            r@ == self.spec_to_variant(),
    ;

    /// The type tag the conversion yields.
    fn var_type() -> (r: u16)
        ensures
            r == Self::spec_var_type(),
    ;
}

impl Variant for String {
    open spec fn spec_to_variant(&self) -> SpecVariant {
        SpecVariant::Str(utf16(self@))
    }

    open spec fn spec_var_type() -> u16 {
        VT_BSTR
    }

    fn to_variant(&self) -> (r: VariantValue) {
        VariantValue::Str(Bstr::from_str(self.as_str()))
    }

    fn var_type() -> (r: u16) {
        VT_BSTR
    }
}

impl Variant for str {
    open spec fn spec_to_variant(&self) -> SpecVariant {
        SpecVariant::Str(utf16(self@))
    }

    open spec fn spec_var_type() -> u16 {
        VT_BSTR
    }

    fn to_variant(&self) -> (r: VariantValue) {
        VariantValue::Str(Bstr::from_str(self))
    }

    fn var_type() -> (r: u16) {
        VT_BSTR
    }
}

impl Variant for bool {
    open spec fn spec_to_variant(&self) -> SpecVariant {
        SpecVariant::Bool(*self)
    }

    open spec fn spec_var_type() -> u16 {
        VT_BOOL
    }

    fn to_variant(&self) -> (r: VariantValue) {
        VariantValue::Bool(*self)
    }

    fn var_type() -> (r: u16) {
        VT_BOOL
    }
}

impl Variant for i32 {
    open spec fn spec_to_variant(&self) -> SpecVariant {
        SpecVariant::I4(*self)
    }

    open spec fn spec_var_type() -> u16 {
        VT_I4
    }

    fn to_variant(&self) -> (r: VariantValue) {
        VariantValue::I4(*self)
    }

    fn var_type() -> (r: u16) {
        VT_I4
    }
}

impl Variant for i64 {
    open spec fn spec_to_variant(&self) -> SpecVariant {
        SpecVariant::I8(*self)
    }

    open spec fn spec_var_type() -> u16 {
        VT_I8
    }

    fn to_variant(&self) -> (r: VariantValue) {
        VariantValue::I8(*self)
    }

    fn var_type() -> (r: u16) {
        VT_I8
    }
}

/// An ordered array of tagged-union values: the single argument container
/// the invocation surface takes.
#[derive(Debug, Clone)]
pub struct SafeArrayVariant {
    /// The values, in order.
    pub elems: Vec<VariantValue>,
}

impl View for SafeArrayVariant {
    type V = Seq<SpecVariant>;

    open spec fn view(&self) -> Seq<SpecVariant> {
        self.elems@.map_values(|v: VariantValue| v@)
    }
}

/// The UTF-16 encodings of a sequence of strings.
pub open spec fn utf16_all(args: Seq<String>) -> Seq<Seq<u16>> {
    Seq::new(args.len(), |k: int| utf16(args[k]@))
}

/// Builds the argument container for an entry point that takes an array of
/// strings: a single value, tagged as an array of strings, holding the
/// given arguments in order.
pub fn create_safe_array_args(args: Vec<String>) -> (r: SafeArrayVariant)
    ensures
        r@ == seq![SpecVariant::StrArray(utf16_all(args@))],
{
    let mut wide: Vec<Bstr> = Vec::new();
    let n = args.len();
    let mut i: usize = 0;
    while i < n
        invariant
            i <= n,
            n == args@.len(),
            wide@.len() == i,
            forall|k: int| 0 <= k < i ==> #[trigger] wide@[k]@ == utf16(args@[k]@),
        decreases n - i,
    {
        let b = Bstr::from_str(args[i].as_str());
        wide.push(b);
        i += 1;
    }
    proof {
        assert(wide@.map_values(|b: Bstr| b@) =~= utf16_all(args@));
    }
    let mut elems: Vec<VariantValue> = Vec::new();
    elems.push(VariantValue::StrArray(wide));
    let r = SafeArrayVariant { elems };
    proof {
        assert(r@ =~= seq![SpecVariant::StrArray(utf16_all(args@))]);
    }
    r
}

/// Builds the argument container for an ordinary call: the given values in
/// order, each as its own element.
pub fn create_safe_args(args: Vec<VariantValue>) -> (r: SafeArrayVariant)
    ensures
        r@ == args@.map_values(|v: VariantValue| v@),
{
    SafeArrayVariant { elems: args }
}

} // verus!
