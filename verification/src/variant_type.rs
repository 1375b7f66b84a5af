//! The type tag of a dynamic value.

use vstd::prelude::*;

verus! {

/// Raw tag of a value that holds nothing.
pub const VT_EMPTY: u16 = 0u16;

/// Raw tag of the null value.
pub const VT_NULL: u16 = 1u16;

/// Raw tag of a length-prefixed UTF-16 string.
pub const VT_BSTR: u16 = 8u16;

/// Raw tag of an object reference.
pub const VT_DISPATCH: u16 = 9u16;

/// Raw tag of a nested self-describing value.
pub const VT_VARIANT: u16 = 12u16;

/// The bit that turns an element tag into the tag of an array of such elements.
pub const VT_ARRAY: u16 = 0x2000u16;

/// Raw tag of an array of self-describing values.
pub const VT_VARIANT_ARRAY: u16 = 0x200Cu16;

/// The kind of payload a dynamic value holds. Tags without a name of their own
/// are kept as they are in `Unknown`.
#[derive(Debug, Clone, Copy, Hash, PartialEq, Eq, Structural)]
pub enum VariantType {
    Empty,
    Null,
    BStr,
    Dispatch,
    Variant,
    VariantArray,
    Unknown(u16),
}

/// Whether a raw tag has a named variant.
pub open spec fn is_named_tag(vt: u16) -> bool {
    vt == VT_EMPTY || vt == VT_NULL || vt == VT_BSTR || vt == VT_DISPATCH || vt == VT_VARIANT
        || vt == VT_VARIANT_ARRAY
}

/// The variant that stands for a raw tag.
pub open spec fn decode(vt: u16) -> VariantType {
    if vt == VT_EMPTY {
        VariantType::Empty
    } else if vt == VT_NULL {
        VariantType::Null
    } else if vt == VT_BSTR {
        VariantType::BStr
    } else if vt == VT_DISPATCH {
        VariantType::Dispatch
    } else if vt == VT_VARIANT {
        VariantType::Variant
    } else if vt == VT_VARIANT_ARRAY {
        VariantType::VariantArray
    } else {
        VariantType::Unknown(vt)
    }
}

impl VariantType {
    /// The raw tag that this variant is written as.
    pub open spec fn raw(self) -> u16 {
        match self {
            VariantType::Empty => VT_EMPTY,
            VariantType::Null => VT_NULL,
            VariantType::BStr => VT_BSTR,
            VariantType::Dispatch => VT_DISPATCH,
            VariantType::Variant => VT_VARIANT,
            VariantType::VariantArray => VT_VARIANT_ARRAY,
            VariantType::Unknown(vt) => vt,
        }
    }

    /// Whether this is the variant that decoding produces for its raw tag:
    /// `Unknown` is canonical only for tags that have no name.
    pub open spec fn is_canonical(self) -> bool {
        match self {
            VariantType::Unknown(vt) => !is_named_tag(vt),
            _ => true,
        }
    }

    /// The raw tag, as executable code.
    pub fn to_raw(self) -> (vt: u16)
        ensures
            vt == self.raw(),
    {
        match self {
            VariantType::Empty => VT_EMPTY,
            VariantType::Null => VT_NULL,
            VariantType::BStr => VT_BSTR,
            VariantType::Dispatch => VT_DISPATCH,
            VariantType::Variant => VT_VARIANT,
            VariantType::VariantArray => VT_VARIANT_ARRAY,
            VariantType::Unknown(vt) => vt,
        }
    }

    /// The variant for a raw tag.
    pub fn from_raw(vt: u16) -> (t: VariantType)
        ensures
            t == decode(vt),
    {
        if vt == VT_EMPTY {
            VariantType::Empty
        } else if vt == VT_NULL {
            VariantType::Null
        } else if vt == VT_BSTR {
            VariantType::BStr
        } else if vt == VT_DISPATCH {
            VariantType::Dispatch
        } else if vt == VT_VARIANT {
            VariantType::Variant
        } else if vt == VT_VARIANT_ARRAY {
            VariantType::VariantArray
        } else {
            VariantType::Unknown(vt)
        }
    }

    /// Whether the array bit is set on the raw tag.
    pub fn is_array(self) -> (r: bool)
        ensures
            r == (self.raw() & VT_ARRAY != 0),
    {
        let vt: u16 = self.to_raw();
        vt & VT_ARRAY != 0
    }

    /// For an array tag, the tag of its elements: the raw tag with the array bit
    /// taken off. `None` for a tag that is no array.
    pub fn array_type(self) -> (r: Option<VariantType>)
        ensures
            r == if self.raw() & VT_ARRAY == 0 {
                None
            } else {
                Some(decode(self.raw() ^ VT_ARRAY))
            },
    {
        let vt: u16 = self.to_raw();
        if vt & VT_ARRAY == 0 {
            return None;
        }
        Some(VariantType::from_raw(vt ^ VT_ARRAY))
    }
}

impl From<u16> for VariantType {
    fn from(vt: u16) -> (t: VariantType) {
        VariantType::from_raw(vt)
    }
}

impl vstd::std_specs::convert::FromSpecImpl<u16> for VariantType {
    open spec fn obeys_from_spec() -> bool {
        true
    }

    open spec fn from_spec(vt: u16) -> VariantType {
        decode(vt)
    }
}

impl From<VariantType> for u16 {
    fn from(t: VariantType) -> (vt: u16) {
        t.to_raw()
    }
}

impl vstd::std_specs::convert::FromSpecImpl<VariantType> for u16 {
    open spec fn obeys_from_spec() -> bool {
        true
    }

    open spec fn from_spec(t: VariantType) -> u16 {
        t.raw()
    }
}

/// Writing a raw tag's variant back gives the raw tag again, for every raw
/// tag, and what decoding produces is canonical.
pub proof fn lemma_raw_round_trip(vt: u16)
    ensures
        decode(vt).raw() == vt,
        decode(vt).is_canonical(),
{
}

/// Decoding the raw tag of a canonical variant gives the variant again.
pub proof fn lemma_variant_round_trip(t: VariantType)
    requires
        t.is_canonical(),
    ensures
        decode(t.raw()) == t,
{
}

/// Taking the array bit off an array tag and putting it on again gives the tag
/// back, and the element tag never has the bit.
pub proof fn lemma_array_bit_reversible(vt: u16)
    requires
        vt & VT_ARRAY != 0,
    ensures
        (vt ^ VT_ARRAY) & VT_ARRAY == 0,
        (vt ^ VT_ARRAY) | VT_ARRAY == vt,
        (vt ^ VT_ARRAY) ^ VT_ARRAY == vt,
{
    assert((vt ^ 0x2000u16) & 0x2000u16 == 0 && (vt ^ 0x2000u16) | 0x2000u16 == vt && (vt
        ^ 0x2000u16) ^ 0x2000u16 == vt) by (bit_vector)
        requires
            vt & 0x2000u16 != 0,
    ;
}

/// The element tag of an array tag, with the array bit put on, is the array tag
/// again: splitting a tag loses nothing.
pub proof fn lemma_array_type_recomposes(t: VariantType)
    requires
        t.raw() & VT_ARRAY != 0,
    ensures
        decode(t.raw() ^ VT_ARRAY).raw() | VT_ARRAY == t.raw(),
        decode(t.raw() ^ VT_ARRAY).raw() & VT_ARRAY == 0,
{
    lemma_array_bit_reversible(t.raw());
    lemma_raw_round_trip(t.raw() ^ VT_ARRAY);
}

} // verus!
