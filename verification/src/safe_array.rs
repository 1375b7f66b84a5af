//! Bounds-described foreign arrays: the header of an array, the checks on an
//! index vector, and who owns the memory behind the handle.

use vstd::pervasive::unreached;
use vstd::prelude::*;
use crate::error::{check, check_value, value_result, OsError};
use crate::release::Release;
use crate::variant_type::{decode, VariantType};

verus! {

/// The array is allocated on the stack.
pub const FADF_AUTO: u16 = 0x0001u16;

/// The array is statically allocated.
pub const FADF_STATIC: u16 = 0x0002u16;

/// The array is embedded in a structure.
pub const FADF_EMBEDDED: u16 = 0x0004u16;

/// The array may not be resized or reallocated.
pub const FADF_FIXEDSIZE: u16 = 0x0010u16;

/// The array holds records.
pub const FADF_RECORD: u16 = 0x0020u16;

/// The array carries the identifier of its elements' interface.
pub const FADF_HAVEIID: u16 = 0x0040u16;

/// The array carries the type tag of its elements.
pub const FADF_HAVEVARTYPE: u16 = 0x0080u16;

/// The array holds strings.
pub const FADF_BSTR: u16 = 0x0100u16;

/// The array holds untyped object references.
pub const FADF_UNKNOWN: u16 = 0x0200u16;

/// The array holds object references.
pub const FADF_DISPATCH: u16 = 0x0400u16;

/// The array holds self-describing values.
pub const FADF_VARIANT: u16 = 0x0800u16;

/// Every named feature bit.
pub const FADF_ALL: u16 = 0x0ff7u16;

/// The most dimensions an array header can count.
pub const MAX_DIMENSIONS: usize = 0xffffusize;

/// The feature flags of an array. Only named bits are ever set.
#[derive(Debug, Clone, Copy, PartialEq, Eq, Hash, Structural)]
pub struct SafeArrayFeatures {
    bits: u16,
}

impl SafeArrayFeatures {
    #[verifier::type_invariant]
    spec fn inv(self) -> bool {
        self.bits & FADF_ALL == self.bits
    }

    /// The flag bits.
    pub closed spec fn spec_bits(self) -> u16 {
        self.bits
    }

    /// The flags among `bits` that have a name; other bits are dropped.
    pub fn from_bits_truncate(bits: u16) -> (f: SafeArrayFeatures)
        ensures
            f.spec_bits() == bits & FADF_ALL,
    {
        let kept: u16 = bits & FADF_ALL;
        proof {
            assert((bits & 0x0ff7u16) & 0x0ff7u16 == bits & 0x0ff7u16) by (bit_vector);
        }
        SafeArrayFeatures { bits: kept }
    }

    /// The flag bits.
    pub fn bits(&self) -> (bits: u16)
        ensures
            bits == self.spec_bits(),
            bits & FADF_ALL == bits,
    {
        proof {
            use_type_invariant(self);
        }
        self.bits
    }

    /// Whether every flag of `other` is set here too.
    pub fn contains(&self, other: SafeArrayFeatures) -> (r: bool)
        ensures
            r == (self.spec_bits() & other.spec_bits() == other.spec_bits()),
    {
        self.bits & other.bits == other.bits
    }
}

/// One dimension of an array: how many elements it has and the index of the
/// first. The count comes first, as in the array's header.
#[derive(Debug, Clone, Copy, PartialEq, Eq, Hash, Structural)]
pub struct SafeArrayBound {
    pub elements: u32,
    pub lower_bound: i32,
}

/// Whether `index` lies in the dimension `bound`: from its lower bound up to,
/// and not including, the lower bound plus the element count.
pub open spec fn bound_contains(bound: SafeArrayBound, index: i32) -> bool {
    bound.lower_bound <= index && index < bound.lower_bound + bound.elements
}

/// Whether `indexes` names an element of an array with these bounds: one
/// index for each dimension, each within its dimension.
pub open spec fn bounds_contain(bounds: Seq<SafeArrayBound>, indexes: Seq<i32>) -> bool {
    &&& indexes.len() == bounds.len()
    &&& forall|d: int| 0 <= d < bounds.len() ==> bound_contains(#[trigger] bounds[d], indexes[d])
}

/// What an element type query hands to the caller, from the status of the
/// foreign query and the raw tag it wrote.
pub open spec fn var_type_result(status: i32, vt: u16) -> Result<VariantType, OsError> {
    value_result(status, decode(vt))
}

/// What a description of an array shows: the header fields, and the element
/// type where the header carries it.
#[derive(Debug, Clone, Copy, PartialEq, Eq)]
pub struct SafeArrayDescription {
    pub dimension: usize,
    pub features: SafeArrayFeatures,
    pub len: usize,
    pub len_bytes: usize,
    pub locks: usize,
    pub lower_bound: i32,
    pub var_type: Option<Result<VariantType, OsError>>,
}

/// An array that lives in foreign memory and is owned through this handle:
/// the foreign handle and the header read from it. Entry `d` of the bounds
/// belongs to entry `d` of an index vector.
#[derive(Debug)]
pub struct SafeArray {
    handle: usize,
    features: u16,
    element_size: u32,
    locks: u32,
    bounds: Vec<SafeArrayBound>,
}

impl SafeArray {
    #[verifier::type_invariant]
    spec fn inv(self) -> bool {
        &&& self.handle != 0
        &&& 1 <= self.bounds@.len() <= MAX_DIMENSIONS
    }

    /// The foreign handle.
    pub closed spec fn spec_handle(self) -> usize {
        self.handle
    }

    /// The raw feature bits of the header.
    pub closed spec fn spec_features(self) -> u16 {
        self.features
    }

    /// The byte size of one element.
    pub closed spec fn spec_element_size(self) -> u32 {
        self.element_size
    }

    /// The foreign lock count.
    pub closed spec fn spec_locks(self) -> u32 {
        self.locks
    }

    /// The bounds, one for each dimension.
    pub closed spec fn spec_bounds(self) -> Seq<SafeArrayBound> {
        self.bounds@
    }

    /// The release owed when an owned array goes out of scope: the
    /// destruction of the memory behind its handle.
    pub open spec fn release_owed(self) -> Release {
        Release::DestroyArray(self.spec_handle())
    }

    /// Whether `indexes` names an element of this array.
    pub open spec fn in_bounds(self, indexes: Seq<i32>) -> bool {
        bounds_contain(self.spec_bounds(), indexes)
    }

    /// Whether a header can describe an array: the handle is not null and
    /// there is at least one dimension, and no more than the header can count.
    pub open spec fn valid_header(handle: usize, bounds: Seq<SafeArrayBound>) -> bool {
        &&& handle != 0
        &&& 1 <= bounds.len() <= MAX_DIMENSIONS
    }

    /// Takes ownership of the array behind `handle`, described by the header
    /// fields read from it.
    pub fn new(
        handle: usize,
        features: u16,
        element_size: u32,
        locks: u32,
        bounds: Vec<SafeArrayBound>,
    ) -> (a: SafeArray)
        requires
            SafeArray::valid_header(handle, bounds@),
        ensures
            a.spec_handle() == handle,
            a.spec_features() == features,
            a.spec_element_size() == element_size,
            a.spec_locks() == locks,
            a.spec_bounds() == bounds@,
    {
        if handle == 0 || bounds.len() < 1 || bounds.len() > MAX_DIMENSIONS {
            unreached()
        } else {
            SafeArray { handle, features, element_size, locks, bounds }
        }
    }

    /// As `new`, for a header that may not be valid: `None` for a null handle
    /// or a dimension count that no array has.
    pub fn try_new(
        handle: usize,
        features: u16,
        element_size: u32,
        locks: u32,
        bounds: Vec<SafeArrayBound>,
    ) -> (r: Option<SafeArray>)
        ensures
            r is Some <==> SafeArray::valid_header(handle, bounds@),
            r is Some ==> {
                &&& r->Some_0.spec_handle() == handle
                &&& r->Some_0.spec_features() == features
                &&& r->Some_0.spec_element_size() == element_size
                &&& r->Some_0.spec_locks() == locks
                &&& r->Some_0.spec_bounds() == bounds@
            },
    {
        if handle == 0 || bounds.len() < 1 || bounds.len() > MAX_DIMENSIONS {
            None
        } else {
            Some(SafeArray::new(handle, features, element_size, locks, bounds))
        }
    }

    /// The foreign handle.
    pub fn handle(&self) -> (h: usize)
        ensures
            h == self.spec_handle(),
            h != 0,
    {
        proof {
            use_type_invariant(self);
        }
        self.handle
    }

    /// The number of dimensions: at least one.
    pub fn dimension(&self) -> (n: usize)
        ensures
            n == self.spec_bounds().len(),
            1 <= n <= MAX_DIMENSIONS,
    {
        proof {
            use_type_invariant(self);
        }
        self.bounds.len()
    }

    /// The feature flags; bits without a name are dropped.
    pub fn features(&self) -> (f: SafeArrayFeatures)
        ensures
            f.spec_bits() == self.spec_features() & FADF_ALL,
    {
        SafeArrayFeatures::from_bits_truncate(self.features)
    }

    /// The element count of the first dimension.
    pub fn len(&self) -> (n: usize)
        ensures
            n == self.spec_bounds()[0].elements,
    {
        proof {
            use_type_invariant(self);
        }
        self.bounds[0].elements as usize
    }

    /// The byte size of one element.
    pub fn len_bytes(&self) -> (n: usize)
        ensures
            n == self.spec_element_size(),
    {
        self.element_size as usize
    }

    /// Whether the first dimension has no element.
    pub fn is_empty(&self) -> (r: bool)
        ensures
            r == (self.spec_bounds()[0].elements == 0),
    {
        self.len() == 0
    }

    /// The foreign lock count, as read: this library takes no lock.
    pub fn locks(&self) -> (n: usize)
        ensures
            n == self.spec_locks(),
    {
        self.locks as usize
    }

    /// The index of the first element of the first dimension.
    pub fn lower_bound(&self) -> (b: i32)
        ensures
            b == self.spec_bounds()[0].lower_bound,
    {
        proof {
            use_type_invariant(self);
        }
        self.bounds[0].lower_bound
    }

    /// The indexes of the first dimension: the first one, and the one after
    /// the last.
    pub fn index_range(&self) -> (r: (i64, i64))
        ensures
            r.0 == self.spec_bounds()[0].lower_bound,
            r.1 == self.spec_bounds()[0].lower_bound + self.spec_bounds()[0].elements,
    {
        proof {
            use_type_invariant(self);
        }
        let bound: SafeArrayBound = self.bounds[0];
        let start: i64 = bound.lower_bound as i64;
        (start, start + bound.elements as i64)
    }

    /// The bounds of dimension `d`.
    pub fn bound(&self, d: usize) -> (b: SafeArrayBound)
        requires
            d < self.spec_bounds().len(),
        ensures
            b == self.spec_bounds()[d as int],
    {
        self.bounds[d]
    }

    /// Whether the header carries the element type, so that a description of
    /// the array may query and show it.
    pub fn shows_var_type(&self) -> (r: bool)
        ensures
            r == (self.spec_features() & FADF_HAVEVARTYPE != 0),
    {
        self.features & FADF_HAVEVARTYPE != 0
    }

    /// What a description of the array shows. The element type is part of it
    /// only where the header carries it; the caller then hands over the
    /// reply to the query for it, and what the query gave is shown, be it a
    /// type or an error. For an array without the flag a reply is not looked
    /// at.
    pub fn describe(&self, var_type: Option<(i32, u16)>) -> (d: SafeArrayDescription)
        ensures
            d.dimension == self.spec_bounds().len(),
            d.features.spec_bits() == self.spec_features() & FADF_ALL,
            d.len == self.spec_bounds()[0].elements,
            d.len_bytes == self.spec_element_size(),
            d.locks == self.spec_locks(),
            d.lower_bound == self.spec_bounds()[0].lower_bound,
            d.var_type == match var_type {
                Some(reply) if self.spec_features() & FADF_HAVEVARTYPE != 0 => Some(
                    var_type_result(reply.0, reply.1),
                ),
                _ => None,
            },
    {
        let shown: Option<Result<VariantType, OsError>> = match var_type {
            Some(reply) => {
                if self.shows_var_type() {
                    Some(self.get_var_type(reply.0, reply.1))
                } else {
                    None
                }
            },
            None => None,
        };
        SafeArrayDescription {
            dimension: self.dimension(),
            features: self.features(),
            len: self.len(),
            len_bytes: self.len_bytes(),
            locks: self.locks(),
            lower_bound: self.lower_bound(),
            var_type: shown,
        }
    }

    /// Whether `indexes` names an element: one index for each dimension, each
    /// within its bounds. This is the local computation for callers that walk
    /// an array; the read itself leaves the check to the runtime.
    pub fn contains(&self, indexes: &[i32]) -> (r: bool)
        ensures
            r == self.in_bounds(indexes@),
    {
        proof {
            use_type_invariant(self);
        }
        let n: usize = self.bounds.len();
        if indexes.len() != n {
            return false;
        }
        let mut d: usize = 0;
        while d < n
            invariant
                n == self.bounds@.len(),
                n == indexes@.len(),
                d <= n,
                forall|k: int| 0 <= k < d ==> bound_contains(#[trigger] self.bounds@[k], indexes@[k]),
            decreases n - d,
        {
            let bound: SafeArrayBound = self.bounds[d];
            let index: i64 = indexes[d] as i64;
            let low: i64 = bound.lower_bound as i64;
            let count: i64 = bound.elements as i64;
            if index < low || index >= low + count {
                assert(!bound_contains(self.bounds@[d as int], indexes@[d as int]));
                return false;
            }
            d = d + 1;
        }
        true
    }

    /// The element type of the array, from the reply to the foreign query for
    /// it: the status and the raw tag that the query wrote. A failure status
    /// comes back as the error; otherwise the tag is decoded.
    pub fn get_var_type(&self, status: i32, vt: u16) -> (r: Result<VariantType, OsError>)
        ensures
            r == var_type_result(status, vt),
    {
        check_value(status, VariantType::from_raw(vt))
    }

    /// The element at `indexes`, from the reply to the foreign read: the
    /// status and the value that the read wrote. The index vector must have
    /// one index for each dimension. Whether the indexes are in range is the
    /// runtime's check: its failure status comes back as the error.
    pub fn get<T>(&self, indexes: &[i32], status: i32, element: T) -> (r: Result<T, OsError>)
        requires
            indexes@.len() == self.spec_bounds().len(),
        ensures
            r == value_result(status, element),
    {
        if indexes.len() != self.bounds.len() {
            unreached()
        } else {
            check_value(status, element)
        }
    }

    /// Gives the array up, from the status of the foreign destroy call. On
    /// failure the array comes back beside the error, still owned and
    /// unchanged.
    pub fn destroy(self, status: i32) -> (r: Result<(), (SafeArray, OsError)>)
        ensures
            r is Err <==> status < 0,
            r is Err ==> r->Err_0.0 == self && r->Err_0.1.code == status,
    {
        match check(status) {
            Ok(_) => Ok(()),
            Err(e) => Err((self, e)),
        }
    }

    /// The release owed when an owned array goes out of scope: its memory is
    /// destroyed.
    pub fn on_drop(&self) -> (r: Release)
        ensures
            r == self.release_owed(),
    {
        Release::DestroyArray(self.handle)
    }
}

/// A look at an array whose memory someone else owns. It reads like the array
/// and owes no release: it has no way to destroy the memory.
#[derive(Debug, Clone, Copy)]
pub struct SafeArrayView<'a> {
    array: &'a SafeArray,
}

impl<'a> SafeArrayView<'a> {
    /// The array looked at.
    pub closed spec fn spec_array(self) -> SafeArray {
        *self.array
    }

    /// The release owed when a view goes out of scope: none.
    pub open spec fn release_owed(self) -> Release {
        Release::Nothing
    }

    /// A view of `array` that leaves its ownership where it is.
    pub fn new(array: &'a SafeArray) -> (v: SafeArrayView<'a>)
        ensures
            v.spec_array() == *array,
    {
        SafeArrayView { array }
    }

    /// The array looked at, for reading.
    pub fn array(&self) -> (a: &'a SafeArray)
        ensures
            *a == self.spec_array(),
    {
        self.array
    }

    /// The number of dimensions of the array looked at.
    pub fn dimension(&self) -> (n: usize)
        ensures
            n == self.spec_array().spec_bounds().len(),
            1 <= n <= MAX_DIMENSIONS,
    {
        self.array.dimension()
    }

    /// The element count of the first dimension of the array looked at.
    pub fn len(&self) -> (n: usize)
        ensures
            n == self.spec_array().spec_bounds()[0].elements,
    {
        self.array.len()
    }

    /// The index of the first element of the first dimension.
    pub fn lower_bound(&self) -> (b: i32)
        ensures
            b == self.spec_array().spec_bounds()[0].lower_bound,
    {
        self.array.lower_bound()
    }

    /// Whether `indexes` names an element of the array looked at.
    pub fn contains(&self, indexes: &[i32]) -> (r: bool)
        ensures
            r == self.spec_array().in_bounds(indexes@),
    {
        self.array.contains(indexes)
    }

    /// The element at `indexes`, as `SafeArray::get` gives it.
    pub fn get<T>(&self, indexes: &[i32], status: i32, element: T) -> (r: Result<T, OsError>)
        requires
            indexes@.len() == self.spec_array().spec_bounds().len(),
        ensures
            r == value_result(status, element),
    {
        self.array.get(indexes, status, element)
    }

    /// The release owed when a view goes out of scope: none, whatever the
    /// array is. The owner of the memory releases it.
    pub fn on_drop(&self) -> (r: Release)
        ensures
            r == self.release_owed(),
            r == Release::Nothing,
    {
        Release::Nothing
    }
}

/// A view never owes the destruction that the array it looks at owes to its
/// owner: dropping the view leaves the foreign memory alone.
pub proof fn lemma_view_owes_nothing(view: SafeArrayView<'_>)
    ensures
        view.release_owed() == Release::Nothing,
        view.spec_array().release_owed() == Release::DestroyArray(view.spec_array().spec_handle()),
        view.release_owed() != view.spec_array().release_owed(),
{
}

} // verus!
