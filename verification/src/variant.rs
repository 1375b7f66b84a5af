//! The tagged dynamic value: a type tag and the payload that goes with it.

use vstd::prelude::*;
use crate::bstr::BStr;
use crate::error::{check, error_of, is_failure, OsError};
use crate::release::Release;
use crate::safe_array::{SafeArray, SafeArrayView};
use crate::variant_type::{decode, VariantType, VT_ARRAY, VT_BSTR, VT_DISPATCH, VT_EMPTY};

verus! {

/// A reference to a foreign object, held as the address of its interface.
/// Reading or copying the address takes no reference on the object.
#[derive(Debug, Clone, Copy, PartialEq, Eq, Hash, Structural)]
pub struct InterfacePtr {
    pub address: usize,
}

/// What a value holds beside its tag.
#[derive(Debug)]
pub enum Payload {
    /// Nothing: every payload bit is zero.
    Zeroed,
    /// A string that the value owns.
    BStr(BStr),
    /// An object reference that the value owns.
    Dispatch(InterfacePtr),
    /// An array that the value owns.
    Array(SafeArray),
    /// The payload bits of a kind that this library does not look into.
    Other(u64),
}

/// Whether a payload is of the kind that the raw tag `vt` announces:
/// nothing under the empty tag, a string under the string tag, an object
/// reference under the object tag, an array under every tag with the array
/// bit, and nothing or opaque bits under every other tag.
pub open spec fn payload_fits(vt: u16, payload: Payload) -> bool {
    if vt == VT_EMPTY {
        payload is Zeroed
    } else if vt == VT_BSTR {
        payload is BStr
    } else if vt == VT_DISPATCH {
        payload is Dispatch
    } else if vt & VT_ARRAY != 0 {
        payload is Array
    } else {
        payload is Zeroed || payload is Other
    }
}

impl Payload {
    /// Whether this payload is of the kind that `vt` announces.
    pub fn fits(&self, vt: u16) -> (r: bool)
        ensures
            r == payload_fits(vt, *self),
    {
        if vt == VT_EMPTY {
            matches!(self, Payload::Zeroed)
        } else if vt == VT_BSTR {
            matches!(self, Payload::BStr(_))
        } else if vt == VT_DISPATCH {
            matches!(self, Payload::Dispatch(_))
        } else if vt & VT_ARRAY != 0 {
            matches!(self, Payload::Array(_))
        } else {
            matches!(self, Payload::Zeroed) || matches!(self, Payload::Other(_))
        }
    }
}

/// A dynamic value: a raw type tag and its payload. The value owns whatever
/// its payload refers to until it is cleared.
#[derive(Debug)]
pub struct Variant {
    vt: u16,
    payload: Payload,
}

impl Variant {
    /// The payload is always of the kind that the tag announces.
    #[verifier::type_invariant]
    pub open spec fn wf(self) -> bool {
        payload_fits(self.tag(), self.payload())
    }

    /// The raw tag.
    pub closed spec fn tag(self) -> u16 {
        self.vt
    }

    /// The payload.
    pub closed spec fn payload(self) -> Payload {
        self.payload
    }

    /// The value with this tag and payload.
    pub closed spec fn of(vt: u16, payload: Payload) -> Variant {
        Variant { vt, payload }
    }

    /// The empty value: the empty tag over a zeroed payload.
    pub open spec fn empty() -> Variant {
        Variant::of(VT_EMPTY, Payload::Zeroed)
    }

    /// Whether the value is the empty value.
    pub open spec fn is_empty(self) -> bool {
        self == Variant::empty()
    }

    /// What a clear leaves of the value, given the status of the foreign
    /// release: an empty value stays as it is and so does one whose release
    /// failed; a released value is empty.
    pub open spec fn after_clear(self, status: i32) -> Variant {
        if self.tag() == VT_EMPTY || is_failure(status) {
            self
        } else {
            Variant::empty()
        }
    }

    /// What a clear reports, given the status of the foreign release: an
    /// empty value has nothing to release and reports success whatever the
    /// status; otherwise a failure status is the error.
    pub open spec fn clear_result(self, status: i32) -> Result<(), OsError> {
        if self.tag() != VT_EMPTY && is_failure(status) {
            Err(error_of(status))
        } else {
            Ok(())
        }
    }

    /// The release owed when the value goes out of scope: none for an empty
    /// value, a clear for every other.
    pub open spec fn release_owed(self) -> Release {
        if self.tag() == VT_EMPTY {
            Release::Nothing
        } else {
            Release::ClearVariant
        }
    }

    /// An empty value.
    pub fn new() -> (v: Variant)
        ensures
            v == Variant::empty(),
            v.tag() == VT_EMPTY,
            v.payload() == Payload::Zeroed,
    {
        Variant { vt: VT_EMPTY, payload: Payload::Zeroed }
    }

    /// The value with this tag and payload, which the runtime has filled in
    /// together: the payload is of the kind that the tag announces.
    pub fn from_winapi_variant(vt: u16, payload: Payload) -> (v: Variant)
        requires
            payload_fits(vt, payload),
        ensures
            v == Variant::of(vt, payload),
            v.tag() == vt,
            v.payload() == payload,
    {
        Variant { vt, payload }
    }

    /// The value with this tag and payload, or `None` where the payload is
    /// not of the kind that the tag announces.
    pub fn from_parts(vt: u16, payload: Payload) -> (r: Option<Variant>)
        ensures
            r is Some <==> payload_fits(vt, payload),
            r is Some ==> r->Some_0 == Variant::of(vt, payload),
    {
        if payload.fits(vt) {
            Some(Variant::from_winapi_variant(vt, payload))
        } else {
            None
        }
    }

    /// The raw tag.
    pub fn raw_type(&self) -> (vt: u16)
        ensures
            vt == self.tag(),
    {
        self.vt
    }

    /// The kind of the value, decoded from its tag.
    pub fn variant_type(&self) -> (t: VariantType)
        ensures
            t == decode(self.tag()),
    {
        VariantType::from_raw(self.vt)
    }

    /// The string, where the value is tagged as one, without copying it. The
    /// value keeps the string.
    pub fn as_bstr(&self) -> (r: Option<&BStr>)
        ensures
            r is Some <==> self.tag() == VT_BSTR,
            r is Some ==> self.payload() == Payload::BStr(*r->Some_0),
    {
        proof {
            use_type_invariant(self);
        }
        if self.vt != VT_BSTR {
            return None;
        }
        match &self.payload {
            Payload::BStr(s) => Some(s),
            _ => None,
        }
    }

    /// The string, where the value is tagged as one, taken out of the value:
    /// the caller becomes its owner.
    pub fn into_bstr(self) -> (r: Option<BStr>)
        ensures
            r is Some <==> self.tag() == VT_BSTR,
            r is Some ==> self.payload() == Payload::BStr(r->Some_0),
    {
        proof {
            use_type_invariant(&self);
        }
        if self.vt != VT_BSTR {
            return None;
        }
        match self.payload {
            Payload::BStr(s) => Some(s),
            _ => None,
        }
    }

    /// The object reference, where the value is tagged as one. The value
    /// keeps its one reference on the object.
    pub fn as_dispatch(&self) -> (r: Option<&InterfacePtr>)
        ensures
            r is Some <==> self.tag() == VT_DISPATCH,
            r is Some ==> self.payload() == Payload::Dispatch(*r->Some_0),
    {
        proof {
            use_type_invariant(self);
        }
        if self.vt != VT_DISPATCH {
            return None;
        }
        match &self.payload {
            Payload::Dispatch(p) => Some(p),
            _ => None,
        }
    }

    /// A view of the array, where the array bit is set on the tag. The value
    /// stays the owner: the view owes no release.
    pub fn as_array(&self) -> (r: Option<SafeArrayView<'_>>)
        ensures
            r is Some <==> self.tag() & VT_ARRAY != 0,
            r is Some ==> self.payload() == Payload::Array(r->Some_0.spec_array()),
    {
        proof {
            use_type_invariant(self);
            assert(VT_EMPTY & VT_ARRAY == 0 && VT_BSTR & VT_ARRAY == 0 && VT_DISPATCH & VT_ARRAY
                == 0) by (bit_vector);
        }
        if self.vt & VT_ARRAY == 0 {
            return None;
        }
        match &self.payload {
            Payload::Array(a) => Some(SafeArrayView::new(a)),
            _ => None,
        }
    }

    /// Releases the payload, given the status of the foreign release. An
    /// empty value has nothing to release: it stays empty and the status is
    /// not looked at. On a failure status the value stays as it was, still
    /// owning its payload, and the error carries the status. Otherwise the
    /// value becomes empty.
    pub fn clear(&mut self, status: i32) -> (r: Result<(), OsError>)
        ensures
            *final(self) == old(self).after_clear(status),
            r == old(self).clear_result(status),
            r is Ok ==> final(self).tag() == VT_EMPTY && final(self).payload() == Payload::Zeroed,
    {
        proof {
            use_type_invariant(&*self);
        }
        if self.vt == VT_EMPTY {
            return Ok(());
        }
        match check(status) {
            Ok(_) => {
                *self = Variant::new();
                Ok(())
            },
            Err(e) => Err(e),
        }
    }

    /// The release owed when the value goes out of scope.
    pub fn on_drop(&self) -> (r: Release)
        ensures
            r == self.release_owed(),
    {
        if self.vt == VT_EMPTY {
            Release::Nothing
        } else {
            Release::ClearVariant
        }
    }
}

impl Default for Variant {
    fn default() -> (v: Variant)
        ensures
            v == Variant::empty(),
    {
        Variant::new()
    }
}

/// The value made of a tag and a payload has that tag and that payload.
pub proof fn lemma_of_parts(vt: u16, payload: Payload)
    ensures
        Variant::of(vt, payload).tag() == vt,
        Variant::of(vt, payload).payload() == payload,
{
}

/// A value of the empty tag is the empty value.
pub proof fn lemma_empty_tag_is_empty(v: Variant)
    requires
        v.wf(),
        v.tag() == VT_EMPTY,
    ensures
        v.is_empty(),
{
}

/// After a clear that succeeded the value is empty, it owes no release, and
/// every further clear succeeds and changes nothing, whatever status it is
/// handed.
pub proof fn lemma_clear_idempotent(v: Variant, first: i32, second: i32)
    requires
        v.wf(),
        v.clear_result(first) is Ok,
    ensures
        v.after_clear(first).wf(),
        v.after_clear(first).is_empty(),
        decode(v.after_clear(first).tag()) == VariantType::Empty,
        v.after_clear(first).release_owed() == Release::Nothing,
        v.after_clear(first).clear_result(second) is Ok,
        v.after_clear(first).after_clear(second) == v.after_clear(first),
{
}

/// A clear that failed leaves the value as it was.
pub proof fn lemma_failed_clear_keeps(v: Variant, status: i32)
    requires
        v.clear_result(status) is Err,
    ensures
        v.after_clear(status) == v,
        v.clear_result(status) == Err::<(), OsError>(error_of(status)),
        status < 0,
{
}

} // verus!
