//! The small closed vocabularies of the firewall interface: profiles, actions,
//! rule directions and booleans, each with its raw number, and what a read of
//! one gives.

use vstd::pervasive::unreached;
use vstd::prelude::*;
use crate::error::{check, error_of, is_failure, OsError};

verus! {

/// Raw bit of the domain profile.
pub const NET_FW_PROFILE2_DOMAIN: u32 = 0x1u32;

/// Raw bit of the private profile.
pub const NET_FW_PROFILE2_PRIVATE: u32 = 0x2u32;

/// Raw bit of the public profile.
pub const NET_FW_PROFILE2_PUBLIC: u32 = 0x4u32;

/// Raw bits of all profiles together.
pub const NET_FW_PROFILE2_ALL: u32 = 0x7fff_ffffu32;

/// Raw number of the action that blocks traffic.
pub const NET_FW_ACTION_BLOCK: u32 = 0u32;

/// Raw number of the action that allows traffic.
pub const NET_FW_ACTION_ALLOW: u32 = 1u32;

/// Raw number that closes the list of actions.
pub const NET_FW_ACTION_MAX: u32 = 2u32;

/// Raw number of the inbound direction.
pub const NET_FW_RULE_DIR_IN: u32 = 1u32;

/// Raw number of the outbound direction.
pub const NET_FW_RULE_DIR_OUT: u32 = 2u32;

/// Raw number that closes the list of directions.
pub const NET_FW_RULE_DIR_MAX: u32 = 3u32;

/// Raw number of the boolean true.
pub const VARIANT_TRUE: i16 = -1i16;

/// Raw number of the boolean false.
pub const VARIANT_FALSE: i16 = 0i16;

/// The raw number that a boolean is sent as.
pub fn variant_bool(value: bool) -> (raw: i16)
    ensures
        raw == if value {
            VARIANT_TRUE
        } else {
            VARIANT_FALSE
        },
{
    if value {
        VARIANT_TRUE
    } else {
        VARIANT_FALSE
    }
}

/// The boolean that a raw number stands for: true for the raw true, false
/// for every other number.
pub fn bool_of_variant(raw: i16) -> (value: bool)
    ensures
        value == (raw == VARIANT_TRUE),
{
    raw == VARIANT_TRUE
}

/// A set of firewall profiles. Only bits of the profile mask are ever set.
#[derive(Debug, Clone, Copy, PartialEq, Eq, Hash, Structural)]
pub struct FirewallProfile {
    bits: u32,
}

impl FirewallProfile {
    #[verifier::type_invariant]
    spec fn inv(self) -> bool {
        self.bits & NET_FW_PROFILE2_ALL == self.bits
    }

    /// The profile bits.
    pub closed spec fn spec_bits(self) -> u32 {
        self.bits
    }

    /// The profiles among `bits`; a bit outside the profile mask is dropped.
    pub fn from_bits_truncate(bits: u32) -> (p: FirewallProfile)
        ensures
            p.spec_bits() == bits & NET_FW_PROFILE2_ALL,
    {
        let kept: u32 = bits & NET_FW_PROFILE2_ALL;
        proof {
            assert((bits & 0x7fff_ffffu32) & 0x7fff_ffffu32 == bits & 0x7fff_ffffu32)
                by (bit_vector);
        }
        FirewallProfile { bits: kept }
    }

    /// The profile bits.
    pub fn bits(&self) -> (bits: u32)
        ensures
            bits == self.spec_bits(),
            bits & NET_FW_PROFILE2_ALL == bits,
    {
        proof {
            use_type_invariant(self);
        }
        self.bits
    }

    /// Whether every profile of `other` is in this set too.
    pub fn contains(&self, other: FirewallProfile) -> (r: bool)
        ensures
            r == (self.spec_bits() & other.spec_bits() == other.spec_bits()),
    {
        self.bits & other.bits == other.bits
    }
}

impl From<FirewallProfile> for u32 {
    fn from(profile: FirewallProfile) -> (bits: u32) {
        profile.bits
    }
}

impl vstd::std_specs::convert::FromSpecImpl<FirewallProfile> for u32 {
    open spec fn obeys_from_spec() -> bool {
        true
    }

    open spec fn from_spec(profile: FirewallProfile) -> u32 {
        profile.spec_bits()
    }
}

/// What the firewall does with traffic.
#[derive(Debug, Clone, Copy, PartialEq, Eq, Hash, Structural)]
pub enum FirewallAction {
    Block,
    Allow,
    Max,
}

impl FirewallAction {
    /// The raw number of the action.
    pub open spec fn raw(self) -> u32 {
        match self {
            FirewallAction::Block => NET_FW_ACTION_BLOCK,
            FirewallAction::Allow => NET_FW_ACTION_ALLOW,
            FirewallAction::Max => NET_FW_ACTION_MAX,
        }
    }

    /// The action with the raw number `raw`; a number that names no action
    /// comes back as the error.
    pub open spec fn of_raw(raw: u32) -> Result<FirewallAction, u32> {
        if raw == NET_FW_ACTION_BLOCK {
            Ok(FirewallAction::Block)
        } else if raw == NET_FW_ACTION_ALLOW {
            Ok(FirewallAction::Allow)
        } else if raw == NET_FW_ACTION_MAX {
            Ok(FirewallAction::Max)
        } else {
            Err(raw)
        }
    }
}

impl From<FirewallAction> for u32 {
    fn from(action: FirewallAction) -> (raw: u32) {
        match action {
            FirewallAction::Block => NET_FW_ACTION_BLOCK,
            FirewallAction::Allow => NET_FW_ACTION_ALLOW,
            FirewallAction::Max => NET_FW_ACTION_MAX,
        }
    }
}

impl vstd::std_specs::convert::FromSpecImpl<FirewallAction> for u32 {
    open spec fn obeys_from_spec() -> bool {
        true
    }

    open spec fn from_spec(action: FirewallAction) -> u32 {
        action.raw()
    }
}

impl TryFrom<u32> for FirewallAction {
    type Error = u32;

    fn try_from(action: u32) -> (r: Result<FirewallAction, u32>) {
        if action == NET_FW_ACTION_BLOCK {
            Ok(FirewallAction::Block)
        } else if action == NET_FW_ACTION_ALLOW {
            Ok(FirewallAction::Allow)
        } else if action == NET_FW_ACTION_MAX {
            Ok(FirewallAction::Max)
        } else {
            Err(action)
        }
    }
}

impl vstd::std_specs::convert::TryFromSpecImpl<u32> for FirewallAction {
    open spec fn obeys_try_from_spec() -> bool {
        true
    }

    open spec fn try_from_spec(action: u32) -> Result<FirewallAction, u32> {
        FirewallAction::of_raw(action)
    }
}

/// The direction of the traffic that a rule speaks of.
#[derive(Debug, Clone, Copy, PartialEq, Eq, Hash, Structural)]
pub enum FirewallRuleDirection {
    In,
    Out,
    Max,
}

impl FirewallRuleDirection {
    /// The raw number of the direction.
    pub open spec fn raw(self) -> u32 {
        match self {
            FirewallRuleDirection::In => NET_FW_RULE_DIR_IN,
            FirewallRuleDirection::Out => NET_FW_RULE_DIR_OUT,
            FirewallRuleDirection::Max => NET_FW_RULE_DIR_MAX,
        }
    }

    /// The direction with the raw number `raw`; a number that names no
    /// direction comes back as the error.
    pub open spec fn of_raw(raw: u32) -> Result<FirewallRuleDirection, u32> {
        if raw == NET_FW_RULE_DIR_IN {
            Ok(FirewallRuleDirection::In)
        } else if raw == NET_FW_RULE_DIR_OUT {
            Ok(FirewallRuleDirection::Out)
        } else if raw == NET_FW_RULE_DIR_MAX {
            Ok(FirewallRuleDirection::Max)
        } else {
            Err(raw)
        }
    }
}

impl From<FirewallRuleDirection> for u32 {
    fn from(dir: FirewallRuleDirection) -> (raw: u32) {
        match dir {
            FirewallRuleDirection::In => NET_FW_RULE_DIR_IN,
            FirewallRuleDirection::Out => NET_FW_RULE_DIR_OUT,
            FirewallRuleDirection::Max => NET_FW_RULE_DIR_MAX,
        }
    }
}

impl vstd::std_specs::convert::FromSpecImpl<FirewallRuleDirection> for u32 {
    open spec fn obeys_from_spec() -> bool {
        true
    }

    open spec fn from_spec(dir: FirewallRuleDirection) -> u32 {
        dir.raw()
    }
}

impl TryFrom<u32> for FirewallRuleDirection {
    type Error = u32;

    fn try_from(dir: u32) -> (r: Result<FirewallRuleDirection, u32>) {
        if dir == NET_FW_RULE_DIR_IN {
            Ok(FirewallRuleDirection::In)
        } else if dir == NET_FW_RULE_DIR_OUT {
            Ok(FirewallRuleDirection::Out)
        } else if dir == NET_FW_RULE_DIR_MAX {
            Ok(FirewallRuleDirection::Max)
        } else {
            Err(dir)
        }
    }
}

impl vstd::std_specs::convert::TryFromSpecImpl<u32> for FirewallRuleDirection {
    open spec fn obeys_try_from_spec() -> bool {
        true
    }

    open spec fn try_from_spec(dir: u32) -> Result<FirewallRuleDirection, u32> {
        FirewallRuleDirection::of_raw(dir)
    }
}

/// What a read of an action gives: the error of a failed read, and otherwise
/// the action that the raw number names.
pub open spec fn action_result(status: i32, action: u32) -> Result<FirewallAction, OsError> {
    if is_failure(status) {
        Err(error_of(status))
    } else {
        Ok(FirewallAction::of_raw(action)->Ok_0)
    }
}

/// Decodes the reply to a read of an action. The raw number of a successful
/// read names an action.
pub fn decode_action(status: i32, action: u32) -> (r: Result<FirewallAction, OsError>)
    requires
        is_failure(status) || FirewallAction::of_raw(action) is Ok,
    ensures
        r == action_result(status, action),
{
    match check(status) {
        Err(e) => Err(e),
        Ok(_) => match FirewallAction::try_from(action) {
            Ok(a) => Ok(a),
            Err(_) => unreached(),
        },
    }
}

/// What a read of a direction gives: the error of a failed read, and
/// otherwise the direction that the raw number names.
pub open spec fn direction_result(status: i32, dir: u32) -> Result<FirewallRuleDirection, OsError> {
    if is_failure(status) {
        Err(error_of(status))
    } else {
        Ok(FirewallRuleDirection::of_raw(dir)->Ok_0)
    }
}

/// Decodes the reply to a read of a direction. The raw number of a
/// successful read names a direction.
pub fn decode_direction(status: i32, dir: u32) -> (r: Result<FirewallRuleDirection, OsError>)
    requires
        is_failure(status) || FirewallRuleDirection::of_raw(dir) is Ok,
    ensures
        r == direction_result(status, dir),
{
    match check(status) {
        Err(e) => Err(e),
        Ok(_) => match FirewallRuleDirection::try_from(dir) {
            Ok(d) => Ok(d),
            Err(_) => unreached(),
        },
    }
}

/// Decodes the reply to a read of a profile mask: the profile bits of the
/// raw mask.
pub fn decode_profiles(status: i32, mask: i32) -> (r: Result<FirewallProfile, OsError>)
    ensures
        r is Err <==> is_failure(status),
        r is Err ==> r->Err_0 == error_of(status),
        r is Ok ==> r->Ok_0.spec_bits() == (mask as u32) & NET_FW_PROFILE2_ALL,
{
    match check(status) {
        Err(e) => Err(e),
        Ok(_) => Ok(FirewallProfile::from_bits_truncate(#[verifier::truncate] (mask as u32))),
    }
}

/// Every action is the action of its raw number, and a raw number that names
/// an action is the raw number of that action.
pub proof fn lemma_action_round_trip(action: FirewallAction, raw: u32)
    ensures
        FirewallAction::of_raw(action.raw()) == Ok::<FirewallAction, u32>(action),
        FirewallAction::of_raw(raw) is Ok ==> FirewallAction::of_raw(raw)->Ok_0.raw() == raw,
        FirewallAction::of_raw(raw) is Err ==> FirewallAction::of_raw(raw)->Err_0 == raw,
{
}

/// Every direction is the direction of its raw number, and a raw number that
/// names a direction is the raw number of that direction.
pub proof fn lemma_direction_round_trip(dir: FirewallRuleDirection, raw: u32)
    ensures
        FirewallRuleDirection::of_raw(dir.raw()) == Ok::<FirewallRuleDirection, u32>(dir),
        FirewallRuleDirection::of_raw(raw) is Ok ==> FirewallRuleDirection::of_raw(raw)->Ok_0.raw()
            == raw,
        FirewallRuleDirection::of_raw(raw) is Err ==> FirewallRuleDirection::of_raw(raw)->Err_0
            == raw,
{
}

} // verus!
