//! The firewall policy: what the replies of its property calls mean.
//!
//! Each method takes the reply to the foreign property call of the same name:
//! the status of the call and the raw value that the call wrote.

use vstd::prelude::*;
use crate::error::{check_created, check_value, error_of, is_failure, value_result, OsError};
use crate::profile::{
    action_result,
    bool_of_variant,
    decode_action,
    decode_profiles,
    FirewallAction,
    FirewallProfile,
    NET_FW_PROFILE2_ALL,
    VARIANT_TRUE,
};
use crate::rules::FirewallRules;
use crate::variant::{InterfacePtr, Variant};

verus! {

/// A reference to the firewall policy: the address of its interface.
#[derive(Debug, Clone, Copy, PartialEq, Eq, Hash, Structural)]
pub struct FirewallPolicy {
    raw: InterfacePtr,
}

impl FirewallPolicy {
    /// The address of the policy interface.
    pub closed spec fn spec_raw(self) -> InterfacePtr {
        self.raw
    }

    /// The policy, from the outcome of creating the foreign policy object.
    pub fn new(created: Result<InterfacePtr, i32>) -> (r: Result<FirewallPolicy, OsError>)
        ensures
            r is Err <==> created is Err,
            r is Err ==> r->Err_0 == error_of(created->Err_0),
            r is Ok ==> r->Ok_0.spec_raw() == created->Ok_0,
    {
        match check_created(created) {
            Ok(raw) => Ok(FirewallPolicy { raw }),
            Err(e) => Err(e),
        }
    }

    /// The address of the policy interface.
    pub fn as_raw(&self) -> (raw: InterfacePtr)
        ensures
            raw == self.spec_raw(),
    {
        self.raw
    }

    /// The profiles that are active: the profile bits of the raw mask.
    pub fn current_profile_types(&self, status: i32, mask: i32) -> (r: Result<
        FirewallProfile,
        OsError,
    >)
        ensures
            r is Err <==> is_failure(status),
            r is Err ==> r->Err_0 == error_of(status),
            r is Ok ==> r->Ok_0.spec_bits() == (mask as u32) & NET_FW_PROFILE2_ALL,
    {
        decode_profiles(status, mask)
    }

    /// Whether the firewall is enabled for a profile: true exactly for the
    /// raw true.
    pub fn get_firewall_enabled(&self, status: i32, enabled: i16) -> (r: Result<bool, OsError>)
        ensures
            r == value_result(status, enabled == VARIANT_TRUE),
    {
        check_value(status, bool_of_variant(enabled))
    }

    /// The interfaces left out of a profile, as the value that was read.
    pub fn get_excluded_interfaces(&self, status: i32, variant: Variant) -> (r: Result<
        Variant,
        OsError,
    >)
        ensures
            r == value_result(status, variant),
    {
        check_value(status, variant)
    }

    /// Whether all inbound traffic is blocked for a profile: true exactly
    /// for the raw true.
    pub fn get_block_all_inbound_traffic(&self, status: i32, block: i16) -> (r: Result<
        bool,
        OsError,
    >)
        ensures
            r == value_result(status, block == VARIANT_TRUE),
    {
        check_value(status, bool_of_variant(block))
    }

    /// Whether notifications are off for a profile: true exactly for the raw
    /// true.
    pub fn get_notifications_disabled(&self, status: i32, disabled: i16) -> (r: Result<
        bool,
        OsError,
    >)
        ensures
            r == value_result(status, disabled == VARIANT_TRUE),
    {
        check_value(status, bool_of_variant(disabled))
    }

    /// Whether unicast responses to multicast and broadcast traffic are off
    /// for a profile: true exactly for the raw true.
    pub fn get_unicast_responses_to_multicast_broadcast_disabled(
        &self,
        status: i32,
        disabled: i16,
    ) -> (r: Result<bool, OsError>)
        ensures
            r == value_result(status, disabled == VARIANT_TRUE),
    {
        check_value(status, bool_of_variant(disabled))
    }

    /// The rule collection of the policy, as the reference that was read.
    pub fn get_rules(&self, status: i32, rules: InterfacePtr) -> (r: Result<FirewallRules, OsError>)
        ensures
            r == value_result(status, FirewallRules(rules)),
    {
        check_value(status, FirewallRules(rules))
    }

    /// The default action on inbound traffic for a profile. The raw number
    /// of a successful read names an action.
    pub fn get_default_inbound_action(&self, status: i32, action: u32) -> (r: Result<
        FirewallAction,
        OsError,
    >)
        requires
            is_failure(status) || FirewallAction::of_raw(action) is Ok,
        ensures
            r == action_result(status, action),
    {
        decode_action(status, action)
    }

    /// The default action on outbound traffic for a profile. The raw number
    /// of a successful read names an action.
    pub fn get_default_outbound_action(&self, status: i32, action: u32) -> (r: Result<
        FirewallAction,
        OsError,
    >)
        requires
            is_failure(status) || FirewallAction::of_raw(action) is Ok,
        ensures
            r == action_result(status, action),
    {
        decode_action(status, action)
    }
}

} // verus!
