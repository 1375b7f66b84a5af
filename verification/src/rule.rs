//! A firewall rule: what the replies of its property calls mean.
//!
//! Each method takes the reply to the foreign property call of the same name:
//! the status of the call and, for a read, the raw value that the call wrote.

use vstd::pervasive::unreached;
use vstd::prelude::*;
use crate::bstr::BStr;
use crate::error::{
    check,
    check_created,
    check_value,
    created_result,
    error_of,
    is_failure,
    status_result,
    value_result,
    OsError,
};
use crate::profile::{
    action_result,
    bool_of_variant,
    decode_action,
    decode_direction,
    decode_profiles,
    direction_result,
    FirewallAction,
    FirewallProfile,
    FirewallRuleDirection,
    NET_FW_PROFILE2_ALL,
    VARIANT_TRUE,
};
use crate::variant::{InterfacePtr, Payload, Variant};
use crate::variant_type::{VT_ARRAY, VT_BSTR, VT_EMPTY};

verus! {

/// Whether the reply to a read of the interfaces of a rule is one that can
/// be walked: the value is an array of as many elements as were read, and
/// each element read is a string.
pub open spec fn interfaces_walkable(variant: Variant, elements: Seq<Variant>) -> bool {
    &&& variant.tag() & VT_ARRAY != 0
    &&& variant.payload() is Array
    &&& elements.len() == variant.payload()->Array_0.spec_bounds()[0].elements
    &&& forall|i: int| 0 <= i < elements.len() ==> (#[trigger] elements[i]).tag() == VT_BSTR
}

/// Whether `names` are the strings that `elements` hold, in order.
pub open spec fn strings_of(elements: Seq<Variant>, names: Seq<BStr>) -> bool {
    &&& names.len() == elements.len()
    &&& forall|i: int|
        0 <= i < elements.len() ==> (#[trigger] elements[i]).payload() == Payload::BStr(names[i])
}

/// A reference to one rule of the firewall: the address of its rule
/// interface.
#[derive(Debug, Clone, Copy, PartialEq, Eq, Hash, Structural)]
pub struct FirewallRule(pub InterfacePtr);

impl FirewallRule {
    /// A new rule, from the outcome of creating the foreign rule object.
    pub fn new(created: Result<InterfacePtr, i32>) -> (r: Result<FirewallRule, OsError>)
        ensures
            r == match created_result(created) {
                Ok(raw) => Ok::<FirewallRule, OsError>(FirewallRule(raw)),
                Err(e) => Err(e),
            },
    {
        match check_created(created) {
            Ok(raw) => Ok(FirewallRule(raw)),
            Err(e) => Err(e),
        }
    }

    /// The direction of the rule. The raw number of a successful read names
    /// a direction.
    pub fn get_direction(&self, status: i32, dir: u32) -> (r: Result<
        FirewallRuleDirection,
        OsError,
    >)
        requires
            is_failure(status) || FirewallRuleDirection::of_raw(dir) is Ok,
        ensures
            r == direction_result(status, dir),
    {
        decode_direction(status, dir)
    }

    /// The action of the rule. The raw number of a successful read names an
    /// action.
    pub fn get_action(&self, status: i32, action: u32) -> (r: Result<FirewallAction, OsError>)
        requires
            is_failure(status) || FirewallAction::of_raw(action) is Ok,
        ensures
            r == action_result(status, action),
    {
        decode_action(status, action)
    }

    /// Whether the rule is enabled: true exactly for the raw true.
    pub fn get_enabled(&self, status: i32, enabled: i16) -> (r: Result<bool, OsError>)
        ensures
            r == value_result(status, enabled == VARIANT_TRUE),
    {
        check_value(status, bool_of_variant(enabled))
    }

    /// Whether edge traversal is enabled: true exactly for the raw true.
    pub fn get_edge_traversal(&self, status: i32, enabled: i16) -> (r: Result<bool, OsError>)
        ensures
            r == value_result(status, enabled == VARIANT_TRUE),
    {
        check_value(status, bool_of_variant(enabled))
    }

    /// The profiles that the rule belongs to: the profile bits of the raw
    /// mask.
    pub fn get_profiles(&self, status: i32, profiles: i32) -> (r: Result<FirewallProfile, OsError>)
        ensures
            r is Err <==> is_failure(status),
            r is Err ==> r->Err_0 == error_of(status),
            r is Ok ==> r->Ok_0.spec_bits() == (profiles as u32) & NET_FW_PROFILE2_ALL,
    {
        decode_profiles(status, profiles)
    }

    /// The protocol number of the rule, as read.
    pub fn get_protocol(&self, status: i32, protocol: i32) -> (r: Result<i32, OsError>)
        ensures
            r == value_result(status, protocol),
    {
        check_value(status, protocol)
    }

    /// The name of the rule, as read.
    pub fn get_name(&self, status: i32, name: BStr) -> (r: Result<BStr, OsError>)
        ensures
            r == value_result(status, name),
    {
        check_value(status, name)
    }

    /// The description of the rule, as read; `None` where it is not set.
    pub fn get_description(&self, status: i32, description: Option<BStr>) -> (r: Result<Option<BStr>, OsError>)
        ensures
            r == value_result(status, description),
    {
        check_value(status, description)
    }

    /// The application that the rule applies to, as read; `None` where it is not set.
    pub fn get_application_name(&self, status: i32, name: Option<BStr>) -> (r: Result<Option<BStr>, OsError>)
        ensures
            r == value_result(status, name),
    {
        check_value(status, name)
    }

    /// The service that the rule applies to, as read; `None` where it is not set.
    pub fn get_service_name(&self, status: i32, name: Option<BStr>) -> (r: Result<Option<BStr>, OsError>)
        ensures
            r == value_result(status, name),
    {
        check_value(status, name)
    }

    /// The local ports of the rule, as read; `None` where it is not set.
    pub fn get_local_ports(&self, status: i32, ports: Option<BStr>) -> (r: Result<Option<BStr>, OsError>)
        ensures
            r == value_result(status, ports),
    {
        check_value(status, ports)
    }

    /// The remote ports of the rule, as read; `None` where it is not set.
    pub fn get_remote_ports(&self, status: i32, ports: Option<BStr>) -> (r: Result<Option<BStr>, OsError>)
        ensures
            r == value_result(status, ports),
    {
        check_value(status, ports)
    }

    /// The local addresses of the rule, as read; `None` where it is not set.
    pub fn get_local_addresses(&self, status: i32, addresses: Option<BStr>) -> (r: Result<Option<BStr>, OsError>)
        ensures
            r == value_result(status, addresses),
    {
        check_value(status, addresses)
    }

    /// The remote addresses of the rule, as read; `None` where it is not set.
    pub fn get_remote_addresses(&self, status: i32, addresses: Option<BStr>) -> (r: Result<Option<BStr>, OsError>)
        ensures
            r == value_result(status, addresses),
    {
        check_value(status, addresses)
    }

    /// The ICMP types and codes of the rule, as read; `None` where it is not set.
    pub fn get_icmp_types_and_codes(&self, status: i32, types: Option<BStr>) -> (r: Result<Option<BStr>, OsError>)
        ensures
            r == value_result(status, types),
    {
        check_value(status, types)
    }

    /// The interface types of the rule, as read; `None` where it is not set.
    pub fn get_interface_types(&self, status: i32, types: Option<BStr>) -> (r: Result<Option<BStr>, OsError>)
        ensures
            r == value_result(status, types),
    {
        check_value(status, types)
    }

    /// The group that the rule belongs to, as read; `None` where it is not set.
    pub fn get_grouping(&self, status: i32, grouping: Option<BStr>) -> (r: Result<Option<BStr>, OsError>)
        ensures
            r == value_result(status, grouping),
    {
        check_value(status, grouping)
    }

    /// The outcome of writing the name of the rule.
    pub fn set_name(&self, status: i32) -> (r: Result<(), OsError>)
        ensures
            r == status_result(status),
    {
        check(status)
    }

    /// The outcome of writing the application name of the rule.
    pub fn set_application_name(&self, status: i32) -> (r: Result<(), OsError>)
        ensures
            r == status_result(status),
    {
        check(status)
    }

    /// The outcome of writing the remote addresses of the rule.
    pub fn set_remote_addresses(&self, status: i32) -> (r: Result<(), OsError>)
        ensures
            r == status_result(status),
    {
        check(status)
    }

    /// The outcome of writing the direction of the rule.
    pub fn set_direction(&self, status: i32) -> (r: Result<(), OsError>)
        ensures
            r == status_result(status),
    {
        check(status)
    }

    /// The outcome of writing the enabled flag of the rule.
    pub fn set_enabled(&self, status: i32) -> (r: Result<(), OsError>)
        ensures
            r == status_result(status),
    {
        check(status)
    }

    /// The outcome of writing the action of the rule.
    pub fn set_action(&self, status: i32) -> (r: Result<(), OsError>)
        ensures
            r == status_result(status),
    {
        check(status)
    }

    /// The interfaces that the rule applies to, from the reply to the read
    /// of the property and the elements read from the array it gave, in the
    /// order of their indexes. An empty value means that no interface is
    /// named. Otherwise the value is an array of strings, and the strings
    /// of its elements are the result.
    pub fn get_interfaces(&self, status: i32, variant: &Variant, elements: Vec<Variant>) -> (r:
        Result<Option<Vec<BStr>>, OsError>)
        requires
            is_failure(status) || variant.tag() == VT_EMPTY || interfaces_walkable(
                *variant,
                elements@,
            ),
        ensures
            is_failure(status) ==> r == Err::<Option<Vec<BStr>>, OsError>(error_of(status)),
            !is_failure(status) && variant.tag() == VT_EMPTY ==> r == Ok::<
                Option<Vec<BStr>>,
                OsError,
            >(None),
            !is_failure(status) && variant.tag() != VT_EMPTY ==> r is Ok && r->Ok_0 is Some
                && strings_of(elements@, r->Ok_0->Some_0@),
    {
        match check(status) {
            Err(e) => {
                return Err(e);
            },
            Ok(_) => {},
        }
        if variant.raw_type() == VT_EMPTY {
            return Ok(None);
        }
        match variant.as_array() {
            Some(array) => {
                if array.len() != elements.len() {
                    unreached()
                }
            },
            None => unreached(),
        }
        let mut rest: Vec<Variant> = elements;
        let mut names: Vec<BStr> = Vec::new();
        let ghost all = rest@;
        while rest.len() > 0
            invariant
                names@.len() + rest@.len() == all.len(),
                rest@ == all.skip(names@.len() as int),
                forall|i: int| 0 <= i < all.len() ==> (#[trigger] all[i]).tag() == VT_BSTR,
                forall|i: int|
                    0 <= i < names@.len() ==> (#[trigger] all[i]).payload() == Payload::BStr(
                        names@[i],
                    ),
            decreases rest@.len(),
        {
            let element: Variant = rest.remove(0);
            assert(element == all[names@.len() as int]);
            match element.into_bstr() {
                Some(name) => {
                    names.push(name);
                },
                None => unreached(),
            }
            assert(rest@ =~= all.skip(names@.len() as int));
        }
        Ok(Some(names))
    }
}

} // verus!
