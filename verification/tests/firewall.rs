use netfw::profile::{
    bool_of_variant, decode_action, decode_direction, decode_profiles, variant_bool,
    NET_FW_PROFILE2_ALL, NET_FW_PROFILE2_DOMAIN,
    NET_FW_PROFILE2_PRIVATE, NET_FW_PROFILE2_PUBLIC, VARIANT_FALSE, VARIANT_TRUE,
};
use netfw::variant_type::{VT_BSTR, VT_VARIANT_ARRAY};
use netfw::{
    BStr, FirewallAction, FirewallPolicy, FirewallProfile, FirewallRule, FirewallRuleDirection,
    FirewallRules, InterfacePtr, OsError, Payload, Poll, SafeArray, SafeArrayBound, Variant,
    VariantType,
};

fn rule() -> FirewallRule {
    FirewallRule(InterfacePtr { address: 0x500 })
}

fn policy() -> FirewallPolicy {
    FirewallPolicy::new(Ok(InterfacePtr { address: 0x600 })).unwrap()
}

fn text(s: &str) -> Variant {
    Variant::from_parts(VT_BSTR, Payload::BStr(BStr::from_text(s))).unwrap()
}

#[test]
fn actions_and_their_raw_numbers() {
    assert_eq!(u32::from(FirewallAction::Block), 0);
    assert_eq!(u32::from(FirewallAction::Allow), 1);
    assert_eq!(u32::from(FirewallAction::Max), 2);
    assert_eq!(FirewallAction::try_from(0u32), Ok(FirewallAction::Block));
    assert_eq!(FirewallAction::try_from(1u32), Ok(FirewallAction::Allow));
    assert_eq!(FirewallAction::try_from(2u32), Ok(FirewallAction::Max));
    assert_eq!(FirewallAction::try_from(3u32), Err(3));
    assert_eq!(FirewallAction::try_from(u32::MAX), Err(u32::MAX));
}

#[test]
fn directions_and_their_raw_numbers() {
    assert_eq!(u32::from(FirewallRuleDirection::In), 1);
    assert_eq!(u32::from(FirewallRuleDirection::Out), 2);
    assert_eq!(u32::from(FirewallRuleDirection::Max), 3);
    assert_eq!(FirewallRuleDirection::try_from(1u32), Ok(FirewallRuleDirection::In));
    assert_eq!(FirewallRuleDirection::try_from(2u32), Ok(FirewallRuleDirection::Out));
    assert_eq!(FirewallRuleDirection::try_from(3u32), Ok(FirewallRuleDirection::Max));
    assert_eq!(FirewallRuleDirection::try_from(0u32), Err(0));
    assert_eq!(FirewallRuleDirection::try_from(4u32), Err(4));
}

#[test]
fn profiles_keep_the_bits_of_the_mask() {
    assert_eq!(NET_FW_PROFILE2_DOMAIN, 1);
    assert_eq!(NET_FW_PROFILE2_PRIVATE, 2);
    assert_eq!(NET_FW_PROFILE2_PUBLIC, 4);
    assert_eq!(NET_FW_PROFILE2_ALL, 0x7fff_ffff);
    assert_eq!(FirewallProfile::from_bits_truncate(0xFFFF_FFFF).bits(), 0x7FFF_FFFF);
    assert_eq!(FirewallProfile::from_bits_truncate(0x8000_0005).bits(), 5);
    assert_eq!(u32::from(FirewallProfile::from_bits_truncate(6)), 6);
    let both = FirewallProfile::from_bits_truncate(3);
    assert!(both.contains(FirewallProfile::from_bits_truncate(NET_FW_PROFILE2_DOMAIN)));
    assert!(both.contains(FirewallProfile::from_bits_truncate(NET_FW_PROFILE2_PRIVATE)));
    assert!(!both.contains(FirewallProfile::from_bits_truncate(NET_FW_PROFILE2_PUBLIC)));
}

#[test]
fn booleans_and_their_raw_numbers() {
    assert_eq!(VARIANT_TRUE, -1);
    assert_eq!(VARIANT_FALSE, 0);
    assert_eq!(variant_bool(true), -1);
    assert_eq!(variant_bool(false), 0);
    assert!(bool_of_variant(-1));
    assert!(!bool_of_variant(0));
    assert!(!bool_of_variant(1));
}

#[test]
fn rule_creation_maps_the_failure_code() {
    assert_eq!(
        FirewallRule::new(Ok(InterfacePtr { address: 7 })),
        Ok(FirewallRule(InterfacePtr { address: 7 }))
    );
    assert_eq!(
        FirewallRule::new(Err(-2147221164)),
        Err(OsError::from_raw_os_error(-2147221164))
    );
    assert_eq!(
        FirewallPolicy::new(Err(-2147024891)).unwrap_err().raw_os_error(),
        -2147024891
    );
    assert_eq!(policy().as_raw(), InterfacePtr { address: 0x600 });
}

#[test]
fn rule_scalar_reads() {
    let r = rule();
    assert_eq!(r.get_enabled(0, -1), Ok(true));
    assert_eq!(r.get_enabled(0, 0), Ok(false));
    assert_eq!(r.get_enabled(0, 1), Ok(false));
    assert_eq!(r.get_enabled(-4, -1), Err(OsError::from_raw_os_error(-4)));
    assert_eq!(r.get_edge_traversal(0, -1), Ok(true));
    assert_eq!(r.get_edge_traversal(-4, 0), Err(OsError::from_raw_os_error(-4)));
    assert_eq!(r.get_protocol(0, 6), Ok(6));
    assert_eq!(r.get_protocol(-1, 6), Err(OsError::from_raw_os_error(-1)));
    assert_eq!(r.get_direction(0, 1), Ok(FirewallRuleDirection::In));
    assert_eq!(r.get_direction(0, 2), Ok(FirewallRuleDirection::Out));
    assert_eq!(r.get_direction(-8, 77), Err(OsError::from_raw_os_error(-8)));
    assert_eq!(r.get_action(0, 0), Ok(FirewallAction::Block));
    assert_eq!(r.get_action(0, 1), Ok(FirewallAction::Allow));
    assert_eq!(r.get_action(-8, 77), Err(OsError::from_raw_os_error(-8)));
    assert_eq!(r.get_profiles(0, 5).unwrap().bits(), 5);
    assert_eq!(r.get_profiles(0, -1).unwrap().bits(), 0x7FFF_FFFF);
    assert_eq!(r.get_profiles(0, i32::MIN).unwrap().bits(), 0);
    assert_eq!(r.get_profiles(-2, 5), Err(OsError::from_raw_os_error(-2)));
}

#[test]
fn rule_string_reads() {
    let r = rule();
    assert_eq!(
        r.get_name(0, BStr::from_text("Rule1")).unwrap().to_wide(),
        vec![0x52, 0x75, 0x6C, 0x65, 0x31]
    );
    assert_eq!(r.get_name(-6, BStr::from_text("Rule1")).unwrap_err().raw_os_error(), -6);
    assert!(r.get_description(0, None).unwrap().is_none());
    assert_eq!(
        r.get_description(0, Some(BStr::from_text("d"))).unwrap().unwrap().to_wide(),
        vec![0x64]
    );
    assert_eq!(r.get_description(-6, None).unwrap_err().raw_os_error(), -6);
    assert_eq!(
        r.get_application_name(0, Some(BStr::from_text("a"))).unwrap().unwrap().to_wide(),
        vec![0x61]
    );
    assert!(r.get_service_name(0, None).unwrap().is_none());
    assert_eq!(
        r.get_local_ports(0, Some(BStr::from_text("80"))).unwrap().unwrap().to_wide(),
        vec![0x38, 0x30]
    );
    assert!(r.get_remote_ports(1, None).unwrap().is_none());
    assert_eq!(r.get_local_addresses(-1, None).unwrap_err().raw_os_error(), -1);
    assert_eq!(
        r.get_remote_addresses(0, Some(BStr::from_text("*"))).unwrap().unwrap().to_wide(),
        vec![0x2A]
    );
    assert!(r.get_icmp_types_and_codes(0, None).unwrap().is_none());
    assert!(r.get_interface_types(0, None).unwrap().is_none());
    assert_eq!(r.get_grouping(-9, Some(BStr::from_text("g"))).unwrap_err().raw_os_error(), -9);
}

#[test]
fn rule_writes_report_the_status() {
    let r = rule();
    assert_eq!(r.set_name(0), Ok(()));
    assert_eq!(r.set_name(-1), Err(OsError::from_raw_os_error(-1)));
    assert_eq!(r.set_application_name(-2), Err(OsError::from_raw_os_error(-2)));
    assert_eq!(r.set_remote_addresses(-3), Err(OsError::from_raw_os_error(-3)));
    assert_eq!(r.set_direction(-4), Err(OsError::from_raw_os_error(-4)));
    assert_eq!(r.set_enabled(-5), Err(OsError::from_raw_os_error(-5)));
    assert_eq!(r.set_action(-6), Err(OsError::from_raw_os_error(-6)));
    assert_eq!(r.set_action(1), Ok(()));
}

#[test]
fn interfaces_of_a_rule_are_the_strings_of_the_array() {
    let r = rule();
    let array = SafeArray::try_new(
        0x3000,
        0,
        16,
        0,
        vec![SafeArrayBound { elements: 2, lower_bound: 0 }],
    )
    .unwrap();
    let variant = Variant::from_parts(VT_VARIANT_ARRAY, Payload::Array(array)).unwrap();
    let view = variant.as_array().unwrap();
    let (start, end) = view.array().index_range();
    assert_eq!((start, end), (0, 2));
    let elements = vec![text("eth0"), text("wlan0")];
    let names = r.get_interfaces(0, &variant, elements).unwrap().unwrap();
    assert_eq!(names.len(), 2);
    assert_eq!(names[0].to_wide(), vec![0x65, 0x74, 0x68, 0x30]);
    assert_eq!(names[1].to_wide(), vec![0x77, 0x6C, 0x61, 0x6E, 0x30]);
}

#[test]
fn interfaces_of_a_rule_without_any() {
    let r = rule();
    assert!(r.get_interfaces(0, &Variant::new(), vec![]).unwrap().is_none());
    assert_eq!(
        r.get_interfaces(-3, &Variant::new(), vec![]).unwrap_err(),
        OsError::from_raw_os_error(-3)
    );
    let array = SafeArray::try_new(
        0x3000,
        0,
        16,
        0,
        vec![SafeArrayBound { elements: 0, lower_bound: 0 }],
    )
    .unwrap();
    let variant = Variant::from_parts(VT_VARIANT_ARRAY, Payload::Array(array)).unwrap();
    let names = r.get_interfaces(0, &variant, vec![]).unwrap().unwrap();
    assert!(names.is_empty());
}

#[test]
fn rule_collection_replies() {
    let rules = FirewallRules(InterfacePtr { address: 0x700 });
    assert_eq!(rules.get_count(0, 42), Ok(42));
    assert_eq!(rules.get_count(0, 0), Ok(0));
    assert_eq!(rules.get_count(-1, 42), Err(OsError::from_raw_os_error(-1)));
    assert_eq!(rules.add(0), Ok(()));
    assert_eq!(rules.add(-2), Err(OsError::from_raw_os_error(-2)));
    assert_eq!(rules.remove(0), Ok(()));
    assert_eq!(rules.remove(-3), Err(OsError::from_raw_os_error(-3)));
}

#[test]
fn rule_collection_gives_a_fresh_sequence() {
    let rules = FirewallRules(InterfacePtr { address: 0x700 });
    let cursor = InterfacePtr { address: 0x800 };
    let e = rules.get_enumerator(0, Some(cursor)).unwrap();
    assert_eq!(e.as_raw(), cursor);
    let it = rules.iter(0, Some(cursor)).unwrap();
    assert_eq!(it.poll(), Poll::Pull(cursor));
    assert_eq!(rules.iter(-5, None).unwrap_err(), OsError::from_raw_os_error(-5));
    assert_eq!(
        rules.get_enumerator(-5, Some(cursor)).unwrap_err(),
        OsError::from_raw_os_error(-5)
    );
}

#[test]
fn policy_replies() {
    let p = policy();
    assert_eq!(p.current_profile_types(0, 3).unwrap().bits(), 3);
    assert_eq!(p.current_profile_types(-1, 3), Err(OsError::from_raw_os_error(-1)));
    assert_eq!(p.get_firewall_enabled(0, -1), Ok(true));
    assert_eq!(p.get_firewall_enabled(0, 0), Ok(false));
    assert_eq!(p.get_block_all_inbound_traffic(0, -1), Ok(true));
    assert_eq!(p.get_notifications_disabled(0, 0), Ok(false));
    assert_eq!(p.get_unicast_responses_to_multicast_broadcast_disabled(0, -1), Ok(true));
    assert_eq!(
        p.get_unicast_responses_to_multicast_broadcast_disabled(-2, -1),
        Err(OsError::from_raw_os_error(-2))
    );
    assert_eq!(
        p.get_rules(0, InterfacePtr { address: 9 }),
        Ok(FirewallRules(InterfacePtr { address: 9 }))
    );
    assert_eq!(
        p.get_rules(-3, InterfacePtr { address: 9 }),
        Err(OsError::from_raw_os_error(-3))
    );
    assert_eq!(p.get_default_inbound_action(0, 0), Ok(FirewallAction::Block));
    assert_eq!(p.get_default_outbound_action(0, 1), Ok(FirewallAction::Allow));
    assert_eq!(p.get_default_outbound_action(-4, 9), Err(OsError::from_raw_os_error(-4)));
    let excluded = p.get_excluded_interfaces(0, text("eth1")).unwrap();
    assert_eq!(excluded.variant_type(), VariantType::BStr);
    assert_eq!(p.get_excluded_interfaces(-5, Variant::new()).unwrap_err().raw_os_error(), -5);
}

#[test]
fn reads_of_raw_numbers_are_decoded() {
    assert_eq!(decode_action(0, 2), Ok(FirewallAction::Max));
    assert_eq!(decode_action(1, 0), Ok(FirewallAction::Block));
    assert_eq!(decode_action(-1, 0), Err(OsError::from_raw_os_error(-1)));
    assert_eq!(decode_direction(0, 3), Ok(FirewallRuleDirection::Max));
    assert_eq!(decode_direction(-1, 1), Err(OsError::from_raw_os_error(-1)));
    assert_eq!(decode_profiles(0, 7).unwrap().bits(), 7);
    assert_eq!(decode_profiles(0, -2).unwrap().bits(), 0x7FFF_FFFE);
    assert_eq!(decode_profiles(-1, 7), Err(OsError::from_raw_os_error(-1)));
}

/// The replies to the property reads of one profile: status and raw value.
struct ProfileReplies {
    enabled: (i32, i16),
    block_all_inbound: (i32, i16),
    notifications_disabled: (i32, i16),
    unicast_responses_disabled: (i32, i16),
    inbound: (i32, u32),
    outbound: (i32, u32),
}

fn display_firewall_info(policy: &FirewallPolicy, replies: &ProfileReplies) -> Result<(), OsError> {
    println!("******************************************");

    if let Ok(enabled) = policy.get_firewall_enabled(replies.enabled.0, replies.enabled.1) {
        println!("Firewall is {}", if enabled { "enabled" } else { "disabled" });
    }

    if let Ok(enabled) = policy
        .get_block_all_inbound_traffic(replies.block_all_inbound.0, replies.block_all_inbound.1)
    {
        println!(
            "Block all inbound traffic is {}",
            if enabled { "enabled" } else { "disabled" }
        );
    }

    if let Ok(enabled) = policy.get_notifications_disabled(
        replies.notifications_disabled.0,
        replies.notifications_disabled.1,
    ) {
        println!("Notifications are {}", if enabled { "disabled" } else { "enabled" });
    }

    if let Ok(enabled) = policy.get_unicast_responses_to_multicast_broadcast_disabled(
        replies.unicast_responses_disabled.0,
        replies.unicast_responses_disabled.1,
    ) {
        println!(
            "UnicastResponsesToMulticastBroadcast is {}",
            if enabled { "disabled" } else { "enabled" }
        );
    }

    if let Ok(action) = policy.get_default_inbound_action(replies.inbound.0, replies.inbound.1) {
        println!(
            "Default inbound action is {}",
            if action != FirewallAction::Block { "Allow" } else { "Block" }
        );
    }

    if let Ok(action) = policy.get_default_outbound_action(replies.outbound.0, replies.outbound.1) {
        println!(
            "Default outbound action is {}",
            if action != FirewallAction::Block { "Allow" } else { "Block" }
        );
    }

    println!();
    Ok(())
}

#[test]
fn policy_it_works() {
    let firewall_policy = FirewallPolicy::new(Ok(InterfacePtr { address: 0x600 })).unwrap();
    let domain = ProfileReplies {
        enabled: (0, -1),
        block_all_inbound: (0, 0),
        notifications_disabled: (0, 0),
        unicast_responses_disabled: (0, 0),
        inbound: (0, 0),
        outbound: (0, 1),
    };
    let private = ProfileReplies {
        enabled: (0, -1),
        block_all_inbound: (0, -1),
        notifications_disabled: (0, -1),
        unicast_responses_disabled: (-2147024891, 0),
        inbound: (0, 0),
        outbound: (0, 0),
    };
    let public = ProfileReplies {
        enabled: (0, 0),
        block_all_inbound: (-2147024891, 0),
        notifications_disabled: (0, 0),
        unicast_responses_disabled: (0, -1),
        inbound: (-2147024891, 9),
        outbound: (0, 1),
    };

    println!("Settings for the firewall domain profile:");
    display_firewall_info(&firewall_policy, &domain).unwrap();

    println!("Settings for the firewall private profile:");
    display_firewall_info(&firewall_policy, &private).unwrap();

    println!("Settings for the firewall public profile:");
    display_firewall_info(&firewall_policy, &public).unwrap();
}

#[test]
fn rules_it_works() {
    let firewall_policy = FirewallPolicy::new(Ok(InterfacePtr { address: 0x600 })).unwrap();
    let firewall_rules = firewall_policy
        .get_rules(0, InterfacePtr { address: 0x700 })
        .unwrap();

    println!("{:?}", firewall_rules);
    println!("{:?}", firewall_rules.get_count(0, 312).unwrap());
    assert_eq!(firewall_rules, FirewallRules(InterfacePtr { address: 0x700 }));
    assert_eq!(firewall_rules.get_count(0, 312), Ok(312));
}
