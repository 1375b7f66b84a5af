use netfw::variant_type::{VT_BSTR, VT_DISPATCH};
use netfw::{
    BStr, FirewallRule, FirewallRulesIter, InterfacePtr, IterError, OsError, Payload, Poll,
    Pulled, Variant, VariantEnumerator, VariantType,
};

fn object(address: usize) -> Variant {
    Variant::from_parts(VT_DISPATCH, Payload::Dispatch(InterfacePtr { address })).unwrap()
}

fn rule_reply(object_address: usize, rule_address: usize) -> Pulled {
    Pulled {
        status: 0,
        slot: object(object_address),
        rule: Some(InterfacePtr { address: rule_address }),
    }
}

fn end_reply() -> Pulled {
    Pulled { status: 1, slot: Variant::new(), rule: None }
}

fn fresh() -> FirewallRulesIter {
    FirewallRulesIter::new(VariantEnumerator::from_raw(InterfacePtr { address: 0xC0 }))
}

#[test]
fn two_rules_then_the_empty_sentinel() {
    let rule1 = 0x1001;
    let rule2 = 0x1002;
    let mut replies = vec![rule_reply(1, rule1), rule_reply(2, rule2), end_reply()].into_iter();
    let mut it = fresh();
    let mut items = Vec::new();
    let mut pulls = 0;
    while let Poll::Pull(cursor) = it.poll() {
        assert_eq!(cursor, InterfacePtr { address: 0xC0 });
        pulls += 1;
        match it.next(replies.next().unwrap()) {
            Some(item) => items.push(item),
            None => break,
        }
    }
    assert_eq!(
        items,
        vec![
            Ok(FirewallRule(InterfacePtr { address: rule1 })),
            Ok(FirewallRule(InterfacePtr { address: rule2 })),
        ]
    );
    assert_eq!(pulls, 3);
    assert_eq!(it.poll(), Poll::Finished);
    assert!(replies.next().is_none());
}

#[test]
fn exhausted_sequence_gives_nothing_and_asks_for_no_pull() {
    let mut it = fresh();
    assert_eq!(it.next(end_reply()), None);
    assert_eq!(it.poll(), Poll::Finished);
    assert_eq!(it.next(rule_reply(1, 2)), None);
    assert_eq!(it.poll(), Poll::Finished);
    assert_eq!(it.next(Pulled { status: -1, slot: Variant::new(), rule: None }), None);
    assert_eq!(it.next(end_reply()), None);
    assert_eq!(it.poll(), Poll::Finished);
}

#[test]
fn failed_pull_is_given_once_and_ends_the_sequence() {
    let mut it = fresh();
    assert_eq!(it.next(rule_reply(1, 0x10)), Some(Ok(FirewallRule(InterfacePtr { address: 0x10 }))));
    assert_eq!(
        it.next(Pulled { status: -2147467259, slot: Variant::new(), rule: None }),
        Some(Err(IterError::Foreign(OsError::from_raw_os_error(-2147467259))))
    );
    assert_eq!(it.poll(), Poll::Finished);
    assert_eq!(it.next(rule_reply(2, 0x20)), None);
}

#[test]
fn failed_pull_wins_over_what_the_slot_holds() {
    let mut it = fresh();
    let reply = Pulled { status: -5, slot: object(1), rule: Some(InterfacePtr { address: 2 }) };
    assert_eq!(it.next(reply), Some(Err(IterError::Foreign(OsError::from_raw_os_error(-5)))));
}

#[test]
fn item_that_is_no_object_is_a_defect() {
    let mut it = fresh();
    let slot = Variant::from_parts(VT_BSTR, Payload::BStr(BStr::from_text("Rule1"))).unwrap();
    assert_eq!(
        it.next(Pulled { status: 0, slot, rule: None }),
        Some(Err(IterError::NotAnObject(VariantType::BStr)))
    );
    assert_eq!(it.poll(), Poll::Finished);
}

#[test]
fn object_without_the_rule_interface_is_a_defect() {
    let mut it = fresh();
    assert_eq!(
        it.next(Pulled { status: 0, slot: object(9), rule: None }),
        Some(Err(IterError::NotARule))
    );
    assert_eq!(it.poll(), Poll::Finished);
    assert_eq!(it.next(rule_reply(1, 2)), None);
}

#[test]
fn fresh_sequence_asks_for_its_cursor() {
    let e = VariantEnumerator::from_raw(InterfacePtr { address: 0xAB });
    assert_eq!(e.as_raw(), InterfacePtr { address: 0xAB });
    let it = FirewallRulesIter::new(e);
    assert_eq!(it.poll(), Poll::Pull(InterfacePtr { address: 0xAB }));
}

#[test]
fn next_one_gives_the_slot_or_the_error() {
    let mut e = VariantEnumerator::from_raw(InterfacePtr { address: 1 });
    let got = e.next_one(0, object(7)).unwrap();
    assert_eq!(got.as_dispatch(), Some(&InterfacePtr { address: 7 }));
    let sentinel = e.next_one(1, Variant::new()).unwrap();
    assert_eq!(sentinel.variant_type(), VariantType::Empty);
    let err = e.next_one(-3, object(7)).unwrap_err();
    assert_eq!(err.raw_os_error(), -3);
    assert_eq!(e.as_raw(), InterfacePtr { address: 1 });
}

fn addresses(values: &[Variant]) -> Vec<usize> {
    values.iter().map(|v| v.as_dispatch().unwrap().address).collect()
}

#[test]
fn next_gives_exactly_what_was_fetched() {
    let mut e = VariantEnumerator::from_raw(InterfacePtr { address: 1 });
    let slots = vec![object(1), object(2), object(3), object(4)];
    assert_eq!(addresses(&e.next(4, 0, slots, 4).unwrap()), vec![1, 2, 3, 4]);
    let slots = vec![object(1), object(2), object(3), object(4)];
    assert_eq!(addresses(&e.next(4, 1, slots, 2).unwrap()), vec![1, 2]);
    let slots = vec![object(1), object(2), object(3), object(4)];
    assert_eq!(addresses(&e.next(4, 1, slots, 0).unwrap()), Vec::<usize>::new());
}

#[test]
fn next_never_gives_more_than_was_asked_for() {
    let mut e = VariantEnumerator::from_raw(InterfacePtr { address: 1 });
    let slots = vec![object(1), object(2), object(3), object(4)];
    assert_eq!(addresses(&e.next(3, 0, slots, 9).unwrap()), vec![1, 2, 3]);
    let slots = vec![object(1), object(2)];
    assert_eq!(addresses(&e.next(5, 0, slots, 5).unwrap()), vec![1, 2]);
    let slots = vec![object(1), object(2)];
    assert_eq!(addresses(&e.next(0, 0, slots, 2).unwrap()), Vec::<usize>::new());
    let slots = vec![object(1), object(2)];
    assert_eq!(addresses(&e.next(2, 0, slots, u32::MAX).unwrap()), vec![1, 2]);
}

#[test]
fn failed_next_gives_the_error() {
    let mut e = VariantEnumerator::from_raw(InterfacePtr { address: 1 });
    let err = e.next(2, -7, vec![object(1), object(2)], 2).unwrap_err();
    assert_eq!(err, OsError::from_raw_os_error(-7));
}
