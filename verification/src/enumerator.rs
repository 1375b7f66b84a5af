//! The pull-based enumerator and the lazy sequence of rules on top of it.
//!
//! The driver of the runtime pulls the foreign cursor and hands over what came
//! back. The types here decide what that reply means and whether the cursor
//! is to be pulled again.

use vstd::prelude::*;
use crate::error::{check_value, error_of, is_failure, value_result, OsError};
use crate::rule::FirewallRule;
use crate::variant::{InterfacePtr, Variant};
use crate::variant_type::{decode, VariantType, VT_DISPATCH, VT_EMPTY};

verus! {

/// The smaller of two numbers.
pub open spec fn min_of(a: int, b: int) -> int {
    if a <= b {
        a
    } else {
        b
    }
}

/// How many of the slots of a pull count as fetched: what the cursor reports,
/// but never more than was asked for and never more than there are slots.
pub open spec fn fetched_count(num: int, slots: int, fetched: int) -> int {
    min_of(min_of(num, fetched), slots)
}

/// A foreign cursor over dynamic values. It is a single cursor: it goes
/// forward only, and a copy of the address is no second cursor.
#[derive(Debug)]
pub struct VariantEnumerator {
    cursor: InterfacePtr,
}

impl VariantEnumerator {
    /// The address of the cursor.
    pub closed spec fn cursor(self) -> InterfacePtr {
        self.cursor
    }

    /// Wraps a foreign cursor.
    pub fn from_raw(raw: InterfacePtr) -> (e: VariantEnumerator)
        ensures
            e.cursor() == raw,
    {
        VariantEnumerator { cursor: raw }
    }

    /// The address of the cursor, for the driver to pull.
    pub fn as_raw(&self) -> (raw: InterfacePtr)
        ensures
            raw == self.cursor(),
    {
        self.cursor
    }

    /// What a pull of one item gives, from the status of the pull and the
    /// slot it wrote into. On failure the slot is discarded and the error
    /// carries the status. On success the slot comes back as it was filled:
    /// an empty one says that there are no more items.
    pub fn next_one(&mut self, status: i32, slot: Variant) -> (r: Result<Variant, OsError>)
        ensures
            r == value_result(status, slot),
            final(self).cursor() == old(self).cursor(),
    {
        check_value(status, slot)
    }

    /// What a pull of up to `num` items gives, from the status of the pull,
    /// the slots it wrote into and the number it reports as fetched. On
    /// success exactly the fetched slots come back, in order: never more
    /// than `num`, never more than there are slots.
    pub fn next(&mut self, num: usize, status: i32, slots: Vec<Variant>, fetched: u32) -> (r:
        Result<Vec<Variant>, OsError>)
        ensures
            is_failure(status) ==> r == Err::<Vec<Variant>, OsError>(error_of(status)),
            !is_failure(status) ==> r is Ok && r->Ok_0@ == slots@.take(
                fetched_count(num as int, slots@.len() as int, fetched as int),
            ),
            final(self).cursor() == old(self).cursor(),
    {
        let mut slots = slots;
        let mut count: usize = slots.len();
        if num < count {
            count = num;
        }
        if (fetched as usize) < count {
            count = fetched as usize;
        }
        slots.truncate(count);
        check_value(status, slots)
    }
}

/// What one pull for the sequence of rules came back with: the status of the
/// pull, the slot it wrote into, and, where the slot holds an object, the
/// rule interface that the object gave when asked for it.
#[derive(Debug)]
pub struct Pulled {
    pub status: i32,
    pub slot: Variant,
    pub rule: Option<InterfacePtr>,
}

/// Why the sequence of rules gave no rule.
#[derive(Debug, Clone, Copy, PartialEq, Eq, Hash, Structural)]
pub enum IterError {
    /// The pull failed with this error.
    Foreign(OsError),
    /// The item is neither empty nor an object reference, but of this kind.
    NotAnObject(VariantType),
    /// The item is an object that has no rule interface.
    NotARule,
}

/// What the driver is to do before it asks the sequence for the next item.
#[derive(Debug, Clone, Copy, PartialEq, Eq, Hash, Structural)]
pub enum Poll {
    /// Pull one item from this cursor and hand over the reply.
    Pull(InterfacePtr),
    /// Leave the cursor alone: the sequence has ended.
    Finished,
}

/// The item that a reply stands for, for a sequence that has not ended: the
/// error for a failed pull, the end of the sequence (`None`) for an empty
/// slot, a defect for a slot that is no object or an object that is no rule,
/// and otherwise the rule.
pub open spec fn item_of(reply: Pulled) -> Option<Result<FirewallRule, IterError>> {
    if is_failure(reply.status) {
        Some(Err(IterError::Foreign(error_of(reply.status))))
    } else if reply.slot.tag() == VT_EMPTY {
        None
    } else if reply.slot.tag() != VT_DISPATCH {
        Some(Err(IterError::NotAnObject(decode(reply.slot.tag()))))
    } else {
        match reply.rule {
            Some(rule) => Some(Ok(FirewallRule(rule))),
            None => Some(Err(IterError::NotARule)),
        }
    }
}

/// Whether the sequence goes on after an item: only after a rule.
pub open spec fn goes_on(item: Option<Result<FirewallRule, IterError>>) -> bool {
    item matches Some(Ok(_))
}

/// The lazy sequence of the rules behind an enumerator: forward only, not
/// restartable, and over for good once it has ended or failed.
#[derive(Debug)]
pub struct FirewallRulesIter {
    enumerator: VariantEnumerator,
    ended: bool,
}

impl FirewallRulesIter {
    /// The enumerator that the sequence pulls from.
    pub closed spec fn enumerator(self) -> VariantEnumerator {
        self.enumerator
    }

    /// Whether the sequence has ended or failed.
    pub closed spec fn is_terminal(self) -> bool {
        self.ended
    }

    /// The sequence after it was handed `reply`: unchanged once it is over,
    /// and over unless the reply stood for a rule.
    pub closed spec fn after(self, reply: Pulled) -> FirewallRulesIter {
        if self.ended {
            self
        } else {
            FirewallRulesIter { enumerator: self.enumerator, ended: !goes_on(item_of(reply)) }
        }
    }

    /// The item that the sequence gives when it is handed `reply`: none once
    /// it is over, and otherwise the item the reply stands for.
    pub open spec fn item(self, reply: Pulled) -> Option<Result<FirewallRule, IterError>> {
        if self.is_terminal() {
            None
        } else {
            item_of(reply)
        }
    }

    /// The sequence after it was handed each of `replies` in turn.
    pub open spec fn after_all(self, replies: Seq<Pulled>) -> FirewallRulesIter
        decreases replies.len(),
    {
        if replies.len() == 0 {
            self
        } else {
            self.after_all(replies.drop_last()).after(replies.last())
        }
    }

    /// The item that the sequence gives for reply `j` of `replies`, after it
    /// was handed the replies before it.
    pub open spec fn item_at(self, replies: Seq<Pulled>, j: int) -> Option<
        Result<FirewallRule, IterError>,
    > {
        self.after_all(replies.take(j)).item(replies[j])
    }

    /// A fresh sequence over `enumerator`.
    pub fn new(enumerator: VariantEnumerator) -> (it: FirewallRulesIter)
        ensures
            it.enumerator() == enumerator,
            !it.is_terminal(),
    {
        FirewallRulesIter { enumerator, ended: false }
    }

    /// What the driver is to do next: pull the cursor while the sequence goes
    /// on, and never again once it is over.
    pub fn poll(&self) -> (p: Poll)
        ensures
            p == if self.is_terminal() {
                Poll::Finished
            } else {
                Poll::Pull(self.enumerator().cursor())
            },
    {
        if self.ended {
            Poll::Finished
        } else {
            Poll::Pull(self.enumerator.as_raw())
        }
    }

    /// The next item of the sequence, from the reply to the pull that `poll`
    /// asked for. A sequence that is over gives nothing and stays over,
    /// whatever it is handed.
    pub fn next(&mut self, reply: Pulled) -> (r: Option<Result<FirewallRule, IterError>>)
        ensures
            r == old(self).item(reply),
            *final(self) == old(self).after(reply),
            final(self).enumerator() == old(self).enumerator(),
            final(self).is_terminal() == (old(self).is_terminal() || !goes_on(item_of(reply))),
    {
        if self.ended {
            return None;
        }
        let Pulled { status, slot, rule } = reply;
        let item: Option<Result<FirewallRule, IterError>> = match self.enumerator.next_one(
            status,
            slot,
        ) {
            Err(e) => Some(Err(IterError::Foreign(e))),
            Ok(variant) => {
                if variant.raw_type() == VT_EMPTY {
                    None
                } else {
                    match variant.as_dispatch() {
                        None => Some(Err(IterError::NotAnObject(variant.variant_type()))),
                        Some(_) => match rule {
                            Some(rule) => Some(Ok(FirewallRule(rule))),
                            None => Some(Err(IterError::NotARule)),
                        },
                    }
                }
            },
        };
        self.ended = !matches!(item, Some(Ok(_)));
        item
    }
}

/// One step of the sequence: it is over afterwards exactly if it was over
/// before or the reply did not stand for a rule, it keeps its cursor, and a
/// sequence that was over does not change at all.
pub proof fn lemma_step(it: FirewallRulesIter, reply: Pulled)
    ensures
        it.after(reply).is_terminal() == (it.is_terminal() || !goes_on(item_of(reply))),
        it.after(reply).enumerator() == it.enumerator(),
        it.is_terminal() ==> it.after(reply) == it,
{
}

/// A sequence that is over stays over: whatever replies it is handed, it
/// gives no item for any of them and it does not change, so it never asks
/// for the cursor to be pulled again.
pub proof fn lemma_terminal_is_final(it: FirewallRulesIter, replies: Seq<Pulled>)
    requires
        it.is_terminal(),
    ensures
        it.after_all(replies) == it,
        forall|j: int| 0 <= j < replies.len() ==> it.item_at(replies, j) is None,
    decreases replies.len(),
{
    if replies.len() > 0 {
        lemma_terminal_is_final(it, replies.drop_last());
    }
    assert forall|j: int| 0 <= j < replies.len() implies it.item_at(replies, j) is None by {
        lemma_terminal_is_final(it, replies.take(j));
    }
}

/// While every reply so far stood for a rule, a fresh sequence is still
/// running and gives for the next reply the item that the reply stands for.
pub proof fn lemma_items_before_stop(it: FirewallRulesIter, replies: Seq<Pulled>, j: int)
    requires
        !it.is_terminal(),
        0 <= j < replies.len(),
        forall|i: int| 0 <= i < j ==> goes_on(item_of(#[trigger] replies[i])),
    ensures
        !it.after_all(replies.take(j)).is_terminal(),
        it.after_all(replies.take(j)).enumerator() == it.enumerator(),
        it.item_at(replies, j) == item_of(replies[j]),
    decreases j,
{
    if j > 0 {
        lemma_items_before_stop(it, replies, j - 1);
        assert(replies.take(j).drop_last() =~= replies.take(j - 1));
        assert(replies.take(j).last() == replies[j - 1]);
    }
}

/// Once a reply did not stand for a rule (an empty slot, a failed pull or a
/// defect), the sequence is over: it gives no item for any later reply.
pub proof fn lemma_nothing_after_stop(it: FirewallRulesIter, replies: Seq<Pulled>, k: int, j: int)
    requires
        0 <= k < j < replies.len(),
        !goes_on(item_of(replies[k])),
    ensures
        it.after_all(replies.take(j)).is_terminal(),
        it.item_at(replies, j) is None,
    decreases j,
{
    assert(replies.take(j).drop_last() =~= replies.take(j - 1));
    assert(replies.take(j).last() == replies[j - 1]);
    if j - 1 > k {
        lemma_nothing_after_stop(it, replies, k, j - 1);
    }
}

} // verus!
