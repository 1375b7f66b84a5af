//! The collection of the rules of a firewall policy.

use vstd::pervasive::unreached;
use vstd::prelude::*;
use crate::enumerator::{FirewallRulesIter, VariantEnumerator};
use crate::error::{check, check_value, error_of, is_failure, status_result, value_result, OsError};
use crate::variant::InterfacePtr;

verus! {

/// A reference to the rule collection of a policy: the address of its
/// interface.
#[derive(Debug, Clone, Copy, PartialEq, Eq, Hash, Structural)]
pub struct FirewallRules(pub InterfacePtr);

impl FirewallRules {
    /// The number of rules, from the reply to the count query: the raw count
    /// taken as an unsigned number.
    pub fn get_count(&self, status: i32, count: i32) -> (r: Result<usize, OsError>)
        ensures
            r == value_result(status, count as usize),
    {
        check_value(status, #[verifier::truncate] (count as usize))
    }

    /// The outcome of adding a rule.
    pub fn add(&self, status: i32) -> (r: Result<(), OsError>)
        ensures
            r == status_result(status),
    {
        check(status)
    }

    /// The outcome of removing the rules of a name.
    pub fn remove(&self, status: i32) -> (r: Result<(), OsError>)
        ensures
            r == status_result(status),
    {
        check(status)
    }

    /// An enumerator over the rules, from the reply to the request for one:
    /// the status, and the cursor that the new object gave when asked for its
    /// enumerator interface. After a successful request there is a cursor.
    pub fn get_enumerator(&self, status: i32, cursor: Option<InterfacePtr>) -> (r: Result<
        VariantEnumerator,
        OsError,
    >)
        requires
            is_failure(status) || cursor is Some,
        ensures
            r is Err <==> is_failure(status),
            r is Err ==> r->Err_0 == error_of(status),
            r is Ok ==> r->Ok_0.cursor() == cursor->Some_0,
    {
        match check(status) {
            Err(e) => Err(e),
            Ok(_) => match cursor {
                Some(raw) => Ok(VariantEnumerator::from_raw(raw)),
                None => unreached(),
            },
        }
    }

    /// A fresh lazy sequence over the rules, from the same reply as
    /// `get_enumerator` takes.
    pub fn iter(&self, status: i32, cursor: Option<InterfacePtr>) -> (r: Result<
        FirewallRulesIter,
        OsError,
    >)
        requires
            is_failure(status) || cursor is Some,
        ensures
            r is Err <==> is_failure(status),
            r is Err ==> r->Err_0 == error_of(status),
            r is Ok ==> !r->Ok_0.is_terminal() && r->Ok_0.enumerator().cursor() == cursor->Some_0,
    {
        match self.get_enumerator(status, cursor) {
            Ok(enumerator) => Ok(FirewallRulesIter::new(enumerator)),
            Err(e) => Err(e),
        }
    }
}

} // verus!
