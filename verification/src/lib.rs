//! Safe, plain-value handling of the Windows Firewall automation interface:
//! tagged dynamic values, bounds-described arrays, the pull-based enumerator
//! protocol and the decoding of what the firewall objects hand back.
//!
//! Nothing here talks to the automation runtime. Every operation that needs a
//! foreign call takes what that call handed back (its status code and the
//! values it wrote) and decides what the caller gets.

pub mod bstr;
pub mod enumerator;
pub mod error;
pub mod policy;
pub mod profile;
pub mod release;
pub mod rule;
pub mod rules;
pub mod safe_array;
pub mod variant;
pub mod variant_type;

pub use crate::bstr::BStr;
pub use crate::enumerator::{FirewallRulesIter, IterError, Poll, Pulled, VariantEnumerator};
pub use crate::error::OsError;
pub use crate::policy::FirewallPolicy;
pub use crate::profile::{FirewallAction, FirewallProfile, FirewallRuleDirection};
pub use crate::release::Release;
pub use crate::rule::FirewallRule;
pub use crate::rules::FirewallRules;
pub use crate::safe_array::{
    SafeArray, SafeArrayBound, SafeArrayDescription, SafeArrayFeatures, SafeArrayView,
};
pub use crate::variant::{InterfacePtr, Payload, Variant};
pub use crate::variant_type::VariantType;
