//! A producer that consumes messages from Pulsar topics. Each instance's
//! consumer is named `<instance name>-<number>` and subscribes as
//! `<instance name>-<number>_subscription`; its buffer is filled as
//! `collector::BufferFill` says, under the timeout of its processing type.

use vstd::prelude::*;
use vstd::string::StringExecFns;
use crate::builtin::naming::{numbered_name, client_name};
pub use crate::builtin::naming::get_new_id;

verus! {

/// The subscription of a consumer: `<name>-<id>_subscription`.
pub fn subscription_name(name: &str, id: i32) -> (s: String)
    ensures
        s@ == numbered_name(name@, id) + "_subscription"@,
{
    let mut s = client_name(name, id);
    s.append("_subscription");
    s
}

} // verus!
