//! A batcher that sends each batch to a Pulsar topic. Each instance's
//! Pulsar producer is named `<instance name>-<number>`.

use vstd::prelude::*;
pub use crate::builtin::naming::get_new_id;
use crate::batcher::BatcherTerminate;

verus! {

/// What a batch handler reports after sending a batch: success, or the
/// batch given back to be drained when the send failed.
pub fn batch_outcome<T, E>(sent: Result<(), E>, batch: Vec<T>) -> (r: Result<(), BatcherTerminate<T>>)
    ensures
        sent is Ok ==> r is Ok,
        sent is Err ==> (r matches Err(bt) && bt.0@ == batch@),
{
    match sent {
        Ok(()) => Ok(()),
        Err(_) => Err(BatcherTerminate(batch)),
    }
}

} // verus!
