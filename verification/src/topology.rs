//! The settings a pipeline's stages start with: defaults for values left at
//! zero (or below), the timeouts of the processing types, and the names of a
//! stage's destinations.

use vstd::prelude::*;
use std::time::Duration;
use crate::decimal::{decimal, render_i32, law_decimal_injective};

verus! {

/// Milliseconds a real-time producer waits to fill its buffer.
pub const PRODUCER_FILLBUFFER_TIMEOUT_REALTIME_MS: u64 = 1;

/// Milliseconds a batch producer waits to fill its buffer.
pub const PRODUCER_FILLBUFFER_TIMEOUT_BATCH_MS: u64 = 50;

/// Default number of messages in a batch.
pub const BATCH_SIZE: usize = 100;

/// Default milliseconds a batcher waits before handing over a batch.
pub const BATCH_TIMEOUT_MS: u64 = 50;

/// Default number of instances of a stage.
pub const CONCURRENCY: i32 = 1;

/// Default capacity of a stage's input channel.
pub const BUFFER_SIZE: usize = 10;

/// Default number of messages a producer asks its source for.
pub const BUFFER_POOL_SIZE: usize = 100;

/// The length of a `Duration` in nanoseconds (what `Duration::as_nanos`
/// returns).
pub uninterp spec fn duration_nanos(d: Duration) -> u128;

/// `Duration::from_millis`: a duration of `ms` milliseconds.
#[verifier::external_body]
pub fn duration_from_millis(ms: u64) -> (d: Duration)
    ensures
        duration_nanos(d) == ms * 1_000_000,
{
    Duration::from_millis(ms)
}

/// `Duration::is_zero`: whether the duration spans no time.
#[verifier::external_body]
pub fn duration_is_zero(d: &Duration) -> (z: bool)
    ensures
        z == (duration_nanos(*d) == 0),
{
    d.is_zero()
}

/// How long a producer waits to fill its buffer.
///
/// `RealTime` waits 1 millisecond (lower latency, more CPU), `Batch` waits
/// 50 milliseconds (fuller buffers, more latency), and `CustomTimeout` waits
/// as long as it says.
pub enum ProcessingType {
    RealTime,
    Batch,
    CustomTimeout(Duration),
}

/// The fill timeout of a processing type.
pub fn fill_timeout(tp: &ProcessingType) -> (d: Duration)
    ensures
        match tp {
            ProcessingType::RealTime => duration_nanos(d) == PRODUCER_FILLBUFFER_TIMEOUT_REALTIME_MS * 1_000_000
                && duration_nanos(d) == 1_000_000,
            ProcessingType::Batch => duration_nanos(d) == PRODUCER_FILLBUFFER_TIMEOUT_BATCH_MS * 1_000_000
                && duration_nanos(d) == 50_000_000,
            ProcessingType::CustomTimeout(t) => d == *t,
        },
{
    match tp {
        ProcessingType::RealTime => duration_from_millis(PRODUCER_FILLBUFFER_TIMEOUT_REALTIME_MS),
        ProcessingType::Batch => duration_from_millis(PRODUCER_FILLBUFFER_TIMEOUT_BATCH_MS),
        ProcessingType::CustomTimeout(t) => *t,
    }
}

/// The settings a stage's instances start with.
#[derive(Debug, Clone, Copy, PartialEq, Eq, Structural)]
pub struct StageSettings {
    /// How many instances run.
    pub concurrency: i32,
    /// The capacity of each instance's input channel (for a producer: how
    /// many messages it asks its source for).
    pub buffer_size: usize,
}

/// The settings a batcher's instances start with.
pub struct BatcherSettings {
    pub concurrency: i32,
    pub buffer_size: usize,
    pub batch_size: usize,
    pub batch_timeout: Duration,
}

/// A concurrency, with the default for zero or less.
pub open spec fn effective_concurrency(concurrency: i32) -> i32 {
    if concurrency <= 0 {
        CONCURRENCY
    } else {
        concurrency
    }
}

/// A size, with a default for zero.
pub open spec fn size_or(size: usize, default: usize) -> usize {
    if size == 0 {
        default
    } else {
        size
    }
}

fn concurrency_or_default(concurrency: i32) -> (c: i32)
    ensures
        c == effective_concurrency(concurrency),
{
    if concurrency <= 0 {
        CONCURRENCY
    } else {
        concurrency
    }
}

/// The settings of a producer stage. A producer needs at least one
/// destination: with none, there are no settings (starting such a producer
/// is a programming error).
pub fn producer_settings(concurrency: i32, buffer_pool_size: usize, destinations: usize) -> (r: Option<StageSettings>)
    ensures
        r is None <==> destinations == 0,
        r is Some ==> r->0 == (StageSettings {
            concurrency: effective_concurrency(concurrency),
            buffer_size: size_or(buffer_pool_size, BUFFER_POOL_SIZE),
        }),
{
    let concurrency = concurrency_or_default(concurrency);
    let buffer_pool_size = if buffer_pool_size == 0 {
        BUFFER_POOL_SIZE
    } else {
        buffer_pool_size
    };
    if destinations == 0 {
        return None;
    }
    Some(StageSettings { concurrency, buffer_size: buffer_pool_size })
}

/// The settings of a processor stage.
pub fn processor_settings(concurrency: i32, buffer_size: usize) -> (s: StageSettings)
    ensures
        s == (StageSettings {
            concurrency: effective_concurrency(concurrency),
            buffer_size: size_or(buffer_size, BUFFER_SIZE),
        }),
{
    let concurrency = concurrency_or_default(concurrency);
    let buffer_size = if buffer_size == 0 {
        BUFFER_SIZE
    } else {
        buffer_size
    };
    StageSettings { concurrency, buffer_size }
}

/// The settings of a batcher stage; a zero timeout gets the default.
pub fn batcher_settings(concurrency: i32, buffer_size: usize, batch_size: usize, batch_timeout: Duration) -> (s:
    BatcherSettings)
    ensures
        s.concurrency == effective_concurrency(concurrency),
        s.buffer_size == size_or(buffer_size, BUFFER_SIZE),
        s.batch_size == size_or(batch_size, BATCH_SIZE),
        duration_nanos(batch_timeout) == 0 ==> duration_nanos(s.batch_timeout) == BATCH_TIMEOUT_MS * 1_000_000,
        duration_nanos(batch_timeout) != 0 ==> s.batch_timeout == batch_timeout,
{
    let concurrency = concurrency_or_default(concurrency);
    let buffer_size = if buffer_size == 0 {
        BUFFER_SIZE
    } else {
        buffer_size
    };
    let batch_size = if batch_size == 0 {
        BATCH_SIZE
    } else {
        batch_size
    };
    let batch_timeout = if duration_is_zero(&batch_timeout) {
        duration_from_millis(BATCH_TIMEOUT_MS)
    } else {
        batch_timeout
    };
    BatcherSettings { concurrency, buffer_size, batch_size, batch_timeout }
}

/// The names of a stage's instances: `"0"`, `"1"`, ... up to the
/// concurrency (none for a concurrency of zero or less).
pub fn stage_names(concurrency: i32) -> (names: Vec<String>)
    ensures
        names.len() == (if concurrency <= 0 { 0 } else { concurrency as int }),
        forall|i: int| 0 <= i < names.len() ==> #[trigger] names[i]@ == decimal(i as nat),
{
    let mut names: Vec<String> = Vec::new();
    let mut elem: i32 = 0;
    while elem < concurrency
        invariant
            0 <= elem,
            concurrency > 0 ==> elem <= concurrency,
            concurrency <= 0 ==> elem == 0,
            names.len() == elem,
            forall|i: int| 0 <= i < names.len() ==> #[trigger] names[i]@ == decimal(i as nat),
        decreases concurrency - elem,
    {
        names.push(render_i32(elem));
        elem += 1;
    }
    names
}

/// The defaults: a concurrency of zero or less becomes 1 and a positive one
/// is kept; a zero size becomes its default and a positive one is kept; the
/// defaults are 100 messages a batch, a 50 ms batch timeout, 10 messages a
/// channel and 100 messages a producer buffer.
pub proof fn law_defaults(c: i32, size: usize, default: usize)
    ensures
        c <= 0 ==> effective_concurrency(c) == 1,
        c > 0 ==> effective_concurrency(c) == c,
        size == 0 ==> size_or(size, default) == default,
        size > 0 ==> size_or(size, default) == size,
        BATCH_SIZE == 100,
        BATCH_TIMEOUT_MS == 50,
        BUFFER_SIZE == 10,
        BUFFER_POOL_SIZE == 100,
        CONCURRENCY == 1,
{
}

/// The names of a stage's instances are all different, so a dispatcher
/// over them never refuses them for a repeated name.
pub proof fn law_stage_names_distinct(i: nat, j: nat)
    ensures
        i != j ==> decimal(i) != decimal(j),
{
    law_decimal_injective(i, j);
}

} // verus!
