//! The pipeline builder's source-reading policy.
//!
//! Rebuilding the pipeline starts by reading the whole shader source file.
//! An editor's atomic save can leave the path momentarily unreadable, so a
//! failed read is never an error: the builder waits a fixed interval and
//! tries again, as often as needed, and compiles the first text a read
//! returns. The reading and the waiting are I/O performed by the caller; the
//! library decides, for each read outcome, what happens next.

use vstd::prelude::*;

verus! {

/// The interval, in milliseconds, the builder waits after a failed read of
/// the shader source before trying again; sized to an editor's save latency.
pub const DEFAULT_RETRY_INTERVAL_MILLIS: u64 = 200;

/// What the builder does after one attempt at reading the shader source.
pub enum SourceStep {
    /// A read succeeded: compile exactly this text.
    Compile(String),
    /// The read failed: wait this many milliseconds, then read again.
    RetryAfterMillis(u64),
}

/// The builder's retry policy, held as explicit configuration so its pace
/// can be chosen by the caller.
#[derive(Clone, Copy, Debug, PartialEq, Eq, Structural)]
pub struct RetryPolicy {
    /// How long to wait after a failed read, in milliseconds.
    pub interval_millis: u64,
}

impl Default for RetryPolicy {
    fn default() -> (p: RetryPolicy)
        ensures
            p.interval_millis == DEFAULT_RETRY_INTERVAL_MILLIS,
    {
        RetryPolicy { interval_millis: DEFAULT_RETRY_INTERVAL_MILLIS }
    }
}

impl RetryPolicy {
    /// The step the builder takes after a read that returned `read`.
    pub open spec fn spec_next_step(self, read: Option<String>) -> SourceStep {
        match read {
            Option::Some(text) => SourceStep::Compile(text),
            Option::None => SourceStep::RetryAfterMillis(self.interval_millis),
        }
    }

    /// Decides the builder's next step from one read outcome: a successful
    /// read is compiled as it was returned, an unreadable file only delays.
    pub fn next_step(&self, read: Option<String>) -> (s: SourceStep)
        ensures
            s == self.spec_next_step(read),
    {
        match read {
            Option::Some(text) => SourceStep::Compile(text),
            Option::None => SourceStep::RetryAfterMillis(self.interval_millis),
        }
    }
}

/// Law: a shader file that is unreadable for a while and then readable never
/// surfaces an error. If the first successful read is the one at position
/// `k` of a run of attempts, every earlier step is a retry at the policy's
/// interval, and the step at `k` compiles exactly the text that was read.
pub proof fn lemma_retry_until_readable(p: RetryPolicy, reads: Seq<Option<String>>, k: int)
    requires
        0 <= k < reads.len(),
        forall|i: int| 0 <= i < k ==> reads[i] is None,
        reads[k] is Some,
    ensures
        forall|i: int|
            0 <= i < k ==> p.spec_next_step(#[trigger] reads[i]) == SourceStep::RetryAfterMillis(
                p.interval_millis,
            ),
        p.spec_next_step(reads[k]) == SourceStep::Compile(reads[k]->Some_0),
{
}

} // verus!
