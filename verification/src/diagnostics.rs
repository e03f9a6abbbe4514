//! The diagnostic sink fed by the acquisition pipeline.
//!
//! The pipeline records human-readable failure detail here and nowhere else:
//! the error value a caller matches on stays a bare tag. The log is an
//! append-only sequence of messages, so a caller can check exactly what was
//! emitted — the acquisition contracts promise one entry per failure and none
//! on success.

use vstd::prelude::*;
use vstd::string::StringExecFns;

verus! {

/// An append-only log of diagnostic messages.
///
/// Viewed as the sequence of recorded messages, oldest first.
pub struct DiagnosticLog {
    entries: Vec<String>,
}

impl View for DiagnosticLog {
    type V = Seq<Seq<char>>;

    closed spec fn view(&self) -> Seq<Seq<char>> {
        self.entries@.map_values(|s: String| s@)
    }
}

impl DiagnosticLog {
    /// An empty log.
    pub fn new() -> (r: Self)
        ensures
            r@ == Seq::<Seq<char>>::empty(),
    {
        let r = DiagnosticLog { entries: Vec::new() };
        proof {
            assert(r@ =~= Seq::<Seq<char>>::empty());
        }
        r
    }

    /// Append one message to the log.
    pub fn record(&mut self, message: String)
        ensures
            final(self)@ == old(self)@.push(message@),
    {
        let ghost m = message@;
        self.entries.push(message);
        proof {
            assert(self@ =~= old(self)@.push(m));
        }
    }

    /// Number of messages recorded so far.
    pub fn len(&self) -> (n: usize)
        ensures
            n == self@.len(),
    {
        self.entries.len()
    }

    /// The `i`-th recorded message, oldest first.
    pub fn entry(&self, i: usize) -> (r: &String)
        requires
            i < self@.len(),
        ensures
            r@ == self@[i as int],
    {
        &self.entries[i]
    }
}

/// The message recorded when no physical adapter satisfies the selection
/// policy.
pub open spec fn spec_no_adapter_diagnostic() -> Seq<char> {
    "Failed to get a compute device."@
}

/// The fixed lead-in of the message recorded when logical device or queue
/// creation fails; the backend-reported cause follows it.
pub open spec fn spec_device_failure_prefix() -> Seq<char> {
    "Failed to create logical compute device and queue: "@
}

/// The full message recorded when logical device or queue creation fails
/// with the given backend-reported cause.
pub open spec fn spec_device_failure_diagnostic(cause: Seq<char>) -> Seq<char> {
    spec_device_failure_prefix() + cause + "."@
}

/// Build the no-adapter diagnostic message.
pub fn no_adapter_diagnostic() -> (r: String)
    ensures
        r@ == spec_no_adapter_diagnostic(),
{
    String::from_str("Failed to get a compute device.")
}

/// Build the device-failure diagnostic message around the backend-reported
/// cause.
pub fn device_failure_diagnostic(cause: &str) -> (r: String)
    ensures
        r@ == spec_device_failure_diagnostic(cause@),
{
    let mut r = String::from_str("Failed to create logical compute device and queue: ");
    r.append(cause);
    r.append(".");
    r
}

/// The two failure paths record messages a reader can always tell apart:
/// whatever cause the backend reports, the device-failure diagnostic never
/// equals the no-adapter diagnostic.
pub proof fn lemma_diagnostics_distinct(cause: Seq<char>)
    ensures
        spec_device_failure_diagnostic(cause) != spec_no_adapter_diagnostic(),
{
    reveal_strlit("Failed to get a compute device.");
    reveal_strlit("Failed to create logical compute device and queue: ");
    assert(spec_no_adapter_diagnostic()[10] == 'g');
    assert(spec_device_failure_diagnostic(cause)[10] == 'c');
}

} // verus!
