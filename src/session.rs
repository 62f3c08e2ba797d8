//! Decisions of a device session: its phases, and the filter that drops a
//! telemetry message identical to the one just before it.
use vstd::prelude::*;

verus! {

/// The hash std's `DefaultHasher` gives to a payload's text.
pub uninterp spec fn payload_hash_of(text: Seq<char>) -> u64;

/// Relies on std's `DefaultHasher::new`, `Hash for str` and
/// `Hasher::finish`: a hasher made by `new` always starts from the same
/// keys, so the hash depends on the text alone.
#[verifier::external_body]
fn hash_payload(text: &str) -> (r: u64)
    ensures
        r == payload_hash_of(text@),
{
    let mut hasher = std::hash::DefaultHasher::new();
    std::hash::Hash::hash(text, &mut hasher);
    std::hash::Hasher::finish(&hasher)
}

/// Whether a message is passed on when the filter last saw the hash `prev`.
pub open spec fn passes_filter(prev: Option<u64>, payload: Seq<char>) -> bool {
    prev != Some(payload_hash_of(payload))
}

/// Drops a telemetry message whose content hash equals that of the message
/// just before it. It remembers one hash only, and starts empty with every
/// session.
pub struct DedupFilter {
    last: Option<u64>,
}

impl DedupFilter {
    pub closed spec fn last(&self) -> Option<u64> {
        self.last
    }

    pub fn new() -> (r: Self)
        ensures
            r.last() is None,
    {
        DedupFilter { last: None }
    }

    /// Records the message's hash; true when the message is to be
    /// processed, false when it repeats the previous one.
    pub fn accept_hash(&mut self, hash: u64) -> (r: bool)
        ensures
            r == (old(self).last() != Some(hash)),
            final(self).last() == Some(hash),
    {
        let r = match self.last {
            Some(prev) => prev != hash,
            None => true,
        };
        self.last = Some(hash);
        r
    }

    /// Hashes the payload's text and records it; true when the message is
    /// to be processed.
    pub fn accept(&mut self, payload: &str) -> (r: bool)
        ensures
            r == passes_filter(old(self).last(), payload@),
            final(self).last() == Some(payload_hash_of(payload@)),
    {
        let h = hash_payload(payload);
        self.accept_hash(h)
    }
}

/// Deduplication: a message right after one with the same content is
/// dropped; after a different message (one with another hash), the
/// earlier content is passed on again.
pub proof fn lemma_dedup_correctness(a: Seq<char>, b: Seq<char>)
    ensures
        !passes_filter(Some(payload_hash_of(a)), a),
        payload_hash_of(a) != payload_hash_of(b) ==> passes_filter(Some(payload_hash_of(a)), b),
        payload_hash_of(a) != payload_hash_of(b) ==> passes_filter(Some(payload_hash_of(b)), a),
        passes_filter(None, a),
{
}

/// Phases of a device session.
#[derive(Clone, Copy, Debug, PartialEq, Eq, Structural)]
pub enum SessionPhase {
    Starting,
    Connected,
    Streaming,
    Terminated,
}

/// What happens to a session.
#[derive(Clone, Copy, Debug, PartialEq, Eq, Structural)]
pub enum SessionEvent {
    /// The vendor channel is open and subscribed, and the profile fetched.
    Connected,
    /// The reader and the ticker are running.
    LoopsStarted,
    /// A connection step, the reader or the ticker reported an error.
    Failed,
    /// The restart delay after a failure has passed.
    RestartDelayElapsed,
}

/// The session's next phase. Any failure before termination terminates it;
/// a terminated session starts again after the restart delay; events that
/// do not fit the phase leave it as it is.
pub open spec fn next_phase_spec(phase: SessionPhase, event: SessionEvent) -> SessionPhase {
    match (phase, event) {
        (SessionPhase::Starting, SessionEvent::Connected) => SessionPhase::Connected,
        (SessionPhase::Connected, SessionEvent::LoopsStarted) => SessionPhase::Streaming,
        (SessionPhase::Terminated, SessionEvent::RestartDelayElapsed) => SessionPhase::Starting,
        (SessionPhase::Terminated, _) => SessionPhase::Terminated,
        (_, SessionEvent::Failed) => SessionPhase::Terminated,
        (p, _) => p,
    }
}

pub fn next_phase(phase: SessionPhase, event: SessionEvent) -> (r: SessionPhase)
    ensures
        r == next_phase_spec(phase, event),
{
    match (phase, event) {
        (SessionPhase::Starting, SessionEvent::Connected) => SessionPhase::Connected,
        (SessionPhase::Connected, SessionEvent::LoopsStarted) => SessionPhase::Streaming,
        (SessionPhase::Terminated, SessionEvent::RestartDelayElapsed) => SessionPhase::Starting,
        (SessionPhase::Terminated, _) => SessionPhase::Terminated,
        (_, SessionEvent::Failed) => SessionPhase::Terminated,
        (p, _) => p,
    }
}

/// What a decoded telemetry payload turned out to be.
#[derive(Clone, Copy, Debug, PartialEq, Eq, Structural)]
pub enum PayloadKind {
    /// A panel state message.
    Telemetry,
    /// A network status message of a known shape.
    NetworkStatus,
    /// Nothing this bridge knows.
    Unknown,
}

/// What the reader does with an passes_filter message.
#[derive(Clone, Copy, Debug, PartialEq, Eq, Structural)]
pub enum ReaderAction {
    /// Acknowledge the outstanding request, then hand the message to the
    /// zone and panel handlers.
    AcknowledgeAndProcess,
    /// Drop it silently.
    Ignore,
    /// Log it as undecodable and go on.
    ReportUndecodable,
}

pub open spec fn reader_action_spec(kind: PayloadKind) -> ReaderAction {
    match kind {
        PayloadKind::Telemetry => ReaderAction::AcknowledgeAndProcess,
        PayloadKind::NetworkStatus => ReaderAction::Ignore,
        PayloadKind::Unknown => ReaderAction::ReportUndecodable,
    }
}

/// The reader's handling of an passes_filter message: only telemetry is
/// processed, and any telemetry counts as the answer to the outstanding
/// status request. No payload ends the session.
pub fn reader_action(kind: PayloadKind) -> (r: ReaderAction)
    ensures
        r == reader_action_spec(kind),
{
    match kind {
        PayloadKind::Telemetry => ReaderAction::AcknowledgeAndProcess,
        PayloadKind::NetworkStatus => ReaderAction::Ignore,
        PayloadKind::Unknown => ReaderAction::ReportUndecodable,
    }
}

} // verus!
