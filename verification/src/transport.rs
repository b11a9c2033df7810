//! The transport abstraction: carry opaque payloads between named
//! endpoints and keep statistics about what was sent.
//!
//! The protocol layer does not treat transport as authoritative: a
//! transport records events and statistics but does not gate protocol
//! progress on delivery.  `StdoutTransport` is the simplest
//! implementation, an accounting-only transport whose log a front end can
//! render; `simulated_lora` adds a fragmenting, lossy, retrying link.

use vstd::prelude::*;

verus! {

/// The kind of protocol message a payload carries, for classification and
/// statistics.
#[derive(Debug, Clone, Copy, PartialEq, Eq, Hash, Structural)]
pub enum MessageType {
    /// Round 1: signer to coordinator, a nonce commitment.
    Round1Commitment,
    /// Between rounds: coordinator to signers, the signing package.
    SigningPackage,
    /// Round 2: signer to coordinator, a signature share.
    Round2SignatureShare,
    /// The final signature, broadcast by the coordinator.
    FinalSignature,
    /// Anything else.
    Other,
}

/// The name of a message type, for display surfaces.
pub open spec fn type_label(t: MessageType) -> Seq<char> {
    match t {
        MessageType::Round1Commitment => "Round1Commitment"@,
        MessageType::SigningPackage => "SigningPackage"@,
        MessageType::Round2SignatureShare => "Round2SignatureShare"@,
        MessageType::FinalSignature => "FinalSignature"@,
        MessageType::Other => "Other"@,
    }
}

/// The name of a message type as an owned string.
pub fn message_type_name(t: MessageType) -> (r: String)
    ensures
        r@ == type_label(t),
{
    match t {
        MessageType::Round1Commitment => String::from_str("Round1Commitment"),
        MessageType::SigningPackage => String::from_str("SigningPackage"),
        MessageType::Round2SignatureShare => String::from_str("Round2SignatureShare"),
        MessageType::FinalSignature => String::from_str("FinalSignature"),
        MessageType::Other => String::from_str("Other"),
    }
}

/// Who sends what to whom, and when.
#[derive(Debug, Clone)]
pub struct MessageMetadata {
    /// Sender name.
    pub from: String,
    /// Receiver name.
    pub to: String,
    /// What kind of protocol message the payload carries.
    pub message_type: MessageType,
    /// Optional timestamp, milliseconds since the Unix epoch.
    pub timestamp_ms: Option<i64>,
}

/// Message counters, one per message type.
#[derive(Debug, Clone, Copy, PartialEq, Eq, Structural)]
pub struct MessageCounts {
    pub round1_commitment: usize,
    pub signing_package: usize,
    pub round2_signature_share: usize,
    pub final_signature: usize,
    pub other: usize,
}

/// Saturating increment of a usize counter.
pub open spec fn sat_inc_usize(x: usize) -> usize {
    if x == usize::MAX {
        x
    } else {
        (x + 1) as usize
    }
}

/// Saturating addition of two usize counters.
pub open spec fn sat_add_usize(x: usize, y: usize) -> usize {
    if x + y > usize::MAX {
        usize::MAX
    } else {
        (x + y) as usize
    }
}

impl MessageCounts {
    /// The counter for one message type.
    pub open spec fn count_spec(self, t: MessageType) -> usize {
        match t {
            MessageType::Round1Commitment => self.round1_commitment,
            MessageType::SigningPackage => self.signing_package,
            MessageType::Round2SignatureShare => self.round2_signature_share,
            MessageType::FinalSignature => self.final_signature,
            MessageType::Other => self.other,
        }
    }

    /// All counters are zero.
    pub open spec fn is_zero(self) -> bool {
        forall|t: MessageType| self.count_spec(t) == 0
    }

    /// All counters zeroed.
    pub fn new() -> (r: MessageCounts)
        ensures
            r.is_zero(),
    {
        MessageCounts {
            round1_commitment: 0,
            signing_package: 0,
            round2_signature_share: 0,
            final_signature: 0,
            other: 0,
        }
    }

    /// Read the counter for one message type.
    pub fn count_for(&self, t: MessageType) -> (r: usize)
        ensures
            r == self.count_spec(t),
    {
        match t {
            MessageType::Round1Commitment => self.round1_commitment,
            MessageType::SigningPackage => self.signing_package,
            MessageType::Round2SignatureShare => self.round2_signature_share,
            MessageType::FinalSignature => self.final_signature,
            MessageType::Other => self.other,
        }
    }

    /// Count one more message of the given type; the other counters are
    /// untouched.
    pub fn bump(&mut self, t: MessageType)
        ensures
            final(self).count_spec(t) == sat_inc_usize(old(self).count_spec(t)),
            forall|u: MessageType| u != t ==> final(self).count_spec(u) == old(self).count_spec(u),
    {
        match t {
            MessageType::Round1Commitment => {
                self.round1_commitment = self.round1_commitment.saturating_add(1);
            },
            MessageType::SigningPackage => {
                self.signing_package = self.signing_package.saturating_add(1);
            },
            MessageType::Round2SignatureShare => {
                self.round2_signature_share = self.round2_signature_share.saturating_add(1);
            },
            MessageType::FinalSignature => {
                self.final_signature = self.final_signature.saturating_add(1);
            },
            MessageType::Other => {
                self.other = self.other.saturating_add(1);
            },
        }
    }
}

/// Transport statistics: how many messages and bytes were handed to the
/// transport, split by message type.
#[derive(Debug, Clone, Copy, PartialEq, Eq, Structural)]
pub struct TransportStats {
    /// Messages sent in total.
    pub total_messages: usize,
    /// Payload bytes sent in total.
    pub total_bytes: usize,
    /// Messages sent, by type.
    pub by_type: MessageCounts,
}

impl TransportStats {
    /// Nothing counted yet.
    pub open spec fn is_zero(self) -> bool {
        &&& self.total_messages == 0
        &&& self.total_bytes == 0
        &&& self.by_type.is_zero()
    }

    /// Zeroed statistics.
    pub fn new() -> (r: TransportStats)
        ensures
            r.is_zero(),
    {
        TransportStats { total_messages: 0, total_bytes: 0, by_type: MessageCounts::new() }
    }

    /// Account for one sent message of the given type and size.
    pub fn record(&mut self, t: MessageType, bytes: usize)
        ensures
            final(self).total_messages == sat_inc_usize(old(self).total_messages),
            final(self).total_bytes == sat_add_usize(old(self).total_bytes, bytes),
            final(self).by_type.count_spec(t) == sat_inc_usize(old(self).by_type.count_spec(t)),
            forall|u: MessageType|
                u != t ==> final(self).by_type.count_spec(u) == old(self).by_type.count_spec(u),
    {
        self.total_messages = self.total_messages.saturating_add(1);
        self.total_bytes = self.total_bytes.saturating_add(bytes);
        self.by_type.bump(t);
    }
}

impl Default for TransportStats {
    /// Zeroed statistics.
    fn default() -> (r: TransportStats)
        ensures
            r.is_zero(),
    {
        TransportStats::new()
    }
}

/// A message transport: carries opaque payloads between named endpoints.
/// What a transport does with a payload is its own affair — the simulated
/// link may even drop fragments — so `send` promises nothing here; the
/// statistics surface is optional.
pub trait Transport {
    /// What this transport needs of a send.  The accounting transport
    /// accepts anything; the simulated link cannot fragment with a zero
    /// fragment size or a payload at the very top of the address space.
    spec fn send_requires(&self, metadata: MessageMetadata, payload: Seq<u8>) -> bool;

    /// Hand one payload to the transport.
    fn send(&mut self, metadata: MessageMetadata, payload: &[u8])
        requires
            old(self).send_requires(metadata, payload@),
    ;

    /// The transport's statistics, if it keeps any.
    fn get_stats(&self) -> Option<TransportStats>;

    /// Clear buffers and counters.
    fn reset(&mut self);
}

/// The simplest transport: pure accounting.  It records statistics for
/// every payload handed to it and leaves rendering to the process edge;
/// a front end may show either a payload preview or the whole payload.
pub struct StdoutTransport {
    show_full_payload: bool,
    stats: TransportStats,
}

impl StdoutTransport {
    /// The accumulated statistics.
    pub closed spec fn stats_spec(self) -> TransportStats {
        self.stats
    }

    /// Whether a front end should render whole payloads.
    pub closed spec fn show_full_spec(self) -> bool {
        self.show_full_payload
    }

    /// A transport that prefers payload previews.
    pub fn new() -> (r: StdoutTransport)
        ensures
            r.stats_spec().is_zero(),
            !r.show_full_spec(),
    {
        StdoutTransport { show_full_payload: false, stats: TransportStats::new() }
    }

    /// A transport that renders whole payloads.
    pub fn new_full() -> (r: StdoutTransport)
        ensures
            r.stats_spec().is_zero(),
            r.show_full_spec(),
    {
        StdoutTransport { show_full_payload: true, stats: TransportStats::new() }
    }

    /// Choose between whole payloads and previews.
    pub fn set_show_full_payload(&mut self, show_full: bool)
        ensures
            final(self).show_full_spec() == show_full,
            final(self).stats_spec() == old(self).stats_spec(),
    {
        self.show_full_payload = show_full;
    }
}

impl Default for StdoutTransport {
    /// A transport that prefers payload previews.
    fn default() -> (r: StdoutTransport)
        ensures
            r.stats_spec().is_zero(),
            !r.show_full_spec(),
    {
        StdoutTransport::new()
    }
}

impl Transport for StdoutTransport {
    /// Accepts every payload.
    open spec fn send_requires(&self, metadata: MessageMetadata, payload: Seq<u8>) -> bool {
        true
    }

    /// Sending only updates the statistics: exactly one more message, the
    /// payload's bytes, and the matching per-type counter.
    fn send(&mut self, metadata: MessageMetadata, payload: &[u8])
        ensures
            final(self).stats_spec().total_messages == sat_inc_usize(
                old(self).stats_spec().total_messages,
            ),
            final(self).stats_spec().total_bytes == sat_add_usize(
                old(self).stats_spec().total_bytes,
                payload@.len() as usize,
            ),
            final(self).stats_spec().by_type.count_spec(metadata.message_type) == sat_inc_usize(
                old(self).stats_spec().by_type.count_spec(metadata.message_type),
            ),
            forall|u: MessageType|
                u != metadata.message_type ==> final(self).stats_spec().by_type.count_spec(u)
                    == old(self).stats_spec().by_type.count_spec(u),
            final(self).show_full_spec() == old(self).show_full_spec(),
    {
        self.stats.record(metadata.message_type, payload.len());
    }

    /// This transport always reports its statistics.
    fn get_stats(&self) -> (r: Option<TransportStats>)
        ensures
            r == Some(self.stats_spec()),
    {
        Some(self.stats.clone())
    }

    /// After a reset nothing is counted: `total_messages` is zero and every
    /// per-type counter is empty until the next send.
    fn reset(&mut self)
        ensures
            final(self).stats_spec().is_zero(),
            final(self).show_full_spec() == old(self).show_full_spec(),
    {
        self.stats = TransportStats::new();
    }
}

} // verus!
