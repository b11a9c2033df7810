//! A simulated constrained radio link: fragmentation, loss, retransmission,
//! and an observation surface for a status dashboard.
//!
//! A payload is split into `ceil(len / fragment_size)` fragments.  Each
//! fragment costs one latency unit per attempt; with probability
//! `packet_loss_ppm / 1_000_000` an attempt is lost and retried (after a
//! short backoff) up to `max_retries` times, after which the fragment is
//! abandoned and transmission continues.  Every step is recorded in the
//! observation state.  On a lossless link (zero loss rate) the whole event
//! trace is pinned down exactly by the contract of `send`.

use vstd::arithmetic::div_mod::lemma_fundamental_div_mod;
use vstd::arithmetic::mul::lemma_mul_inequality;
use vstd::prelude::*;

use crate::transport::{
    message_type_name, sat_add_usize, sat_inc_usize, type_label, MessageCounts, MessageMetadata,
    MessageType, Transport, TransportStats,
};

verus! {

// ------------------------------------------------------------------
// Configuration
// ------------------------------------------------------------------
/// Parameters of the simulated link.
#[derive(Debug, Clone, Copy, PartialEq, Eq, Structural)]
pub struct LoRaConfig {
    /// Cost of one fragment attempt, in milliseconds.
    pub latency_ms: u64,
    /// Loss probability per fragment attempt, in parts per million.
    pub packet_loss_ppm: u32,
    /// Bytes per fragment; must be at least 1 to fragment anything.
    pub fragment_size: usize,
    /// How many retries a lost fragment gets before it is abandoned.
    pub max_retries: u32,
}

/// The default link parameters: half a second per fragment, one lost
/// attempt in ten, 64-byte fragments, three retries.
pub open spec fn default_config() -> LoRaConfig {
    LoRaConfig { latency_ms: 500, packet_loss_ppm: 100_000, fragment_size: 64, max_retries: 3 }
}

impl Default for LoRaConfig {
    /// The defaults: half a second per fragment, one lost attempt in ten,
    /// 64-byte fragments, three retries.
    fn default() -> (r: LoRaConfig)
        ensures
            r == default_config(),
    {
        LoRaConfig { latency_ms: 500, packet_loss_ppm: 100_000, fragment_size: 64, max_retries: 3 }
    }
}

// ------------------------------------------------------------------
// Observable events and state
// ------------------------------------------------------------------
/// One observable transmission event.
#[derive(Debug, Clone, PartialEq)]
pub enum TransportEvent {
    /// A transmission began.
    TransmitStart {
        from: String,
        to: String,
        message_type: MessageType,
        total_bytes: usize,
        fragments: usize,
    },
    /// One fragment was delivered.
    TransmitFragment { fragment_id: usize, total_fragments: usize, bytes: usize },
    /// One fragment attempt was lost.
    PacketLost { fragment_id: usize, retry_count: u32 },
    /// A retry went through.
    RetrySuccess { fragment_id: usize, retry_count: u32 },
    /// The transmission finished.
    TransmitComplete { total_time_ms: u64, retries: u32 },
}

/// The retry count a completion event carries, if the event is one.
pub open spec fn completion_retries(e: TransportEvent) -> Option<u32> {
    match e {
        TransportEvent::TransmitComplete { total_time_ms, retries } => Some(retries),
        _ => None,
    }
}

/// The observation snapshot a status endpoint reads.
#[derive(Debug, Clone)]
pub struct LoRaTransportState {
    /// Name of the message type currently in flight, or "Idle".
    pub current_phase: String,
    /// Messages handed to the link in total.
    pub total_messages: usize,
    /// Payload bytes handed to the link in total.
    pub total_bytes: usize,
    /// Progress through the current message, in parts per million.
    pub progress_ppm: u32,
    /// Cosmetic signal strength in dBm: 5 down per lost fragment (floor
    /// -120), 2 up per delivered fragment (ceiling -50).
    pub rssi: i32,
    /// The newest transmission events, at most 100.
    pub recent_events: Vec<TransportEvent>,
    /// Messages handed to the link, by type.
    pub by_type: MessageCounts,
    /// Lost attempts that were retried, in total.
    pub total_retries: u32,
    /// The newest log lines a front end asked to keep, at most 500.
    pub cli_output: Vec<String>,
}

/// The bounds the observation state always satisfies.
pub open spec fn state_wf(st: LoRaTransportState) -> bool {
    &&& -120 <= st.rssi <= -50
    &&& st.recent_events@.len() <= 100
    &&& st.cli_output@.len() <= 500
    &&& st.progress_ppm <= 1_000_000
}

impl Default for LoRaTransportState {
    /// The idle state: nothing sent, initial signal strength -80 dBm.
    fn default() -> (r: LoRaTransportState)
        ensures
            state_wf(r),
            r.current_phase@ == "Idle"@,
            r.total_messages == 0,
            r.total_bytes == 0,
            r.progress_ppm == 0,
            r.rssi == -80,
            r.recent_events@ =~= Seq::<TransportEvent>::empty(),
            r.by_type.is_zero(),
            r.total_retries == 0,
            r.cli_output@ =~= Seq::<String>::empty(),
    {
        LoRaTransportState {
            current_phase: String::from_str("Idle"),
            total_messages: 0,
            total_bytes: 0,
            progress_ppm: 0,
            rssi: -80,
            recent_events: Vec::new(),
            by_type: MessageCounts::new(),
            total_retries: 0,
            cli_output: Vec::new(),
        }
    }
}

// ------------------------------------------------------------------
// Bounded logs
// ------------------------------------------------------------------
/// The newest `n` entries of a log.
pub open spec fn keep_last<T>(s: Seq<T>, n: int) -> Seq<T> {
    if s.len() <= n {
        s
    } else {
        s.skip(s.len() - n)
    }
}

/// Capping an already-capped log after one more entry is the same as
/// capping the uncapped log.
pub proof fn lemma_keep_last_push<T>(s: Seq<T>, x: T, n: int)
    requires
        0 < n,
    ensures
        keep_last(keep_last(s, n).push(x), n) =~= keep_last(s.push(x), n),
{
    let k = keep_last(s, n);
    if s.len() <= n {
    } else {
        assert(k =~= s.skip(s.len() - n));
        assert(k.len() == n);
        let lhs = keep_last(k.push(x), n);
        let rhs = keep_last(s.push(x), n);
        assert(lhs =~= k.push(x).skip(1));
        assert(rhs =~= s.push(x).skip(s.len() + 1 - n));
        assert forall|i: int| 0 <= i < n implies lhs[i] == rhs[i] by {
            if i + 1 < n {
                assert(lhs[i] == k[i + 1]);
                assert(k[i + 1] == s[s.len() - n + i + 1]);
                assert(rhs[i] == s[s.len() + 1 - n + i]);
            } else {
                assert(lhs[i] == x);
                assert(rhs[i] == x);
            }
        }
        assert(lhs =~= rhs);
    }
}

/// Append one event, keeping only the newest 100.
fn push_event(events: &mut Vec<TransportEvent>, ev: TransportEvent)
    requires
        old(events)@.len() <= 100,
    ensures
        final(events)@ == keep_last(old(events)@.push(ev), 100),
        final(events)@.len() <= 100,
{
    events.push(ev);
    if events.len() > 100 {
        events.remove(0);
        proof {
            assert(events@ =~= old(events)@.push(ev).skip(1));
            assert(events@ =~= keep_last(old(events)@.push(ev), 100));
        }
    }
}

/// Append one log line, keeping only the newest 500.
fn push_line(lines: &mut Vec<String>, line: String)
    requires
        old(lines)@.len() <= 500,
    ensures
        final(lines)@ == keep_last(old(lines)@.push(line), 500),
        final(lines)@.len() <= 500,
{
    lines.push(line);
    if lines.len() > 500 {
        lines.remove(0);
        proof {
            assert(lines@ =~= old(lines)@.push(line).skip(1));
            assert(lines@ =~= keep_last(old(lines)@.push(line), 500));
        }
    }
}

// ------------------------------------------------------------------
// Fragmentation arithmetic
// ------------------------------------------------------------------
/// How many fragments a payload needs: `ceil(len / size)`.
pub open spec fn fragment_count(len: nat, size: nat) -> int
    recommends
        size >= 1,
{
    (len + size - 1) / (size as int)
}

/// The bytes of fragment `i`: a full fragment except possibly the last.
pub open spec fn fragment_bytes(len: nat, size: nat, i: int) -> int
    recommends
        size >= 1,
        0 <= i < fragment_count(len, size),
{
    if (i + 1) * size <= len {
        size as int
    } else {
        len - i * size
    }
}

/// The fragment events of a transmission in which nothing is lost.
pub open spec fn lossless_fragments(len: nat, size: nat) -> Seq<TransportEvent>
    recommends
        size >= 1,
{
    Seq::new(
        fragment_count(len, size) as nat,
        |i: int|
            TransportEvent::TransmitFragment {
                fragment_id: i as usize,
                total_fragments: fragment_count(len, size) as usize,
                bytes: fragment_bytes(len, size, i) as usize,
            },
    )
}

/// Saturating addition of u64 times.
pub open spec fn sat_add_u64(x: u64, y: u64) -> u64 {
    if x + y > u64::MAX {
        u64::MAX
    } else {
        (x + y) as u64
    }
}

/// Saturating addition of u32 counters.
pub open spec fn sat_add_u32(x: u32, y: u32) -> u32 {
    if x + y > u32::MAX {
        u32::MAX
    } else {
        (x + y) as u32
    }
}

/// The nominal time of `n` first-attempt fragment sends at fixed latency.
pub open spec fn nominal_time(latency: u64, n: int) -> u64
    decreases n,
{
    if n <= 0 {
        0
    } else {
        sat_add_u64(nominal_time(latency, n - 1), latency)
    }
}

/// The most lost attempts one fragment can cost before it is abandoned:
/// `max_retries` of them, except that with zero retries allowed the first
/// loss is still counted before the fragment is dropped.
pub open spec fn losses_per_fragment(max_retries: u32) -> int {
    if max_retries == 0 {
        1
    } else {
        max_retries as int
    }
}

/// The signal strength after `n` delivered fragments and no losses: 2 dBm
/// gained per fragment, up to the -50 ceiling.
pub open spec fn rssi_after_gains(r: int, n: int) -> int {
    if r + 2 * n > -50 {
        -50
    } else {
        r + 2 * n
    }
}

/// The count and byte arithmetic of ceil-division fragmentation.
proof fn lemma_fragment_arith(len: nat, size: nat)
    requires
        size >= 1,
    ensures
        fragment_count(len, size) >= 0,
        len == 0 ==> fragment_count(len, size) == 0,
        len > 0 ==> fragment_count(len, size) >= 1,
        fragment_count(len, size) * size >= len,
        len > 0 ==> (fragment_count(len, size) - 1) * size < len,
        forall|i: int|
            0 <= i < fragment_count(len, size) ==> #[trigger] (i * (size as int)) < len && 1
                <= fragment_bytes(len, size, i) <= size,
{
    let n = fragment_count(len, size);
    if len == 0 {
        vstd::arithmetic::div_mod::lemma_basic_div(size as int - 1, size as int);
        assert(n == 0);
    }
    lemma_fundamental_div_mod(len + size - 1, size as int);
    let r = (len + size - 1) % (size as int);
    assert(len + size - 1 == (size as int) * n + r);
    assert(0 <= r < size);
    assert(n * size == (size as int) * n) by {
        vstd::arithmetic::mul::lemma_mul_is_commutative(n, size as int);
    }
    assert(n * size >= len);
    if len > 0 {
        assert(n >= 1) by {
            vstd::arithmetic::div_mod::lemma_div_by_self(size as int);
            vstd::arithmetic::div_mod::lemma_div_is_ordered(
                size as int,
                len + size - 1,
                size as int,
            );
        }
        assert((n - 1) * size == n * size - size) by {
            vstd::arithmetic::mul::lemma_mul_is_distributive_sub_other_way(size as int, n, 1);
        }
        assert((n - 1) * size < len);
    }
    assert forall|i: int| 0 <= i < n implies #[trigger] (i * (size as int)) < len && 1
        <= fragment_bytes(len, size, i) <= size by {
        assert(len > 0);
        lemma_mul_inequality(i, n - 1, size as int);
        assert(i * size <= (n - 1) * size);
        assert(i * size < len);
        assert((i + 1) * size == i * size + size) by {
            vstd::arithmetic::mul::lemma_mul_is_distributive_add_other_way(size as int, i, 1);
        }
        if (i + 1) * size <= len {
        } else {
            assert(fragment_bytes(len, size, i) == len - i * size);
        }
    }
}

// ------------------------------------------------------------------
// The randomness boundary
// ------------------------------------------------------------------
/// Relies on rand::Rng::gen_range over `0..1_000_000`: a draw uniform in
/// that range.  Which value comes back depends on the RNG, so only the
/// bound is promised.
#[verifier::external_body]
fn draw_ppm() -> (r: u32)
    ensures
        r < 1_000_000,
{
    rand::Rng::gen_range(&mut rand::thread_rng(), 0..1_000_000u32)
}

// ------------------------------------------------------------------
// The simulated link
// ------------------------------------------------------------------
/// A transport that behaves like a constrained radio link and records what
/// it does for a dashboard.
pub struct SimulatedLoRaTransport {
    config: LoRaConfig,
    state: LoRaTransportState,
    stats: TransportStats,
}

impl SimulatedLoRaTransport {
    /// The link parameters.
    pub closed spec fn config_spec(self) -> LoRaConfig {
        self.config
    }

    /// The observation snapshot.
    pub closed spec fn state_spec(self) -> LoRaTransportState {
        self.state
    }

    /// The accumulated statistics.
    pub closed spec fn stats_spec(self) -> TransportStats {
        self.stats
    }

    /// The observation state is always within its bounds.
    pub open spec fn wf(self) -> bool {
        state_wf(self.state_spec())
    }

    /// A link with the default parameters.
    pub fn new() -> (r: SimulatedLoRaTransport)
        ensures
            r.wf(),
            r.config_spec() == default_config(),
            r.stats_spec().is_zero(),
            r.state_spec().total_messages == 0,
            r.state_spec().by_type.is_zero(),
            r.state_spec().total_retries == 0,
            r.state_spec().recent_events@ =~= Seq::<TransportEvent>::empty(),
            r.state_spec().cli_output@ =~= Seq::<String>::empty(),
    {
        SimulatedLoRaTransport::new_with_config(LoRaConfig::default())
    }

    /// A link with the given parameters.
    pub fn new_with_config(config: LoRaConfig) -> (r: SimulatedLoRaTransport)
        ensures
            r.wf(),
            r.config_spec() == config,
            r.stats_spec().is_zero(),
            r.state_spec().total_messages == 0,
            r.state_spec().by_type.is_zero(),
            r.state_spec().total_retries == 0,
            r.state_spec().recent_events@ =~= Seq::<TransportEvent>::empty(),
            r.state_spec().cli_output@ =~= Seq::<String>::empty(),
    {
        SimulatedLoRaTransport {
            config,
            state: LoRaTransportState::default(),
            stats: TransportStats::new(),
        }
    }

    /// The observation snapshot, for a status endpoint.
    pub fn get_state(&self) -> (r: &LoRaTransportState)
        ensures
            *r == self.state_spec(),
    {
        &self.state
    }

    /// Record one front-end log line, keeping the newest 500.
    pub fn log_cli_output(&mut self, line: String)
        requires
            old(self).wf(),
        ensures
            final(self).wf(),
            final(self).config_spec() == old(self).config_spec(),
            final(self).stats_spec() == old(self).stats_spec(),
            final(self).state_spec().cli_output@ == keep_last(
                old(self).state_spec().cli_output@.push(line),
                500,
            ),
            final(self).state_spec().recent_events == old(self).state_spec().recent_events,
            final(self).state_spec().total_messages == old(self).state_spec().total_messages,
            final(self).state_spec().total_bytes == old(self).state_spec().total_bytes,
            final(self).state_spec().by_type == old(self).state_spec().by_type,
            final(self).state_spec().current_phase == old(self).state_spec().current_phase,
            final(self).state_spec().rssi == old(self).state_spec().rssi,
            final(self).state_spec().progress_ppm == old(self).state_spec().progress_ppm,
            final(self).state_spec().total_retries == old(self).state_spec().total_retries,
    {
        push_line(&mut self.state.cli_output, line);
    }
}

impl Transport for SimulatedLoRaTransport {
    /// The link must be within its bounds, must have something to fragment
    /// with, and the ceil-division must not overflow the address space.
    open spec fn send_requires(&self, metadata: MessageMetadata, payload: Seq<u8>) -> bool {
        &&& self.wf()
        &&& self.config_spec().fragment_size >= 1
        &&& payload.len() + self.config_spec().fragment_size <= usize::MAX
    }

    /// Fragment the payload and transmit it over the lossy link, recording
    /// every step.  Counters are updated exactly.  Whatever the link does:
    /// the event log keeps its newest 100 entries and gains a trace that
    /// opens with a start event recording the byte and fragment counts and
    /// closes with a completion event whose retry count is exactly what
    /// was added to `total_retries` — at most the loss allowance per
    /// fragment times the fragment count; the signal strength stays within
    /// [-120, -50]; and afterwards the progress gauge reads complete.  On
    /// a lossless link (`packet_loss_ppm == 0`) the behaviour is fully
    /// deterministic: no retries, the signal strength gains 2 dBm per
    /// fragment up to its ceiling, and the trace is exactly one start
    /// event, one delivered-fragment event per fragment, and one
    /// completion event carrying the nominal total time.
    fn send(&mut self, metadata: MessageMetadata, payload: &[u8])
        ensures
            final(self).wf(),
            final(self).config_spec() == old(self).config_spec(),
            final(self).stats_spec().total_messages == sat_inc_usize(
                old(self).stats_spec().total_messages,
            ),
            final(self).stats_spec().total_bytes == sat_add_usize(
                old(self).stats_spec().total_bytes,
                payload@.len() as usize,
            ),
            final(self).stats_spec().by_type.count_spec(metadata.message_type) == sat_inc_usize(
                old(self).stats_spec().by_type.count_spec(metadata.message_type),
            ),
            forall|u: MessageType|
                u != metadata.message_type ==> final(self).stats_spec().by_type.count_spec(u)
                    == old(self).stats_spec().by_type.count_spec(u),
            final(self).state_spec().total_messages == final(self).stats_spec().total_messages,
            final(self).state_spec().total_bytes == final(self).stats_spec().total_bytes,
            final(self).state_spec().by_type == final(self).stats_spec().by_type,
            final(self).state_spec().current_phase@ == type_label(metadata.message_type),
            final(self).state_spec().cli_output == old(self).state_spec().cli_output,
            fragment_count(payload@.len(), old(self).config_spec().fragment_size as nat) == 0
                ==> final(self).state_spec().progress_ppm == old(
                self,
            ).state_spec().progress_ppm,
            fragment_count(payload@.len(), old(self).config_spec().fragment_size as nat) > 0
                ==> final(self).state_spec().progress_ppm == 1_000_000,
            (exists|evs: Seq<TransportEvent>, added: u32|
                #![trigger keep_last(old(self).state_spec().recent_events@ + evs, 100), sat_add_u32(old(self).state_spec().total_retries, added)]
                {
                    let n = fragment_count(
                        payload@.len(),
                        old(self).config_spec().fragment_size as nat,
                    );
                    &&& final(self).state_spec().recent_events@ == keep_last(
                        old(self).state_spec().recent_events@ + evs,
                        100,
                    )
                    &&& evs.len() >= 2
                    &&& evs[0] == (TransportEvent::TransmitStart {
                        from: metadata.from,
                        to: metadata.to,
                        message_type: metadata.message_type,
                        total_bytes: payload@.len() as usize,
                        fragments: n as usize,
                    })
                    &&& completion_retries(evs.last()) == Some(added)
                    &&& final(self).state_spec().total_retries == sat_add_u32(
                        old(self).state_spec().total_retries,
                        added,
                    )
                    &&& added as int <= n * losses_per_fragment(
                        old(self).config_spec().max_retries,
                    )
                }),
            old(self).config_spec().packet_loss_ppm == 0 ==> final(self).state_spec().rssi
                == rssi_after_gains(
                old(self).state_spec().rssi as int,
                fragment_count(payload@.len(), old(self).config_spec().fragment_size as nat),
            ),
            old(self).config_spec().packet_loss_ppm == 0 ==> {
                let cfg = old(self).config_spec();
                let n = fragment_count(payload@.len(), cfg.fragment_size as nat);
                &&& final(self).state_spec().total_retries == old(
                    self,
                ).state_spec().total_retries
                &&& final(self).state_spec().recent_events@ == keep_last(
                    old(self).state_spec().recent_events@ + seq![
                        (TransportEvent::TransmitStart {
                            from: metadata.from,
                            to: metadata.to,
                            message_type: metadata.message_type,
                            total_bytes: payload@.len() as usize,
                            fragments: n as usize,
                        }),
                    ] + lossless_fragments(payload@.len(), cfg.fragment_size as nat) + seq![
                        (TransportEvent::TransmitComplete {
                            total_time_ms: nominal_time(cfg.latency_ms, n),
                            retries: 0,
                        }),
                    ],
                    100,
                )
            },
    {
        let t = metadata.message_type;
        let len = payload.len();
        let size = self.config.fragment_size;
        proof {
            lemma_fragment_arith(len as nat, size as nat);
        }
        let n = (len + size - 1) / size;

        // accounting
        self.stats.record(t, len);
        self.state.total_messages = self.stats.total_messages;
        self.state.total_bytes = self.stats.total_bytes;
        self.state.by_type = self.stats.by_type;
        self.state.current_phase = message_type_name(t);

        let ghost e0 = self.state.recent_events@;
        let ghost cfg = self.config;
        let ghost stats1 = self.stats;
        let ghost state1 = self.state;

        let start_ev = TransportEvent::TransmitStart {
            from: metadata.from,
            to: metadata.to,
            message_type: t,
            total_bytes: len,
            fragments: n,
        };
        let ghost start_ev_g = start_ev;
        // the whole trace of this transmission, as appended to the log
        let ghost mut trace: Seq<TransportEvent> = seq![start_ev_g];
        push_event(&mut self.state.recent_events, start_ev);
        proof {
            assert(e0.push(start_ev_g) =~= e0 + trace);
        }

        let mut total_retries: u32 = 0;
        let mut elapsed: u64 = 0;
        let mut i: usize = 0;
        while i < n
            invariant
                0 <= i <= n,
                size == cfg.fragment_size,
                size >= 1,
                len + size <= usize::MAX,
                len == payload@.len(),
                n == fragment_count(len as nat, size as nat),
                self.config == cfg,
                self.stats == stats1,
                self.state.total_messages == state1.total_messages,
                self.state.total_bytes == state1.total_bytes,
                self.state.by_type == state1.by_type,
                self.state.current_phase == state1.current_phase,
                self.state.cli_output == state1.cli_output,
                self.state.cli_output@.len() <= 500,
                self.state.total_retries == state1.total_retries,
                self.state.recent_events@.len() <= 100,
                -120 <= self.state.rssi <= -50,
                self.state.progress_ppm <= 1_000_000,
                self.state.recent_events@ == keep_last(e0 + trace, 100),
                trace.len() >= 1,
                trace[0] == start_ev_g,
                total_retries as int <= i * losses_per_fragment(cfg.max_retries),
                i == 0 ==> self.state.progress_ppm == state1.progress_ppm,
                i > 0 ==> self.state.progress_ppm as int == ((i as int) * 1_000_000) / (
                n as int),
                cfg.packet_loss_ppm == 0 ==> {
                    &&& total_retries == 0
                    &&& elapsed == nominal_time(cfg.latency_ms, i as int)
                    &&& trace == seq![start_ev_g] + lossless_fragments(
                        len as nat,
                        size as nat,
                    ).take(i as int)
                    &&& self.state.rssi == rssi_after_gains(state1.rssi as int, i as int)
                },
            decreases n - i,
        {
            proof {
                lemma_fragment_arith(len as nat, size as nat);
                assert((i as int) * (size as int) < len);
                vstd::arithmetic::mul::lemma_mul_is_distributive_add_other_way(
                    size as int,
                    i as int,
                    1,
                );
                assert((i as int + 1) * (size as int) == (i as int) * (size as int) + size as int);
            }
            let start = i * size;
            let end = if start + size <= len {
                start + size
            } else {
                len
            };
            let frag_len = end - start;
            proof {
                assert(frag_len == fragment_bytes(len as nat, size as nat, i as int));
            }

            let ghost trace_pre = trace;
            let ghost elapsed_pre = elapsed;
            let ghost retries_pre = total_retries;
            let ghost rssi_pre = self.state.rssi;

            let mut retry: u32 = 0;
            let mut delivered = false;
            let mut done = false;
            while !done
                invariant
                    size >= 1,
                    len + size <= usize::MAX,
                    n == fragment_count(len as nat, size as nat),
                    0 <= i < n,
                    frag_len == fragment_bytes(len as nat, size as nat, i as int),
                    self.config == cfg,
                    self.stats == stats1,
                    self.state.total_messages == state1.total_messages,
                    self.state.total_bytes == state1.total_bytes,
                    self.state.by_type == state1.by_type,
                    self.state.current_phase == state1.current_phase,
                    self.state.cli_output == state1.cli_output,
                    self.state.cli_output@.len() <= 500,
                    self.state.total_retries == state1.total_retries,
                    self.state.progress_ppm <= 1_000_000,
                    self.state.recent_events@.len() <= 100,
                    -120 <= self.state.rssi <= -50,
                    self.state.recent_events@ == keep_last(e0 + trace, 100),
                    trace.len() >= 1,
                    trace[0] == start_ev_g,
                    total_retries as int <= retries_pre + retry as int,
                    retries_pre as int <= i * losses_per_fragment(cfg.max_retries),
                    retry as int <= losses_per_fragment(cfg.max_retries),
                    !done ==> (retry < cfg.max_retries || retry == 0),
                    cfg.packet_loss_ppm == 0 ==> {
                        &&& retry == 0
                        &&& total_retries == retries_pre
                        &&& self.state.total_retries == state1.total_retries
                        &&& (!done ==> (trace == trace_pre && elapsed == elapsed_pre
                            && self.state.rssi == rssi_pre))
                        &&& (done ==> (delivered && trace == trace_pre.push(
                            TransportEvent::TransmitFragment {
                                fragment_id: i,
                                total_fragments: n,
                                bytes: frag_len,
                            },
                        ) && elapsed == sat_add_u64(elapsed_pre, cfg.latency_ms)
                            && self.state.rssi == (if rssi_pre + 2 > -50 {
                            -50int
                        } else {
                            rssi_pre + 2
                        })))
                    },
                decreases (if done {
                    0int
                } else {
                    cfg.max_retries + 1 - retry
                }),
            {
                elapsed = elapsed.saturating_add(self.config.latency_ms);
                let draw = draw_ppm();
                let lost = draw < self.config.packet_loss_ppm;
                if !lost {
                    let ev = TransportEvent::TransmitFragment {
                        fragment_id: i,
                        total_fragments: n,
                        bytes: frag_len,
                    };
                    let ghost ev_g = ev;
                    push_event(&mut self.state.recent_events, ev);
                    proof {
                        lemma_keep_last_push(e0 + trace, ev_g, 100);
                        assert((e0 + trace).push(ev_g) =~= e0 + trace.push(ev_g));
                        trace = trace.push(ev_g);
                    }
                    // signal strength improves a little, up to the ceiling
                    if self.state.rssi + 2 > -50 {
                        self.state.rssi = -50;
                    } else {
                        self.state.rssi = self.state.rssi + 2;
                    }
                    delivered = true;
                    done = true;
                } else {
                    let ev = TransportEvent::PacketLost { fragment_id: i, retry_count: retry };
                    let ghost ev_g = ev;
                    push_event(&mut self.state.recent_events, ev);
                    proof {
                        lemma_keep_last_push(e0 + trace, ev_g, 100);
                        assert((e0 + trace).push(ev_g) =~= e0 + trace.push(ev_g));
                        trace = trace.push(ev_g);
                    }
                    // signal strength degrades, down to the floor
                    if self.state.rssi - 5 < -120 {
                        self.state.rssi = -120;
                    } else {
                        self.state.rssi = self.state.rssi - 5;
                    }
                    retry = retry.saturating_add(1);
                    total_retries = total_retries.saturating_add(1);
                    if retry >= self.config.max_retries {
                        // retries exhausted: abandon this fragment
                        done = true;
                    } else {
                        // short backoff before the retransmission
                        elapsed = elapsed.saturating_add(200);
                    }
                }
            }

            // progress through the fragments, in parts per million
            let done_frags = (i + 1) as u128;
            let ppm = (done_frags * 1_000_000u128) / (n as u128);
            proof {
                lemma_mul_inequality(i as int + 1, n as int, 1_000_000int);
                assert((i as int + 1) * 1_000_000 <= (n as int) * 1_000_000);
                vstd::arithmetic::div_mod::lemma_div_is_ordered(
                    (i as int + 1) * 1_000_000,
                    (n as int) * 1_000_000,
                    n as int,
                );
                vstd::arithmetic::div_mod::lemma_div_by_multiple(1_000_000int, n as int);
                assert(((n as int) * 1_000_000) / (n as int) == 1_000_000) by {
                    vstd::arithmetic::mul::lemma_mul_is_commutative(n as int, 1_000_000int);
                };
                assert(ppm <= 1_000_000);
            }
            self.state.progress_ppm = ppm as u32;

            i += 1;
            proof {
                // one more fragment's losses fit the allowance
                vstd::arithmetic::mul::lemma_mul_is_distributive_add_other_way(
                    losses_per_fragment(cfg.max_retries),
                    i as int - 1,
                    1,
                );
                assert((i as int) * losses_per_fragment(cfg.max_retries) == (i as int - 1)
                    * losses_per_fragment(cfg.max_retries) + losses_per_fragment(
                    cfg.max_retries,
                ));
                if cfg.packet_loss_ppm == 0 {
                    let frags = lossless_fragments(len as nat, size as nat);
                    assert(frags.take(i as int) =~= frags.take(i as int - 1).push(
                        frags[i as int - 1],
                    ));
                    assert(trace =~= seq![start_ev_g] + frags.take(i as int));
                }
            }
        }

        // the transmission is over: record the outcome
        let complete_ev = TransportEvent::TransmitComplete {
            total_time_ms: elapsed,
            retries: total_retries,
        };
        let ghost complete_ev_g = complete_ev;
        push_event(&mut self.state.recent_events, complete_ev);
        proof {
            lemma_keep_last_push(e0 + trace, complete_ev_g, 100);
            assert((e0 + trace).push(complete_ev_g) =~= e0 + trace.push(complete_ev_g));
            trace = trace.push(complete_ev_g);
        }
        self.state.total_retries = self.state.total_retries.saturating_add(total_retries);
        proof {
            // materialize the witnesses of the appended-trace clause
            assert(self.state.recent_events@ == keep_last(e0 + trace, 100));
            assert(self.state.total_retries == sat_add_u32(state1.total_retries, total_retries));
            assert(trace.last() == complete_ev_g);
            assert(completion_retries(trace.last()) == Some(total_retries));
            if n > 0 {
                vstd::arithmetic::div_mod::lemma_div_by_multiple(1_000_000int, n as int);
                assert(((n as int) * 1_000_000) / (n as int) == 1_000_000) by {
                    vstd::arithmetic::mul::lemma_mul_is_commutative(n as int, 1_000_000int);
                };
            }
            if cfg.packet_loss_ppm == 0 {
                let frags = lossless_fragments(len as nat, size as nat);
                assert(frags.take(n as int) =~= frags);
                assert(e0 + trace =~= e0 + seq![start_ev_g] + frags + seq![complete_ev_g]);
            }
        }
    }

    /// This transport always reports its statistics.
    fn get_stats(&self) -> (r: Option<TransportStats>)
        ensures
            r == Some(self.stats_spec()),
    {
        Some(self.stats.clone())
    }

    /// After a reset nothing is counted and the observation state is back
    /// to idle: `total_messages` is zero and every per-type counter is
    /// empty until the next send.
    fn reset(&mut self)
        ensures
            final(self).wf(),
            final(self).config_spec() == old(self).config_spec(),
            final(self).stats_spec().is_zero(),
            final(self).state_spec().total_messages == 0,
            final(self).state_spec().total_bytes == 0,
            final(self).state_spec().by_type.is_zero(),
            final(self).state_spec().total_retries == 0,
            final(self).state_spec().recent_events@ =~= Seq::<TransportEvent>::empty(),
            final(self).state_spec().cli_output@ =~= Seq::<String>::empty(),
            final(self).state_spec().current_phase@ == "Idle"@,
            final(self).state_spec().progress_ppm == 0,
            final(self).state_spec().rssi == -80,
    {
        self.stats = TransportStats::new();
        self.state = LoRaTransportState::default();
    }
}

} // verus!
