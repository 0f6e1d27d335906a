//! The telemetry loop as a state machine. Each call of `step` takes the
//! outcome of the last action and returns the next one; whoever drives it
//! sleeps, polls the configuration channel, opens and writes the serial
//! link and samples the provider.
//!
//! A tick runs `Sleep(update)`, `Poll`, at most one reconfiguration
//! (`Open` or `Close`), `Sample`, and `Write` while a link is open. A
//! failed write enters recovery: `Sleep(RECOVERY_MS)` and `Open` of the
//! same port, again and again, until a reopen succeeds.

use vstd::prelude::*;

use crate::config::{ConfigFile, MAX_CHANNEL};
use crate::frame::{encode_frames, frames_of, lemma_slot_stability, lemma_zero_frame};
use crate::sampler::{
    exact_bits, exact_bits_of, is_unsupported, lemma_unsupported_sends_zero_bits, sample,
    sample_of, ProviderSnapshot,
};

verus! {

/// The pause, in milliseconds, between two attempts to reopen the port.
pub const RECOVERY_MS: u64 = 500;

/// The exit status when every producer of configurations is gone.
pub const DISCONNECTED_EXIT: i32 = 1;

/// The outcome of one non-blocking poll of the configuration channel.
#[derive(Debug)]
pub enum Poll {
    Received(ConfigFile),
    Empty,
    Disconnected,
}

/// The outcome of the last action, handed back to the machine.
#[derive(Debug)]
pub enum Event {
    /// A sleep ended.
    Woke,
    /// The channel was polled.
    Polled(Poll),
    /// An attempt to open the port ended: `true` when the port is open.
    Opened(bool),
    /// The link was released.
    Closed,
    /// The provider was refreshed and read. `rounded[k]` is the bit
    /// pattern of the `f32` nearest to the reading of the `k`-th gauge
    /// (see `sample`); it is used only where that reading has no exact
    /// bits.
    Sampled { provider: ProviderSnapshot, rounded: Vec<u32> },
    /// The frames were written: `true` when every write succeeded.
    Wrote(bool),
}

/// What the driver does next.
#[derive(Debug)]
pub enum Action {
    /// Block for this many milliseconds.
    Sleep(u64),
    /// Poll the configuration channel once, without blocking.
    Poll,
    /// Release the link if one is held, then open this port.
    Open(String),
    /// Release the link if one is held.
    Close,
    /// Refresh the provider, take what it reports, and round the reading
    /// of every gauge of the current snapshot to `f32`.
    Sample,
    /// Write these frames, in order, attempting each even after a failure.
    Write(Vec<[u8; 4]>),
    /// End the process with this status.
    Exit(i32),
}

/// Where the machine stands: which outcome it waits for.
#[derive(Clone, Copy, PartialEq, Eq, Structural, Debug)]
pub enum Phase {
    /// Waiting for the tick's sleep to end.
    Sleeping,
    /// Waiting for the poll.
    Polling,
    /// Waiting for the port of a new snapshot to open.
    Opening,
    /// Waiting for the link to be released for a new snapshot.
    Closing,
    /// Waiting for the readings.
    Sampling,
    /// Waiting for the frames to be written.
    Writing,
    /// Recovering: waiting for the pause before a reopen to end.
    Backoff,
    /// Recovering: waiting for a reopen.
    Reopening,
    /// The channel is gone; nothing more happens.
    Halted,
}

/// The state of the telemetry loop: the current snapshot, whether a link
/// to its port is held, and the phase.
pub struct Telemetry {
    pub current: ConfigFile,
    pub linked: bool,
    pub phase: Phase,
}

/// Whether the machine is recovering from a failed write.
pub open spec fn recovering(p: Phase) -> bool {
    p is Backoff || p is Reopening
}

/// The value sent for each gauge of snapshot `c` when the provider
/// reports `p`: the exact bits of its reading where it has them, else the
/// rounding handed in.
pub open spec fn tick_values(c: ConfigFile, p: ProviderSnapshot, rounded: Seq<u32>) -> Seq<u32> {
    Seq::new(
        c.active.len() as nat,
        |k: int|
            match exact_bits_of(sample_of(p, c.active[k], c.update)) {
                Some(b) => b,
                None => rounded[k],
            },
    )
}

/// Whether `frames` are the frames of `values`, slot by slot.
pub open spec fn frames_for(frames: Vec<[u8; 4]>, values: Seq<u32>) -> bool {
    &&& frames.len() == values.len()
    &&& forall|k: int| 0 <= k < frames.len() ==> (#[trigger] frames[k])@ == frames_of(values)[k]
}

/// Whether `a` writes the frames of `values`.
pub open spec fn writes(a: Action, values: Seq<u32>) -> bool {
    a matches Action::Write(frames) && frames_for(frames, values)
}

/// Whether `a` opens the port `port`.
pub open spec fn opens(a: Action, port: Seq<char>) -> bool {
    a matches Action::Open(p) && p@ == port
}

/// The transition relation: from `s`, outcome `ev` leads to `t`, which
/// asks for `a`.
pub open spec fn next(s: Telemetry, ev: Event, t: Telemetry, a: Action) -> bool {
    match ev {
        Event::Woke => if s.phase is Sleeping {
            &&& t.current == s.current
            &&& t.linked == s.linked
            &&& t.phase is Polling
            &&& a is Poll
        } else {
            &&& t.current == s.current
            &&& t.linked == s.linked
            &&& t.phase is Reopening
            &&& opens(a, s.current.port@)
        },
        Event::Polled(p) => match p {
            Poll::Received(c) => if c.is_valid() {
                &&& t.current == c
                &&& !t.linked
                &&& if c.wants_link() {
                    t.phase is Opening && opens(a, c.port@)
                } else {
                    t.phase is Closing && a is Close
                }
            } else {
                &&& t.current == s.current
                &&& t.linked == s.linked
                &&& t.phase is Sampling
                &&& a is Sample
            },
            Poll::Empty => {
                &&& t.current == s.current
                &&& t.linked == s.linked
                &&& t.phase is Sampling
                &&& a is Sample
            },
            Poll::Disconnected => {
                &&& t.current == s.current
                &&& t.linked == s.linked
                &&& t.phase is Halted
                &&& a == Action::Exit(DISCONNECTED_EXIT)
            },
        },
        Event::Opened(ok) => {
            &&& t.current == s.current
            &&& t.linked == ok
            &&& if s.phase is Opening {
                t.phase is Sampling && a is Sample
            } else if ok {
                t.phase is Sleeping && a == Action::Sleep(s.current.update)
            } else {
                t.phase is Backoff && a == Action::Sleep(RECOVERY_MS)
            }
        },
        Event::Closed => {
            &&& t.current == s.current
            &&& t.linked == s.linked
            &&& t.phase is Sampling
            &&& a is Sample
        },
        Event::Sampled { provider, rounded } => {
            &&& t.current == s.current
            &&& t.linked == s.linked
            &&& if s.linked && s.current.active.len() > 0 {
                t.phase is Writing && writes(a, tick_values(s.current, provider, rounded@))
            } else {
                t.phase is Sleeping && a == Action::Sleep(s.current.update)
            }
        },
        Event::Wrote(ok) => {
            &&& t.current == s.current
            &&& t.linked == s.linked
            &&& if ok {
                t.phase is Sleeping && a == Action::Sleep(s.current.update)
            } else {
                t.phase is Backoff && a == Action::Sleep(RECOVERY_MS)
            }
        },
    }
}

impl Telemetry {
    /// The invariant: the current snapshot lies within the limits of the
    /// model; a link is held only to the port of an enabled snapshot;
    /// frames are written only over a held link; recovery and opening
    /// concern only a snapshot that wants a link.
    pub open spec fn inv(&self) -> bool {
        &&& self.current.is_valid()
        &&& self.linked ==> self.current.wants_link()
        &&& self.phase is Writing ==> self.linked
        &&& (recovering(self.phase) || self.phase is Opening) ==> self.current.wants_link()
    }

    /// Whether `ev` is an outcome that the machine waits for.
    pub open spec fn accepts_spec(&self, ev: &Event) -> bool {
        match self.phase {
            Phase::Sleeping | Phase::Backoff => ev is Woke,
            Phase::Polling => ev is Polled,
            Phase::Opening | Phase::Reopening => ev is Opened,
            Phase::Closing => ev is Closed,
            Phase::Sampling => ev matches Event::Sampled { rounded, .. } && rounded.len()
                == self.current.active.len(),
            Phase::Writing => ev is Wrote,
            Phase::Halted => false,
        }
    }

    /// A loop with the default snapshot and no link, at the start of a
    /// tick.
    pub fn new() -> (r: Telemetry)
        ensures
            r.inv(),
            r.phase is Sleeping,
            !r.linked,
            !r.current.power,
            r.current.port@.len() == 0,
            r.current.update == crate::config::DEFAULT_UPDATE_MS,
            r.current.active.len() == 0,
    {
        Telemetry { current: ConfigFile::default(), linked: false, phase: Phase::Sleeping }
    }

    /// The first action, for a machine at the start of a tick.
    pub fn start(&self) -> (a: Action)
        requires
            self.phase is Sleeping,
        ensures
            a == Action::Sleep(self.current.update),
    {
        Action::Sleep(self.current.update)
    }

    /// Whether `ev` is an outcome that the machine waits for.
    pub fn accepts(&self, ev: &Event) -> (r: bool)
        ensures
            r == self.accepts_spec(ev),
    {
        match self.phase {
            Phase::Sleeping | Phase::Backoff => matches!(ev, Event::Woke),
            Phase::Polling => matches!(ev, Event::Polled(_)),
            Phase::Opening | Phase::Reopening => matches!(ev, Event::Opened(_)),
            Phase::Closing => matches!(ev, Event::Closed),
            Phase::Sampling => match ev {
                Event::Sampled { rounded, .. } => rounded.len() == self.current.active.len(),
                _ => false,
            },
            Phase::Writing => matches!(ev, Event::Wrote(_)),
            Phase::Halted => false,
        }
    }

    /// The value sent for each gauge of the current snapshot, see
    /// `tick_values`.
    fn tick_values(&self, provider: &ProviderSnapshot, rounded: &Vec<u32>) -> (r: Vec<u32>)
        requires
            rounded.len() == self.current.active.len(),
        ensures
            r@ == tick_values(self.current, *provider, rounded@),
    {
        let readings = sample(provider, &self.current.active, self.current.update);
        let mut r: Vec<u32> = Vec::new();
        let mut k: usize = 0;
        while k < readings.len()
            invariant
                readings.len() == self.current.active.len() == rounded.len(),
                forall|j: int|
                    0 <= j < readings.len() ==> #[trigger] readings[j] == sample_of(
                        *provider,
                        self.current.active[j],
                        self.current.update,
                    ),
                k <= readings.len(),
                r.len() == k,
                forall|j: int|
                    0 <= j < k ==> #[trigger] r[j] == tick_values(
                        self.current,
                        *provider,
                        rounded@,
                    )[j],
            decreases readings.len() - k,
        {
            let v: u32 = match exact_bits(&readings[k]) {
                Some(b) => b,
                None => rounded[k],
            };
            r.push(v);
            k = k + 1;
        }
        assert(r@ =~= tick_values(self.current, *provider, rounded@));
        r
    }

    /// Takes the outcome of the last action and returns the next action.
    pub fn step(&mut self, ev: Event) -> (a: Action)
        requires
            old(self).inv(),
            old(self).accepts_spec(&ev),
        ensures
            final(self).inv(),
            next(*old(self), ev, *final(self), a),
    {
        match ev {
            Event::Woke => {
                if matches!(self.phase, Phase::Sleeping) {
                    self.phase = Phase::Polling;
                    Action::Poll
                } else {
                    self.phase = Phase::Reopening;
                    Action::Open(self.current.port.clone())
                }
            },
            Event::Polled(p) => match p {
                Poll::Received(c) => {
                    if c.check() {
                        self.current = c;
                        self.linked = false;
                        if self.current.power && !self.current.port.as_str().is_empty() {
                            self.phase = Phase::Opening;
                            Action::Open(self.current.port.clone())
                        } else {
                            self.phase = Phase::Closing;
                            Action::Close
                        }
                    } else {
                        self.phase = Phase::Sampling;
                        Action::Sample
                    }
                },
                Poll::Empty => {
                    self.phase = Phase::Sampling;
                    Action::Sample
                },
                Poll::Disconnected => {
                    self.phase = Phase::Halted;
                    Action::Exit(DISCONNECTED_EXIT)
                },
            },
            Event::Opened(ok) => {
                self.linked = ok;
                if matches!(self.phase, Phase::Opening) {
                    self.phase = Phase::Sampling;
                    Action::Sample
                } else if ok {
                    self.phase = Phase::Sleeping;
                    Action::Sleep(self.current.update)
                } else {
                    self.phase = Phase::Backoff;
                    Action::Sleep(RECOVERY_MS)
                }
            },
            Event::Closed => {
                self.phase = Phase::Sampling;
                Action::Sample
            },
            Event::Sampled { provider, rounded } => {
                if self.linked && self.current.active.len() > 0 {
                    let values = self.tick_values(&provider, &rounded);
                    self.phase = Phase::Writing;
                    Action::Write(encode_frames(&values))
                } else {
                    self.phase = Phase::Sleeping;
                    Action::Sleep(self.current.update)
                }
            },
            Event::Wrote(ok) => {
                if ok {
                    self.phase = Phase::Sleeping;
                    Action::Sleep(self.current.update)
                } else {
                    self.phase = Phase::Backoff;
                    Action::Sleep(RECOVERY_MS)
                }
            },
        }
    }
}

/// Step `i` of a run: `states[i]` waits for `evs[i]`, which leads to
/// `states[i + 1]` and asks for `acts[i]`.
pub open spec fn step_at(states: Seq<Telemetry>, evs: Seq<Event>, acts: Seq<Action>, i: int) -> bool {
    &&& states[i].accepts_spec(&evs[i])
    &&& next(states[i], evs[i], states[i + 1], acts[i])
}

/// A run of the machine: one state more than outcomes, one action per
/// outcome.
pub open spec fn is_run(states: Seq<Telemetry>, evs: Seq<Event>, acts: Seq<Action>) -> bool {
    &&& states.len() == evs.len() + 1
    &&& acts.len() == evs.len()
    &&& forall|i: int| 0 <= i < evs.len() ==> #[trigger] step_at(states, evs, acts, i)
}

/// Each accepted step keeps the invariant.
pub proof fn lemma_next_keeps_inv(s: Telemetry, ev: Event, t: Telemetry, a: Action)
    requires
        s.inv(),
        s.accepts_spec(&ev),
        next(s, ev, t, a),
    ensures
        t.inv(),
{
}

/// The phases of a tick between its poll and its closing sleep.
pub open spec fn mid_tick(p: Phase) -> bool {
    p is Opening || p is Closing || p is Sampling || p is Writing
}

proof fn lemma_tick_after_apply(
    states: Seq<Telemetry>,
    evs: Seq<Event>,
    acts: Seq<Action>,
    c: ConfigFile,
    i: int,
)
    requires
        is_run(states, evs, acts),
        2 <= evs.len(),
        states[0].phase is Sleeping,
        evs[0] is Woke,
        evs[1] == Event::Polled(Poll::Received(c)),
        c.is_valid(),
        forall|j: int| 0 <= j < acts.len() - 1 ==> !(#[trigger] acts[j] is Sleep),
        2 <= i <= evs.len(),
    ensures
        states[i].current == c,
        i < evs.len() ==> mid_tick(states[i].phase),
        forall|j: int| 1 <= j < i ==> !(#[trigger] acts[j] is Poll),
    decreases i,
{
    assert(step_at(states, evs, acts, 0));
    assert(step_at(states, evs, acts, 1));
    if i > 2 {
        lemma_tick_after_apply(states, evs, acts, c, i - 1);
        assert(step_at(states, evs, acts, i - 1));
        assert(i - 1 < acts.len() - 1 ==> !(acts[i - 1] is Sleep));
    }
}

/// At most one reconfiguration per tick: when the tick's poll hands over
/// a valid snapshot `c`, the tick polls no more until it sleeps again, so
/// whatever else is queued stays queued, and `c` stays the current
/// snapshot throughout.
pub proof fn lemma_one_apply_per_tick(
    states: Seq<Telemetry>,
    evs: Seq<Event>,
    acts: Seq<Action>,
    c: ConfigFile,
)
    requires
        is_run(states, evs, acts),
        2 <= evs.len(),
        states[0].phase is Sleeping,
        evs[0] is Woke,
        evs[1] == Event::Polled(Poll::Received(c)),
        c.is_valid(),
        forall|j: int| 0 <= j < acts.len() - 1 ==> !(#[trigger] acts[j] is Sleep),
    ensures
        acts[0] is Poll,
        forall|j: int| 1 <= j < acts.len() ==> !(#[trigger] acts[j] is Poll),
        forall|j: int| 2 <= j < states.len() ==> (#[trigger] states[j]).current == c,
{
    assert(step_at(states, evs, acts, 0));
    lemma_tick_after_apply(states, evs, acts, c, evs.len() as int);
    assert forall|j: int| 2 <= j < states.len() implies (#[trigger] states[j]).current == c by {
        lemma_tick_after_apply(states, evs, acts, c, j);
    }
}

/// Whether step `i` of a recovery that began at step 0 behaves as
/// recovery must: odd steps reopen `port`, even steps pause for
/// `RECOVERY_MS`, but for a successful reopen, which resumes the normal
/// tick at once.
pub open spec fn recovery_step(
    states: Seq<Telemetry>,
    evs: Seq<Event>,
    acts: Seq<Action>,
    i: int,
    port: Seq<char>,
    update: u64,
) -> bool {
    if i % 2 == 1 {
        opens(acts[i], port) && states[i + 1].phase is Reopening
    } else if evs[i] == Event::Opened(true) {
        acts[i] == Action::Sleep(update) && states[i + 1].phase is Sleeping && states[i + 1].linked
    } else {
        acts[i] == Action::Sleep(RECOVERY_MS) && states[i + 1].phase is Backoff
    }
}

proof fn lemma_recovery_prefix(states: Seq<Telemetry>, evs: Seq<Event>, acts: Seq<Action>, i: int)
    requires
        is_run(states, evs, acts),
        1 <= evs.len(),
        states[0].phase is Writing,
        evs[0] == Event::Wrote(false),
        forall|j: int| 0 <= j < evs.len() - 1 ==> #[trigger] evs[j] != Event::Opened(true),
        1 <= i <= evs.len(),
    ensures
        states[i].current == states[0].current,
        i < evs.len() ==> (if i % 2 == 1 { states[i].phase is Backoff } else {
            states[i].phase is Reopening
        }),
        forall|j: int|
            0 <= j < i ==> #[trigger] recovery_step(
                states,
                evs,
                acts,
                j,
                states[0].current.port@,
                states[0].current.update,
            ),
    decreases i,
{
    assert(step_at(states, evs, acts, 0));
    if i > 1 {
        lemma_recovery_prefix(states, evs, acts, i - 1);
        assert(step_at(states, evs, acts, i - 1));
    }
}

/// Recovery: after a failed write, the loop pauses `RECOVERY_MS` and
/// reopens the same port, over and over, handling no tick meanwhile, and
/// resumes the normal tick on the first successful reopen.
pub proof fn lemma_recovery(states: Seq<Telemetry>, evs: Seq<Event>, acts: Seq<Action>)
    requires
        is_run(states, evs, acts),
        1 <= evs.len(),
        states[0].phase is Writing,
        evs[0] == Event::Wrote(false),
        forall|j: int| 0 <= j < evs.len() - 1 ==> #[trigger] evs[j] != Event::Opened(true),
    ensures
        forall|j: int| 0 <= j < states.len() ==> (#[trigger] states[j]).current == states[0].current,
        forall|j: int|
            0 <= j < acts.len() ==> #[trigger] recovery_step(
                states,
                evs,
                acts,
                j,
                states[0].current.port@,
                states[0].current.update,
            ),
{
    lemma_recovery_prefix(states, evs, acts, evs.len() as int);
    assert forall|j: int| 0 <= j < states.len() implies (#[trigger] states[j]).current
        == states[0].current by {
        if j >= 1 {
            lemma_recovery_prefix(states, evs, acts, j);
        }
    }
}

/// Whether outcome `ev` hands over a new snapshot.
pub open spec fn applies_snapshot(ev: Event) -> bool {
    ev matches Event::Polled(p) && p is Received
}

proof fn lemma_disabled_prefix(states: Seq<Telemetry>, evs: Seq<Event>, acts: Seq<Action>, i: int)
    requires
        is_run(states, evs, acts),
        states[0].inv(),
        !states[0].current.power,
        forall|j: int| 0 <= j < evs.len() ==> !applies_snapshot(#[trigger] evs[j]),
        0 <= i <= evs.len(),
    ensures
        states[i].inv(),
        states[i].current == states[0].current,
        !states[i].linked,
        forall|j: int| 0 <= j < i ==> !(#[trigger] acts[j] is Write) && !(acts[j] is Open),
    decreases i,
{
    if i > 0 {
        lemma_disabled_prefix(states, evs, acts, i - 1);
        assert(step_at(states, evs, acts, i - 1));
        assert(!applies_snapshot(evs[i - 1]));
        lemma_next_keeps_inv(states[i - 1], evs[i - 1], states[i], acts[i - 1]);
    }
}

/// A disabled snapshot: once the current snapshot is disabled, and until
/// another one is applied, no link is held and no frame is written, nor
/// any port opened, whatever the gauges.
pub proof fn lemma_disabled_writes_nothing(states: Seq<Telemetry>, evs: Seq<Event>, acts: Seq<Action>)
    requires
        is_run(states, evs, acts),
        states[0].inv(),
        !states[0].current.power,
        forall|j: int| 0 <= j < evs.len() ==> !applies_snapshot(#[trigger] evs[j]),
    ensures
        forall|j: int| 0 <= j < states.len() ==> !(#[trigger] states[j]).linked,
        forall|j: int| 0 <= j < acts.len() ==> !(#[trigger] acts[j] is Write) && !(acts[j] is Open),
{
    lemma_disabled_prefix(states, evs, acts, evs.len() as int);
    assert forall|j: int| 0 <= j < states.len() implies !(#[trigger] states[j]).linked by {
        lemma_disabled_prefix(states, evs, acts, j);
    }
}

/// Applying a disabled snapshot releases the link and asks to open
/// nothing.
pub proof fn lemma_apply_disabled(s: Telemetry, c: ConfigFile, t: Telemetry, a: Action)
    requires
        c.is_valid(),
        !c.power,
        next(s, Event::Polled(Poll::Received(c)), t, a),
    ensures
        !t.linked,
        a is Close,
        t.current == c,
{
}

/// Slot stability: the frame written for the `k`-th gauge of the current
/// snapshot carries `k` as its slot byte, whatever the gauges are; a gauge
/// kind with no backing sampler goes out as `[k, 0, 0, 0]`.
pub proof fn lemma_write_slots(s: Telemetry, ev: Event, t: Telemetry, a: Action)
    requires
        s.inv(),
        s.accepts_spec(&ev),
        next(s, ev, t, a),
        a is Write,
    ensures
        a->Write_0.len() == s.current.active.len(),
        forall|k: int|
            0 <= k < a->Write_0.len() ==> (#[trigger] a->Write_0[k])@[0] == k && k < MAX_CHANNEL,
        forall|k: int|
            0 <= k < a->Write_0.len() && is_unsupported(s.current.active[k]) ==> (#[trigger] a->Write_0[k])@
                == seq![k as u8, 0u8, 0u8, 0u8],
{
    if let Event::Sampled { provider, rounded } = ev {
        let values = tick_values(s.current, provider, rounded@);
        assert forall|k: int| 0 <= k < a->Write_0.len() implies (#[trigger] a->Write_0[k])@[0]
            == k && k < MAX_CHANNEL by {
            lemma_slot_stability(values, k);
        }
        assert forall|k: int|
            0 <= k < a->Write_0.len() && is_unsupported(s.current.active[k]) implies (#[trigger] a->Write_0[k])@
                == seq![k as u8, 0u8, 0u8, 0u8] by {
            lemma_unsupported_sends_zero_bits(provider, s.current.active[k], s.current.update);
            lemma_zero_frame((k % 256) as u8);
            assert(values[k] == 0);
        }
    }
}

} // verus!
