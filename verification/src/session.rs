//! Reference-counted lifecycle of a capture session.
//!
//! A session owns at most one open hardware stream.  The first `start`
//! directs the caller to resolve the device, build the pipeline and open
//! the stream; later `start`s only join the running stream by raising the
//! reference count.  Each `stop` lowers the count, and only the stop that
//! returns it to zero directs the caller to close the stream; a stop with
//! no active consumers is a successful no-op.  The machine records how
//! often it has directed a stream to be opened and closed, so the balance
//! of hardware actions is part of its contract.
//!
//! The machine decides transitions only; the hardware actions themselves
//! (resolving a device, opening and closing a stream) are performed by the
//! caller between calls, as the returned directives demand.  On top of the
//! machine, `CaptureSession` owns the buffers of the open stream: the
//! pipeline engine is built by the start that leaves idle and freed by the
//! stop that returns there.

use vstd::prelude::*;
use crate::device::DeviceConfig;
use crate::downmix::downmixed;
use crate::engine::{buildable, build_failure, CaptureEngine, EngineBuildError};
use crate::pcm::pcm_encoded;
use crate::resample::{required_input_len, resampled};
use crate::ring::after_pushes;

verus! {

#[derive(Clone, Copy, PartialEq, Eq, Structural, Debug)]
pub enum LifecyclePhase {
    /// No stream and no consumers.
    Idle,
    /// A start is resolving the device and opening the stream.
    Starting,
    /// The stream is open and delivering.
    Active,
}

/// What the caller must do after a `start`.
#[derive(Clone, Copy, PartialEq, Eq, Structural, Debug)]
pub enum StartDirective {
    /// The session was idle: build the pipeline, open the hardware stream,
    /// then report `complete_start` or `fail_start`.
    OpenStream,
    /// A stream is already delivering; the caller joined it.
    AlreadyActive,
    /// Another start is still mid-construction.
    StartInProgress,
}

/// What the caller must do after a `stop`.
#[derive(Clone, Copy, PartialEq, Eq, Structural, Debug)]
pub enum StopDirective {
    /// The reference count was already zero: nothing to do.
    NoConsumers,
    /// Other consumers remain; the stream stays open.
    StillActive,
    /// The last consumer left: close the hardware stream.
    CloseStream,
}

/// Ghost state of a session: its phase, the number of active consumers,
/// and how many stream opens and closes the machine has directed.
pub struct LifecycleView {
    pub phase: LifecyclePhase,
    pub refs: nat,
    pub opens: nat,
    pub closes: nat,
}

/// Session invariant: the reference count is positive exactly while the
/// stream is open, and at most one stream is open at any time — the
/// directed opens exceed the directed closes by one while active and
/// balance exactly otherwise.
pub open spec fn inv(v: LifecycleView) -> bool {
    &&& (v.phase is Active <==> v.refs >= 1)
    &&& v.opens == v.closes + (if v.phase is Active {
        1int
    } else {
        0int
    })
}

/// One completed, successful `start`: the first consumer opens the stream,
/// every later one only joins it.
pub open spec fn spec_start(v: LifecycleView) -> LifecycleView {
    if v.refs == 0 {
        LifecycleView {
            phase: LifecyclePhase::Active,
            refs: 1,
            opens: v.opens + 1,
            closes: v.closes,
        }
    } else {
        LifecycleView { phase: v.phase, refs: v.refs + 1, opens: v.opens, closes: v.closes }
    }
}

/// One `stop`: a no-op with no consumers, a close for the last consumer,
/// a plain decrement otherwise.
pub open spec fn spec_stop(v: LifecycleView) -> LifecycleView {
    if v.refs == 0 {
        v
    } else if v.refs == 1 {
        LifecycleView {
            phase: LifecyclePhase::Idle,
            refs: 0,
            opens: v.opens,
            closes: v.closes + 1,
        }
    } else {
        LifecycleView {
            phase: v.phase,
            refs: (v.refs - 1) as nat,
            opens: v.opens,
            closes: v.closes,
        }
    }
}

pub struct CaptureLifecycle {
    phase: LifecyclePhase,
    refs: u32,
    opens: u64,
    closes: u64,
}

impl View for CaptureLifecycle {
    type V = LifecycleView;

    closed spec fn view(&self) -> LifecycleView {
        LifecycleView {
            phase: self.phase,
            refs: self.refs as nat,
            opens: self.opens as nat,
            closes: self.closes as nat,
        }
    }
}

impl CaptureLifecycle {
    /// A fresh session: idle, no consumers, no stream ever opened.
    pub fn new() -> (s: CaptureLifecycle)
        ensures
            inv(s@),
            s@.phase is Idle,
            s@.refs == 0,
            s@.opens == 0,
            s@.closes == 0,
    {
        CaptureLifecycle { phase: LifecyclePhase::Idle, refs: 0, opens: 0, closes: 0 }
    }

    /// Requests capture.  When idle the session enters `Starting` and the
    /// caller must open the stream; when active the consumer joins the
    /// running stream immediately, without touching the hardware.
    pub fn begin_start(&mut self) -> (d: StartDirective)
        requires
            inv(old(self)@),
            old(self)@.refs < u32::MAX,
        ensures
            inv(final(self)@),
            old(self)@.phase is Idle ==> {
                &&& d == StartDirective::OpenStream
                &&& final(self)@ == (LifecycleView {
                    phase: LifecyclePhase::Starting,
                    refs: 0,
                    opens: old(self)@.opens,
                    closes: old(self)@.closes,
                })
            },
            old(self)@.phase is Active ==> {
                &&& d == StartDirective::AlreadyActive
                &&& final(self)@ == spec_start(old(self)@)
            },
            old(self)@.phase is Starting ==> {
                &&& d == StartDirective::StartInProgress
                &&& final(self)@ == old(self)@
            },
    {
        match self.phase {
            LifecyclePhase::Idle => {
                self.phase = LifecyclePhase::Starting;
                StartDirective::OpenStream
            },
            LifecyclePhase::Active => {
                self.refs = self.refs + 1;
                StartDirective::AlreadyActive
            },
            LifecyclePhase::Starting => StartDirective::StartInProgress,
        }
    }

    /// Reports that the directed stream open succeeded: the session becomes
    /// active with its first consumer.
    pub fn complete_start(&mut self)
        requires
            inv(old(self)@),
            old(self)@.phase is Starting,
            old(self)@.opens < u64::MAX,
        ensures
            inv(final(self)@),
            final(self)@ == spec_start(
                LifecycleView {
                    phase: LifecyclePhase::Idle,
                    refs: 0,
                    opens: old(self)@.opens,
                    closes: old(self)@.closes,
                },
            ),
            final(self)@.phase is Active,
            final(self)@.refs == 1,
            final(self)@.opens == old(self)@.opens + 1,
            final(self)@.closes == old(self)@.closes,
    {
        self.phase = LifecyclePhase::Active;
        self.refs = 1;
        self.opens = self.opens + 1;
    }

    /// Reports that device resolution, pipeline construction or the stream
    /// open failed: the session returns to idle untouched, and the failure
    /// is surfaced to the caller rather than retried.
    pub fn fail_start(&mut self)
        requires
            inv(old(self)@),
            old(self)@.phase is Starting,
        ensures
            inv(final(self)@),
            final(self)@ == (LifecycleView {
                phase: LifecyclePhase::Idle,
                refs: 0,
                opens: old(self)@.opens,
                closes: old(self)@.closes,
            }),
    {
        self.phase = LifecyclePhase::Idle;
    }

    /// Releases one consumer.  Idempotent at zero: stopping a session with
    /// no consumers succeeds and changes nothing.  Only the stop that
    /// returns the count to zero directs the stream to be closed.
    pub fn stop(&mut self) -> (d: StopDirective)
        requires
            inv(old(self)@),
        ensures
            inv(final(self)@),
            final(self)@ == spec_stop(old(self)@),
            d == StopDirective::NoConsumers <==> old(self)@.refs == 0,
            d == StopDirective::CloseStream <==> old(self)@.refs == 1,
            d == StopDirective::StillActive <==> old(self)@.refs > 1,
            old(self)@.refs == 0 ==> final(self)@ == old(self)@,
    {
        if self.refs == 0 {
            StopDirective::NoConsumers
        } else if self.refs == 1 {
            self.phase = LifecyclePhase::Idle;
            self.refs = 0;
            self.closes = self.closes + 1;
            StopDirective::CloseStream
        } else {
            self.refs = self.refs - 1;
            StopDirective::StillActive
        }
    }

    /// Number of active consumers.
    pub fn ref_count(&self) -> (n: u32)
        ensures
            n as nat == self@.refs,
    {
        self.refs
    }

    /// Current phase.
    pub fn phase(&self) -> (p: LifecyclePhase)
        ensures
            p == self@.phase,
    {
        self.phase
    }

    /// How many stream opens the machine has directed so far.
    pub fn stream_opens(&self) -> (n: u64)
        ensures
            n as nat == self@.opens,
    {
        self.opens
    }

    /// How many stream closes the machine has directed so far.
    pub fn stream_closes(&self) -> (n: u64)
        ensures
            n as nat == self@.closes,
    {
        self.closes
    }
}

/// A capture session: the lifecycle machine together with the buffers it
/// owns.  The pipeline engine — ring buffer and converter — exists exactly
/// while the session is not idle: it is built by the start that leaves
/// idle and freed deterministically by the stop that returns there, or by
/// an aborted start.
pub struct CaptureSession {
    lifecycle: CaptureLifecycle,
    engine: Option<CaptureEngine>,
}

impl CaptureSession {
    /// Lifecycle state of the session.
    pub closed spec fn lifecycle_view(&self) -> LifecycleView {
        self.lifecycle@
    }

    /// The owned pipeline engine, present exactly while not idle.
    pub closed spec fn engine_spec(&self) -> Option<CaptureEngine> {
        self.engine
    }

    /// Mono samples buffered in the owned engine.
    pub open spec fn buffered(&self) -> Seq<i32>
        recommends
            self.engine_spec() is Some,
    {
        self.engine_spec()->0.buffered()
    }

    pub open spec fn wf(&self) -> bool {
        &&& inv(self.lifecycle_view())
        &&& (self.lifecycle_view().phase is Idle <==> self.engine_spec() is None)
        &&& (self.engine_spec() matches Some(e) ==> e.wf())
    }

    /// A fresh session: idle, no consumers, no buffers held.
    pub fn new() -> (s: CaptureSession)
        ensures
            s.wf(),
            s.lifecycle_view().phase is Idle,
            s.lifecycle_view().refs == 0,
            s.lifecycle_view().opens == 0,
            s.lifecycle_view().closes == 0,
            s.engine_spec() is None,
    {
        CaptureSession { lifecycle: CaptureLifecycle::new(), engine: None }
    }

    /// Requests capture.  When idle, the converter and the ring buffer are
    /// built for the given device; a build failure leaves the session idle
    /// with nothing held and surfaces the error, never retried.  On
    /// success the session is mid-start and the caller must open the
    /// hardware stream, then report `complete_start` or `fail_start`.
    /// When already active the consumer joins the running stream at once.
    pub fn start(&mut self, cfg: &DeviceConfig, target_rate: u32, output_len: usize) -> (r: Result<
        StartDirective,
        EngineBuildError,
    >)
        requires
            old(self).wf(),
            old(self).lifecycle_view().refs < u32::MAX,
        ensures
            final(self).wf(),
            old(self).lifecycle_view().phase is Idle ==> {
                &&& (r is Ok <==> buildable(*cfg, target_rate, output_len as int))
                &&& (r matches Err(e) ==> {
                    &&& e == build_failure(*cfg, target_rate, output_len as int)
                    &&& *final(self) == *old(self)
                })
                &&& (r is Ok ==> {
                    &&& r == Ok::<StartDirective, EngineBuildError>(StartDirective::OpenStream)
                    &&& final(self).lifecycle_view() == (LifecycleView {
                        phase: LifecyclePhase::Starting,
                        refs: 0,
                        opens: old(self).lifecycle_view().opens,
                        closes: old(self).lifecycle_view().closes,
                    })
                    &&& final(self).engine_spec() is Some
                    &&& final(self).buffered() == Seq::<i32>::empty()
                    &&& final(self).engine_spec()->0.channels_spec() == cfg.channels
                    &&& final(self).engine_spec()->0.native_spec() == cfg.native_rate
                    &&& final(self).engine_spec()->0.target_spec() == target_rate
                    &&& final(self).engine_spec()->0.out_len() == output_len
                    &&& final(self).engine_spec()->0.in_len() == required_input_len(
                        cfg.native_rate as int,
                        target_rate as int,
                        output_len as int,
                    )
                })
            },
            old(self).lifecycle_view().phase is Active ==> {
                &&& r == Ok::<StartDirective, EngineBuildError>(StartDirective::AlreadyActive)
                &&& final(self).lifecycle_view() == spec_start(old(self).lifecycle_view())
                &&& final(self).engine_spec() == old(self).engine_spec()
            },
            old(self).lifecycle_view().phase is Starting ==> {
                &&& r == Ok::<StartDirective, EngineBuildError>(StartDirective::StartInProgress)
                &&& *final(self) == *old(self)
            },
    {
        match self.lifecycle.phase() {
            LifecyclePhase::Idle => {
                match CaptureEngine::build(cfg, target_rate, output_len) {
                    Ok(engine) => {
                        let d = self.lifecycle.begin_start();
                        self.engine = Some(engine);
                        Ok(d)
                    },
                    Err(e) => Err(e),
                }
            },
            _ => Ok(self.lifecycle.begin_start()),
        }
    }

    /// Reports that the directed stream open succeeded: the session is
    /// active with its first consumer, delivering into the built buffers.
    pub fn complete_start(&mut self)
        requires
            old(self).wf(),
            old(self).lifecycle_view().phase is Starting,
            old(self).lifecycle_view().opens < u64::MAX,
        ensures
            final(self).wf(),
            final(self).lifecycle_view() == spec_start(
                LifecycleView {
                    phase: LifecyclePhase::Idle,
                    refs: 0,
                    opens: old(self).lifecycle_view().opens,
                    closes: old(self).lifecycle_view().closes,
                },
            ),
            final(self).engine_spec() == old(self).engine_spec(),
    {
        self.lifecycle.complete_start();
    }

    /// Reports that the stream open failed: the session returns to idle
    /// and the buffers built for it are freed; the error was surfaced by
    /// the caller and is not retried.
    pub fn fail_start(&mut self)
        requires
            old(self).wf(),
            old(self).lifecycle_view().phase is Starting,
        ensures
            final(self).wf(),
            final(self).lifecycle_view() == (LifecycleView {
                phase: LifecyclePhase::Idle,
                refs: 0,
                opens: old(self).lifecycle_view().opens,
                closes: old(self).lifecycle_view().closes,
            }),
            final(self).engine_spec() is None,
    {
        self.lifecycle.fail_start();
        self.engine = None;
    }

    /// Releases one consumer; idempotent at zero.  Only the stop that
    /// returns the count to zero directs the stream close, and exactly
    /// that stop frees the session's buffers.
    pub fn stop(&mut self) -> (d: StopDirective)
        requires
            old(self).wf(),
        ensures
            final(self).wf(),
            final(self).lifecycle_view() == spec_stop(old(self).lifecycle_view()),
            d == StopDirective::NoConsumers <==> old(self).lifecycle_view().refs == 0,
            d == StopDirective::CloseStream <==> old(self).lifecycle_view().refs == 1,
            d == StopDirective::StillActive <==> old(self).lifecycle_view().refs > 1,
            d == StopDirective::CloseStream ==> final(self).engine_spec() is None,
            d != StopDirective::CloseStream ==> final(self).engine_spec() == old(
                self,
            ).engine_spec(),
            old(self).lifecycle_view().refs == 0 ==> *final(self) == *old(self),
    {
        let d = self.lifecycle.stop();
        if d == StopDirective::CloseStream {
            self.engine = None;
        }
        d
    }

    /// Runs one hardware delivery through the owned pipeline; see
    /// `CaptureEngine::process_block`.  The callback may fire while the
    /// session is mid-start or active — any time the buffers exist — and
    /// never transitions the lifecycle.
    pub fn process(&mut self, input: &Vec<i32>) -> (chunks: Vec<Vec<i16>>)
        requires
            old(self).wf(),
            old(self).engine_spec() is Some,
        ensures
            final(self).wf(),
            final(self).lifecycle_view() == old(self).lifecycle_view(),
            final(self).engine_spec() is Some,
            ({
                let e_old = old(self).engine_spec()->0;
                let e_new = final(self).engine_spec()->0;
                let filled = after_pushes(
                    e_old.buffered(),
                    downmixed(input@, e_old.channels_spec() as int),
                    e_old.ring_capacity(),
                );
                let n = filled.len() as int / e_old.in_len();
                &&& e_new.channels_spec() == e_old.channels_spec()
                &&& e_new.native_spec() == e_old.native_spec()
                &&& e_new.target_spec() == e_old.target_spec()
                &&& e_new.in_len() == e_old.in_len()
                &&& e_new.out_len() == e_old.out_len()
                &&& e_new.ring_capacity() == e_old.ring_capacity()
                &&& chunks@.len() == n
                &&& (forall|c: int|
                    0 <= c < n ==> (#[trigger] chunks@[c])@ == pcm_encoded(
                        resampled(
                            filled.subrange(c * e_old.in_len(), (c + 1) * e_old.in_len()),
                            e_old.out_len(),
                        ),
                    ))
                &&& (forall|c: int| 0 <= c < n ==> (#[trigger] chunks@[c])@.len() == e_old.out_len())
                &&& e_new.buffered() == filled.skip(n * e_old.in_len())
            }),
    {
        match self.engine.take() {
            Some(mut engine) => {
                let chunks = engine.process_block(input);
                self.engine = Some(engine);
                chunks
            },
            None => Vec::new(),
        }
    }

    /// Current phase.
    pub fn phase(&self) -> (p: LifecyclePhase)
        ensures
            p == self.lifecycle_view().phase,
    {
        self.lifecycle.phase()
    }

    /// Number of active consumers.
    pub fn ref_count(&self) -> (n: u32)
        ensures
            n as nat == self.lifecycle_view().refs,
    {
        self.lifecycle.ref_count()
    }

    /// How many stream opens the session has directed so far.
    pub fn stream_opens(&self) -> (n: u64)
        ensures
            n as nat == self.lifecycle_view().opens,
    {
        self.lifecycle.stream_opens()
    }

    /// How many stream closes the session has directed so far.
    pub fn stream_closes(&self) -> (n: u64)
        ensures
            n as nat == self.lifecycle_view().closes,
    {
        self.lifecycle.stream_closes()
    }

    /// Whether the pipeline buffers exist: from the start that builds them
    /// to the stop or abort that frees them.
    pub fn is_built(&self) -> (b: bool)
        ensures
            b == (self.engine_spec() is Some),
    {
        self.engine.is_some()
    }
}

/// The invariant survives a completed start.
pub proof fn lemma_start_preserves_inv(v: LifecycleView)
    requires
        inv(v),
    ensures
        inv(spec_start(v)),
{
}

/// The invariant survives a stop.
pub proof fn lemma_stop_preserves_inv(v: LifecycleView)
    requires
        inv(v),
    ensures
        inv(spec_stop(v)),
{
}

/// Idempotent-stop law: a stop with no active consumers is a no-op — the
/// session state, the phase, and the open/close balance are untouched.
pub proof fn lemma_stop_idempotent(v: LifecycleView)
    requires
        v.refs == 0,
    ensures
        spec_stop(v) == v,
{
}

/// State after `n` completed starts.
pub open spec fn after_starts(v: LifecycleView, n: nat) -> LifecycleView
    decreases n,
{
    if n == 0 {
        v
    } else {
        spec_start(after_starts(v, (n - 1) as nat))
    }
}

/// State after `n` stops.
pub open spec fn after_stops(v: LifecycleView, n: nat) -> LifecycleView
    decreases n,
{
    if n == 0 {
        v
    } else {
        spec_stop(after_stops(v, (n - 1) as nat))
    }
}

proof fn lemma_starts_from_idle(v: LifecycleView, n: nat)
    requires
        inv(v),
        v.refs == 0,
        1 <= n,
    ensures
        inv(after_starts(v, n)),
        after_starts(v, n).phase is Active,
        after_starts(v, n).refs == n,
        after_starts(v, n).opens == v.opens + 1,
        after_starts(v, n).closes == v.closes,
    decreases n,
{
    if n == 1 {
        lemma_start_preserves_inv(v);
    } else {
        lemma_starts_from_idle(v, (n - 1) as nat);
        lemma_start_preserves_inv(after_starts(v, (n - 1) as nat));
    }
}

proof fn lemma_stops_from_active(v: LifecycleView, k: nat)
    requires
        inv(v),
        v.phase is Active,
        k <= v.refs,
    ensures
        inv(after_stops(v, k)),
        k < v.refs ==> after_stops(v, k) == (LifecycleView {
            phase: LifecyclePhase::Active,
            refs: (v.refs - k) as nat,
            opens: v.opens,
            closes: v.closes,
        }),
        k == v.refs ==> after_stops(v, k) == (LifecycleView {
            phase: LifecyclePhase::Idle,
            refs: 0,
            opens: v.opens,
            closes: v.closes + 1,
        }),
    decreases k,
{
    if k == 0 {
    } else {
        lemma_stops_from_active(v, (k - 1) as nat);
        lemma_stop_preserves_inv(after_stops(v, (k - 1) as nat));
    }
}

/// Reference-count law: from an idle session, `n` starts followed by up to
/// `n` stops direct exactly one hardware-stream open; the stream stays
/// open through the first `n - 1` stops, and the `n`-th stop directs
/// exactly one close, returning the session to idle.
pub proof fn lemma_refcount_balance(v: LifecycleView, n: nat, k: nat)
    requires
        inv(v),
        v.refs == 0,
        1 <= n,
        k <= n,
    ensures
        after_starts(v, n).phase is Active,
        after_starts(v, n).refs == n,
        after_starts(v, n).opens == v.opens + 1,
        after_starts(v, n).closes == v.closes,
        k < n ==> after_stops(after_starts(v, n), k).phase is Active && after_stops(
            after_starts(v, n),
            k,
        ).refs == n - k && after_stops(after_starts(v, n), k).closes == v.closes,
        k == n ==> after_stops(after_starts(v, n), k).phase is Idle && after_stops(
            after_starts(v, n),
            k,
        ).refs == 0 && after_stops(after_starts(v, n), k).opens == v.opens + 1 && after_stops(
            after_starts(v, n),
            k,
        ).closes == v.closes + 1,
{
    lemma_starts_from_idle(v, n);
    lemma_stops_from_active(after_starts(v, n), k);
}

} // verus!
