//! The translation orchestrator: the single-run slot that drops triggers
//! while a run is in flight, the routing of a capture outcome into a batch
//! or streaming translation, the in-order consumption of stream events
//! with rollback on failure, and the completion record every finished run
//! emits exactly once.

use vstd::prelude::*;
use crate::error::AppError;
use crate::error::ErrorCategory;
use crate::error::spec_category;
use crate::text_handler::CaptureMode;
use crate::llm::StreamEvent;
use crate::llm::spec_tps_milli;
use crate::llm::tokens_per_second_milli;

verus! {

/// The run slot: at most one translation run may be active.
#[derive(Debug)]
pub struct Orchestrator {
    /// Whether a run is in flight.
    pub active: bool,
}

/// The slot's answer to a trigger: the new slot state and whether a run
/// started.  A trigger while a run is active is dropped, not queued; a
/// trigger while the feature is disabled is dropped too.
pub open spec fn spec_on_trigger(active: bool, enabled: bool) -> (bool, bool) {
    if active {
        (true, false)
    } else if !enabled {
        (false, false)
    } else {
        (true, true)
    }
}

impl Orchestrator {
    /// An idle orchestrator.
    pub fn new() -> (r: Self)
        ensures
            !r.active,
    {
        Orchestrator { active: false }
    }

    /// Handles a trigger: a run starts exactly when the feature is enabled
    /// and no run is active.
    pub fn on_trigger(&mut self, enabled: bool) -> (started: bool)
        ensures
            (final(self).active, started) == spec_on_trigger(old(self).active, enabled),
    {
        if self.active {
            false
        } else if !enabled {
            false
        } else {
            self.active = true;
            true
        }
    }

    /// The run in flight has come to its natural conclusion; the slot is
    /// free again.
    pub fn finish_run(&mut self)
        ensures
            !final(self).active,
    {
        self.active = false;
    }
}

/// At-most-one-active-run law: from idle, a first trigger starts a run,
/// and any second trigger arriving while that run is active is dropped, so
/// exactly one run is created.
pub proof fn lemma_at_most_one_active_run(enabled_second: bool)
    ensures
        ({
            let (a1, started1) = spec_on_trigger(false, true);
            let (a2, started2) = spec_on_trigger(a1, enabled_second);
            started1 && !started2 && a2
        }),
{
}

/// Specification-level view of one stream event.
pub ghost enum StreamEventView {
    /// An incremental fragment.
    DeltaV(Seq<char>),
    /// The stream finished with these statistics.
    DoneV { completion_tokens: Option<u32>, duration_ms: u64 },
    /// The stream failed with this message.
    ErrorV(Seq<char>),
}

/// The view of a stream event.
pub open spec fn stream_event_view(e: StreamEvent) -> StreamEventView {
    match e {
        StreamEvent::Delta(d) => StreamEventView::DeltaV(d@),
        StreamEvent::Done { completion_tokens, duration_ms } => StreamEventView::DoneV {
            completion_tokens,
            duration_ms,
        },
        StreamEvent::Error(m) => StreamEventView::ErrorV(m@),
    }
}

/// What the stream consumer asks the driver to do after one event.
#[derive(Debug)]
pub enum StreamAction {
    /// Inject this fragment now, in arrival order.
    TypeChunk(String),
    /// The stream failed: restore the clipboard backup, best effort.
    Rollback,
    /// Nothing to do.
    Nothing,
}

/// Specification-level view of a stream action.
pub ghost enum StreamActView {
    /// Inject this fragment.
    TypeV(Seq<char>),
    /// Restore the backup.
    RollbackV,
    /// Nothing.
    NoneV,
}

/// The view of a stream action.
pub open spec fn stream_action_view(a: StreamAction) -> StreamActView {
    match a {
        StreamAction::TypeChunk(s) => StreamActView::TypeV(s@),
        StreamAction::Rollback => StreamActView::RollbackV,
        StreamAction::Nothing => StreamActView::NoneV,
    }
}

/// The stream consumer of one run: the text typed so far and how the
/// stream ended.
#[derive(Debug)]
pub struct StreamRun {
    /// Concatenation of every fragment typed so far.
    pub typed: String,
    /// Tokens reported by the final statistics, if any.
    pub completion_tokens: Option<u32>,
    /// Stream duration from the final statistics, in milliseconds.
    pub duration_ms: u64,
    /// Whether a terminal event has been consumed.
    pub finished: bool,
    /// The error message, when the stream failed.
    pub failed: Option<String>,
}

/// Specification-level image of the stream consumer.
pub ghost struct StreamRunModel {
    /// Concatenation of the typed fragments.
    pub typed: Seq<char>,
    /// Tokens reported by the final statistics.
    pub completion_tokens: Option<u32>,
    /// Stream duration in milliseconds.
    pub duration_ms: u64,
    /// Whether a terminal event has been consumed.
    pub finished: bool,
    /// The error message of a failed stream.
    pub failed: Option<Seq<char>>,
}

impl StreamRun {
    /// The specification-level image of this consumer.
    pub open spec fn model(self) -> StreamRunModel {
        StreamRunModel {
            typed: self.typed@,
            completion_tokens: self.completion_tokens,
            duration_ms: self.duration_ms,
            finished: self.finished,
            failed: match self.failed {
                Some(m) => Some(m@),
                None => None,
            },
        }
    }

    /// A fresh consumer: nothing typed, stream open.
    pub fn new() -> (r: Self)
        ensures
            r.model() == initial_stream_model(),
    {
        StreamRun {
            typed: String::new(),
            completion_tokens: None,
            duration_ms: 0,
            finished: false,
            failed: None,
        }
    }

    /// Consumes one stream event: a fragment is appended and injected at
    /// once; the final statistics close the stream; an error closes it and
    /// asks for the rollback.  Nothing happens after a terminal event.
    pub fn on_stream_event(&mut self, ev: StreamEvent) -> (a: StreamAction)
        ensures
            (final(self).model(), stream_action_view(a)) == spec_stream_step(
                old(self).model(),
                stream_event_view(ev),
            ),
    {
        if self.finished {
            return StreamAction::Nothing;
        }
        match ev {
            StreamEvent::Delta(d) => {
                self.typed.append(d.as_str());
                StreamAction::TypeChunk(d)
            },
            StreamEvent::Done { completion_tokens, duration_ms } => {
                self.completion_tokens = completion_tokens;
                self.duration_ms = duration_ms;
                self.finished = true;
                StreamAction::Nothing
            },
            StreamEvent::Error(m) => {
                self.finished = true;
                self.failed = Some(m);
                StreamAction::Rollback
            },
        }
    }
}

/// The consumer a run starts with.
pub open spec fn initial_stream_model() -> StreamRunModel {
    StreamRunModel {
        typed: Seq::empty(),
        completion_tokens: None,
        duration_ms: 0,
        finished: false,
        failed: None,
    }
}

/// One step of the stream consumer at the specification level.
pub open spec fn spec_stream_step(m: StreamRunModel, e: StreamEventView) -> (
    StreamRunModel,
    StreamActView,
) {
    if m.finished {
        (m, StreamActView::NoneV)
    } else {
        match e {
            StreamEventView::DeltaV(d) => (
                StreamRunModel { typed: m.typed + d, ..m },
                StreamActView::TypeV(d),
            ),
            StreamEventView::DoneV { completion_tokens, duration_ms } => (
                StreamRunModel { completion_tokens, duration_ms, finished: true, ..m },
                StreamActView::NoneV,
            ),
            StreamEventView::ErrorV(msg) => (
                StreamRunModel { finished: true, failed: Some(msg), ..m },
                StreamActView::RollbackV,
            ),
        }
    }
}

/// The consumer folded over a whole event sequence: the final state and
/// the action emitted at each event.
pub open spec fn spec_stream_run(m: StreamRunModel, events: Seq<StreamEventView>) -> (
    StreamRunModel,
    Seq<StreamActView>,
)
    decreases events.len(),
{
    if events.len() == 0 {
        (m, Seq::empty())
    } else {
        let (m1, acts) = spec_stream_run(m, events.drop_last());
        let (m2, a) = spec_stream_step(m1, events.last());
        (m2, acts.push(a))
    }
}

/// The concatenation of a sequence of fragments, in order.
pub open spec fn spec_concat(chunks: Seq<Seq<char>>) -> Seq<char>
    decreases chunks.len(),
{
    if chunks.len() == 0 {
        Seq::empty()
    } else {
        spec_concat(chunks.drop_last()) + chunks.last()
    }
}

/// Folding over a concatenation composes the two folds.
proof fn lemma_stream_run_append(
    m: StreamRunModel,
    a: Seq<StreamEventView>,
    b: Seq<StreamEventView>,
)
    ensures
        ({
            let (ma, acts_a) = spec_stream_run(m, a);
            let (mb, acts_b) = spec_stream_run(ma, b);
            spec_stream_run(m, a + b) == (mb, acts_a + acts_b)
        }),
    decreases b.len(),
{
    let (ma, acts_a) = spec_stream_run(m, a);
    if b.len() == 0 {
        assert(a + b =~= a);
        assert(acts_a + Seq::<StreamActView>::empty() =~= acts_a);
    } else {
        lemma_stream_run_append(m, a, b.drop_last());
        assert((a + b).drop_last() =~= a + b.drop_last());
        assert((a + b).last() == b.last());
        let (mb1, acts_b1) = spec_stream_run(ma, b.drop_last());
        let (m2, act) = spec_stream_step(mb1, b.last());
        assert((acts_a + acts_b1).push(act) =~= acts_a + acts_b1.push(act));
    }
}

/// An open consumer fed only fragments types each one, in order, and stays
/// open.
proof fn lemma_stream_run_deltas(m: StreamRunModel, deltas: Seq<Seq<char>>)
    requires
        !m.finished,
    ensures
        ({
            let events = deltas.map_values(|d: Seq<char>| StreamEventView::DeltaV(d));
            let (m2, acts) = spec_stream_run(m, events);
            &&& m2 == (StreamRunModel { typed: m.typed + spec_concat(deltas), ..m })
            &&& acts.len() == deltas.len()
            &&& forall|k: int|
                0 <= k < deltas.len() ==> acts[k] == StreamActView::TypeV(deltas[k])
        }),
    decreases deltas.len(),
{
    let events = deltas.map_values(|d: Seq<char>| StreamEventView::DeltaV(d));
    if deltas.len() == 0 {
        assert(events.len() == 0);
        assert(m.typed + spec_concat(deltas) =~= m.typed);
        assert(m == (StreamRunModel { typed: m.typed + spec_concat(deltas), ..m }));
    } else {
        lemma_stream_run_deltas(m, deltas.drop_last());
        let prev = deltas.drop_last().map_values(|d: Seq<char>| StreamEventView::DeltaV(d));
        assert(events.drop_last() =~= prev);
        assert(events.last() == StreamEventView::DeltaV(deltas.last()));
        assert((m.typed + spec_concat(deltas.drop_last())) + deltas.last() =~= m.typed
            + spec_concat(deltas));
    }
}

/// A closed consumer ignores everything that follows.
proof fn lemma_stream_run_closed(m: StreamRunModel, events: Seq<StreamEventView>)
    requires
        m.finished,
    ensures
        ({
            let (m2, acts) = spec_stream_run(m, events);
            &&& m2 == m
            &&& acts.len() == events.len()
            &&& forall|k: int| 0 <= k < acts.len() ==> acts[k] == StreamActView::NoneV
        }),
    decreases events.len(),
{
    if events.len() > 0 {
        lemma_stream_run_closed(m, events.drop_last());
    }
}

/// Streaming order law: fed fragments and then the final statistics, the
/// consumer types exactly the fragments, in arrival order, and types
/// nothing after the stream has closed, whatever else still arrives.
pub proof fn lemma_streaming_order(
    deltas: Seq<Seq<char>>,
    completion_tokens: Option<u32>,
    duration_ms: u64,
    rest: Seq<StreamEventView>,
)
    ensures
        ({
            let events = deltas.map_values(|d: Seq<char>| StreamEventView::DeltaV(d)).push(
                StreamEventView::DoneV { completion_tokens, duration_ms },
            ) + rest;
            let (m2, acts) = spec_stream_run(initial_stream_model(), events);
            &&& m2.typed == spec_concat(deltas)
            &&& m2.completion_tokens == completion_tokens
            &&& m2.duration_ms == duration_ms
            &&& m2.failed is None
            &&& acts.len() == events.len()
            &&& forall|k: int|
                0 <= k < deltas.len() ==> acts[k] == StreamActView::TypeV(deltas[k])
            &&& forall|k: int|
                deltas.len() <= k < acts.len() ==> acts[k] == StreamActView::NoneV
        }),
{
    let m0 = initial_stream_model();
    let dev = deltas.map_values(|d: Seq<char>| StreamEventView::DeltaV(d));
    let done = StreamEventView::DoneV { completion_tokens, duration_ms };
    assert(dev.push(done) =~= dev + seq![done]);
    lemma_stream_run_append(m0, dev + seq![done], rest);
    lemma_stream_run_append(m0, dev, seq![done]);
    lemma_stream_run_deltas(m0, deltas);
    let (ma, acts_a) = spec_stream_run(m0, dev);
    let (mb, acts_b) = spec_stream_run(ma, seq![done]);
    assert(seq![done].drop_last() =~= Seq::<StreamEventView>::empty());
    assert(spec_stream_run(ma, Seq::<StreamEventView>::empty()).0 == ma);
    assert(mb == spec_stream_step(ma, done).0);
    assert(acts_b =~= seq![StreamActView::NoneV]);
    lemma_stream_run_closed(mb, rest);
    let events = dev.push(done) + rest;
    let (m2, acts) = spec_stream_run(m0, events);
    let (mr, acts_r) = spec_stream_run(mb, rest);
    assert(events =~= (dev + seq![done]) + rest);
    assert(acts =~= (acts_a + acts_b) + acts_r);
    assert(m0.typed + spec_concat(deltas) =~= spec_concat(deltas));
    assert forall|k: int| deltas.len() <= k < acts.len() implies acts[k]
        == StreamActView::NoneV by {
        if k == deltas.len() {
            assert(acts[k] == acts_b[0]);
        } else {
            assert(acts[k] == acts_r[k - deltas.len() - 1]);
        }
    }
}

/// The label a run mode is recorded under.
pub open spec fn spec_mode_label(m: CaptureMode) -> Seq<char> {
    if m is Selected {
        "selected"@
    } else {
        "full"@
    }
}

/// The label of a run mode in history and metric records.
pub fn mode_label(m: CaptureMode) -> (r: &'static str)
    ensures
        r@ == spec_mode_label(m),
{
    match m {
        CaptureMode::Selected => "selected",
        CaptureMode::Full => "full",
    }
}

/// What the orchestrator does with a capture outcome.
#[derive(Debug)]
pub enum AfterCapture {
    /// The capture failed or yielded nothing: return to idle silently, no
    /// record, no user interruption.
    SilentStop,
    /// Translate this text in one batch call, then paste the result.
    Batch(String),
    /// Streaming mode: delete the selection, then stream this text.
    StreamDelete(String),
}

/// Routes a capture outcome: failures and empty text end the run silently;
/// otherwise the text goes to the streaming or batch path per the
/// configured mode.
pub fn route_capture(stream_mode: bool, r: Result<String, AppError>) -> (a: AfterCapture)
    ensures
        r is Err ==> a is SilentStop,
        r matches Ok(t) ==> (t@.len() == 0 ==> a is SilentStop),
        r matches Ok(t) ==> (t@.len() > 0 && stream_mode ==> (a matches
            AfterCapture::StreamDelete(x) && x == t)),
        r matches Ok(t) ==> (t@.len() > 0 && !stream_mode ==> (a matches AfterCapture::Batch(
            x,
        ) && x == t)),
{
    match r {
        Err(_) => AfterCapture::SilentStop,
        Ok(t) => {
            if t.as_str().is_empty() {
                AfterCapture::SilentStop
            } else if stream_mode {
                AfterCapture::StreamDelete(t)
            } else {
                AfterCapture::Batch(t)
            }
        },
    }
}

/// The completion record a finished run emits exactly once: the history
/// entry's texts and the performance metric's figures.
#[derive(Debug)]
pub struct RunRecord {
    /// Which capture the run performed.
    pub mode: CaptureMode,
    /// The target language of the run.
    pub target_lang: String,
    /// The captured text.
    pub original_text: String,
    /// The injected translation; empty on failure.
    pub translated_text: String,
    /// Characters captured.
    pub char_count: usize,
    /// Whether the run succeeded.
    pub success: bool,
    /// The error's metric category, on failure.
    pub error_category: Option<ErrorCategory>,
    /// Duration of the translation call, in milliseconds.
    pub duration_ms: u64,
    /// Tokens generated, when the backend reported usage.
    pub completion_tokens: Option<u32>,
    /// Output rate in thousandths of tokens per second.
    pub tokens_per_second_milli: Option<u64>,
}

/// The record of a successful run.
pub fn success_record(
    mode: CaptureMode,
    target_lang: String,
    original_text: String,
    translated_text: String,
    completion_tokens: Option<u32>,
    duration_ms: u64,
) -> (r: RunRecord)
    ensures
        r.mode == mode,
        r.target_lang == target_lang,
        r.original_text == original_text,
        r.translated_text == translated_text,
        r.char_count == original_text@.len(),
        r.success,
        r.error_category is None,
        r.duration_ms == duration_ms,
        r.completion_tokens == completion_tokens,
        r.tokens_per_second_milli == (match completion_tokens {
            Some(t) => Some(spec_tps_milli(t, duration_ms)),
            None => None::<u64>,
        }),
{
    let char_count = original_text.as_str().unicode_len();
    let tokens_per_second_milli = match completion_tokens {
        Some(t) => Some(tokens_per_second_milli(t, duration_ms)),
        None => None,
    };
    RunRecord {
        mode,
        target_lang,
        original_text,
        translated_text,
        char_count,
        success: true,
        error_category: None,
        duration_ms,
        completion_tokens,
        tokens_per_second_milli,
    }
}

/// The record of a failed run: no texts, the error's category, and the
/// character count of what had been captured.
pub fn failure_record(
    mode: CaptureMode,
    target_lang: String,
    char_count: usize,
    duration_ms: u64,
    e: &AppError,
) -> (r: RunRecord)
    ensures
        r.mode == mode,
        r.target_lang == target_lang,
        r.original_text@ == Seq::<char>::empty(),
        r.translated_text@ == Seq::<char>::empty(),
        r.char_count == char_count,
        !r.success,
        r.error_category == Some(spec_category(*e)),
        r.duration_ms == duration_ms,
        r.completion_tokens is None,
        r.tokens_per_second_milli is None,
{
    RunRecord {
        mode,
        target_lang,
        original_text: String::new(),
        translated_text: String::new(),
        char_count,
        success: false,
        error_category: Some(e.category()),
        duration_ms,
        completion_tokens: None,
        tokens_per_second_milli: None,
    }
}

} // verus!
