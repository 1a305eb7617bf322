use vstd::prelude::*;
use vstd::string::StringExecFns;
use crate::stream::{
    classify_frame, classify_spec, classify_fields_spec, event_opt_view, ChatCompletionEvent,
    EventSpec, Frame, FrameFields,
};

verus! {

/// Where the streaming loop of one completion stands.
#[derive(Clone, Copy, Debug, PartialEq, Eq, Structural)]
pub enum Phase {
    /// Frames are still consumed.
    Streaming,
    /// The upstream ended and the terminal event was delivered.
    Finished,
    /// The consumer went away; nothing more is delivered.
    Cancelled,
}

/// What the streaming loop observes at each iteration.
#[derive(Clone, Debug)]
pub enum StreamInput {
    /// The upstream connection opened.
    Open,
    /// A frame arrived.
    Frame(Frame),
    /// The transport reported an error that does not end the stream.
    Failure(String),
    /// The upstream stream ended, cleanly or because the transport closed.
    Ended,
    /// The cancellation signal fired.
    Cancelled,
}

pub enum InputSpec {
    Open,
    Frame(Seq<char>, Seq<char>),
    Failure(Seq<char>),
    Ended,
    Cancelled,
}

impl View for StreamInput {
    type V = InputSpec;

    open spec fn view(&self) -> InputSpec {
        match self {
            StreamInput::Open => InputSpec::Open,
            StreamInput::Frame(f) => InputSpec::Frame(f.event@, f.data@),
            StreamInput::Failure(m) => InputSpec::Failure(m@),
            StreamInput::Ended => InputSpec::Ended,
            StreamInput::Cancelled => InputSpec::Cancelled,
        }
    }
}

/// The state that the streaming loop threads through the stream: the current
/// finish reason and the phase.
pub struct StreamState {
    finish_reason: String,
    phase: Phase,
}

impl View for StreamState {
    type V = (Seq<char>, Phase);

    closed spec fn view(&self) -> (Seq<char>, Phase) {
        (self.finish_reason@, self.phase)
    }
}

/// The state at the start of every completion: finish reason `stop`.
pub open spec fn initial_state() -> (Seq<char>, Phase) {
    ("stop"@, Phase::Streaming)
}

/// The text of the event that reports a transport error.
pub open spec fn failure_text(m: Seq<char>) -> Seq<char> {
    "Error on stream: "@ + m
}

/// One iteration of the streaming loop: the next state and the event to
/// deliver, if any. Once the loop has stopped nothing changes.
pub open spec fn step_spec(s: (Seq<char>, Phase), input: InputSpec) -> (
    (Seq<char>, Phase),
    Option<EventSpec>,
) {
    if s.1 != Phase::Streaming {
        (s, None)
    } else {
        match input {
            InputSpec::Open => (s, None),
            InputSpec::Frame(event, data) => {
                let (e, reason) = classify_spec(event, data, s.0);
                ((reason, Phase::Streaming), e)
            },
            InputSpec::Failure(m) => (s, Some(EventSpec::Error(failure_text(m)))),
            InputSpec::Ended => ((s.0, Phase::Finished), Some(EventSpec::Finish(s.0))),
            InputSpec::Cancelled => ((s.0, Phase::Cancelled), None),
        }
    }
}

pub open spec fn opt_seq(e: Option<EventSpec>) -> Seq<EventSpec> {
    match e {
        Some(x) => seq![x],
        None => Seq::empty(),
    }
}

/// The state after a sequence of inputs, and every event delivered on the way.
pub open spec fn run_spec(s: (Seq<char>, Phase), inputs: Seq<InputSpec>) -> (
    (Seq<char>, Phase),
    Seq<EventSpec>,
)
    decreases inputs.len(),
{
    if inputs.len() == 0 {
        (s, Seq::empty())
    } else {
        let (s1, evs) = run_spec(s, inputs.drop_last());
        let (s2, e) = step_spec(s1, inputs.last());
        (s2, evs + opt_seq(e))
    }
}

pub open spec fn inputs_view(v: Seq<StreamInput>) -> Seq<InputSpec> {
    v.map_values(|x: StreamInput| x@)
}

pub open spec fn events_view(v: Seq<ChatCompletionEvent>) -> Seq<EventSpec> {
    v.map_values(|x: ChatCompletionEvent| x@)
}

impl StreamState {
    pub fn new() -> (r: StreamState)
        ensures
            r@ == initial_state(),
    {
        StreamState { finish_reason: String::from_str("stop"), phase: Phase::Streaming }
    }

    /// Whether the loop should go on consuming the upstream.
    pub fn is_streaming(&self) -> (r: bool)
        ensures
            r == (self@.1 == Phase::Streaming),
    {
        self.phase == Phase::Streaming
    }

    pub fn phase(&self) -> (r: Phase)
        ensures
            r == self@.1,
    {
        self.phase
    }

    /// Takes one input of the loop and returns the event to deliver, if any.
    pub fn step(&mut self, input: &StreamInput) -> (r: Option<ChatCompletionEvent>)
        ensures
            (final(self)@, event_opt_view(r)) == step_spec(old(self)@, input@),
    {
        if self.phase != Phase::Streaming {
            return None;
        }
        match input {
            StreamInput::Open => None,
            StreamInput::Frame(f) => classify_frame(f, &mut self.finish_reason),
            StreamInput::Failure(m) => {
                let text = String::from_str("Error on stream: ").concat(m.as_str());
                Some(ChatCompletionEvent::Error(text))
            },
            StreamInput::Ended => {
                self.phase = Phase::Finished;
                Some(ChatCompletionEvent::Finish(self.finish_reason.clone()))
            },
            StreamInput::Cancelled => {
                self.phase = Phase::Cancelled;
                None
            },
        }
    }

    /// Runs the loop over a scripted upstream, in order, and returns every
    /// event delivered.
    pub fn run(inputs: &Vec<StreamInput>) -> (r: Vec<ChatCompletionEvent>)
        ensures
            events_view(r@) == run_spec(initial_state(), inputs_view(inputs@)).1,
    {
        let mut state = StreamState::new();
        let mut out: Vec<ChatCompletionEvent> = Vec::new();
        let n = inputs.len();
        let mut i: usize = 0;
        while i < n
            invariant
                n == inputs@.len(),
                i <= n,
                (state@, events_view(out@)) == run_spec(
                    initial_state(),
                    inputs_view(inputs@.take(i as int)),
                ),
            decreases n - i,
        {
            assert(inputs_view(inputs@.take(i + 1)).drop_last() =~= inputs_view(
                inputs@.take(i as int),
            ));
            assert(inputs_view(inputs@.take(i + 1)).last() == inputs@[i as int]@);
            let ghost before = events_view(out@);
            match state.step(&inputs[i]) {
                Some(e) => {
                    out.push(e);
                },
                None => {},
            }
            assert(events_view(out@) =~= before + opt_seq(
                step_spec(
                    run_spec(initial_state(), inputs_view(inputs@.take(i as int))).0,
                    inputs@[i as int]@,
                ).1,
            ));
            i = i + 1;
        }
        assert(inputs@.take(n as int) =~= inputs@);
        out
    }
}

pub open spec fn has_finish(evs: Seq<EventSpec>) -> bool {
    exists|k: int| 0 <= k < evs.len() && evs[k] is Finish
}

/// The termination shape of a delivered event sequence for a loop in a phase.
pub open spec fn delivered_shape(phase: Phase, evs: Seq<EventSpec>) -> bool {
    if phase == Phase::Finished {
        &&& evs.len() > 0
        &&& evs.last() is Finish
        &&& forall|k: int| 0 <= k < evs.len() - 1 ==> !(evs[k] is Finish)
    } else {
        !has_finish(evs)
    }
}

/// Classifying a frame never ends the stream.
pub proof fn lemma_frame_never_finishes(event: Seq<char>, data: Seq<char>, reason: Seq<char>)
    ensures
        !(classify_spec(event, data, reason).0 matches Some(EventSpec::Finish(_))),
{
}

/// Running the loop from a stopped state changes nothing and delivers nothing.
pub proof fn lemma_stopped_stays(s: (Seq<char>, Phase), inputs: Seq<InputSpec>)
    requires
        s.1 != Phase::Streaming,
    ensures
        run_spec(s, inputs) == (s, Seq::<EventSpec>::empty()),
    decreases inputs.len(),
{
    if inputs.len() > 0 {
        lemma_stopped_stays(s, inputs.drop_last());
        assert(Seq::<EventSpec>::empty() + Seq::<EventSpec>::empty() =~= Seq::<
            EventSpec,
        >::empty());
    }
}

/// Running two input sequences one after the other.
pub proof fn lemma_run_append(s: (Seq<char>, Phase), a: Seq<InputSpec>, b: Seq<InputSpec>)
    ensures
        run_spec(s, a + b) == (
            run_spec(run_spec(s, a).0, b).0,
            run_spec(s, a).1 + run_spec(run_spec(s, a).0, b).1,
        ),
    decreases b.len(),
{
    if b.len() == 0 {
        assert(a + b =~= a);
        assert(run_spec(s, a).1 + Seq::<EventSpec>::empty() =~= run_spec(s, a).1);
    } else {
        lemma_run_append(s, a, b.drop_last());
        assert((a + b).drop_last() =~= a + b.drop_last());
        assert((a + b).last() == b.last());
        let s1 = run_spec(s, a).0;
        let e1 = run_spec(s, a).1;
        let e2 = run_spec(s1, b.drop_last()).1;
        let e3 = opt_seq(step_spec(run_spec(s1, b.drop_last()).0, b.last()).1);
        assert(e1 + e2 + e3 =~= e1 + (e2 + e3));
    }
}

/// For every input sequence of a completion, the delivered events hold no
/// `Finish` while the loop streams or after cancellation; once the upstream has
/// ended, the last delivered event is the one and only `Finish`.
pub proof fn lemma_single_terminal_finish(inputs: Seq<InputSpec>)
    ensures
        delivered_shape(run_spec(initial_state(), inputs).0.1, run_spec(initial_state(), inputs).1),
        run_spec(initial_state(), inputs).0.1 == Phase::Finished ==> run_spec(
            initial_state(),
            inputs,
        ).1.last() == EventSpec::Finish(run_spec(initial_state(), inputs).0.0),
    decreases inputs.len(),
{
    if inputs.len() > 0 {
        lemma_single_terminal_finish(inputs.drop_last());
        let (s1, evs) = run_spec(initial_state(), inputs.drop_last());
        let (s2, e) = step_spec(s1, inputs.last());
        let all = evs + opt_seq(e);
        if s1.1 == Phase::Streaming {
            match inputs.last() {
                InputSpec::Frame(event, data) => {
                    lemma_frame_never_finishes(event, data, s1.0);
                },
                _ => {},
            }
            if s2.1 == Phase::Finished {
                assert forall|k: int| 0 <= k < all.len() - 1 implies !(all[k] is Finish) by {
                    assert(all[k] == evs[k]);
                }
            } else {
                assert forall|k: int| 0 <= k < all.len() implies !(all[k] is Finish) by {
                    if k < evs.len() {
                        assert(all[k] == evs[k]);
                    }
                }
            }
        } else {
            assert(all =~= evs);
        }
    }
}

/// Cancellation while the loop streams stops it: whatever the upstream offers
/// afterwards is not consumed, nothing more is delivered, and no `Finish` is
/// delivered at all.
pub proof fn lemma_cancel_stops_stream(before: Seq<InputSpec>, after: Seq<InputSpec>)
    requires
        run_spec(initial_state(), before).0.1 == Phase::Streaming,
    ensures
        run_spec(initial_state(), before.push(InputSpec::Cancelled) + after) == (
            (run_spec(initial_state(), before).0.0, Phase::Cancelled),
            run_spec(initial_state(), before).1,
        ),
        !has_finish(run_spec(initial_state(), before.push(InputSpec::Cancelled) + after).1),
{
    let s = initial_state();
    let a = before.push(InputSpec::Cancelled);
    assert(a.drop_last() =~= before);
    assert(run_spec(s, before).1 + Seq::<EventSpec>::empty() =~= run_spec(s, before).1);
    lemma_run_append(s, a, after);
    lemma_stopped_stays(run_spec(s, a).0, after);
    assert(run_spec(s, a).1 + Seq::<EventSpec>::empty() =~= run_spec(s, a).1);
    lemma_single_terminal_finish(before);
}

/// A frame that is not named `message` is dropped unread: no event, and the
/// finish reason stays, whatever its payload carries.
pub proof fn lemma_other_frames_dropped(event: Seq<char>, data: Seq<char>, reason: Seq<char>)
    requires
        event != "message"@,
    ensures
        classify_spec(event, data, reason) == (None::<EventSpec>, reason),
{
}

/// An empty `think` fragment yields nothing, while an empty `text` fragment
/// still yields an empty answer.
pub proof fn lemma_empty_think_dropped_empty_text_kept(
    think: FrameFields,
    text: FrameFields,
    reason: Seq<char>,
)
    requires
        think.kind matches Some(k) && k@ == "think"@,
        think.content matches Some(c) ==> c@.len() == 0,
        text.kind matches Some(k) && k@ == "text"@,
        text.msg matches Some(m) ==> m@.len() == 0,
    ensures
        classify_fields_spec(think, reason) == (None::<EventSpec>, reason),
        classify_fields_spec(text, reason) == (Some(EventSpec::Answer(Seq::empty())), reason),
{
    reveal_strlit("think");
    reveal_strlit("text");
    assert("think"@.len() != "text"@.len());
    assert(crate::stream::opt_text(text.msg) =~= Seq::<char>::empty());
}

} // verus!
