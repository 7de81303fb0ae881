use vstd::prelude::*;
use crate::bus::EventBus;
use crate::event::{AgentEvent, EventModel, opt_view, texts};

verus! {

/// What the backend should do after a lifecycle callback.
#[derive(Debug, Clone, PartialEq, Eq)]
pub enum HookAction {
    Continue,
    Terminate { reason: String },
}

/// What the backend should do with a tool call it is about to run.
#[derive(Debug, Clone, PartialEq, Eq)]
pub enum ToolCallHookAction {
    Continue,
    Skip { reason: String },
    Terminate { reason: String },
}

/// One part of an assembled completion response, as far as the hook reads it.
#[derive(Debug, Clone)]
pub enum ResponseContent {
    Text(String),
    NonText,
}

/// The text of a part, empty for a part that carries none.
pub open spec fn part_text(p: ResponseContent) -> Seq<char> {
    match p {
        ResponseContent::Text(t) => t@,
        ResponseContent::NonText => Seq::empty(),
    }
}

/// The text of a response: the text of its parts, concatenated in order.
pub open spec fn response_text(parts: Seq<ResponseContent>) -> Seq<char>
    decreases parts.len(),
{
    if parts.len() == 0 {
        Seq::empty()
    } else {
        response_text(parts.drop_last()) + part_text(parts.last())
    }
}

/// The state of a hook: the events it has emitted and not yet handed out, and
/// the text streamed as deltas since the current completion call began.
pub struct HookModel {
    pub events: Seq<EventModel>,
    pub streamed: Seq<char>,
}

/// A lifecycle callback, with the values the hook reads from it.
pub enum Callback {
    CompletionCall,
    TextDelta(Seq<char>),
    ToolCall {
        tool_name: Seq<char>,
        tool_call_id: Option<Seq<char>>,
        internal_call_id: Seq<char>,
        args: Seq<char>,
    },
    ToolResult { tool_name: Seq<char>, tool_call_id: Option<Seq<char>>, result: Seq<char> },
    CompletionResponse(Seq<char>),
    StreamFinish,
}

/// The state that a turn starts from once `message` was submitted: stale
/// events are gone and the message is the only event.
pub open spec fn begin(message: Seq<char>) -> HookModel {
    HookModel { events: seq![EventModel::UserMessage(message)], streamed: Seq::empty() }
}

/// The effect of an assembled response whose text is `full`: the part of it
/// that the deltas did not already carry is emitted, once.
pub open spec fn respond(m: HookModel, full: Seq<char>) -> HookModel {
    if m.streamed.is_prefix_of(full) {
        let rest = full.subrange(m.streamed.len() as int, full.len() as int);
        HookModel {
            events: if rest.len() > 0 {
                m.events.push(EventModel::Text(rest))
            } else {
                m.events
            },
            streamed: full,
        }
    } else {
        m
    }
}

/// The effect of one callback on the hook's state.
pub open spec fn step(m: HookModel, c: Callback) -> HookModel {
    match c {
        Callback::CompletionCall => HookModel { events: m.events, streamed: Seq::empty() },
        Callback::TextDelta(d) => HookModel {
            events: m.events.push(EventModel::Text(d)),
            streamed: m.streamed + d,
        },
        Callback::ToolCall { tool_name, tool_call_id, internal_call_id, args } => HookModel {
            events: m.events.push(
                EventModel::ToolCall { tool_name, args, tool_call_id, internal_call_id },
            ),
            streamed: m.streamed,
        },
        Callback::ToolResult { tool_name, tool_call_id, result } => HookModel {
            events: m.events.push(EventModel::ToolResult { tool_name, result, tool_call_id }),
            streamed: m.streamed,
        },
        Callback::CompletionResponse(full) => respond(m, full),
        Callback::StreamFinish => m,
    }
}

/// The effect of a sequence of callbacks, in order.
pub open spec fn run(m: HookModel, cs: Seq<Callback>) -> HookModel
    decreases cs.len(),
{
    if cs.len() == 0 {
        m
    } else {
        step(run(m, cs.drop_last()), cs.last())
    }
}

/// Relies on str::strip_prefix: the rest of `s` after `prefix`, exactly when
/// `s` starts with `prefix`.
#[verifier::external_body]
fn strip_prefix(s: &str, prefix: &str) -> (r: Option<String>)
    ensures
        match r {
            Some(rest) => s@ == prefix@ + rest@,
            None => !prefix@.is_prefix_of(s@),
        },
{
    s.strip_prefix(prefix).map(|rest| rest.to_string())
}

/// The observation point between the completion backend and the event bus.
/// Every callback is recorded as events on the bus and always lets the
/// exchange continue.
pub struct SessionIdHook {
    events: EventBus,
    streamed: String,
}

impl View for SessionIdHook {
    type V = HookModel;

    closed spec fn view(&self) -> HookModel {
        HookModel { events: self.events@, streamed: self.streamed@ }
    }
}

impl SessionIdHook {
    /// A hook that emits into `events`.
    pub fn new(events: EventBus) -> (r: SessionIdHook)
        ensures
            r@ == (HookModel { events: events@, streamed: Seq::empty() }),
    {
        SessionIdHook { events, streamed: String::new() }
    }

    /// Starts a turn for `message`: drops the events of earlier turns and
    /// emits `UserMessage(message)` before anything else.
    pub fn begin_turn(&mut self, message: String)
        ensures
            final(self)@ == begin(message@),
    {
        self.events.clear();
        self.events.push(AgentEvent::UserMessage(message));
        self.streamed = String::new();
    }

    /// Called once before each completion request.
    pub fn on_completion_call(&mut self) -> (r: HookAction)
        ensures
            final(self)@ == step(old(self)@, Callback::CompletionCall),
            r == HookAction::Continue,
    {
        self.streamed = String::new();
        HookAction::Continue
    }

    /// Called for each streamed text delta; emits it as `Text`.
    pub fn on_text_delta(&mut self, text_delta: &str, _aggregated_text: &str) -> (r: HookAction)
        ensures
            final(self)@ == step(old(self)@, Callback::TextDelta(text_delta@)),
            r == HookAction::Continue,
    {
        self.events.push(AgentEvent::Text(text_delta.to_owned()));
        self.streamed.append(text_delta);
        HookAction::Continue
    }

    /// Called before a tool runs; emits `ToolCall`.
    pub fn on_tool_call(
        &mut self,
        tool_name: &str,
        tool_call_id: Option<String>,
        internal_call_id: &str,
        args: &str,
    ) -> (r: ToolCallHookAction)
        ensures
            final(self)@ == step(
                old(self)@,
                Callback::ToolCall {
                    tool_name: tool_name@,
                    tool_call_id: opt_view(tool_call_id),
                    internal_call_id: internal_call_id@,
                    args: args@,
                },
            ),
            r == ToolCallHookAction::Continue,
    {
        self.events.push(
            AgentEvent::ToolCall {
                tool_name: tool_name.to_owned(),
                args: args.to_owned(),
                tool_call_id,
                internal_call_id: internal_call_id.to_owned(),
            },
        );
        ToolCallHookAction::Continue
    }

    /// Called after a tool finished; emits `ToolResult`.
    pub fn on_tool_result(
        &mut self,
        tool_name: &str,
        tool_call_id: Option<String>,
        internal_call_id: &str,
        args: &str,
        result: &str,
    ) -> (r: HookAction)
        ensures
            final(self)@ == step(
                old(self)@,
                Callback::ToolResult {
                    tool_name: tool_name@,
                    tool_call_id: opt_view(tool_call_id),
                    result: result@,
                },
            ),
            r == HookAction::Continue,
    {
        self.events.push(
            AgentEvent::ToolResult {
                tool_name: tool_name.to_owned(),
                result: result.to_owned(),
                tool_call_id,
            },
        );
        HookAction::Continue
    }

    /// Called with the parts of an assembled response; emits the text that the
    /// deltas of this completion did not already carry.
    pub fn on_completion_response(&mut self, choice: &Vec<ResponseContent>) -> (r: HookAction)
        ensures
            final(self)@ == step(old(self)@, Callback::CompletionResponse(response_text(choice@))),
            r == HookAction::Continue,
    {
        let mut full = String::new();
        let mut i: usize = 0;
        while i < choice.len()
            invariant
                i <= choice@.len(),
                full@ == response_text(choice@.take(i as int)),
            decreases choice@.len() - i,
        {
            assert(choice@.take(i + 1).drop_last() =~= choice@.take(i as int));
            match &choice[i] {
                ResponseContent::Text(t) => full.append(t.as_str()),
                ResponseContent::NonText => {},
            }
            i = i + 1;
        }
        assert(choice@.take(i as int) =~= choice@);
        match strip_prefix(full.as_str(), self.streamed.as_str()) {
            Some(rest) => {
                assert(rest@ =~= full@.subrange(self.streamed@.len() as int, full@.len() as int));
                if !rest.as_str().is_empty() {
                    self.events.push(AgentEvent::Text(rest));
                }
                self.streamed = full;
            },
            None => {},
        }
        HookAction::Continue
    }

    /// Called at the end of a stream; the deltas already carried its text.
    pub fn on_stream_completion_response_finish(&self) -> (r: HookAction)
        ensures
            r == HookAction::Continue,
    {
        HookAction::Continue
    }

    /// Removes and returns the pending events, oldest first.
    pub fn get_events(&mut self) -> (r: Vec<AgentEvent>)
        ensures
            r@.map_values(|e: AgentEvent| e@) == old(self)@.events,
            final(self)@ == (HookModel { events: Seq::empty(), streamed: old(self)@.streamed }),
    {
        self.events.drain()
    }

    /// The number of pending events.
    pub fn event_count(&self) -> (r: usize)
        ensures
            r == self@.events.len(),
    {
        self.events.len()
    }
}

/// Every callback keeps the events already emitted and only appends.
pub proof fn lemma_step_appends(m: HookModel, c: Callback)
    ensures
        m.events.is_prefix_of(step(m, c).events),
{
}

/// A run of callbacks keeps the events already emitted and only appends.
pub proof fn lemma_run_appends(m: HookModel, cs: Seq<Callback>)
    ensures
        m.events.is_prefix_of(run(m, cs).events),
    decreases cs.len(),
{
    if cs.len() > 0 {
        lemma_run_appends(m, cs.drop_last());
        lemma_step_appends(run(m, cs.drop_last()), cs.last());
    }
}

/// Whatever callbacks follow the submission of `message`, the first event of
/// the turn is `UserMessage(message)`.
pub proof fn lemma_user_message_first(message: Seq<char>, cs: Seq<Callback>)
    ensures
        run(begin(message), cs).events.len() >= 1,
        run(begin(message), cs).events[0] == EventModel::UserMessage(message),
{
    let f = run(begin(message), cs);
    lemma_run_appends(begin(message), cs);
    assert(begin(message).events[0] == f.events.subrange(0, 1)[0]);
}

/// The number of `UserMessage` events in `s`.
pub open spec fn user_messages(s: Seq<EventModel>) -> nat
    decreases s.len(),
{
    if s.len() == 0 {
        0
    } else {
        user_messages(s.drop_last()) + if s.last() is UserMessage {
            1nat
        } else {
            0nat
        }
    }
}

/// No callback emits a `UserMessage`: a turn holds exactly the one that
/// started it.
pub proof fn lemma_one_user_message(message: Seq<char>, cs: Seq<Callback>)
    ensures
        user_messages(run(begin(message), cs).events) == 1,
    decreases cs.len(),
{
    if cs.len() == 0 {
        let e = begin(message).events;
        assert(e.drop_last() =~= Seq::<EventModel>::empty());
        assert(user_messages(e.drop_last()) == 0);
        assert(e.last() is UserMessage);
    } else {
        let prev = run(begin(message), cs.drop_last());
        lemma_one_user_message(message, cs.drop_last());
        let next = step(prev, cs.last());
        if next.events.len() > prev.events.len() {
            assert(next.events.drop_last() =~= prev.events);
            assert(!(next.events.last() is UserMessage));
        } else {
            assert(next.events =~= prev.events);
        }
    }
}

/// The number of `ToolResult` events in `s`.
pub open spec fn result_events(s: Seq<EventModel>) -> nat
    decreases s.len(),
{
    if s.len() == 0 {
        0
    } else {
        result_events(s.drop_last()) + if s.last() is ToolResult {
            1nat
        } else {
            0nat
        }
    }
}

/// The number of tool-result callbacks in `cs`.
pub open spec fn result_callbacks(cs: Seq<Callback>) -> nat
    decreases cs.len(),
{
    if cs.len() == 0 {
        0
    } else {
        result_callbacks(cs.drop_last()) + if cs.last() is ToolResult {
            1nat
        } else {
            0nat
        }
    }
}

/// Each tool-result callback emits exactly one `ToolResult` event, and no
/// other callback emits one.
pub proof fn lemma_one_result_per_tool_result(m: HookModel, cs: Seq<Callback>)
    ensures
        result_events(run(m, cs).events) == result_events(m.events) + result_callbacks(cs),
    decreases cs.len(),
{
    if cs.len() > 0 {
        let prev = run(m, cs.drop_last());
        lemma_one_result_per_tool_result(m, cs.drop_last());
        let next = step(prev, cs.last());
        if next.events.len() > prev.events.len() {
            assert(next.events.drop_last() =~= prev.events);
        } else {
            assert(next.events =~= prev.events);
        }
    }
}

/// A tool call followed, after any other callbacks, by the result of the same
/// tool: the `ToolCall` event with the internal call id comes first, and the
/// `ToolResult` event with the same tool name and backend call id comes last.
pub proof fn lemma_tool_result_follows_call(
    m: HookModel,
    tool_name: Seq<char>,
    tool_call_id: Option<Seq<char>>,
    internal_call_id: Seq<char>,
    args: Seq<char>,
    between: Seq<Callback>,
    result: Seq<char>,
)
    ensures
        ({
            let called = step(
                m,
                Callback::ToolCall { tool_name, tool_call_id, internal_call_id, args },
            );
            let done = step(
                run(called, between),
                Callback::ToolResult { tool_name, tool_call_id, result },
            );
            &&& m.events.len() < done.events.len() - 1
            &&& done.events[m.events.len() as int] == EventModel::ToolCall {
                tool_name,
                args,
                tool_call_id,
                internal_call_id,
            }
            &&& done.events.last() == EventModel::ToolResult { tool_name, result, tool_call_id }
        }),
{
    let called = step(m, Callback::ToolCall { tool_name, tool_call_id, internal_call_id, args });
    lemma_run_appends(called, between);
    assert(called.events[m.events.len() as int] == EventModel::ToolCall {
        tool_name,
        args,
        tool_call_id,
        internal_call_id,
    });
}

/// The callbacks of a run of streamed deltas.
pub open spec fn deltas(ds: Seq<Seq<char>>) -> Seq<Callback> {
    ds.map_values(|d: Seq<char>| Callback::TextDelta(d))
}

/// The concatenation of `ds`, in order.
pub open spec fn concat_all(ds: Seq<Seq<char>>) -> Seq<char>
    decreases ds.len(),
{
    if ds.len() == 0 {
        Seq::empty()
    } else {
        concat_all(ds.drop_last()) + ds.last()
    }
}

/// Streaming deltas emits each of them as text and records them as streamed.
proof fn lemma_deltas(m: HookModel, ds: Seq<Seq<char>>)
    ensures
        texts(run(m, deltas(ds)).events) == texts(m.events) + concat_all(ds),
        run(m, deltas(ds)).streamed == m.streamed + concat_all(ds),
    decreases ds.len(),
{
    if ds.len() == 0 {
        assert(texts(m.events) + concat_all(ds) =~= texts(m.events));
        assert(m.streamed + concat_all(ds) =~= m.streamed);
    } else {
        let ds0 = ds.drop_last();
        assert(deltas(ds).drop_last() =~= deltas(ds0));
        lemma_deltas(m, ds0);
        let prev = run(m, deltas(ds0));
        let next = step(prev, Callback::TextDelta(ds.last()));
        assert(next.events.drop_last() =~= prev.events);
        assert(texts(next.events) =~= texts(m.events) + concat_all(ds));
        assert(next.streamed =~= m.streamed + concat_all(ds));
    }
}

/// The text events of one completion reproduce its text with no gap and no
/// repeated span: after the completion call, the streamed deltas carry their
/// concatenation, and once the assembled response arrives, whose text the
/// deltas begin, the text carried is exactly the response's.
pub proof fn lemma_text_reassembles(m: HookModel, ds: Seq<Seq<char>>, full: Seq<char>)
    ensures
        ({
            let streamed = run(step(m, Callback::CompletionCall), deltas(ds));
            &&& texts(streamed.events) == texts(m.events) + concat_all(ds)
            &&& concat_all(ds).is_prefix_of(full) ==> texts(
                step(streamed, Callback::CompletionResponse(full)).events,
            ) == texts(m.events) + full
        }),
{
    let started = step(m, Callback::CompletionCall);
    lemma_deltas(started, ds);
    let streamed = run(started, deltas(ds));
    assert(streamed.streamed =~= concat_all(ds));
    if concat_all(ds).is_prefix_of(full) {
        let rest = full.subrange(concat_all(ds).len() as int, full.len() as int);
        let done = step(streamed, Callback::CompletionResponse(full));
        assert(concat_all(ds) + rest =~= full);
        if rest.len() > 0 {
            assert(done.events.drop_last() =~= streamed.events);
        } else {
            assert(concat_all(ds) =~= full);
        }
    }
}

} // verus!
