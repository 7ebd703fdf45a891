//! The turn loop: what the session does with each line of the operator and
//! each event of the conversation engine, and what it keeps of a turn.

use crate::decimal::{format_number, grouped};
use crate::history::{turn_views, with_turn, ConversationTurn, History, Role, TurnView};
use crate::text::{
    ascii_lower, ascii_lowercase, eq_ignore_ascii_case, same_ignoring_ascii_case, trim, trimmed,
};
use vstd::prelude::*;

verus! {

/// The number of turns that the engine may take on one prompt before it must
/// give its final answer.
pub const MAX_ENGINE_TURNS: usize = 100;

/// The tokens that one turn took.
#[derive(Clone, Copy, Debug, PartialEq, Eq, Structural)]
pub struct UsageCounters {
    pub input_tokens: u64,
    pub output_tokens: u64,
}

/// What happened outside: the operator's input, or the next item of the
/// engine's stream.
#[derive(Clone, Debug, PartialEq, Eq)]
pub enum Event {
    /// The operator entered a line (its line break included, if it had one).
    Line(String),
    /// The operator's input ended.
    EndOfInput,
    /// Reading the operator's input failed; the cause, as text.
    ReadFailed(String),
    /// The engine streamed a fragment of the answer.
    Text(String),
    /// The engine asks for the tool of this name.
    ToolCall(String),
    /// The engine got the result of the tool call with this id.
    ToolResult(String),
    /// The engine reports the tokens of the turn.
    FinalUsage(UsageCounters),
    /// The engine's transport failed; the cause, as text.
    TransportError(String),
    /// Another item of the stream, of no interest here.
    Other,
    /// The stream has no more items.
    StreamEnd,
}

/// What the caller is to do next.
#[derive(Clone, Debug, PartialEq, Eq)]
pub enum Next {
    /// Read one line from the operator.
    ReadLine,
    /// Hand the prompt and this copy of the history to the engine, which may
    /// take up to `max_turns` turns, and give the first item of its stream.
    OpenStream { prompt: String, history: Vec<ConversationTurn>, max_turns: usize },
    /// Give the next item of the stream.
    NextEvent,
    /// Leave the program, with success.
    Exit,
}

/// What one step asks of the caller: write `error` to the error stream, then
/// `output` to the display, at once, then do as `next` says.
#[derive(Clone, Debug, PartialEq, Eq)]
pub struct Effect {
    pub error: String,
    pub output: String,
    pub next: Next,
}

/// Where the session stands.
#[derive(Clone, Copy, Debug, PartialEq, Eq, Structural)]
enum Stage {
    Receiving,
    Streaming,
    Closed,
}

/// The state of the turn loop: the history of the completed turns and, while
/// the engine answers, the turn in progress.
#[derive(Debug)]
pub struct Session {
    history: History,
    stage: Stage,
    input: String,
    response: String,
    usage: UsageCounters,
}

/// Where a session stands, and the turn in progress if there is one.
pub enum PhaseView {
    /// The session waits for a line of the operator.
    Receiving,
    /// The engine answers `input`; `response` is the text streamed so far.
    Streaming { input: Seq<char>, response: Seq<char>, usage: UsageCounters },
    /// The operator has left.
    Closed,
}

/// What a session holds.
pub struct SessionView {
    pub history: Seq<TurnView>,
    pub phase: PhaseView,
}

/// What an event holds.
pub enum EventView {
    Line(Seq<char>),
    EndOfInput,
    ReadFailed(Seq<char>),
    Text(Seq<char>),
    ToolCall(Seq<char>),
    ToolResult(Seq<char>),
    FinalUsage(UsageCounters),
    TransportError(Seq<char>),
    Other,
    StreamEnd,
}

/// What a request to the caller holds.
pub enum NextView {
    ReadLine,
    OpenStream { prompt: Seq<char>, history: Seq<TurnView>, max_turns: nat },
    NextEvent,
    Exit,
}

/// What an effect holds.
pub struct EffectView {
    pub error: Seq<char>,
    pub output: Seq<char>,
    pub next: NextView,
}

impl View for Event {
    type V = EventView;

    open spec fn view(&self) -> EventView {
        match self {
            Event::Line(raw) => EventView::Line(raw@),
            Event::EndOfInput => EventView::EndOfInput,
            Event::ReadFailed(cause) => EventView::ReadFailed(cause@),
            Event::Text(text) => EventView::Text(text@),
            Event::ToolCall(name) => EventView::ToolCall(name@),
            Event::ToolResult(id) => EventView::ToolResult(id@),
            Event::FinalUsage(usage) => EventView::FinalUsage(*usage),
            Event::TransportError(cause) => EventView::TransportError(cause@),
            Event::Other => EventView::Other,
            Event::StreamEnd => EventView::StreamEnd,
        }
    }
}

impl View for Next {
    type V = NextView;

    open spec fn view(&self) -> NextView {
        match self {
            Next::ReadLine => NextView::ReadLine,
            Next::OpenStream { prompt, history, max_turns } => NextView::OpenStream {
                prompt: prompt@,
                history: turn_views(history@),
                max_turns: *max_turns as nat,
            },
            Next::NextEvent => NextView::NextEvent,
            Next::Exit => NextView::Exit,
        }
    }
}

impl View for Effect {
    type V = EffectView;

    open spec fn view(&self) -> EffectView {
        EffectView { error: self.error@, output: self.output@, next: self.next@ }
    }
}

impl View for Session {
    type V = SessionView;

    closed spec fn view(&self) -> SessionView {
        SessionView {
            history: self.history@,
            phase: match self.stage {
                Stage::Receiving => PhaseView::Receiving,
                Stage::Streaming => PhaseView::Streaming {
                    input: self.input@,
                    response: self.response@,
                    usage: self.usage,
                },
                Stage::Closed => PhaseView::Closed,
            },
        }
    }
}

/// What a line of the operator asks for, its white space trimmed.
#[derive(Clone, Copy, Debug, PartialEq, Eq, Structural)]
pub enum LineKind {
    /// `exit` or `quit`, in any case: leave.
    Quit,
    /// Nothing: ask again.
    Blank,
    /// A prompt for the engine.
    Prompt,
}

/// Whether `input` is the word `exit` or the word `quit`, in any case.
pub open spec fn is_quit(input: Seq<char>) -> bool {
    same_ignoring_ascii_case(input, "exit"@) || same_ignoring_ascii_case(input, "quit"@)
}

/// What the trimmed line `input` asks for.
pub open spec fn line_kind(input: Seq<char>) -> LineKind {
    if is_quit(input) {
        LineKind::Quit
    } else if input.len() == 0 {
        LineKind::Blank
    } else {
        LineKind::Prompt
    }
}

/// The counters at the start of a turn.
pub open spec fn no_usage() -> UsageCounters {
    UsageCounters { input_tokens: 0, output_tokens: 0 }
}

/// What is displayed when the program starts: its name, how to leave, and
/// the prompt symbol.
pub open spec fn greeting() -> Seq<char> {
    "Rig Code v0.1.0\nType 'exit' or 'quit' to exit.\n\n"@ + "> "@
}

/// The lines that end a turn: the two counters with thousands separators,
/// between blank lines.
pub open spec fn usage_report(usage: UsageCounters) -> Seq<char> {
    "\n\n[Tokens: "@ + grouped(usage.input_tokens as nat) + " in / "@ + grouped(
        usage.output_tokens as nat,
    ) + " out]\n\n"@
}

/// An effect that writes nothing.
pub open spec fn quiet(next: NextView) -> EffectView {
    EffectView { error: Seq::empty(), output: Seq::empty(), next }
}

/// An effect that writes to the display only.
pub open spec fn display(output: Seq<char>, next: NextView) -> EffectView {
    EffectView { error: Seq::empty(), output, next }
}

/// The step of a session that waits for the operator. Items of a stream are
/// not awaited, and change nothing.
pub open spec fn receive(history: Seq<TurnView>, event: EventView) -> (SessionView, EffectView) {
    let same = SessionView { history, phase: PhaseView::Receiving };
    let closed = SessionView { history, phase: PhaseView::Closed };
    match event {
        EventView::Line(raw) => match line_kind(trimmed(raw)) {
            LineKind::Quit => (closed, display("Goodbye!\n"@, NextView::Exit)),
            LineKind::Blank => (same, display("> "@, NextView::ReadLine)),
            LineKind::Prompt => (
                SessionView {
                    history,
                    phase: PhaseView::Streaming {
                        input: trimmed(raw),
                        response: Seq::empty(),
                        usage: no_usage(),
                    },
                },
                display(
                    "\n"@,
                    NextView::OpenStream {
                        prompt: trimmed(raw),
                        history,
                        max_turns: MAX_ENGINE_TURNS as nat,
                    },
                ),
            ),
        },
        EventView::EndOfInput => (closed, display("\nGoodbye!\n"@, NextView::Exit)),
        EventView::ReadFailed(cause) => (
            same,
            EffectView {
                error: "Error reading input: "@ + cause + "\n"@,
                output: "> "@,
                next: NextView::ReadLine,
            },
        ),
        _ => (same, quiet(NextView::ReadLine)),
    }
}

/// The step of a session whose engine answers `input`. The operator's input
/// is not awaited, and changes nothing. A transport error ends the turn and
/// drops the text streamed so far; the end of the stream ends the turn and
/// keeps it.
pub open spec fn stream(
    history: Seq<TurnView>,
    input: Seq<char>,
    response: Seq<char>,
    usage: UsageCounters,
    event: EventView,
) -> (SessionView, EffectView) {
    let same = SessionView { history, phase: PhaseView::Streaming { input, response, usage } };
    match event {
        EventView::Text(text) => (
            SessionView {
                history,
                phase: PhaseView::Streaming { input, response: response + text, usage },
            },
            display(text, NextView::NextEvent),
        ),
        EventView::ToolCall(name) => (
            same,
            display("\n[Calling tool: "@ + name + "]\n"@, NextView::NextEvent),
        ),
        EventView::ToolResult(id) => (
            same,
            display("[Tool result received for: "@ + id + "]\n"@, NextView::NextEvent),
        ),
        EventView::FinalUsage(reported) => (
            SessionView {
                history,
                phase: PhaseView::Streaming { input, response, usage: reported },
            },
            quiet(NextView::NextEvent),
        ),
        EventView::TransportError(cause) => (
            SessionView {
                history: with_turn(history, input, Seq::empty()),
                phase: PhaseView::Receiving,
            },
            EffectView {
                error: "\nError: "@ + cause + "\n"@,
                output: usage_report(usage) + "> "@,
                next: NextView::ReadLine,
            },
        ),
        EventView::StreamEnd => (
            SessionView {
                history: with_turn(history, input, response),
                phase: PhaseView::Receiving,
            },
            display(usage_report(usage) + "> "@, NextView::ReadLine),
        ),
        _ => (same, quiet(NextView::NextEvent)),
    }
}

/// One step of the turn loop: the session after `event`, and what the caller
/// is asked to do.
pub open spec fn step(session: SessionView, event: EventView) -> (SessionView, EffectView) {
    match session.phase {
        PhaseView::Receiving => receive(session.history, event),
        PhaseView::Streaming { input, response, usage } => stream(
            session.history,
            input,
            response,
            usage,
            event,
        ),
        PhaseView::Closed => (session, quiet(NextView::Exit)),
    }
}

/// The session after each of `events`, in their order.
pub open spec fn run(session: SessionView, events: Seq<EventView>) -> SessionView
    decreases events.len(),
{
    if events.len() == 0 {
        session
    } else {
        run(step(session, events[0]).0, events.drop_first())
    }
}

/// The text that the fragments among `events` make, in their order.
pub open spec fn streamed_text(events: Seq<EventView>) -> Seq<char>
    decreases events.len(),
{
    if events.len() == 0 {
        Seq::empty()
    } else {
        match events[0] {
            EventView::Text(text) => text + streamed_text(events.drop_first()),
            _ => streamed_text(events.drop_first()),
        }
    }
}

/// The counters after `events`: those of the last report among them, or
/// `usage` where there is none.
pub open spec fn reported_usage(usage: UsageCounters, events: Seq<EventView>) -> UsageCounters
    decreases events.len(),
{
    if events.len() == 0 {
        usage
    } else {
        match events[0] {
            EventView::FinalUsage(reported) => reported_usage(reported, events.drop_first()),
            _ => reported_usage(usage, events.drop_first()),
        }
    }
}

/// Whether none of `events` ends a turn.
pub open spec fn all_within_turn(events: Seq<EventView>) -> bool {
    forall|i: int|
        0 <= i < events.len() ==> !(#[trigger] events[i] is TransportError) && !(events[i]
            is StreamEnd)
}

/// A text is `exit` or `quit` in any case where it has four characters that
/// spell one of the two words once each ASCII capital is put in lower case.
pub proof fn lemma_quit_spelled(input: Seq<char>)
    ensures
        is_quit(input) <==> input.len() == 4 && ({
            ||| ascii_lower(input[0]) == 'e' && ascii_lower(input[1]) == 'x' && ascii_lower(
                input[2],
            ) == 'i' && ascii_lower(input[3]) == 't'
            ||| ascii_lower(input[0]) == 'q' && ascii_lower(input[1]) == 'u' && ascii_lower(
                input[2],
            ) == 'i' && ascii_lower(input[3]) == 't'
        }),
{
    reveal_strlit("exit");
    reveal_strlit("quit");
    let low = ascii_lowercase(input);
    let exit = ascii_lowercase("exit"@);
    let quit = ascii_lowercase("quit"@);
    assert(exit =~= seq!['e', 'x', 'i', 't']);
    assert(quit =~= seq!['q', 'u', 'i', 't']);
    if input.len() == 4 {
        assert(low[0] == ascii_lower(input[0]) && low[1] == ascii_lower(input[1]) && low[2]
            == ascii_lower(input[2]) && low[3] == ascii_lower(input[3]));
        assert(low =~= seq![low[0], low[1], low[2], low[3]]);
    }
}

/// No step takes a turn out of the history or changes one: the history
/// before a step is a prefix of the history after it.
pub proof fn lemma_history_grows(session: SessionView, event: EventView)
    ensures
        session.history.is_prefix_of(step(session, event).0.history),
{
}

/// Whatever happens, the history before is a prefix of the history after.
pub proof fn lemma_history_grows_over_run(session: SessionView, events: Seq<EventView>)
    ensures
        session.history.is_prefix_of(run(session, events).history),
    decreases events.len(),
{
    if events.len() > 0 {
        lemma_history_grows(session, events[0]);
        lemma_history_grows_over_run(step(session, events[0]).0, events.drop_first());
    }
}

/// A line that is `exit` or `quit`, in any case and with any white space
/// around it, closes the session and asks the caller to leave; the history
/// is as it was.
pub proof fn lemma_quit_closes(session: SessionView, raw: Seq<char>)
    requires
        session.phase is Receiving,
        is_quit(trimmed(raw)),
    ensures
        step(session, EventView::Line(raw)).0 == (SessionView {
            history: session.history,
            phase: PhaseView::Closed,
        }),
        step(session, EventView::Line(raw)).1 == display("Goodbye!\n"@, NextView::Exit),
{
}

/// A closed session stays as it is.
pub proof fn lemma_closed_stays(session: SessionView, events: Seq<EventView>)
    requires
        session.phase is Closed,
    ensures
        run(session, events) == session,
    decreases events.len(),
{
    if events.len() > 0 {
        lemma_closed_stays(session, events.drop_first());
    }
}

/// While a turn is in progress the history stands still: the fragments are
/// gathered in their order, and the last report of the counters is kept.
pub proof fn lemma_stream_gathers(
    history: Seq<TurnView>,
    input: Seq<char>,
    response: Seq<char>,
    usage: UsageCounters,
    events: Seq<EventView>,
)
    requires
        all_within_turn(events),
    ensures
        run(
            SessionView { history, phase: PhaseView::Streaming { input, response, usage } },
            events,
        ) == (SessionView {
            history,
            phase: PhaseView::Streaming {
                input,
                response: response + streamed_text(events),
                usage: reported_usage(usage, events),
            },
        }),
    decreases events.len(),
{
    if events.len() > 0 {
        let rest = events.drop_first();
        assert(all_within_turn(rest)) by {
            assert forall|i: int| 0 <= i < rest.len() implies !(#[trigger] rest[i]
                is TransportError) && !(rest[i] is StreamEnd) by {
                assert(rest[i] == events[i + 1]);
            }
        }
        match events[0] {
            EventView::Text(text) => {
                lemma_stream_gathers(history, input, response + text, usage, rest);
                assert((response + text) + streamed_text(rest) =~= response + streamed_text(
                    events,
                ));
            },
            EventView::FinalUsage(reported) => {
                lemma_stream_gathers(history, input, response, reported, rest);
            },
            _ => {
                lemma_stream_gathers(history, input, response, usage, rest);
            },
        }
    }
}

/// A whole turn: the operator enters a prompt, the engine streams `events`,
/// and the stream ends. The history gains the prompt, as the user's turn,
/// and then the fragments joined, as the assistant's turn, unless they are
/// empty. The counters displayed are the last that the engine reported.
pub proof fn lemma_turn_recorded(history: Seq<TurnView>, raw: Seq<char>, events: Seq<EventView>)
    requires
        line_kind(trimmed(raw)) == LineKind::Prompt,
        all_within_turn(events),
    ensures
        ({
            let begun = step(
                SessionView { history, phase: PhaseView::Receiving },
                EventView::Line(raw),
            ).0;
            let streamed = run(begun, events);
            let ended = step(streamed, EventView::StreamEnd);
            &&& streamed.history == history
            &&& ended.0 == (SessionView {
                history: with_turn(history, trimmed(raw), streamed_text(events)),
                phase: PhaseView::Receiving,
            })
            &&& ended.1 == display(
                usage_report(reported_usage(no_usage(), events)) + "> "@,
                NextView::ReadLine,
            )
        }),
{
    lemma_stream_gathers(history, trimmed(raw), Seq::empty(), no_usage(), events);
}

/// A turn that a transport error ends: the history gains the prompt, as the
/// user's turn, and nothing of what was streamed.
pub proof fn lemma_failed_turn_recorded(
    history: Seq<TurnView>,
    raw: Seq<char>,
    events: Seq<EventView>,
    cause: Seq<char>,
)
    requires
        line_kind(trimmed(raw)) == LineKind::Prompt,
        all_within_turn(events),
    ensures
        ({
            let begun = step(
                SessionView { history, phase: PhaseView::Receiving },
                EventView::Line(raw),
            ).0;
            let ended = step(run(begun, events), EventView::TransportError(cause));
            &&& ended.0 == (SessionView {
                history: history.push(TurnView { role: Role::User, content: trimmed(raw) }),
                phase: PhaseView::Receiving,
            })
            &&& ended.1.error == "\nError: "@ + cause + "\n"@
            &&& ended.1.next == NextView::ReadLine
        }),
{
    lemma_stream_gathers(history, trimmed(raw), Seq::empty(), no_usage(), events);
}

/// What the trimmed line `input` asks for.
pub fn classify(input: &str) -> (r: LineKind)
    ensures
        r == line_kind(input@),
{
    if eq_ignore_ascii_case(input, "exit") || eq_ignore_ascii_case(input, "quit") {
        LineKind::Quit
    } else if input.is_empty() {
        LineKind::Blank
    } else {
        LineKind::Prompt
    }
}

impl Session {
    /// A session with no history, waiting for the operator.
    pub fn new() -> (r: Session)
        ensures
            r@ == (SessionView { history: Seq::empty(), phase: PhaseView::Receiving }),
    {
        Session {
            history: History::new(),
            stage: Stage::Receiving,
            input: String::new(),
            response: String::new(),
            usage: UsageCounters { input_tokens: 0, output_tokens: 0 },
        }
    }

    /// What the program begins with: the greeting is displayed, and a line
    /// is read.
    pub fn start(&self) -> (r: Effect)
        ensures
            r@ == display(greeting(), NextView::ReadLine),
    {
        let mut output = String::from_str("Rig Code v0.1.0\nType 'exit' or 'quit' to exit.\n\n");
        output.append("> ");
        Effect { error: String::new(), output, next: Next::ReadLine }
    }

    /// The history of the completed turns.
    pub fn history(&self) -> (r: &History)
        ensures
            r@ == self@.history,
    {
        &self.history
    }

    /// Whether the operator has left.
    pub fn is_closed(&self) -> (r: bool)
        ensures
            r == (self@.phase is Closed),
    {
        self.stage == Stage::Closed
    }

    /// Takes one step of the turn loop.
    pub fn step(&mut self, event: Event) -> (r: Effect)
        ensures
            final(self)@ == step(old(self)@, event@).0,
            r@ == step(old(self)@, event@).1,
            old(self)@.history.is_prefix_of(final(self)@.history),
    {
        match self.stage {
            Stage::Receiving => self.receive(event),
            Stage::Streaming => self.stream(event),
            Stage::Closed => Effect {
                error: String::new(),
                output: String::new(),
                next: Next::Exit,
            },
        }
    }

    /// The step of a session that waits for the operator.
    fn receive(&mut self, event: Event) -> (r: Effect)
        requires
            old(self)@.phase is Receiving,
        ensures
            final(self)@ == receive(old(self)@.history, event@).0,
            r@ == receive(old(self)@.history, event@).1,
            final(self)@.history == old(self)@.history,
    {
        match event {
            Event::Line(raw) => {
                let input = trim(raw.as_str());
                match classify(input) {
                    LineKind::Quit => {
                        self.stage = Stage::Closed;
                        Effect {
                            error: String::new(),
                            output: String::from_str("Goodbye!\n"),
                            next: Next::Exit,
                        }
                    },
                    LineKind::Blank => Effect {
                        error: String::new(),
                        output: String::from_str("> "),
                        next: Next::ReadLine,
                    },
                    LineKind::Prompt => {
                        self.stage = Stage::Streaming;
                        self.input = String::from_str(input);
                        self.response = String::new();
                        self.usage = UsageCounters { input_tokens: 0, output_tokens: 0 };
                        Effect {
                            error: String::new(),
                            output: String::from_str("\n"),
                            next: Next::OpenStream {
                                prompt: String::from_str(input),
                                history: self.history.snapshot(),
                                max_turns: MAX_ENGINE_TURNS,
                            },
                        }
                    },
                }
            },
            Event::EndOfInput => {
                self.stage = Stage::Closed;
                Effect {
                    error: String::new(),
                    output: String::from_str("\nGoodbye!\n"),
                    next: Next::Exit,
                }
            },
            Event::ReadFailed(cause) => {
                let mut error = String::from_str("Error reading input: ");
                error.append(cause.as_str());
                error.append("\n");
                Effect { error, output: String::from_str("> "), next: Next::ReadLine }
            },
            _ => Effect { error: String::new(), output: String::new(), next: Next::ReadLine },
        }
    }

    /// The step of a session whose engine answers.
    fn stream(&mut self, event: Event) -> (r: Effect)
        requires
            old(self)@.phase is Streaming,
        ensures
            final(self)@ == step(old(self)@, event@).0,
            r@ == step(old(self)@, event@).1,
            old(self)@.history.is_prefix_of(final(self)@.history),
    {
        match event {
            Event::Text(text) => {
                self.response.append(text.as_str());
                Effect { error: String::new(), output: text, next: Next::NextEvent }
            },
            Event::ToolCall(name) => {
                let mut output = String::from_str("\n[Calling tool: ");
                output.append(name.as_str());
                output.append("]\n");
                Effect { error: String::new(), output, next: Next::NextEvent }
            },
            Event::ToolResult(id) => {
                let mut output = String::from_str("[Tool result received for: ");
                output.append(id.as_str());
                output.append("]\n");
                Effect { error: String::new(), output, next: Next::NextEvent }
            },
            Event::FinalUsage(reported) => {
                self.usage = reported;
                Effect { error: String::new(), output: String::new(), next: Next::NextEvent }
            },
            Event::TransportError(cause) => {
                let mut error = String::from_str("\nError: ");
                error.append(cause.as_str());
                error.append("\n");
                self.response = String::new();
                let output = self.finish_turn();
                Effect { error, output, next: Next::ReadLine }
            },
            Event::StreamEnd => {
                let output = self.finish_turn();
                Effect { error: String::new(), output, next: Next::ReadLine }
            },
            _ => Effect { error: String::new(), output: String::new(), next: Next::NextEvent },
        }
    }

    /// Ends the turn in progress: its input and the text kept of its answer
    /// go to the history, and the session waits for the operator again.
    /// Returns what is displayed: the usage report and the prompt symbol.
    fn finish_turn(&mut self) -> (output: String)
        requires
            old(self)@.phase is Streaming,
        ensures
            final(self)@ == (SessionView {
                history: with_turn(
                    old(self)@.history,
                    old(self)@.phase->input,
                    old(self)@.phase->response,
                ),
                phase: PhaseView::Receiving,
            }),
            output@ == usage_report(old(self)@.phase->usage) + "> "@,
            old(self)@.history.is_prefix_of(final(self)@.history),
    {
        let mut output = String::from_str("\n\n[Tokens: ");
        output.append(format_number(self.usage.input_tokens).as_str());
        output.append(" in / ");
        output.append(format_number(self.usage.output_tokens).as_str());
        output.append(" out]\n\n");
        output.append("> ");
        self.history.record(self.input.as_str(), self.response.as_str());
        self.stage = Stage::Receiving;
        self.input = String::new();
        self.response = String::new();
        self.usage = UsageCounters { input_tokens: 0, output_tokens: 0 };
        output
    }
}

} // verus!
