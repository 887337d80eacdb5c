//! What flows between the terminal and the control loop, and the two pumps
//! that move it: the output pump turns what happens on the terminal into an
//! ordered sequence of output items that ends with exactly one `Exit`; the
//! input pump turns input items into writes and resizes, in order.

use vstd::prelude::*;
use vstd::string::StrSliceExecFns;
use vstd::utf8::encode_utf8;
use crate::decimal::{int_digits, push_int_digits};

verus! {

/// A terminal size in rows and columns.
#[derive(Clone, Copy, Debug, PartialEq, Eq, Structural)]
pub struct TermSize {
    pub rows: u16,
    pub cols: u16,
}

impl TermSize {
    pub fn new(rows: u16, cols: u16) -> (r: TermSize)
        ensures
            r.rows == rows,
            r.cols == cols,
    {
        TermSize { rows, cols }
    }
}

/// An item that the output pump hands to the control loop.
#[derive(Debug)]
pub enum CommandOutputItem {
    /// A chunk of terminal output.
    Output(Vec<u8>),
    /// A pump error that ends nothing.
    Error(String),
    /// The summary of how the session ended; always the last item.
    Exit(String),
}

/// An item that the control loop hands to the input pump.
#[derive(Debug)]
pub enum CommandInputItem {
    /// Bytes to write to the terminal as they are.
    Input(Vec<u8>),
    /// Text to write to the terminal as it is.
    InputString(String),
    /// A new terminal size.
    Resize(TermSize),
}

/// The value of a `CommandOutputItem`.
pub enum OutputEvent {
    Data(Seq<u8>),
    Warning(Seq<char>),
    Exit(Seq<char>),
}

/// The value of a `CommandInputItem`.
pub enum InputCommand {
    Raw(Seq<u8>),
    Text(Seq<char>),
    Resize(u16, u16),
}

impl View for CommandOutputItem {
    type V = OutputEvent;

    open spec fn view(&self) -> OutputEvent {
        match self {
            CommandOutputItem::Output(b) => OutputEvent::Data(b@),
            CommandOutputItem::Error(m) => OutputEvent::Warning(m@),
            CommandOutputItem::Exit(m) => OutputEvent::Exit(m@),
        }
    }
}

impl View for CommandInputItem {
    type V = InputCommand;

    open spec fn view(&self) -> InputCommand {
        match self {
            CommandInputItem::Input(b) => InputCommand::Raw(b@),
            CommandInputItem::InputString(s) => InputCommand::Text(s@),
            CommandInputItem::Resize(sz) => InputCommand::Resize(sz.rows, sz.cols),
        }
    }
}

pub open spec fn exit_prefix() -> Seq<char> {
    "Command exited with status code: "@
}

pub open spec fn aborted_text() -> Seq<char> {
    "Aborted"@
}

/// The summary of a process that exited on its own; a missing code counts
/// as zero.
pub open spec fn exit_summary(code: Option<i32>) -> Seq<char> {
    exit_prefix() + int_digits(
        match code {
            Some(c) => c as int,
            None => 0,
        },
    )
}

/// The summary of a process that exited on its own.
pub fn exit_message(code: Option<i32>) -> (r: String)
    ensures
        r@ == exit_summary(code),
{
    let mut s = String::from_str("Command exited with status code: ");
    let c: i32 = match code {
        Some(c) => c,
        None => 0,
    };
    push_int_digits(&mut s, c);
    s
}

/// The summary of a session ended by an abort.
pub fn aborted_message() -> (r: String)
    ensures
        r@ == aborted_text(),
{
    String::from_str("Aborted")
}

/// The code of the error that reading a terminal whose process has just
/// exited gives (EIO); it is no error of the session.
pub const EIO: i32 = 5;

/// What happens on the terminal side, as the output pump sees it.
#[derive(Debug)]
pub enum PtyEvent {
    /// A chunk of bytes was read.
    Chunk(Vec<u8>),
    /// A read failed, with the OS error code, if any, and the message.
    ReadFailed(Option<i32>, String),
    /// The process exited, with its exit code, if it has one.
    Exited(Option<i32>),
    /// Waiting for the process failed, with the message.
    WaitFailed(String),
    /// The abort signal fired.
    Abort,
}

/// A read error that the race between a read and the process's exit gives.
pub open spec fn is_close_race(code: Option<i32>) -> bool {
    code == Some(EIO)
}

/// Whether an event ends the output pump.
pub open spec fn ends_pump(e: PtyEvent) -> bool {
    e is Exited || e is WaitFailed || e is Abort
}

/// What the output pump emits on an event, given whether it has finished.
pub open spec fn pump_emits(finished: bool, e: PtyEvent) -> Seq<OutputEvent> {
    if finished {
        Seq::empty()
    } else {
        match e {
            PtyEvent::Chunk(b) => seq![OutputEvent::Data(b@)],
            PtyEvent::ReadFailed(code, m) => if is_close_race(code) {
                Seq::empty()
            } else {
                seq![OutputEvent::Warning(m@)]
            },
            PtyEvent::Exited(code) => seq![OutputEvent::Exit(exit_summary(code))],
            PtyEvent::WaitFailed(m) => seq![OutputEvent::Exit(m@)],
            PtyEvent::Abort => seq![OutputEvent::Exit(aborted_text())],
        }
    }
}

/// Whether the output pump asks for the process to be killed on an event.
pub open spec fn pump_kills(finished: bool, e: PtyEvent) -> bool {
    !finished && e is Abort
}

/// Whether the output pump has finished after a sequence of events.
pub open spec fn pump_after(finished: bool, evs: Seq<PtyEvent>) -> bool
    decreases evs.len(),
{
    if evs.len() == 0 {
        finished
    } else {
        pump_after(finished || ends_pump(evs[0]), evs.drop_first())
    }
}

/// All that the output pump emits on a sequence of events.
pub open spec fn pump_run(finished: bool, evs: Seq<PtyEvent>) -> Seq<OutputEvent>
    decreases evs.len(),
{
    if evs.len() == 0 {
        Seq::empty()
    } else {
        pump_emits(finished, evs[0]) + pump_run(finished || ends_pump(evs[0]), evs.drop_first())
    }
}

/// How many times the output pump asks for a kill on a sequence of events.
pub open spec fn pump_kill_count(finished: bool, evs: Seq<PtyEvent>) -> nat
    decreases evs.len(),
{
    if evs.len() == 0 {
        0
    } else {
        (if pump_kills(finished, evs[0]) { 1nat } else { 0nat }) + pump_kill_count(
            finished || ends_pump(evs[0]),
            evs.drop_first(),
        )
    }
}

pub open spec fn item_seq(o: Option<CommandOutputItem>) -> Seq<OutputEvent> {
    match o {
        Some(i) => seq![i@],
        None => Seq::empty(),
    }
}

/// What one event makes the output pump do.
pub struct PumpStep {
    /// The item to hand to the control loop, if any.
    pub item: Option<CommandOutputItem>,
    /// Whether to ask for the process to be killed.
    pub kill: bool,
}

/// The decisions of the output pump.
pub struct OutputPump {
    finished: bool,
}

impl OutputPump {
    pub closed spec fn is_finished_spec(&self) -> bool {
        self.finished
    }

    pub fn new() -> (r: OutputPump)
        ensures
            !r.is_finished_spec(),
    {
        OutputPump { finished: false }
    }

    /// Whether the pump has emitted its `Exit` item.
    pub fn is_finished(&self) -> (r: bool)
        ensures
            r == self.is_finished_spec(),
    {
        self.finished
    }

    /// Handles one event: a chunk becomes an `Output` item; a read error
    /// becomes an `Error` item, but for the one that a read racing with the
    /// process's exit gives, which is dropped; an exit, a failed wait or an
    /// abort becomes the one `Exit` item and finishes the pump, an abort
    /// with a request to kill the process. A finished pump does nothing.
    pub fn step(&mut self, ev: PtyEvent) -> (r: PumpStep)
        ensures
            item_seq(r.item) == pump_emits(old(self).is_finished_spec(), ev),
            r.kill == pump_kills(old(self).is_finished_spec(), ev),
            final(self).is_finished_spec() == (old(self).is_finished_spec() || ends_pump(ev)),
    {
        if self.finished {
            return PumpStep { item: None, kill: false };
        }
        match ev {
            PtyEvent::Chunk(b) => PumpStep { item: Some(CommandOutputItem::Output(b)), kill: false },
            PtyEvent::ReadFailed(code, m) => {
                let race = match code {
                    Some(c) => c == EIO,
                    None => false,
                };
                if race {
                    PumpStep { item: None, kill: false }
                } else {
                    PumpStep { item: Some(CommandOutputItem::Error(m)), kill: false }
                }
            },
            PtyEvent::Exited(code) => {
                self.finished = true;
                PumpStep { item: Some(CommandOutputItem::Exit(exit_message(code))), kill: false }
            },
            PtyEvent::WaitFailed(m) => {
                self.finished = true;
                PumpStep { item: Some(CommandOutputItem::Exit(m)), kill: false }
            },
            PtyEvent::Abort => {
                self.finished = true;
                PumpStep { item: Some(CommandOutputItem::Exit(aborted_message())), kill: true }
            },
        }
    }
}

/// What the input pump does to the terminal.
#[derive(Debug)]
pub enum PtyAction {
    /// Write bytes.
    Write(Vec<u8>),
    /// Set the terminal size.
    Resize(TermSize),
}

/// The value of a `PtyAction`.
pub enum PtyOp {
    Write(Seq<u8>),
    Resize(u16, u16),
}

impl View for PtyAction {
    type V = PtyOp;

    open spec fn view(&self) -> PtyOp {
        match self {
            PtyAction::Write(b) => PtyOp::Write(b@),
            PtyAction::Resize(sz) => PtyOp::Resize(sz.rows, sz.cols),
        }
    }
}

/// What an input command does to the terminal: bytes and text are written
/// as they are (text as its UTF-8 bytes), a resize sets the size.
pub open spec fn op_of(c: InputCommand) -> PtyOp {
    match c {
        InputCommand::Raw(b) => PtyOp::Write(b),
        InputCommand::Text(t) => PtyOp::Write(encode_utf8(t)),
        InputCommand::Resize(r, c) => PtyOp::Resize(r, c),
    }
}

/// The decisions of the input pump.
pub struct InputPump {
    stopped: bool,
}

impl InputPump {
    pub closed spec fn is_stopped_spec(&self) -> bool {
        self.stopped
    }

    pub fn new() -> (r: InputPump)
        ensures
            !r.is_stopped_spec(),
    {
        InputPump { stopped: false }
    }

    /// Whether the session has ended for this pump.
    pub fn is_stopped(&self) -> (r: bool)
        ensures
            r == self.is_stopped_spec(),
    {
        self.stopped
    }

    /// The action for the next input command, in the order received; none
    /// once the session has ended.
    pub fn on_command(&mut self, cmd: CommandInputItem) -> (r: Option<PtyAction>)
        ensures
            final(self).is_stopped_spec() == old(self).is_stopped_spec(),
            old(self).is_stopped_spec() ==> r is None,
            !old(self).is_stopped_spec() ==> (r matches Some(a) && a@ == op_of(cmd@)),
    {
        if self.stopped {
            return None;
        }
        let a = match cmd {
            CommandInputItem::Input(b) => PtyAction::Write(b),
            CommandInputItem::InputString(s) => PtyAction::Write(s.as_str().as_bytes_vec()),
            CommandInputItem::Resize(sz) => PtyAction::Resize(sz),
        };
        Some(a)
    }

    /// The session has ended: no further command is accepted.
    pub fn on_session_end(&mut self)
        ensures
            final(self).is_stopped_spec(),
    {
        self.stopped = true;
    }
}

/// A one-shot signal that asks a running session to end early. Firing it
/// again changes nothing.
pub struct AbortSignal {
    fired: bool,
}

impl AbortSignal {
    pub closed spec fn is_fired_spec(&self) -> bool {
        self.fired
    }

    pub fn new() -> (r: AbortSignal)
        ensures
            !r.is_fired_spec(),
    {
        AbortSignal { fired: false }
    }

    /// Fires the signal; returns whether this call was the one that fired it.
    pub fn fire(&mut self) -> (first: bool)
        ensures
            final(self).is_fired_spec(),
            first == !old(self).is_fired_spec(),
    {
        let first = !self.fired;
        self.fired = true;
        first
    }

    /// Whether the signal has fired; once it has, it stays so.
    pub fn is_fired(&self) -> (r: bool)
        ensures
            r == self.is_fired_spec(),
    {
        self.fired
    }
}

/// Whether every event of `evs` is a chunk of output.
pub open spec fn all_chunks(evs: Seq<PtyEvent>) -> bool {
    forall|i: int| 0 <= i < evs.len() ==> #[trigger] evs[i] is Chunk
}

/// The `Data` items of a sequence of chunks, in order.
pub open spec fn chunk_data(evs: Seq<PtyEvent>) -> Seq<OutputEvent> {
    evs.map_values(|e: PtyEvent| OutputEvent::Data(e->Chunk_0@))
}

proof fn lemma_run_finished(evs: Seq<PtyEvent>)
    ensures
        pump_run(true, evs) == Seq::<OutputEvent>::empty(),
        pump_kill_count(true, evs) == 0,
        pump_after(true, evs),
    decreases evs.len(),
{
    if evs.len() > 0 {
        lemma_run_finished(evs.drop_first());
    }
}

proof fn lemma_run_append(f: bool, a: Seq<PtyEvent>, b: Seq<PtyEvent>)
    ensures
        pump_run(f, a + b) == pump_run(f, a) + pump_run(pump_after(f, a), b),
        pump_kill_count(f, a + b) == pump_kill_count(f, a) + pump_kill_count(pump_after(f, a), b),
        pump_after(f, a + b) == pump_after(pump_after(f, a), b),
    decreases a.len(),
{
    if a.len() == 0 {
        assert(a + b =~= b);
    } else {
        assert((a + b).drop_first() =~= a.drop_first() + b);
        assert((a + b)[0] == a[0]);
        lemma_run_append(f || ends_pump(a[0]), a.drop_first(), b);
        assert(pump_run(f, a + b) =~= pump_run(f, a) + pump_run(pump_after(f, a), b));
    }
}

proof fn lemma_run_single(f: bool, e: PtyEvent)
    ensures
        pump_run(f, seq![e]) == pump_emits(f, e),
        pump_after(f, seq![e]) == (f || ends_pump(e)),
        pump_kill_count(f, seq![e]) == (if pump_kills(f, e) { 1nat } else { 0nat }),
{
    let one = seq![e];
    let g = f || ends_pump(e);
    assert(one.drop_first() =~= Seq::<PtyEvent>::empty());
    assert(pump_run(g, one.drop_first()) == Seq::<OutputEvent>::empty());
    assert(pump_after(g, one.drop_first()) == g);
    assert(pump_kill_count(g, one.drop_first()) == 0);
    assert(pump_run(f, one) =~= pump_emits(f, e));
}

proof fn lemma_run_chunks(evs: Seq<PtyEvent>)
    requires
        all_chunks(evs),
    ensures
        pump_run(false, evs) == chunk_data(evs),
        pump_kill_count(false, evs) == 0,
        !pump_after(false, evs),
    decreases evs.len(),
{
    if evs.len() > 0 {
        assert(evs[0] is Chunk);
        let t = evs.drop_first();
        assert forall|i: int| 0 <= i < t.len() implies #[trigger] t[i] is Chunk by {
            assert(t[i] == evs[i + 1]);
        }
        lemma_run_chunks(t);
        assert(pump_run(false, evs) =~= chunk_data(evs));
    }
}

proof fn lemma_run_no_end(evs: Seq<PtyEvent>)
    requires
        forall|i: int| 0 <= i < evs.len() ==> !ends_pump(#[trigger] evs[i]),
    ensures
        pump_kill_count(false, evs) == 0,
        !pump_after(false, evs),
        forall|i: int| 0 <= i < pump_run(false, evs).len() ==> !(#[trigger] pump_run(false, evs)[i] is Exit),
    decreases evs.len(),
{
    if evs.len() > 0 {
        let t = evs.drop_first();
        assert forall|i: int| 0 <= i < t.len() implies !ends_pump(#[trigger] t[i]) by {
            assert(t[i] == evs[i + 1]);
        }
        assert(!ends_pump(evs[0]));
        lemma_run_no_end(t);
        let e0 = pump_emits(false, evs[0]);
        let r = pump_run(false, t);
        assert(pump_run(false, evs) == e0 + r);
        assert forall|i: int| 0 <= i < (e0 + r).len() implies !(#[trigger] (e0 + r)[i] is Exit) by {
            if i >= e0.len() {
                assert((e0 + r)[i] == r[i - e0.len()]);
            }
        }
    }
}

proof fn lemma_exit_last(f: bool, evs: Seq<PtyEvent>)
    ensures
        forall|i: int|
            0 <= i < pump_run(f, evs).len() - 1 ==> !(#[trigger] pump_run(f, evs)[i] is Exit),
    decreases evs.len(),
{
    if evs.len() > 0 {
        let t = evs.drop_first();
        let g = f || ends_pump(evs[0]);
        lemma_exit_last(g, t);
        let e0 = pump_emits(f, evs[0]);
        let r = pump_run(g, t);
        assert(pump_run(f, evs) == e0 + r);
        if e0.len() == 1 && e0[0] is Exit {
            lemma_run_finished(t);
        }
        assert forall|i: int| 0 <= i < (e0 + r).len() - 1 implies !(#[trigger] (e0 + r)[i] is Exit) by {
            if i >= e0.len() {
                assert((e0 + r)[i] == r[i - e0.len()]);
            }
        }
    }
}

/// An `Exit` item, if the output pump emits one, is the last item it emits,
/// whatever the events: so it emits at most one.
pub proof fn exit_is_last(evs: Seq<PtyEvent>)
    ensures
        forall|i: int|
            0 <= i < pump_run(false, evs).len() - 1 ==> !(#[trigger] pump_run(false, evs)[i] is Exit),
{
    lemma_exit_last(false, evs);
}

/// When the terminal gives chunks of output and then the session ends (the
/// process exits, the wait fails or an abort fires), the output pump emits
/// one `Data` item per chunk, in order, then exactly one `Exit` item, and
/// nothing for whatever comes after.
pub proof fn chunks_then_one_exit(chunks: Seq<PtyEvent>, end: PtyEvent, rest: Seq<PtyEvent>)
    requires
        all_chunks(chunks),
        ends_pump(end),
    ensures
        pump_run(false, chunks + seq![end] + rest) == chunk_data(chunks) + pump_emits(false, end),
        pump_emits(false, end).len() == 1,
        pump_emits(false, end)[0] is Exit,
{
    lemma_run_append(false, chunks + seq![end], rest);
    lemma_run_append(false, chunks, seq![end]);
    lemma_run_chunks(chunks);
    lemma_run_single(false, end);
    lemma_run_finished(rest);
    assert(pump_run(false, chunks + seq![end] + rest) =~= chunk_data(chunks) + pump_emits(false, end));
}

/// An abort that fires while the session runs asks once for the process to
/// be killed and ends the output with exactly one `Exit("Aborted")`, also
/// when the process exits, or the abort fires again, just after.
pub proof fn abort_gives_one_aborted_exit(before: Seq<PtyEvent>, rest: Seq<PtyEvent>)
    requires
        forall|i: int| 0 <= i < before.len() ==> !ends_pump(#[trigger] before[i]),
    ensures
        pump_run(false, before + seq![PtyEvent::Abort] + rest) == pump_run(false, before) + seq![
            OutputEvent::Exit(aborted_text()),
        ],
        forall|i: int|
            0 <= i < pump_run(false, before).len() ==> !(#[trigger] pump_run(false, before)[i] is Exit),
        pump_kill_count(false, before + seq![PtyEvent::Abort] + rest) == 1,
{
    let one = seq![PtyEvent::Abort];
    lemma_run_append(false, before + one, rest);
    lemma_run_append(false, before, one);
    lemma_run_no_end(before);
    lemma_run_single(false, PtyEvent::Abort);
    lemma_run_single(pump_after(false, before), PtyEvent::Abort);
    lemma_run_finished(rest);
    assert(pump_run(false, before + one + rest) =~= pump_run(false, before) + seq![
        OutputEvent::Exit(aborted_text()),
    ]);
}

/// Firing the abort twice has the effect of firing it once: the same items
/// and the same number of kill requests.
pub proof fn abort_twice_as_once(evs: Seq<PtyEvent>)
    ensures
        pump_run(false, evs + seq![PtyEvent::Abort, PtyEvent::Abort]) == pump_run(
            false,
            evs + seq![PtyEvent::Abort],
        ),
        pump_kill_count(false, evs + seq![PtyEvent::Abort, PtyEvent::Abort]) == pump_kill_count(
            false,
            evs + seq![PtyEvent::Abort],
        ),
{
    let one = seq![PtyEvent::Abort];
    assert(evs + seq![PtyEvent::Abort, PtyEvent::Abort] =~= (evs + one) + one);
    lemma_run_append(false, evs + one, one);
    lemma_run_append(pump_after(false, evs), one, Seq::<PtyEvent>::empty());
    lemma_run_append(false, evs, one);
    assert(one + Seq::<PtyEvent>::empty() =~= one);
    lemma_run_single(pump_after(false, evs), PtyEvent::Abort);
    lemma_run_single(true, PtyEvent::Abort);
    assert(pump_after(false, evs + one));
    lemma_run_finished(one);
    assert(pump_run(false, evs + one + one) =~= pump_run(false, evs + one));
}

} // verus!
