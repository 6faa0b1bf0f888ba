//! The ingestion pipeline as a state machine.
//!
//! The host reads the source, runs the parser and shows the states. This
//! module decides: which strategy a new file gets and under which ceiling,
//! when a progress report is due, whether the parse may go on, which events of
//! an earlier attempt are dropped, and how a parse that ended is classified.

use crate::cancel::CancellationToken;
use crate::handle::{
    count_has_graph, graph_ensured, loops_searched, Handle, OpenedFile, OpenedFileInfo, ParseState,
    RcParser,
};
use crate::progress::{updated, ParseProgress, ReaderState};
use vstd::prelude::*;
use vstd::utf8::{encode_utf8, valid_utf8};

verus! {

/// A progress report is due each time this many further lines were read.
pub const LINES_PER_SNAPSHOT: usize = 100_000;

/// The most bytes that a parse reads from a true byte stream: 1 GiB.
pub const STREAMING_CEILING: usize = 1_073_741_824;

/// The most bytes that a parse reads from a file held in memory: 512 MiB.
pub const BUFFERED_CEILING: usize = 536_870_912;

/// How the bytes of the source reach the parser.
#[derive(Debug, Clone, Copy, PartialEq, Eq, Structural)]
pub enum Strategy {
    /// The source is read as a byte stream while it is parsed.
    Streaming,
    /// The whole source is read into memory, then parsed.
    Buffered,
}

/// The byte ceilings of the two strategies.
#[derive(Debug, Clone, Copy, PartialEq, Eq, Structural)]
pub struct Limits {
    pub streaming: usize,
    pub buffered: usize,
}

impl Limits {
    /// The ceilings in use unless the host sets others.
    pub fn standard() -> (l: Limits)
        ensures
            l == (Limits { streaming: STREAMING_CEILING, buffered: BUFFERED_CEILING }),
    {
        Limits { streaming: STREAMING_CEILING, buffered: BUFFERED_CEILING }
    }

    /// The ceiling of `strategy`.
    pub open spec fn of(&self, strategy: Strategy) -> usize {
        match strategy {
            Strategy::Streaming => self.streaming,
            Strategy::Buffered => self.buffered,
        }
    }

    /// The ceiling of `strategy`.
    pub fn ceiling(&self, strategy: Strategy) -> (c: usize)
        ensures
            c == self.of(strategy),
    {
        match strategy {
            Strategy::Streaming => self.streaming,
            Strategy::Buffered => self.buffered,
        }
    }
}

/// The strategy for a source: a stream where the source offers one, else the
/// whole file in memory.
pub fn choose_strategy(streamable: bool) -> (s: Strategy)
    ensures
        s == if streamable {
            Strategy::Streaming
        } else {
            Strategy::Buffered
        },
{
    if streamable {
        Strategy::Streaming
    } else {
        Strategy::Buffered
    }
}

/// How a parse that ended is reported to the user.
#[derive(Debug, Clone, Copy, PartialEq, Eq, Structural)]
pub enum Completion {
    /// The source was read to its end.
    Finished,
    /// The parse stopped at the byte ceiling; what was parsed so far stands.
    TimedOut,
    /// The user stopped the parse; what was parsed so far stands.
    Cancelled,
}

/// Classifies the end of a parse: cancelled where the token was raised, timed
/// out where the parse stopped early without that, finished otherwise.
pub fn classify(timed_out: bool, cancelled: bool) -> (c: Completion)
    ensures
        c == if cancelled {
            Completion::Cancelled
        } else if timed_out {
            Completion::TimedOut
        } else {
            Completion::Finished
        },
{
    if cancelled {
        Completion::Cancelled
    } else if timed_out {
        Completion::TimedOut
    } else {
        Completion::Finished
    }
}

/// Whether a progress report is due at `lines_read`: at every full
/// `LINES_PER_SNAPSHOT` lines, and not before the first of them.
pub open spec fn snapshot_due(lines_read: nat) -> bool {
    lines_read > 0 && lines_read % (LINES_PER_SNAPSHOT as nat) == 0
}

/// The number of progress reports that fall due while a parser reads its
/// first `lines` lines.
pub open spec fn reports_through(lines: nat) -> nat
    decreases lines,
{
    if lines == 0 {
        0
    } else {
        reports_through((lines - 1) as nat) + if snapshot_due(lines) {
            1nat
        } else {
            0nat
        }
    }
}

/// One progress report falls due for every full `LINES_PER_SNAPSHOT` lines,
/// and none besides.
pub proof fn lemma_reports_count(lines: nat)
    ensures
        reports_through(lines) == lines / (LINES_PER_SNAPSHOT as nat),
    decreases lines,
{
    if lines > 0 {
        lemma_reports_count((lines - 1) as nat);
        let k = LINES_PER_SNAPSHOT as int;
        let n = lines as int;
        assert(n == k * (n / k) + n % k && 0 <= n % k < k) by {
            vstd::arithmetic::div_mod::lemma_fundamental_div_mod(n, k);
        }
        assert(n - 1 == k * ((n - 1) / k) + (n - 1) % k && 0 <= (n - 1) % k < k) by {
            vstd::arithmetic::div_mod::lemma_fundamental_div_mod(n - 1, k);
        }
        if n % k == 0 {
            assert((n - 1) / k == n / k - 1) by {
                vstd::arithmetic::div_mod::lemma_fundamental_div_mod_converse(
                    n - 1,
                    k,
                    n / k - 1,
                    k - 1,
                );
            }
        } else {
            assert((n - 1) / k == n / k) by {
                vstd::arithmetic::div_mod::lemma_fundamental_div_mod_converse(
                    n - 1,
                    k,
                    n / k,
                    n % k - 1,
                );
            }
        }
    }
}

/// Whether a parse may read on: nobody cancelled it and it has not read past
/// its ceiling.
pub open spec fn may_proceed(cancelled: bool, bytes_read: usize, ceiling: usize) -> bool {
    !cancelled && bytes_read <= ceiling
}

/// Where a file stands on its way to the screen. `R` is the progress of the
/// rendering, which the renderer defines.
#[derive(Debug, PartialEq)]
pub enum LoadingState<R> {
    NoFileSelected,
    /// The whole file is being read into memory.
    ReadingToString,
    /// The parser was handed its source.
    StartParsing,
    /// The parse runs; the number is that of the attempt, which a request to
    /// cancel has to name.
    Parsing(ParseProgress, u64),
    /// The parse ended: stopped early?, cancelled?
    DoneParsing(bool, bool),
    /// The graph is derived and drawn: stopped early?, cancelled?
    Rendering(R, bool, bool),
    FileDisplayed,
    /// The source could not be decoded. Nothing was parsed.
    ParseFailed,
}

impl<R> LoadingState<R> {
    /// The rank of a state in the course of one attempt. It never falls
    /// while the attempt lasts.
    pub open spec fn phase(&self) -> nat {
        match self {
            LoadingState::NoFileSelected => 0,
            LoadingState::ReadingToString => 1,
            LoadingState::StartParsing => 2,
            LoadingState::Parsing(_, _) => 3,
            LoadingState::DoneParsing(_, _) => 4,
            LoadingState::Rendering(_, _, _) => 5,
            LoadingState::FileDisplayed => 5,
            LoadingState::ParseFailed => 6,
        }
    }

    /// A parse is under way.
    pub open spec fn parse_in_flight(&self) -> bool {
        self is StartParsing || self is Parsing
    }

    /// A parse is under way.
    pub fn is_parse_in_flight(&self) -> (r: bool)
        ensures
            r == self.parse_in_flight(),
    {
        match self {
            LoadingState::StartParsing => true,
            LoadingState::Parsing(_, _) => true,
            _ => false,
        }
    }

    /// A parse has ended and left a file to show.
    pub open spec fn parse_done(&self) -> bool {
        self is DoneParsing || self is Rendering || self is FileDisplayed
    }

    /// A parse has ended and left a file to show.
    pub fn is_parse_done(&self) -> (r: bool)
        ensures
            r == self.parse_done(),
    {
        match self {
            LoadingState::DoneParsing(_, _) => true,
            LoadingState::Rendering(_, _, _) => true,
            LoadingState::FileDisplayed => true,
            _ => false,
        }
    }
}

/// A file that the user picked.
#[derive(Debug)]
pub struct FileSelection {
    pub name: String,
    pub size: u64,
    /// Whether the source can be read as a byte stream.
    pub streamable: bool,
}

/// The file whose parse is under way.
pub struct Incoming {
    pub name: Seq<char>,
    pub size: u64,
    pub strategy: Strategy,
}

/// What reaches the pipeline.
pub enum Msg<P, R> {
    /// The user picked a file, or closed the dialog without one.
    File(Option<FileSelection>),
    /// The parse of the numbered attempt ended with this result.
    LoadedFile(u64, P, ParseState),
    /// The source of the numbered attempt could not be decoded.
    ParseFailed(u64),
    /// A state to show: a progress report of the parse, or the progress of
    /// the rendering.
    LoadingState(LoadingState<R>),
    /// The instantiations selected in the opened file.
    SelectedInsts(Vec<(usize, Option<usize>)>),
    /// Search the graph of the opened file for matching loops.
    SearchMatchingLoops,
}

/// What the host has to start after a message.
#[derive(Debug, Clone, Copy, PartialEq, Eq, Structural)]
pub enum Command {
    Nothing,
    /// Open the source as a stream and parse it under this attempt number.
    ParseStream(u64),
    /// Read the whole source, hand the bytes over, and parse the text under
    /// this attempt number.
    ReadThenParse(u64),
}

/// What the host owes after a message was handled.
#[derive(Debug, Clone, Copy, PartialEq, Eq, Structural)]
pub struct Update {
    /// The view has to be drawn again.
    pub render: bool,
    pub command: Command,
}

/// What the parser is told at a line boundary.
#[derive(Debug, Clone, Copy, PartialEq, Eq)]
pub struct Checkpoint {
    /// The progress report to show, where one is due.
    pub report: Option<ParseProgress>,
    /// Whether the parser may read on.
    pub proceed: bool,
}

/// The pipeline as contracts see it.
pub struct FileData<P, G, M, R> {
    /// The file that was parsed last, where the attempt after it has not
    /// replaced it.
    pub file: Option<OpenedFile<P, G, M>>,
    /// Whether a read of the whole file is under way.
    pub reader: bool,
    pub progress: LoadingState<R>,
    /// Whether the running attempt was asked to stop.
    pub cancelled: bool,
    /// The number of the latest attempt.
    pub attempt: u64,
    /// The file of the attempt, until its parse has ended.
    pub incoming: Option<Incoming>,
    pub limits: Limits,
}

/// The attempt number after `attempt`.
pub open spec fn next_attempt(attempt: u64) -> u64 {
    if attempt == u64::MAX {
        0
    } else {
        (attempt + 1) as u64
    }
}

/// The pipeline after the user picked a file: what the attempt before it left
/// behind is gone, the token is fresh, and a new attempt has begun.
pub open spec fn after_file<P, G, M, R>(
    pre: FileData<P, G, M, R>,
    name: Seq<char>,
    size: u64,
    streamable: bool,
) -> FileData<P, G, M, R> {
    FileData {
        file: None,
        reader: !streamable,
        progress: if streamable {
            LoadingState::StartParsing
        } else {
            LoadingState::ReadingToString
        },
        cancelled: false,
        attempt: next_attempt(pre.attempt),
        incoming: Some(
            Incoming {
                name,
                size,
                strategy: if streamable {
                    Strategy::Streaming
                } else {
                    Strategy::Buffered
                },
            },
        ),
        limits: pre.limits,
    }
}

/// Whether an event that names `attempt` belongs to the parse under way.
pub open spec fn live<P, G, M, R>(pre: FileData<P, G, M, R>, attempt: u64) -> bool {
    attempt == pre.attempt && pre.incoming.is_some() && pre.progress.parse_in_flight()
}

/// What the parser of the numbered attempt is told when it stands at
/// `reader`, at `time`. For the parse under way: to read on unless it was
/// asked to stop or has read past its ceiling, and to show a first report of
/// where it stands where one is due. For any other attempt: to stop.
pub open spec fn told<P, G, M, R>(
    pre: FileData<P, G, M, R>,
    attempt: u64,
    reader: ReaderState,
    time: u64,
) -> Checkpoint {
    if live(pre, attempt) {
        let incoming = pre.incoming.unwrap();
        Checkpoint {
            report: if snapshot_due(reader.lines_read as nat) {
                Some(
                    ParseProgress {
                        reader,
                        file_size: incoming.size,
                        time,
                        bytes_delta: None,
                        time_delta: None,
                        speed: None,
                    },
                )
            } else {
                None
            },
            proceed: may_proceed(pre.cancelled, reader.bytes_read, pre.limits.of(incoming.strategy)),
        }
    } else {
        Checkpoint { report: None, proceed: false }
    }
}

/// Whether a state that arrives from outside is taken: a progress report of
/// the parse under way, or the progress of rendering a file that was parsed.
/// The pipeline enters every other state by itself.
pub open spec fn admits<P, G, M, R>(pre: FileData<P, G, M, R>, state: LoadingState<R>) -> bool {
    match state {
        LoadingState::Parsing(_, attempt) => live(pre, attempt),
        LoadingState::Rendering(_, _, _) => pre.file.is_some() && pre.progress.parse_done(),
        LoadingState::FileDisplayed => pre.file.is_some() && pre.progress.parse_done(),
        _ => false,
    }
}

/// The state that is kept when `state` is taken: a progress report is held
/// against the report before it, every other state is kept as it came.
pub open spec fn merged<R>(earlier: LoadingState<R>, state: LoadingState<R>) -> LoadingState<R> {
    match (state, earlier) {
        (LoadingState::Parsing(report, attempt), LoadingState::Parsing(before, _)) => {
            LoadingState::Parsing(updated(report, before), attempt)
        },
        _ => state,
    }
}

/// The file that a parse leaves: named and sized as the user picked it, known
/// by the number of the attempt, without a graph, with nothing waiting and
/// nothing selected.
pub open spec fn fresh_file<P, G, M>(
    incoming: Incoming,
    attempt: u64,
    parser: P,
    state: ParseState,
    cancelled: bool,
) -> OpenedFile<P, G, M> {
    OpenedFile {
        file_name: incoming.name,
        file_size: incoming.size,
        parser: Handle { id: attempt, result: parser, derived: None, loops: None },
        parser_state: state,
        parser_cancelled: cancelled,
        queued: Some(Seq::empty()),
        selected_insts: Seq::empty(),
    }
}

/// The pipeline after the parse of the attempt under way ended with
/// `parser` as its result: the state says whether the parse stopped early
/// and whether it was asked to stop, and the file stands ready.
pub open spec fn after_loaded<P, G, M, R>(
    pre: FileData<P, G, M, R>,
    parser: P,
    state: ParseState,
) -> FileData<P, G, M, R>
    recommends
        pre.incoming.is_some(),
{
    FileData {
        file: Some(fresh_file(pre.incoming.unwrap(), pre.attempt, parser, state, pre.cancelled)),
        reader: false,
        progress: LoadingState::DoneParsing(state == ParseState::TimedOut, pre.cancelled),
        incoming: None,
        ..pre
    }
}

/// What handling `msg` does to the pipeline and owes the host: `pre` before,
/// `post` and `u` after. `search` is what the host searches a graph with.
pub open spec fn handled<P, G, M, R, S: FnOnce(&G) -> usize>(
    pre: FileData<P, G, M, R>,
    msg: Msg<P, R>,
    search: S,
    post: FileData<P, G, M, R>,
    u: Update,
) -> bool {
    match msg {
        Msg::File(None) => {
            &&& u == Update { render: false, command: Command::Nothing }
            &&& post == pre
        },
        Msg::File(Some(selection)) => {
            &&& u.render
            &&& u.command == if selection.streamable {
                Command::ParseStream(post.attempt)
            } else {
                Command::ReadThenParse(post.attempt)
            }
            &&& post == after_file(
                pre,
                selection.name@,
                selection.size,
                selection.streamable,
            )
        },
        Msg::LoadedFile(attempt, parser, state) => {
            &&& u.command == Command::Nothing
            &&& u.render == live(pre, attempt)
            &&& !live(pre, attempt) ==> post == pre
            &&& live(pre, attempt) ==> post == after_loaded(pre, parser, state)
        },
        Msg::ParseFailed(attempt) => {
            &&& u.command == Command::Nothing
            &&& u.render == live(pre, attempt)
            &&& !live(pre, attempt) ==> post == pre
            &&& live(pre, attempt) ==> post == (FileData {
                progress: LoadingState::ParseFailed,
                reader: false,
                incoming: None,
                ..pre
            })
        },
        Msg::LoadingState(state) => {
            &&& u.command == Command::Nothing
            &&& u.render == admits(pre, state)
            &&& !admits(pre, state) ==> post == pre
            &&& admits(pre, state) ==> post == (FileData {
                progress: merged(pre.progress, state),
                ..pre
            })
        },
        Msg::SelectedInsts(insts) => {
            &&& u.command == Command::Nothing
            &&& u.render == pre.file.is_some()
            &&& pre.file.is_none() ==> post == pre
            &&& pre.file.is_some() ==> post == (FileData {
                file: Some(
                    OpenedFile { selected_insts: insts@, ..pre.file.unwrap() },
                ),
                ..pre
            })
        },
        Msg::SearchMatchingLoops => {
            let searchable = pre.file.is_some() && pre.file.unwrap().parser.derived.is_some();
            &&& u.command == Command::Nothing
            &&& u.render == searchable
            &&& !searchable ==> post == pre
            &&& searchable ==> {
                let before = pre.file.unwrap();
                let after = post.file.unwrap();
                &&& post == (FileData { file: Some(after), ..pre })
                &&& after == (OpenedFile { parser: after.parser, ..before })
                &&& loops_searched(before.parser, after.parser, true, search)
            }
        },
    }
}

/// What holds of the pipeline at every moment: a file is on its way in
/// exactly while it is read or parsed; a parsed file is there exactly when
/// the state says that a parse is done, and it stems from the latest attempt,
/// so a failed attempt leaves no file behind; while the graph of the file is
/// not built there is no count of matching loops; a progress report on show
/// is one of the latest attempt; and only a file held in memory is read
/// whole.
pub open spec fn consistent<P, G, M, R>(d: FileData<P, G, M, R>) -> bool {
    &&& d.incoming.is_some() == (d.progress is ReadingToString || d.progress.parse_in_flight())
    &&& d.file.is_some() == d.progress.parse_done()
    &&& d.file matches Some(f) ==> f.parser.id == d.attempt
    &&& d.file matches Some(f) ==> count_has_graph(f.parser)
    &&& d.progress matches LoadingState::Parsing(_, attempt) ==> attempt == d.attempt
    &&& d.reader ==> (d.incoming matches Some(i) && i.strategy == Strategy::Buffered)
}

/// Handling a message keeps the pipeline consistent.
pub proof fn lemma_handled_keeps_consistent<P, G, M, R, S: FnOnce(&G) -> usize>(
    pre: FileData<P, G, M, R>,
    msg: Msg<P, R>,
    search: S,
    post: FileData<P, G, M, R>,
    u: Update,
)
    requires
        consistent(pre),
        handled(pre, msg, search, post, u),
    ensures
        consistent(post),
{
}

/// Within an attempt nothing goes backwards: a message that is not a newly
/// picked file leaves the attempt number, the request to stop and the
/// ceilings as they are, and never lowers the phase of the state.
pub proof fn lemma_attempt_is_monotonic<P, G, M, R, S: FnOnce(&G) -> usize>(
    pre: FileData<P, G, M, R>,
    msg: Msg<P, R>,
    search: S,
    post: FileData<P, G, M, R>,
    u: Update,
)
    requires
        handled(pre, msg, search, post, u),
        !(msg matches Msg::File(Some(_))),
    ensures
        post.attempt == pre.attempt,
        post.cancelled == pre.cancelled,
        post.limits == pre.limits,
        post.progress.phase() >= pre.progress.phase(),
{
}

/// A request to stop holds for the rest of the attempt: whatever the parser
/// has read, it is told not to read on; the end of its parse is reported as
/// cancelled; and after that end no event of any attempt counts as live, so
/// the end is reported once.
pub proof fn lemma_cancelled_attempt_ends_once<P, G, M, R, S: FnOnce(&G) -> usize>(
    pre: FileData<P, G, M, R>,
    attempt: u64,
    parser: P,
    state: ParseState,
    search: S,
    post: FileData<P, G, M, R>,
    u: Update,
)
    requires
        pre.cancelled,
        live(pre, attempt),
        handled(pre, Msg::LoadedFile(attempt, parser, state), search, post, u),
    ensures
        forall|bytes_read: usize, ceiling: usize|
            !#[trigger] may_proceed(pre.cancelled, bytes_read, ceiling),
        post.progress == LoadingState::<R>::DoneParsing(state == ParseState::TimedOut, true),
        post.cancelled,
        forall|other: u64| !#[trigger] live(post, other),
{
}

/// A newly picked file begins an attempt of its own: the number is new, the
/// request to stop is not raised, and no event that names the attempt before
/// it counts as live any more.
pub proof fn lemma_new_file_retires_attempt<P, G, M, R>(
    pre: FileData<P, G, M, R>,
    name: Seq<char>,
    size: u64,
    streamable: bool,
)
    ensures
        after_file(pre, name, size, streamable).attempt != pre.attempt,
        !after_file(pre, name, size, streamable).cancelled,
        !live(after_file(pre, name, size, streamable), pre.attempt),
        after_file(pre, name, size, streamable).file.is_none(),
{
}

/// `String::from_utf8` of std: the text whose UTF-8 encoding is `bytes`, or
/// `None` where `bytes` are not UTF-8.
#[verifier::external_body]
fn text_from_utf8(bytes: Vec<u8>) -> (text: Option<String>)
    ensures
        text.is_some() == valid_utf8(bytes@),
        text matches Some(t) ==> encode_utf8(t@) == bytes@,
{
    match String::from_utf8(bytes) {
        Ok(text) => Some(text),
        Err(_) => None,
    }
}

/// The ingestion pipeline: at most one attempt at a time, each with its own
/// number and its own cancellation token.
pub struct FileDataComponent<P, G, M, R> {
    file: Option<OpenedFileInfo<P, G, M>>,
    reader: bool,
    progress: LoadingState<R>,
    cancel: CancellationToken,
    attempt: u64,
    incoming: Option<(String, u64, Strategy)>,
    limits: Limits,
}

impl<P, G, M, R> View for FileDataComponent<P, G, M, R> {
    type V = FileData<P, G, M, R>;

    closed spec fn view(&self) -> FileData<P, G, M, R> {
        FileData {
            file: match self.file {
                Some(f) => Some(f@),
                None => None,
            },
            reader: self.reader,
            progress: self.progress,
            cancelled: self.cancel.raised(),
            attempt: self.attempt,
            incoming: match self.incoming {
                Some((name, size, strategy)) => Some(Incoming { name: name@, size, strategy }),
                None => None,
            },
            limits: self.limits,
        }
    }
}

impl<P, G, M, R> FileDataComponent<P, G, M, R> {
    /// A pipeline to which no file was handed yet.
    pub fn new(limits: Limits) -> (c: FileDataComponent<P, G, M, R>)
        ensures
            c@ == (FileData::<P, G, M, R> {
                file: None,
                reader: false,
                progress: LoadingState::NoFileSelected,
                cancelled: false,
                attempt: 0,
                incoming: None,
                limits,
            }),
            consistent(c@),
    {
        FileDataComponent {
            file: None,
            reader: false,
            progress: LoadingState::NoFileSelected,
            cancel: CancellationToken::new(),
            attempt: 0,
            incoming: None,
            limits,
        }
    }

    /// Whether an event that names `attempt` belongs to the parse under way.
    pub fn is_live(&self, attempt: u64) -> (r: bool)
        ensures
            r == live(self@, attempt),
    {
        attempt == self.attempt && self.incoming.is_some() && self.progress.is_parse_in_flight()
    }

    /// Asks the numbered attempt to stop, and says whether the request was
    /// taken. It is taken where the number is that of the latest attempt; a
    /// request that names an earlier one is dropped.
    pub fn cancel(&mut self, attempt: u64) -> (taken: bool)
        ensures
            taken == (attempt == old(self)@.attempt),
            taken ==> final(self)@ == (FileData { cancelled: true, ..old(self)@ }),
            !taken ==> final(self)@ == old(self)@,
            consistent(old(self)@) ==> consistent(final(self)@),
    {
        if attempt == self.attempt {
            self.cancel.set();
            true
        } else {
            false
        }
    }

    /// Whether the latest attempt was asked to stop.
    pub fn is_cancelled(&self) -> (r: bool)
        ensures
            r == self@.cancelled,
    {
        self.cancel.is_set()
    }

    /// What the parser of the numbered attempt is told when it stands at
    /// `reader`, at `time`: the progress report to show, where one is due,
    /// and whether it may read on. A parser of an earlier attempt is told to
    /// stop and gets no report.
    pub fn checkpoint_at(&self, attempt: u64, reader: ReaderState, time: u64) -> (c: Checkpoint)
        ensures
            c == told(self@, attempt, reader, time),
    {
        if !self.is_live(attempt) {
            return Checkpoint { report: None, proceed: false };
        }
        match &self.incoming {
            Some((_, size, strategy)) => {
                let report = if reader.lines_read > 0 && reader.lines_read % LINES_PER_SNAPSHOT
                    == 0 {
                    Some(ParseProgress::new(reader, *size, time))
                } else {
                    None
                };
                let proceed = !self.cancel.is_set() && reader.bytes_read <= self.limits.ceiling(
                    *strategy,
                );
                Checkpoint { report, proceed }
            },
            None => Checkpoint { report: None, proceed: false },
        }
    }

    /// What the parser of the numbered attempt is told when it stands at
    /// `reader`, now. The host's clock is read only where a report is due,
    /// and the report carries the time that it showed.
    pub fn checkpoint<C: FnOnce() -> u64>(&self, attempt: u64, reader: ReaderState, clock: C) -> (c:
        Checkpoint)
        requires
            live(self@, attempt) && snapshot_due(reader.lines_read as nat) ==> clock.requires(()),
        ensures
            !(live(self@, attempt) && snapshot_due(reader.lines_read as nat)) ==> c == told(
                self@,
                attempt,
                reader,
                0,
            ),
            live(self@, attempt) && snapshot_due(reader.lines_read as nat) ==> exists|time: u64|
                clock.ensures((), time) && c == told(self@, attempt, reader, time),
    {
        let due = self.is_live(attempt) && reader.lines_read > 0 && reader.lines_read
            % LINES_PER_SNAPSHOT == 0;
        let time = if due {
            clock()
        } else {
            0
        };
        self.checkpoint_at(attempt, reader, time)
    }

    /// Takes the bytes of a file that was read whole, for the numbered
    /// attempt, and hands back the text to parse. Bytes that are not UTF-8
    /// end the attempt in `ParseFailed`. Bytes for an attempt that is not
    /// waiting for them are dropped.
    pub fn text_loaded(&mut self, attempt: u64, bytes: Vec<u8>) -> (text: Option<String>)
        ensures
            ({
                let awaited = attempt == old(self)@.attempt && old(self)@.progress
                    is ReadingToString;
                &&& text.is_some() == (awaited && valid_utf8(bytes@))
                &&& text matches Some(t) ==> encode_utf8(t@) == bytes@
                &&& !awaited ==> final(self)@ == old(self)@
                &&& awaited && valid_utf8(bytes@) ==> final(self)@ == (FileData {
                    progress: LoadingState::StartParsing,
                    ..old(self)@
                })
                &&& awaited && !valid_utf8(bytes@) ==> final(self)@ == (FileData {
                    progress: LoadingState::ParseFailed,
                    reader: false,
                    incoming: None,
                    ..old(self)@
                })
            }),
            consistent(old(self)@) ==> consistent(final(self)@),
    {
        let awaited = attempt == self.attempt && match self.progress {
            LoadingState::ReadingToString => true,
            _ => false,
        };
        if !awaited {
            return None;
        }
        match text_from_utf8(bytes) {
            Some(text) => {
                self.progress = LoadingState::StartParsing;
                Some(text)
            },
            None => {
                self.progress = LoadingState::ParseFailed;
                self.reader = false;
                self.incoming = None;
                None
            },
        }
    }

    /// The state to show.
    pub fn progress(&self) -> (r: &LoadingState<R>)
        ensures
            *r == self@.progress,
    {
        &self.progress
    }

    /// The number of the latest attempt.
    pub fn attempt(&self) -> (r: u64)
        ensures
            r == self@.attempt,
    {
        self.attempt
    }

    /// The byte ceilings in use.
    pub fn limits(&self) -> (r: Limits)
        ensures
            r == self@.limits,
    {
        self.limits
    }

    /// Whether a read of the whole file is under way.
    pub fn reader_active(&self) -> (r: bool)
        ensures
            r == self@.reader,
    {
        self.reader
    }

    /// The file that was parsed last, where there is one.
    pub fn file(&self) -> (r: Option<&OpenedFileInfo<P, G, M>>)
        ensures
            r.is_some() == self@.file.is_some(),
            r matches Some(f) ==> self@.file == Some(f@),
    {
        self.file.as_ref()
    }

    /// Builds the graph of the opened file on the first call and keeps it;
    /// every later call hands out the graph that is kept. `None` where no
    /// file is open.
    pub fn ensure_graph<B: FnOnce(&P) -> G>(&mut self, build: B) -> (g: Option<&G>)
        requires
            (old(self)@.file matches Some(f) && f.parser.derived.is_none()) ==> build.requires(
                (&old(self)@.file.unwrap().parser.result,),
            ),
        ensures
            g.is_some() == old(self)@.file.is_some(),
            old(self)@.file.is_none() ==> final(self)@ == old(self)@,
            old(self)@.file.is_some() ==> {
                let before = old(self)@.file.unwrap();
                let after = final(self)@.file.unwrap();
                &&& final(self)@ == (FileData { file: Some(after), ..old(self)@ })
                &&& after == (OpenedFile { parser: after.parser, ..before })
                &&& graph_ensured(before.parser, after.parser, *g.unwrap(), build)
            },
            consistent(old(self)@) ==> consistent(final(self)@),
    {
        match &mut self.file {
            Some(file) => Some(file.ensure_graph(build)),
            None => None,
        }
    }

    /// Hands a message to the view of the opened file. `Ok(Some(msg))`: a
    /// subscriber is attached, deliver the message now. `Ok(None)`: it waits
    /// in line for a subscriber. `Err(msg)`: no file is open.
    pub fn send_update(&mut self, msg: M) -> (r: Result<Option<M>, M>)
        ensures
            match old(self)@.file {
                None => r == Err::<Option<M>, M>(msg) && final(self)@ == old(self)@,
                Some(f) => match f.queued {
                    Some(q) => r == Ok::<Option<M>, M>(None) && final(self)@ == (FileData {
                        file: Some(OpenedFile { queued: Some(q.push(msg)), ..f }),
                        ..old(self)@
                    }),
                    None => r == Ok::<Option<M>, M>(Some(msg)) && final(self)@ == old(self)@,
                },
            },
            consistent(old(self)@) ==> consistent(final(self)@),
    {
        match &mut self.file {
            Some(file) => Ok(file.send_update(msg)),
            None => Err(msg),
        }
    }

    /// Hands several messages to the view of the opened file, in their
    /// order. `Ok(msgs)`: deliver these now, all of them where a subscriber
    /// is attached, none where they wait in line. `Err(msgs)`: no file is
    /// open.
    pub fn send_updates(&mut self, msgs: Vec<M>) -> (r: Result<Vec<M>, Vec<M>>)
        ensures
            match old(self)@.file {
                None => r matches Err(back) && back@ == msgs@ && final(self)@ == old(self)@,
                Some(f) => match f.queued {
                    Some(q) => r matches Ok(now) && now@ == Seq::<M>::empty() && final(self)@ == (
                    FileData {
                        file: Some(OpenedFile { queued: Some(q + msgs@), ..f }),
                        ..old(self)@
                    }),
                    None => r matches Ok(now) && now@ == msgs@ && final(self)@ == old(self)@,
                },
            },
            consistent(old(self)@) ==> consistent(final(self)@),
    {
        match &mut self.file {
            Some(file) => Ok(file.send_updates(msgs)),
            None => Err(msgs),
        }
    }

    /// Attaches a subscriber to the view of the opened file: the messages
    /// that waited come back in their order, to be delivered now. `None`
    /// where no file is open.
    pub fn connect(&mut self) -> (backlog: Option<Vec<M>>)
        ensures
            match old(self)@.file {
                None => backlog.is_none() && final(self)@ == old(self)@,
                Some(f) => {
                    &&& final(self)@ == (FileData {
                        file: Some(OpenedFile { queued: None, ..f }),
                        ..old(self)@
                    })
                    &&& backlog matches Some(b) && b@ == match f.queued {
                        Some(q) => q,
                        None => Seq::<M>::empty(),
                    }
                },
            },
            consistent(old(self)@) ==> consistent(final(self)@),
    {
        match &mut self.file {
            Some(file) => Some(file.connect()),
            None => None,
        }
    }

    /// Handles one message and says what the host owes.
    ///
    /// A picked file ends whatever went before and begins a new attempt. The
    /// end of a parse, a decoding failure and a progress report count only
    /// for the parse under way; the progress of the rendering counts only
    /// once a file was parsed. What does not count changes nothing and asks
    /// for no new drawing.
    pub fn update<S: FnOnce(&G) -> usize>(&mut self, msg: Msg<P, R>, search: S) -> (u: Update)
        requires
            (msg is SearchMatchingLoops && old(self)@.file.is_some() && old(
                self,
            )@.file.unwrap().parser.derived.is_some()) ==> search.requires(
                (&old(self)@.file.unwrap().parser.derived.unwrap(),),
            ),
        ensures
            handled(old(self)@, msg, search, final(self)@, u),
            consistent(old(self)@) ==> consistent(final(self)@),
    {
        match msg {
            Msg::File(None) => Update { render: false, command: Command::Nothing },
            Msg::File(Some(selection)) => {
                let FileSelection { name, size, streamable } = selection;
                let strategy = choose_strategy(streamable);
                self.file = None;
                self.reader = !streamable;
                self.cancel = CancellationToken::new();
                self.attempt = if self.attempt == u64::MAX {
                    0
                } else {
                    self.attempt + 1
                };
                self.incoming = Some((name, size, strategy));
                if streamable {
                    self.progress = LoadingState::StartParsing;
                    Update { render: true, command: Command::ParseStream(self.attempt) }
                } else {
                    self.progress = LoadingState::ReadingToString;
                    Update { render: true, command: Command::ReadThenParse(self.attempt) }
                }
            },
            Msg::LoadedFile(attempt, parser, state) => {
                if !self.is_live(attempt) {
                    return Update { render: false, command: Command::Nothing };
                }
                match self.incoming.take() {
                    Some((name, size, _)) => {
                        let cancelled = self.cancel.is_set();
                        self.reader = false;
                        self.progress = LoadingState::DoneParsing(state.is_timeout(), cancelled);
                        self.file = Some(
                            OpenedFileInfo::new(
                                name,
                                size,
                                RcParser::new(attempt, parser),
                                state,
                                cancelled,
                            ),
                        );
                        Update { render: true, command: Command::Nothing }
                    },
                    None => Update { render: false, command: Command::Nothing },
                }
            },
            Msg::ParseFailed(attempt) => {
                if !self.is_live(attempt) {
                    return Update { render: false, command: Command::Nothing };
                }
                self.progress = LoadingState::ParseFailed;
                self.reader = false;
                self.incoming = None;
                Update { render: true, command: Command::Nothing }
            },
            Msg::LoadingState(state) => {
                let taken = match &state {
                    LoadingState::Parsing(_, attempt) => self.is_live(*attempt),
                    LoadingState::Rendering(_, _, _) => self.file.is_some()
                        && self.progress.is_parse_done(),
                    LoadingState::FileDisplayed => self.file.is_some()
                        && self.progress.is_parse_done(),
                    _ => false,
                };
                if !taken {
                    return Update { render: false, command: Command::Nothing };
                }
                match (state, &self.progress) {
                    (LoadingState::Parsing(report, attempt), LoadingState::Parsing(before, _)) => {
                        let mut report = report;
                        report.delta(before);
                        self.progress = LoadingState::Parsing(report, attempt);
                    },
                    (state, _) => {
                        self.progress = state;
                    },
                }
                Update { render: true, command: Command::Nothing }
            },
            Msg::SelectedInsts(insts) => {
                match &mut self.file {
                    Some(file) => {
                        file.set_selected_insts(insts);
                        Update { render: true, command: Command::Nothing }
                    },
                    None => Update { render: false, command: Command::Nothing },
                }
            },
            Msg::SearchMatchingLoops => {
                match &mut self.file {
                    Some(file) => {
                        let searched = file.search_matching_loops(search);
                        Update { render: searched, command: Command::Nothing }
                    },
                    None => Update { render: false, command: Command::Nothing },
                }
            },
        }
    }
}

} // verus!
