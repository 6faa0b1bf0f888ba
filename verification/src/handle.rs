//! The handle over a parsed file.
//!
//! A handle owns the parse result and what is derived from it on demand. The
//! graph is built by the host's builder the first time it is asked for, and
//! kept; the number of matching loops is that of the latest search.

use vstd::prelude::*;

verus! {

/// How a parse ended.
#[derive(Debug, Clone, Copy, PartialEq, Eq, Structural)]
pub enum ParseState {
    /// The source was read to its end.
    Finished,
    /// The parse was stopped before the end of the source.
    TimedOut,
}

impl ParseState {
    /// Whether the parse was stopped before the end of the source.
    pub fn is_timeout(&self) -> (r: bool)
        ensures
            r == (*self == ParseState::TimedOut),
    {
        match self {
            ParseState::Finished => false,
            ParseState::TimedOut => true,
        }
    }
}

/// A handle as contracts see it.
pub struct Handle<P, G> {
    /// The number by which the parse result is told from every other.
    pub id: u64,
    /// The parse result.
    pub result: P,
    /// The derived graph, once it was built.
    pub derived: Option<G>,
    /// The number of matching loops that the latest search found.
    pub loops: Option<usize>,
}

/// `post` is `pre` after its graph was asked for and `g` was handed out: `g`
/// is the graph that `pre` kept, and nothing changed; or, where `pre` kept
/// none, `g` is a graph that `build` can make of the parse result, and it is
/// kept from now on.
pub open spec fn graph_ensured<P, G, B: FnOnce(&P) -> G>(
    pre: Handle<P, G>,
    post: Handle<P, G>,
    g: G,
    build: B,
) -> bool {
    &&& post == Handle { derived: Some(g), ..pre }
    &&& pre.derived.is_some() ==> pre.derived == Some(g)
    &&& pre.derived.is_none() ==> build.ensures((&pre.result,), g)
}

/// `post` is `pre` after a search for matching loops was asked for, and
/// `searched` says whether one was made: with a graph, a count that `search`
/// can give for it is kept in place of an earlier one; without a graph
/// nothing changes.
pub open spec fn loops_searched<P, G, S: FnOnce(&G) -> usize>(
    pre: Handle<P, G>,
    post: Handle<P, G>,
    searched: bool,
    search: S,
) -> bool {
    &&& searched == pre.derived.is_some()
    &&& !searched ==> post == pre
    &&& searched ==> {
        &&& post.loops.is_some()
        &&& post == Handle { loops: post.loops, ..pre }
        &&& search.ensures((&pre.derived.unwrap(),), post.loops.unwrap())
    }
}

/// A count of matching loops is there only where a graph is: while the graph
/// is not built, nothing was searched.
pub open spec fn count_has_graph<P, G>(h: Handle<P, G>) -> bool {
    h.derived.is_none() ==> h.loops.is_none()
}

/// Asking for the graph leaves no count of matching loops without a graph.
pub proof fn lemma_graph_keeps_count<P, G, B: FnOnce(&P) -> G>(
    pre: Handle<P, G>,
    post: Handle<P, G>,
    g: G,
    build: B,
)
    requires
        count_has_graph(pre),
        graph_ensured(pre, post, g, build),
    ensures
        count_has_graph(post),
{
}

/// A search leaves no count of matching loops without a graph: where there
/// is no graph, nothing is searched and no count appears.
pub proof fn lemma_search_keeps_count<P, G, S: FnOnce(&G) -> usize>(
    pre: Handle<P, G>,
    post: Handle<P, G>,
    searched: bool,
    search: S,
)
    requires
        count_has_graph(pre),
        loops_searched(pre, post, searched, search),
    ensures
        count_has_graph(post),
        !searched ==> post.loops.is_none(),
{
}

/// Asking for the graph twice hands out the same graph both times, and the
/// second call leaves the handle as the first left it: the graph is built
/// once.
pub proof fn lemma_ensure_graph_idempotent<P, G, B: FnOnce(&P) -> G, C: FnOnce(&P) -> G>(
    start: Handle<P, G>,
    once: Handle<P, G>,
    first: G,
    build: B,
    twice: Handle<P, G>,
    second: G,
    rebuild: C,
)
    requires
        graph_ensured(start, once, first, build),
        graph_ensured(once, twice, second, rebuild),
    ensures
        second == first,
        twice == once,
{
}

/// Searching twice, with nothing done to the graph in between, gives the same
/// count both times, where the search gives one count for one graph.
pub proof fn lemma_search_repeats<P, G, S: FnOnce(&G) -> usize, T: FnOnce(&G) -> usize>(
    start: Handle<P, G>,
    once: Handle<P, G>,
    first: bool,
    search: S,
    twice: Handle<P, G>,
    second: bool,
    again: T,
)
    requires
        loops_searched(start, once, first, search),
        loops_searched(once, twice, second, again),
        forall|g: G, a: usize, b: usize|
            search.ensures((&g,), a) && again.ensures((&g,), b) ==> a == b,
    ensures
        second == first,
        twice == once,
{
}

/// A parse result with what is derived from it on demand: the graph, built
/// once and kept, and the number of matching loops found by the latest search.
pub struct RcParser<P, G> {
    id: u64,
    parser: P,
    graph: Option<G>,
    found_mls: Option<usize>,
}

impl<P, G> View for RcParser<P, G> {
    type V = Handle<P, G>;

    closed spec fn view(&self) -> Handle<P, G> {
        Handle { id: self.id, result: self.parser, derived: self.graph, loops: self.found_mls }
    }
}

impl<P, G> RcParser<P, G> {
    /// A handle over `parser`, known by `id`, with no graph and no search yet.
    /// Handles are told apart by their ids alone, so whoever makes them gives
    /// each parse result an id of its own.
    pub fn new(id: u64, parser: P) -> (h: RcParser<P, G>)
        ensures
            h@ == (Handle::<P, G> { id, result: parser, derived: None, loops: None }),
            count_has_graph(h@),
    {
        RcParser { id, parser, graph: None, found_mls: None }
    }

    /// The number by which this parse result is told from every other.
    pub fn id(&self) -> (r: u64)
        ensures
            r == self@.id,
    {
        self.id
    }

    /// The parse result.
    pub fn parser(&self) -> (r: &P)
        ensures
            *r == self@.result,
    {
        &self.parser
    }

    /// The derived graph, once it was built.
    pub fn graph(&self) -> (r: Option<&G>)
        ensures
            r.is_some() == self@.derived.is_some(),
            r matches Some(g) ==> self@.derived == Some(*g),
    {
        self.graph.as_ref()
    }

    /// Whether the graph was built.
    pub fn graph_loaded(&self) -> (r: bool)
        ensures
            r == self@.derived.is_some(),
    {
        self.graph.is_some()
    }

    /// The number of matching loops that the latest search found; `None`
    /// until a search has run.
    pub fn matching_loop_count(&self) -> (r: Option<usize>)
        ensures
            r == self@.loops,
    {
        self.found_mls
    }

    /// Whether two handles show the same to a viewer: the same parse result,
    /// by its number, with the graph built or not in both, and the same count
    /// of matching loops.
    pub fn eq(&self, other: &RcParser<P, G>) -> (r: bool)
        ensures
            r == (self@.id == other@.id && self@.derived.is_some() == other@.derived.is_some()
                && self@.loops == other@.loops),
    {
        let same_loops = match (self.found_mls, other.found_mls) {
            (Some(a), Some(b)) => a == b,
            (None, None) => true,
            _ => false,
        };
        self.id == other.id && self.graph.is_some() == other.graph.is_some() && same_loops
    }

    /// Builds the graph on the first call and keeps it; every later call
    /// hands out the graph that is kept and does not build.
    pub fn ensure_graph<B: FnOnce(&P) -> G>(&mut self, build: B) -> (g: &G)
        requires
            old(self)@.derived.is_none() ==> build.requires((&old(self)@.result,)),
        ensures
            graph_ensured(old(self)@, final(self)@, *g, build),
    {
        if self.graph.is_none() {
            let g = build(&self.parser);
            self.graph = Some(g);
        }
        self.graph.as_ref().unwrap()
    }

    /// Searches the graph for matching loops and keeps the count, in place of
    /// an earlier one. Says whether there was a graph to search; without one
    /// nothing changes.
    pub fn search_matching_loops<S: FnOnce(&G) -> usize>(&mut self, search: S) -> (searched: bool)
        requires
            old(self)@.derived matches Some(g) ==> search.requires((&g,)),
        ensures
            loops_searched(old(self)@, final(self)@, searched, search),
    {
        match &self.graph {
            Some(g) => {
                let count = search(g);
                self.found_mls = Some(count);
                true
            },
            None => false,
        }
    }

    /// The detail of one node as `lookup` derives it from the parse result and
    /// the graph; `None` while there is no graph.
    pub fn node_detail<D, L: Fn(&P, &G, usize, bool) -> D>(
        &self,
        id: usize,
        ignore_term_ids: bool,
        lookup: &L,
    ) -> (r: Option<D>)
        requires
            self@.derived matches Some(g) ==> lookup.requires(
                (&self@.result, &g, id, ignore_term_ids),
            ),
        ensures
            r.is_some() == self@.derived.is_some(),
            r matches Some(d) ==> lookup.ensures(
                (&self@.result, &self@.derived.unwrap(), id, ignore_term_ids),
                d,
            ),
    {
        match &self.graph {
            Some(g) => Some(lookup(&self.parser, g, id, ignore_term_ids)),
            None => None,
        }
    }

    /// The detail of one edge as `lookup` derives it from the parse result and
    /// the graph; `None` while there is no graph.
    pub fn edge_detail<D, L: Fn(&P, &G, usize, bool) -> D>(
        &self,
        id: usize,
        ignore_term_ids: bool,
        lookup: &L,
    ) -> (r: Option<D>)
        requires
            self@.derived matches Some(g) ==> lookup.requires(
                (&self@.result, &g, id, ignore_term_ids),
            ),
        ensures
            r.is_some() == self@.derived.is_some(),
            r matches Some(d) ==> lookup.ensures(
                (&self@.result, &self@.derived.unwrap(), id, ignore_term_ids),
                d,
            ),
    {
        match &self.graph {
            Some(g) => Some(lookup(&self.parser, g, id, ignore_term_ids)),
            None => None,
        }
    }
}

/// Whether two lists of selected instantiations are the same.
fn same_insts(a: &Vec<(usize, Option<usize>)>, b: &Vec<(usize, Option<usize>)>) -> (r: bool)
    ensures
        r == (a@ == b@),
{
    if a.len() != b.len() {
        return false;
    }
    let n = a.len();
    let mut i: usize = 0;
    while i < n
        invariant
            n == a@.len(),
            n == b@.len(),
            i <= n,
            forall|j: int| 0 <= j < i ==> a@[j] == b@[j],
        decreases n - i,
    {
        let (x, xq) = a[i];
        let (y, yq) = b[i];
        let same_quant = match (xq, yq) {
            (Some(p), Some(q)) => p == q,
            (None, None) => true,
            _ => false,
        };
        if x != y || !same_quant {
            assert(a@[i as int] != b@[i as int]);
            return false;
        }
        i += 1;
    }
    assert(a@ =~= b@);
    true
}

/// An opened file as contracts see it.
pub struct OpenedFile<P, G, M> {
    pub file_name: Seq<char>,
    pub file_size: u64,
    pub parser: Handle<P, G>,
    pub parser_state: ParseState,
    pub parser_cancelled: bool,
    /// Messages that wait for a subscriber; `None` once one is attached.
    pub queued: Option<Seq<M>>,
    /// The selected instantiations, each with its quantifier where it has one.
    pub selected_insts: Seq<(usize, Option<usize>)>,
}

/// A file that was parsed, with the messages that wait for its view and the
/// instantiations selected in it.
pub struct OpenedFileInfo<P, G, M> {
    file_name: String,
    file_size: u64,
    parser: RcParser<P, G>,
    parser_state: ParseState,
    parser_cancelled: bool,
    update: Option<Vec<M>>,
    selected_insts: Vec<(usize, Option<usize>)>,
}

impl<P, G, M> View for OpenedFileInfo<P, G, M> {
    type V = OpenedFile<P, G, M>;

    closed spec fn view(&self) -> OpenedFile<P, G, M> {
        OpenedFile {
            file_name: self.file_name@,
            file_size: self.file_size,
            parser: self.parser@,
            parser_state: self.parser_state,
            parser_cancelled: self.parser_cancelled,
            queued: match self.update {
                Some(q) => Some(q@),
                None => None,
            },
            selected_insts: self.selected_insts@,
        }
    }
}

impl<P, G, M> OpenedFileInfo<P, G, M> {
    /// A file as it stands when its parse has ended: no subscriber, no
    /// message waiting, nothing selected.
    pub fn new(
        file_name: String,
        file_size: u64,
        parser: RcParser<P, G>,
        parser_state: ParseState,
        parser_cancelled: bool,
    ) -> (f: OpenedFileInfo<P, G, M>)
        ensures
            f@ == (OpenedFile {
                file_name: file_name@,
                file_size,
                parser: parser@,
                parser_state,
                parser_cancelled,
                queued: Some(Seq::<M>::empty()),
                selected_insts: Seq::<(usize, Option<usize>)>::empty(),
            }),
    {
        OpenedFileInfo {
            file_name,
            file_size,
            parser,
            parser_state,
            parser_cancelled,
            update: Some(Vec::new()),
            selected_insts: Vec::new(),
        }
    }

    /// The name of the file.
    pub fn file_name(&self) -> (r: &String)
        ensures
            r@ == self@.file_name,
    {
        &self.file_name
    }

    /// The size of the file in bytes.
    pub fn file_size(&self) -> (r: u64)
        ensures
            r == self@.file_size,
    {
        self.file_size
    }

    /// The handle over the parse result.
    pub fn parser(&self) -> (r: &RcParser<P, G>)
        ensures
            r@ == self@.parser,
    {
        &self.parser
    }

    /// How the parse ended.
    pub fn parser_state(&self) -> (r: ParseState)
        ensures
            r == self@.parser_state,
    {
        self.parser_state
    }

    /// Whether the parse was cancelled.
    pub fn parser_cancelled(&self) -> (r: bool)
        ensures
            r == self@.parser_cancelled,
    {
        self.parser_cancelled
    }

    /// The instantiations selected in the file.
    pub fn selected_insts(&self) -> (r: &Vec<(usize, Option<usize>)>)
        ensures
            r@ == self@.selected_insts,
    {
        &self.selected_insts
    }

    /// Whether two files show the same to a viewer: name, size, parse result,
    /// end of the parse and selected instantiations. Waiting messages and the
    /// cancel flag do not count.
    pub fn eq(&self, other: &OpenedFileInfo<P, G, M>) -> (r: bool)
        ensures
            r == {
                &&& self@.file_name == other@.file_name
                &&& self@.file_size == other@.file_size
                &&& self@.parser.id == other@.parser.id
                &&& self@.parser.derived.is_some() == other@.parser.derived.is_some()
                &&& self@.parser.loops == other@.parser.loops
                &&& self@.parser_state == other@.parser_state
                &&& self@.selected_insts == other@.selected_insts
            },
    {
        self.file_name == other.file_name && self.file_size == other.file_size && self.parser.eq(
            &other.parser,
        ) && self.parser_state.is_timeout() == other.parser_state.is_timeout() && same_insts(
            &self.selected_insts,
            &other.selected_insts,
        )
    }

    /// Hands a message to the file's view. With a subscriber attached the
    /// message comes back, to be delivered now; without one it waits in line
    /// and `None` comes back.
    pub fn send_update(&mut self, msg: M) -> (deliver: Option<M>)
        ensures
            match old(self)@.queued {
                Some(q) => deliver.is_none() && final(self)@ == (OpenedFile {
                    queued: Some(q.push(msg)),
                    ..old(self)@
                }),
                None => deliver == Some(msg) && final(self)@ == old(self)@,
            },
    {
        match &mut self.update {
            Some(queue) => {
                queue.push(msg);
                None
            },
            None => Some(msg),
        }
    }

    /// Hands several messages to the file's view, in their order. With a
    /// subscriber attached they all come back, to be delivered now; without
    /// one they wait in line behind those that wait already.
    pub fn send_updates(&mut self, msgs: Vec<M>) -> (deliver: Vec<M>)
        ensures
            match old(self)@.queued {
                Some(q) => deliver@ == Seq::<M>::empty() && final(self)@ == (OpenedFile {
                    queued: Some(q + msgs@),
                    ..old(self)@
                }),
                None => deliver@ == msgs@ && final(self)@ == old(self)@,
            },
    {
        let mut msgs = msgs;
        match &mut self.update {
            Some(queue) => {
                queue.append(&mut msgs);
                msgs
            },
            None => msgs,
        }
    }

    /// Attaches a subscriber: the messages that waited come back in their
    /// order, to be delivered now, and from here on none waits.
    pub fn connect(&mut self) -> (backlog: Vec<M>)
        ensures
            final(self)@ == (OpenedFile { queued: None, ..old(self)@ }),
            backlog@ == match old(self)@.queued {
                Some(q) => q,
                None => Seq::<M>::empty(),
            },
    {
        match self.update.take() {
            Some(queue) => queue,
            None => Vec::new(),
        }
    }

    /// Replaces the selected instantiations.
    pub fn set_selected_insts(&mut self, insts: Vec<(usize, Option<usize>)>)
        ensures
            final(self)@ == (OpenedFile { selected_insts: insts@, ..old(self)@ }),
    {
        self.selected_insts = insts;
    }

    /// Builds the graph of the file on the first call and keeps it; every
    /// later call hands out the graph that is kept.
    pub fn ensure_graph<B: FnOnce(&P) -> G>(&mut self, build: B) -> (g: &G)
        requires
            old(self)@.parser.derived.is_none() ==> build.requires((&old(self)@.parser.result,)),
        ensures
            final(self)@ == (OpenedFile { parser: final(self)@.parser, ..old(self)@ }),
            graph_ensured(old(self)@.parser, final(self)@.parser, *g, build),
    {
        self.parser.ensure_graph(build)
    }

    /// Searches the graph of the file for matching loops and keeps the count.
    /// Says whether there was a graph to search.
    pub fn search_matching_loops<S: FnOnce(&G) -> usize>(&mut self, search: S) -> (searched: bool)
        requires
            old(self)@.parser.derived matches Some(g) ==> search.requires((&g,)),
        ensures
            final(self)@ == (OpenedFile { parser: final(self)@.parser, ..old(self)@ }),
            loops_searched(old(self)@.parser, final(self)@.parser, searched, search),
    {
        self.parser.search_matching_loops(search)
    }
}

} // verus!
