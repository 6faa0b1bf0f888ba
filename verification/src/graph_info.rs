//! The selection state of the instantiation graph: which nodes and edges the
//! user has picked, which of them are unfolded, and how their details are
//! derived again when the display option changes.
//!
//! Details come from the caller's lookups, `(id, ignore_term_ids) -> detail`.
//! The state machine decides when a lookup is made and where its result goes.

use crate::edge_number::{edge_number, to_edge_number};
use crate::element_id::{element_id, parse_element_id};
use crate::selection::{
    all_flagged, all_folded, derived_from, distinct_ids, first_occurrences, flagged_at, has_id,
    ids_of, position, removed, same_frame, total, Selection, Slot,
};
use vstd::prelude::*;

verus! {

/// Which of the two selections an operation addresses.
#[derive(Debug, Clone, Copy, PartialEq, Eq, Structural)]
pub enum EntityKind {
    Node,
    Edge,
}

/// What the user or the host asks of the selection.
pub enum Msg {
    /// Pick or drop the node with this id.
    UserSelectedNode(usize),
    /// Pick or drop the edge at this position of the graph.
    UserSelectedEdge(usize),
    /// Unfold a folded node, fold an unfolded one.
    ToggleOpenNode(usize),
    /// Unfold a folded edge, fold an unfolded one.
    ToggleOpenEdge(usize),
    /// Replace the selected nodes by these.
    SelectNodes(Vec<usize>),
    /// Drop every selected node and edge.
    DeselectAll,
    /// Switch between details with and without term ids.
    ToggleIgnoreTermIds,
    /// Take the explanation of a matching-loop search.
    ShowGeneralizedTerms(Vec<String>),
}

/// What the host owes after a message was handled.
#[derive(Debug, Clone, Copy, PartialEq, Eq, Structural)]
pub struct Outcome {
    /// The view has to be drawn again.
    pub render: bool,
    /// The list of node details has to be handed to its subscribers.
    pub publish_nodes: bool,
}

/// `post` is `pre` with `id` appended, unfolded, with a detail that `lookup`
/// can return for it under `flag`.
pub open spec fn appended_unfolded<D, F: Fn(usize, bool) -> D>(
    pre: Seq<Slot<D>>,
    post: Seq<Slot<D>>,
    id: usize,
    lookup: &F,
    flag: bool,
) -> bool {
    &&& post.len() == pre.len() + 1
    &&& post.drop_last() == pre
    &&& post.last().id == id
    &&& post.last().expanded
    &&& lookup.ensures((id, flag), post.last().detail)
}

/// `s` with the expand flag of `id` set to `value`; `s` itself where `id` is
/// not selected.
pub open spec fn with_flag<D>(s: Seq<Slot<D>>, id: usize, value: bool) -> Seq<Slot<D>> {
    if has_id(s, id) {
        flagged_at(s, position(s, id), value)
    } else {
        s
    }
}

/// `s` with the expand flag of `id` inverted; `s` itself where `id` is not
/// selected.
pub open spec fn with_flag_flipped<D>(s: Seq<Slot<D>>, id: usize) -> Seq<Slot<D>> {
    if has_id(s, id) {
        flagged_at(s, position(s, id), !s[position(s, id)].expanded)
    } else {
        s
    }
}

/// The selected nodes after the node `id` was picked or dropped, where a pick
/// brings `detail`: a selected node is dropped; any other goes last,
/// unfolded, and every node before it is folded.
pub open spec fn focus_toggled<D>(s: Seq<Slot<D>>, id: usize, detail: D) -> Seq<Slot<D>> {
    if has_id(s, id) {
        removed(s, id)
    } else {
        all_flagged(s, false).push(Slot { id, detail, expanded: true })
    }
}

/// The selected nodes after each node of `picks` was picked or dropped in
/// turn, starting from `s`.
pub open spec fn toggled_all<D>(s: Seq<Slot<D>>, picks: Seq<(usize, D)>) -> Seq<Slot<D>>
    decreases picks.len(),
{
    if picks.len() == 0 {
        s
    } else {
        focus_toggled(toggled_all(s, picks.drop_last()), picks.last().0, picks.last().1)
    }
}

/// No two slots of `s` are unfolded.
pub open spec fn at_most_one_unfolded<D>(s: Seq<Slot<D>>) -> bool {
    forall|i: int, j: int|
        0 <= i < s.len() && 0 <= j < s.len() && (#[trigger] s[i]).expanded && (
        #[trigger] s[j]).expanded ==> i == j
}

/// The slot at `i` is unfolded and no other slot of `s` is.
pub open spec fn sole_unfolded<D>(s: Seq<Slot<D>>, i: int) -> bool {
    &&& 0 <= i < s.len()
    &&& s[i].expanded
    &&& forall|j: int| 0 <= j < s.len() && j != i ==> !(#[trigger] s[j]).expanded
}

/// Picking a node that was not selected leaves exactly one node unfolded: the
/// one that was picked, which stands last.
pub proof fn lemma_pick_focuses<D>(s: Seq<Slot<D>>, id: usize, detail: D)
    requires
        !has_id(s, id),
    ensures
        focus_toggled(s, id, detail).len() == s.len() + 1,
        focus_toggled(s, id, detail).last().id == id,
        sole_unfolded(focus_toggled(s, id, detail), s.len() as int),
{
}

/// Picking or dropping one node keeps the ids distinct and never leaves more
/// than one node unfolded where at most one was unfolded before.
pub proof fn lemma_toggle_keeps_focus<D>(s: Seq<Slot<D>>, id: usize, detail: D)
    requires
        distinct_ids(s),
    ensures
        distinct_ids(focus_toggled(s, id, detail)),
        at_most_one_unfolded(s) || !has_id(s, id) ==> at_most_one_unfolded(
            focus_toggled(s, id, detail),
        ),
        has_id(s, id) ==> !has_id(focus_toggled(s, id, detail), id),
{
    let t = focus_toggled(s, id, detail);
    if has_id(s, id) {
        let p = position(s, id);
        assert(0 <= p < s.len() && s[p].id == id);
        assert forall|i: int| 0 <= i < t.len() implies #[trigger] t[i] == s[if i < p {
            i
        } else {
            i + 1
        }] by {}
        assert forall|i: int, j: int| 0 <= i < t.len() && 0 <= j < t.len() && i != j implies (
        #[trigger] t[i]).id != (#[trigger] t[j]).id by {
            let a = if i < p {
                i
            } else {
                i + 1
            };
            let b = if j < p {
                j
            } else {
                j + 1
            };
            assert(s[a].id != s[b].id);
        }
        if at_most_one_unfolded(s) {
            assert forall|i: int, j: int|
                0 <= i < t.len() && 0 <= j < t.len() && (#[trigger] t[i]).expanded && (
                #[trigger] t[j]).expanded implies i == j by {
                let a = if i < p {
                    i
                } else {
                    i + 1
                };
                let b = if j < p {
                    j
                } else {
                    j + 1
                };
                assert(s[a].expanded && s[b].expanded);
            }
        }
        if has_id(t, id) {
            let i = choose|i: int| 0 <= i < t.len() && (#[trigger] t[i]).id == id;
            let a = if i < p {
                i
            } else {
                i + 1
            };
            assert(s[a].id == id && s[p].id == id && a != p);
        }
    } else {
        assert forall|i: int, j: int| 0 <= i < t.len() && 0 <= j < t.len() && i != j implies (
        #[trigger] t[i]).id != (#[trigger] t[j]).id by {
            if i < s.len() {
                assert(s[i].id == t[i].id);
            }
            if j < s.len() {
                assert(s[j].id == t[j].id);
            }
        }
    }
}

/// The focus of the selection. Start from a selection with distinct ids in
/// which at most one node is unfolded, as the empty one, or one that was
/// just replaced or cleared. Then after any run of picks and drops at most
/// one node is unfolded; so where any node is unfolded, exactly one is. And
/// where the last of the run picked a node, that node is the one: it stands
/// last, unfolded, and every other node is folded.
pub proof fn lemma_toggles_keep_one_focus<D>(s: Seq<Slot<D>>, picks: Seq<(usize, D)>)
    requires
        distinct_ids(s),
        at_most_one_unfolded(s),
    ensures
        distinct_ids(toggled_all(s, picks)),
        at_most_one_unfolded(toggled_all(s, picks)),
        forall|i: int|
            0 <= i < toggled_all(s, picks).len() && (#[trigger] toggled_all(
                s,
                picks,
            )[i]).expanded ==> sole_unfolded(toggled_all(s, picks), i),
        picks.len() > 0 && has_id(toggled_all(s, picks), picks.last().0) ==> {
            &&& toggled_all(s, picks).last().id == picks.last().0
            &&& sole_unfolded(toggled_all(s, picks), toggled_all(s, picks).len() - 1)
        },
    decreases picks.len(),
{
    let t = toggled_all(s, picks);
    if picks.len() > 0 {
        let before = toggled_all(s, picks.drop_last());
        lemma_toggles_keep_one_focus(s, picks.drop_last());
        lemma_toggle_keeps_focus(before, picks.last().0, picks.last().1);
        if !has_id(before, picks.last().0) {
            lemma_pick_focuses(before, picks.last().0, picks.last().1);
        }
    }
    assert forall|i: int| 0 <= i < t.len() && (#[trigger] t[i]).expanded implies sole_unfolded(
        t,
        i,
    ) by {
        assert forall|j: int| 0 <= j < t.len() && j != i implies !(#[trigger] t[j]).expanded by {
            if t[j].expanded {
                assert(t[i].expanded && t[j].expanded);
            }
        }
    }
}

/// The working set of selected nodes and edges.
pub struct GraphInfo<N, E> {
    nodes: Selection<N>,
    edges: Selection<E>,
    ignore_term_ids: bool,
    generalized_terms: Vec<String>,
}

impl<N, E> GraphInfo<N, E> {
    /// The selected nodes, in the order in which they were picked.
    pub closed spec fn nodes(&self) -> Seq<Slot<N>> {
        self.nodes@
    }

    /// The selected edges, in the order in which they were picked.
    pub closed spec fn edges(&self) -> Seq<Slot<E>> {
        self.edges@
    }

    /// Whether details are derived without term ids.
    pub closed spec fn ignores_term_ids(&self) -> bool {
        self.ignore_term_ids
    }

    /// The explanation of the matching loop that was searched last.
    pub closed spec fn terms(&self) -> Seq<String> {
        self.generalized_terms@
    }

    /// Both selections are well formed.
    pub closed spec fn wf(&self) -> bool {
        self.nodes.wf() && self.edges.wf()
    }

    /// The nodes of `post` are those of `pre` after `id` was picked or dropped:
    /// dropped where it was selected; otherwise every node folded and `id`
    /// appended, unfolded.
    pub open spec fn node_toggled<F: Fn(usize, bool) -> N>(
        pre: Seq<Slot<N>>,
        post: Seq<Slot<N>>,
        id: usize,
        lookup: &F,
        flag: bool,
    ) -> bool {
        if has_id(pre, id) {
            post == removed(pre, id)
        } else {
            appended_unfolded(all_flagged(pre, false), post, id, lookup, flag)
        }
    }

    /// The edges of `post` are those of `pre` after `id` was picked or dropped:
    /// dropped where it was selected; otherwise appended, unfolded, with the
    /// other edges as they were.
    pub open spec fn edge_toggled<F: Fn(usize, bool) -> E>(
        pre: Seq<Slot<E>>,
        post: Seq<Slot<E>>,
        id: usize,
        lookup: &F,
        flag: bool,
    ) -> bool {
        if has_id(pre, id) {
            post == removed(pre, id)
        } else {
            appended_unfolded(pre, post, id, lookup, flag)
        }
    }

    /// The nodes of `post` are `ids` without repetitions, folded, with details
    /// that `lookup` can return under `flag`.
    pub open spec fn nodes_replaced<F: Fn(usize, bool) -> N>(
        post: Seq<Slot<N>>,
        ids: Seq<usize>,
        lookup: &F,
        flag: bool,
    ) -> bool {
        &&& ids_of(post) == first_occurrences(ids)
        &&& all_folded(post)
        &&& derived_from(post, lookup, flag)
    }

    /// Everything but the selected nodes is the same in `self` and `other`.
    pub open spec fn same_but_nodes(&self, other: &Self) -> bool {
        &&& self.edges() == other.edges()
        &&& self.ignores_term_ids() == other.ignores_term_ids()
        &&& self.terms() == other.terms()
    }

    /// Everything but the selected edges is the same in `self` and `other`.
    pub open spec fn same_but_edges(&self, other: &Self) -> bool {
        &&& self.nodes() == other.nodes()
        &&& self.ignores_term_ids() == other.ignores_term_ids()
        &&& self.terms() == other.terms()
    }

    /// Picking or dropping a node does to the selected nodes what
    /// `focus_toggled` says, with the detail that was looked up.
    pub proof fn lemma_node_toggled_focuses<F: Fn(usize, bool) -> N>(
        pre: Seq<Slot<N>>,
        post: Seq<Slot<N>>,
        id: usize,
        lookup: &F,
        flag: bool,
        any: N,
    )
        requires
            Self::node_toggled(pre, post, id, lookup, flag),
        ensures
            has_id(pre, id) ==> post == focus_toggled(pre, id, any),
            !has_id(pre, id) ==> post == focus_toggled(pre, id, post.last().detail),
    {
        if !has_id(pre, id) {
            assert(post =~= post.drop_last().push(post.last()));
        }
    }

    /// In a well-formed selection no node id and no edge id occurs twice.
    pub proof fn lemma_ids_distinct(&self)
        requires
            self.wf(),
        ensures
            distinct_ids(self.nodes()),
            distinct_ids(self.edges()),
    {
    }

    /// Nothing selected, term ids ignored, no explanation.
    pub fn new() -> (g: GraphInfo<N, E>)
        ensures
            g.wf(),
            g.nodes() == Seq::<Slot<N>>::empty(),
            g.edges() == Seq::<Slot<E>>::empty(),
            g.ignores_term_ids(),
            g.terms() == Seq::<String>::empty(),
    {
        GraphInfo {
            nodes: Selection::new(),
            edges: Selection::new(),
            ignore_term_ids: true,
            generalized_terms: Vec::new(),
        }
    }

    /// Picks or drops one node. A node that is selected is dropped. Otherwise
    /// its detail is looked up, every selected node is folded, and the new
    /// node goes last, unfolded. The state always changes.
    pub fn toggle_node<F: Fn(usize, bool) -> N>(&mut self, id: usize, lookup: &F) -> (changed: bool)
        requires
            old(self).wf(),
            !has_id(old(self).nodes(), id) ==> lookup.requires((id, old(self).ignores_term_ids())),
        ensures
            final(self).wf(),
            changed,
            final(self).same_but_nodes(old(self)),
            Self::node_toggled(
                old(self).nodes(),
                final(self).nodes(),
                id,
                lookup,
                old(self).ignores_term_ids(),
            ),
    {
        if self.nodes.contains(id) {
            self.nodes.remove(id);
        } else {
            let detail = lookup(id, self.ignore_term_ids);
            self.nodes.set_all_expanded(false);
            let ghost folded = self.nodes@;
            proof {
                if has_id(folded, id) {
                    let i = choose|i: int| 0 <= i < folded.len() && (#[trigger] folded[i]).id == id;
                    assert(old(self).nodes()[i].id == id);
                }
            }
            self.nodes.insert(id, detail, true);
            assert(self.nodes@.drop_last() =~= folded);
        }
        true
    }

    /// Picks or drops one edge. An edge that is selected is dropped. Otherwise
    /// its detail is looked up and it goes last, unfolded; the other edges
    /// keep their flags. The state always changes.
    pub fn toggle_edge<F: Fn(usize, bool) -> E>(&mut self, id: usize, lookup: &F) -> (changed: bool)
        requires
            old(self).wf(),
            !has_id(old(self).edges(), id) ==> lookup.requires((id, old(self).ignores_term_ids())),
        ensures
            final(self).wf(),
            changed,
            final(self).same_but_edges(old(self)),
            Self::edge_toggled(
                old(self).edges(),
                final(self).edges(),
                id,
                lookup,
                old(self).ignores_term_ids(),
            ),
    {
        if self.edges.contains(id) {
            self.edges.remove(id);
        } else {
            let detail = lookup(id, self.ignore_term_ids);
            let ghost before = self.edges@;
            self.edges.insert(id, detail, true);
            assert(self.edges@.drop_last() =~= before);
        }
        true
    }

    /// Sets the expand flag of one selected node or edge, and says whether the
    /// flag changed. An id that is not selected is passed over.
    pub fn set_expanded(&mut self, kind: EntityKind, id: usize, value: bool) -> (changed: bool)
        requires
            old(self).wf(),
        ensures
            final(self).wf(),
            final(self).ignores_term_ids() == old(self).ignores_term_ids(),
            final(self).terms() == old(self).terms(),
            kind == EntityKind::Node ==> {
                &&& final(self).edges() == old(self).edges()
                &&& final(self).nodes() == with_flag(old(self).nodes(), id, value)
                &&& changed == (has_id(old(self).nodes(), id) && old(self).nodes()[position(
                    old(self).nodes(),
                    id,
                )].expanded != value)
            },
            kind == EntityKind::Edge ==> {
                &&& final(self).nodes() == old(self).nodes()
                &&& final(self).edges() == with_flag(old(self).edges(), id, value)
                &&& changed == (has_id(old(self).edges(), id) && old(self).edges()[position(
                    old(self).edges(),
                    id,
                )].expanded != value)
            },
    {
        match kind {
            EntityKind::Node => match self.nodes.index_of(id) {
                Some(i) => {
                    let earlier = self.nodes.expanded_at(i);
                    self.nodes.set_expanded_at(i, value);
                    earlier != value
                },
                None => false,
            },
            EntityKind::Edge => match self.edges.index_of(id) {
                Some(i) => {
                    let earlier = self.edges.expanded_at(i);
                    self.edges.set_expanded_at(i, value);
                    earlier != value
                },
                None => false,
            },
        }
    }

    /// Inverts the expand flag of one selected node or edge, and says whether
    /// it was selected. An id that is not selected is passed over.
    pub fn toggle_expanded(&mut self, kind: EntityKind, id: usize) -> (found: bool)
        requires
            old(self).wf(),
        ensures
            final(self).wf(),
            final(self).ignores_term_ids() == old(self).ignores_term_ids(),
            final(self).terms() == old(self).terms(),
            kind == EntityKind::Node ==> {
                &&& final(self).edges() == old(self).edges()
                &&& final(self).nodes() == with_flag_flipped(old(self).nodes(), id)
                &&& found == has_id(old(self).nodes(), id)
            },
            kind == EntityKind::Edge ==> {
                &&& final(self).nodes() == old(self).nodes()
                &&& final(self).edges() == with_flag_flipped(old(self).edges(), id)
                &&& found == has_id(old(self).edges(), id)
            },
    {
        match kind {
            EntityKind::Node => match self.nodes.index_of(id) {
                Some(i) => {
                    let earlier = self.nodes.expanded_at(i);
                    self.nodes.set_expanded_at(i, !earlier);
                    true
                },
                None => false,
            },
            EntityKind::Edge => match self.edges.index_of(id) {
                Some(i) => {
                    let earlier = self.edges.expanded_at(i);
                    self.edges.set_expanded_at(i, !earlier);
                    true
                },
                None => false,
            },
        }
    }

    /// Replaces the selected nodes by `ids`, in their order, all folded. An id
    /// that occurs again keeps its first place. The edges stay.
    pub fn select_many<F: Fn(usize, bool) -> N>(&mut self, ids: &Vec<usize>, lookup: &F) -> (changed:
        bool)
        requires
            old(self).wf(),
            forall|k: int|
                0 <= k < ids@.len() ==> lookup.requires(
                    (#[trigger] ids@[k], old(self).ignores_term_ids()),
                ),
        ensures
            final(self).wf(),
            changed,
            final(self).same_but_nodes(old(self)),
            Self::nodes_replaced(final(self).nodes(), ids@, lookup, old(self).ignores_term_ids()),
    {
        self.nodes.replace_with(ids, lookup, self.ignore_term_ids);
        true
    }

    /// Drops every selected node and edge.
    pub fn deselect_all(&mut self) -> (changed: bool)
        requires
            old(self).wf(),
        ensures
            final(self).wf(),
            changed,
            final(self).nodes() == Seq::<Slot<N>>::empty(),
            final(self).edges() == Seq::<Slot<E>>::empty(),
            final(self).ignores_term_ids() == old(self).ignores_term_ids(),
            final(self).terms() == old(self).terms(),
    {
        self.nodes.clear();
        self.edges.clear();
        true
    }

    /// Sets the display option and derives the detail of every selected node
    /// and edge again under it, at once. Ids, order and expand flags stay.
    pub fn set_ignore_term_ids<F: Fn(usize, bool) -> N, G: Fn(usize, bool) -> E>(
        &mut self,
        value: bool,
        node_lookup: &F,
        edge_lookup: &G,
    ) -> (changed: bool)
        requires
            old(self).wf(),
            forall|i: int|
                0 <= i < old(self).nodes().len() ==> node_lookup.requires(
                    ((#[trigger] old(self).nodes()[i]).id, value),
                ),
            forall|i: int|
                0 <= i < old(self).edges().len() ==> edge_lookup.requires(
                    ((#[trigger] old(self).edges()[i]).id, value),
                ),
        ensures
            final(self).wf(),
            changed,
            final(self).ignores_term_ids() == value,
            final(self).terms() == old(self).terms(),
            same_frame(final(self).nodes(), old(self).nodes()),
            derived_from(final(self).nodes(), node_lookup, value),
            same_frame(final(self).edges(), old(self).edges()),
            derived_from(final(self).edges(), edge_lookup, value),
    {
        self.ignore_term_ids = value;
        assert forall|i: int| 0 <= i < self.nodes@.len() implies node_lookup.requires(
            ((#[trigger] self.nodes@[i]).id, value),
        ) by {
            assert(old(self).nodes()[i].id == self.nodes@[i].id);
        }
        assert forall|i: int| 0 <= i < self.edges@.len() implies edge_lookup.requires(
            ((#[trigger] self.edges@[i]).id, value),
        ) by {
            assert(old(self).edges()[i].id == self.edges@[i].id);
        }
        self.nodes.rederive(node_lookup, value);
        self.edges.rederive(edge_lookup, value);
        true
    }

    /// Takes the explanation of the latest matching-loop search in place of
    /// the one held so far.
    pub fn record_matching_loop_search(&mut self, terms: Vec<String>) -> (changed: bool)
        requires
            old(self).wf(),
        ensures
            final(self).wf(),
            changed,
            final(self).terms() == terms@,
            final(self).nodes() == old(self).nodes(),
            final(self).edges() == old(self).edges(),
            final(self).ignores_term_ids() == old(self).ignores_term_ids(),
    {
        self.generalized_terms = terms;
        true
    }

    /// Handles one message. The view is drawn again after every message but a
    /// fold or unfold, which the screen shows by itself; the node details are
    /// published after the three messages that pick or drop nodes. An edge
    /// that the user picked is known by its number in the graph.
    pub fn update<F: Fn(usize, bool) -> N, G: Fn(usize, bool) -> E>(
        &mut self,
        msg: Msg,
        node_lookup: &F,
        edge_lookup: &G,
    ) -> (outcome: Outcome)
        requires
            old(self).wf(),
            total(node_lookup),
            total(edge_lookup),
        ensures
            final(self).wf(),
            match msg {
                Msg::UserSelectedNode(id) => {
                    &&& outcome == Outcome { render: true, publish_nodes: true }
                    &&& final(self).same_but_nodes(old(self))
                    &&& Self::node_toggled(
                        old(self).nodes(),
                        final(self).nodes(),
                        id,
                        node_lookup,
                        old(self).ignores_term_ids(),
                    )
                },
                Msg::UserSelectedEdge(index) => {
                    &&& outcome == Outcome { render: true, publish_nodes: false }
                    &&& final(self).same_but_edges(old(self))
                    &&& Self::edge_toggled(
                        old(self).edges(),
                        final(self).edges(),
                        edge_number(index),
                        edge_lookup,
                        old(self).ignores_term_ids(),
                    )
                },
                Msg::ToggleOpenNode(id) => {
                    &&& outcome == Outcome { render: false, publish_nodes: false }
                    &&& final(self).same_but_nodes(old(self))
                    &&& final(self).nodes() == with_flag_flipped(old(self).nodes(), id)
                },
                Msg::ToggleOpenEdge(id) => {
                    &&& outcome == Outcome { render: false, publish_nodes: false }
                    &&& final(self).same_but_edges(old(self))
                    &&& final(self).edges() == with_flag_flipped(old(self).edges(), id)
                },
                Msg::SelectNodes(ids) => {
                    &&& outcome == Outcome { render: true, publish_nodes: true }
                    &&& final(self).same_but_nodes(old(self))
                    &&& Self::nodes_replaced(
                        final(self).nodes(),
                        ids@,
                        node_lookup,
                        old(self).ignores_term_ids(),
                    )
                },
                Msg::DeselectAll => {
                    &&& outcome == Outcome { render: true, publish_nodes: true }
                    &&& final(self).nodes() == Seq::<Slot<N>>::empty()
                    &&& final(self).edges() == Seq::<Slot<E>>::empty()
                    &&& final(self).ignores_term_ids() == old(self).ignores_term_ids()
                    &&& final(self).terms() == old(self).terms()
                },
                Msg::ToggleIgnoreTermIds => {
                    &&& outcome == Outcome { render: true, publish_nodes: false }
                    &&& final(self).ignores_term_ids() == !old(self).ignores_term_ids()
                    &&& final(self).terms() == old(self).terms()
                    &&& same_frame(final(self).nodes(), old(self).nodes())
                    &&& derived_from(final(self).nodes(), node_lookup, final(self).ignores_term_ids())
                    &&& same_frame(final(self).edges(), old(self).edges())
                    &&& derived_from(final(self).edges(), edge_lookup, final(self).ignores_term_ids())
                },
                Msg::ShowGeneralizedTerms(terms) => {
                    &&& outcome == Outcome { render: true, publish_nodes: false }
                    &&& final(self).terms() == terms@
                    &&& final(self).nodes() == old(self).nodes()
                    &&& final(self).edges() == old(self).edges()
                    &&& final(self).ignores_term_ids() == old(self).ignores_term_ids()
                },
            },
    {
        match msg {
            Msg::UserSelectedNode(id) => {
                self.toggle_node(id, node_lookup);
                Outcome { render: true, publish_nodes: true }
            },
            Msg::UserSelectedEdge(index) => {
                self.toggle_edge(to_edge_number(index), edge_lookup);
                Outcome { render: true, publish_nodes: false }
            },
            Msg::ToggleOpenNode(id) => {
                self.toggle_expanded(EntityKind::Node, id);
                Outcome { render: false, publish_nodes: false }
            },
            Msg::ToggleOpenEdge(id) => {
                self.toggle_expanded(EntityKind::Edge, id);
                Outcome { render: false, publish_nodes: false }
            },
            Msg::SelectNodes(ids) => {
                self.select_many(&ids, node_lookup);
                Outcome { render: true, publish_nodes: true }
            },
            Msg::DeselectAll => {
                self.deselect_all();
                Outcome { render: true, publish_nodes: true }
            },
            Msg::ToggleIgnoreTermIds => {
                let value = !self.ignore_term_ids;
                self.set_ignore_term_ids(value, node_lookup, edge_lookup);
                Outcome { render: true, publish_nodes: false }
            },
            Msg::ShowGeneralizedTerms(terms) => {
                self.record_matching_loop_search(terms);
                Outcome { render: true, publish_nodes: false }
            },
        }
    }

    /// The details of the selected nodes, in order: the list that is published.
    pub fn selected_nodes(&self) -> (r: &Vec<N>)
        requires
            self.wf(),
        ensures
            r@ == crate::selection::details_of(self.nodes()),
    {
        self.nodes.details()
    }

    /// The details of the selected edges, in order.
    pub fn selected_edges(&self) -> (r: &Vec<E>)
        requires
            self.wf(),
        ensures
            r@ == crate::selection::details_of(self.edges()),
    {
        self.edges.details()
    }

    /// The ids of the selected nodes, in order.
    pub fn selected_node_ids(&self) -> (r: Vec<usize>)
        requires
            self.wf(),
        ensures
            r@ == ids_of(self.nodes()),
    {
        self.nodes.ids()
    }

    /// The ids of the selected edges, in order.
    pub fn selected_edge_ids(&self) -> (r: Vec<usize>)
        requires
            self.wf(),
        ensures
            r@ == ids_of(self.edges()),
    {
        self.edges.ids()
    }

    /// The expand flag of a node or an edge, or `None` where it is not selected.
    pub fn is_expanded(&self, kind: EntityKind, id: usize) -> (r: Option<bool>)
        requires
            self.wf(),
        ensures
            kind == EntityKind::Node ==> r.is_some() == has_id(self.nodes(), id) && (r matches Some(
                flag,
            ) ==> flag == self.nodes()[position(self.nodes(), id)].expanded),
            kind == EntityKind::Edge ==> r.is_some() == has_id(self.edges(), id) && (r matches Some(
                flag,
            ) ==> flag == self.edges()[position(self.edges(), id)].expanded),
    {
        match kind {
            EntityKind::Node => self.nodes.expanded(id),
            EntityKind::Edge => self.edges.expanded(id),
        }
    }

    /// Whether the element that stands for a selected node or edge on the
    /// page is to be shown unfolded. The element is known by its id, the
    /// entity's number in decimal digits. `None` where the id is no such
    /// number or names nothing that is selected: that element is left alone.
    pub fn element_open(&self, kind: EntityKind, id: &str) -> (r: Option<bool>)
        requires
            self.wf(),
        ensures
            r.is_some() == match element_id(id@) {
                Some(n) => match kind {
                    EntityKind::Node => has_id(self.nodes(), n),
                    EntityKind::Edge => has_id(self.edges(), n),
                },
                None => false,
            },
            r matches Some(flag) ==> flag == match kind {
                EntityKind::Node => self.nodes()[position(
                    self.nodes(),
                    element_id(id@).unwrap(),
                )].expanded,
                EntityKind::Edge => self.edges()[position(
                    self.edges(),
                    element_id(id@).unwrap(),
                )].expanded,
            },
    {
        match parse_element_id(id) {
            Some(n) => self.is_expanded(kind, n),
            None => None,
        }
    }

    /// Whether details are derived without term ids.
    pub fn ignore_term_ids(&self) -> (r: bool)
        ensures
            r == self.ignores_term_ids(),
    {
        self.ignore_term_ids
    }

    /// The explanation of the matching loop that was searched last.
    pub fn generalized_terms(&self) -> (r: &Vec<String>)
        ensures
            r@ == self.terms(),
    {
        &self.generalized_terms
    }
}

} // verus!
