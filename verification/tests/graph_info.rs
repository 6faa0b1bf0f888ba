use axiom_profiler::graph_info::{EntityKind, GraphInfo, Msg, Outcome};
use std::cell::Cell;

fn node(id: usize, ignore: bool) -> String {
    format!("node {id} ignore={ignore}")
}

fn edge(id: usize, ignore: bool) -> String {
    format!("edge {id} ignore={ignore}")
}

fn flags(g: &GraphInfo<String, String>, kind: EntityKind, ids: &[usize]) -> Vec<Option<bool>> {
    ids.iter().map(|id| g.is_expanded(kind, *id)).collect()
}

#[test]
fn new_selection_is_empty() {
    let g: GraphInfo<String, String> = GraphInfo::new();
    assert!(g.selected_nodes().is_empty());
    assert!(g.selected_edges().is_empty());
    assert!(g.selected_node_ids().is_empty());
    assert!(g.selected_edge_ids().is_empty());
    assert!(g.ignore_term_ids());
    assert!(g.generalized_terms().is_empty());
}

#[test]
fn select_a_then_b_folds_a() {
    let mut g: GraphInfo<String, String> = GraphInfo::new();
    assert!(g.toggle_node(1, &node));
    assert_eq!(g.is_expanded(EntityKind::Node, 1), Some(true));
    assert!(g.toggle_node(2, &node));
    assert_eq!(g.selected_node_ids(), vec![1, 2]);
    assert_eq!(g.is_expanded(EntityKind::Node, 1), Some(false));
    assert_eq!(g.is_expanded(EntityKind::Node, 2), Some(true));
    assert_eq!(
        g.selected_nodes(),
        &vec!["node 1 ignore=true".to_string(), "node 2 ignore=true".to_string()]
    );
}

#[test]
fn toggling_a_selected_node_drops_it() {
    let mut g: GraphInfo<String, String> = GraphInfo::new();
    g.toggle_node(1, &node);
    g.toggle_node(2, &node);
    g.toggle_node(3, &node);
    assert!(g.toggle_node(2, &node));
    assert_eq!(g.selected_node_ids(), vec![1, 3]);
    assert_eq!(g.is_expanded(EntityKind::Node, 2), None);
    assert_eq!(flags(&g, EntityKind::Node, &[1, 3]), vec![Some(false), Some(true)]);
    assert_eq!(
        g.selected_nodes(),
        &vec!["node 1 ignore=true".to_string(), "node 3 ignore=true".to_string()]
    );
}

#[test]
fn dropping_a_node_makes_no_lookup() {
    let calls = Cell::new(0);
    let counting = |id: usize, ignore: bool| {
        calls.set(calls.get() + 1);
        node(id, ignore)
    };
    let mut g: GraphInfo<String, String> = GraphInfo::new();
    g.toggle_node(4, &counting);
    assert_eq!(calls.get(), 1);
    g.toggle_node(4, &counting);
    assert_eq!(calls.get(), 1);
    assert!(g.selected_node_ids().is_empty());
}

#[test]
fn dropping_the_unfolded_node_leaves_none_unfolded() {
    let mut g: GraphInfo<String, String> = GraphInfo::new();
    g.toggle_node(1, &node);
    g.toggle_node(2, &node);
    g.toggle_node(2, &node);
    assert_eq!(g.selected_node_ids(), vec![1]);
    assert_eq!(g.is_expanded(EntityKind::Node, 1), Some(false));
}

#[test]
fn at_most_one_node_is_unfolded_after_toggles() {
    let mut g: GraphInfo<String, String> = GraphInfo::new();
    let picks = [5usize, 3, 9, 3, 7, 5, 5, 1, 9, 2, 2, 8];
    for id in picks {
        let was_selected = g.is_expanded(EntityKind::Node, id).is_some();
        g.toggle_node(id, &node);
        let ids = g.selected_node_ids();
        let unfolded: Vec<usize> = ids
            .iter()
            .copied()
            .filter(|i| g.is_expanded(EntityKind::Node, *i) == Some(true))
            .collect();
        assert!(unfolded.len() <= 1);
        if !was_selected {
            assert_eq!(unfolded, vec![id]);
            assert_eq!(ids.last(), Some(&id));
        }
    }
    assert_eq!(g.selected_node_ids(), vec![7, 5, 1, 8]);
}

#[test]
fn edges_keep_their_flags_when_another_is_selected() {
    let mut g: GraphInfo<String, String> = GraphInfo::new();
    assert!(g.toggle_edge(10, &edge));
    assert!(g.toggle_edge(11, &edge));
    assert_eq!(g.selected_edge_ids(), vec![10, 11]);
    assert_eq!(flags(&g, EntityKind::Edge, &[10, 11]), vec![Some(true), Some(true)]);
    assert!(g.toggle_edge(10, &edge));
    assert_eq!(g.selected_edge_ids(), vec![11]);
    assert_eq!(g.selected_edges(), &vec!["edge 11 ignore=true".to_string()]);
    assert!(g.selected_node_ids().is_empty());
}

#[test]
fn nodes_and_edges_do_not_touch_each_other() {
    let mut g: GraphInfo<String, String> = GraphInfo::new();
    g.toggle_edge(1, &edge);
    g.toggle_node(1, &node);
    g.toggle_node(2, &node);
    assert_eq!(g.is_expanded(EntityKind::Edge, 1), Some(true));
    assert_eq!(g.is_expanded(EntityKind::Node, 1), Some(false));
    g.toggle_edge(2, &edge);
    assert_eq!(g.is_expanded(EntityKind::Node, 2), Some(true));
}

#[test]
fn set_expanded_sets_one_flag() {
    let mut g: GraphInfo<String, String> = GraphInfo::new();
    g.toggle_node(1, &node);
    g.toggle_node(2, &node);
    assert!(g.set_expanded(EntityKind::Node, 1, true));
    assert_eq!(flags(&g, EntityKind::Node, &[1, 2]), vec![Some(true), Some(true)]);
    assert!(!g.set_expanded(EntityKind::Node, 1, true));
    assert!(g.set_expanded(EntityKind::Node, 2, false));
    assert_eq!(flags(&g, EntityKind::Node, &[1, 2]), vec![Some(true), Some(false)]);
    g.toggle_edge(1, &edge);
    assert!(g.set_expanded(EntityKind::Edge, 1, false));
    assert_eq!(g.is_expanded(EntityKind::Edge, 1), Some(false));
    assert_eq!(g.is_expanded(EntityKind::Node, 1), Some(true));
}

#[test]
fn set_expanded_on_absent_id_is_a_no_op() {
    let mut g: GraphInfo<String, String> = GraphInfo::new();
    g.toggle_node(1, &node);
    assert!(!g.set_expanded(EntityKind::Node, 99, true));
    assert!(!g.set_expanded(EntityKind::Edge, 1, true));
    assert!(!g.toggle_expanded(EntityKind::Node, 99));
    assert_eq!(g.selected_node_ids(), vec![1]);
    assert_eq!(g.is_expanded(EntityKind::Node, 1), Some(true));
    assert!(g.selected_edge_ids().is_empty());
}

#[test]
fn toggle_expanded_inverts_the_flag() {
    let mut g: GraphInfo<String, String> = GraphInfo::new();
    g.toggle_node(1, &node);
    assert!(g.toggle_expanded(EntityKind::Node, 1));
    assert_eq!(g.is_expanded(EntityKind::Node, 1), Some(false));
    assert!(g.toggle_expanded(EntityKind::Node, 1));
    assert_eq!(g.is_expanded(EntityKind::Node, 1), Some(true));
}

#[test]
fn select_many_replaces_nodes_folded_and_in_order() {
    let mut g: GraphInfo<String, String> = GraphInfo::new();
    g.toggle_node(1, &node);
    g.toggle_edge(50, &edge);
    assert!(g.select_many(&vec![9, 4, 7], &node));
    assert_eq!(g.selected_node_ids(), vec![9, 4, 7]);
    assert_eq!(
        flags(&g, EntityKind::Node, &[9, 4, 7, 1]),
        vec![Some(false), Some(false), Some(false), None]
    );
    assert_eq!(
        g.selected_nodes(),
        &vec![
            "node 9 ignore=true".to_string(),
            "node 4 ignore=true".to_string(),
            "node 7 ignore=true".to_string()
        ]
    );
    assert_eq!(g.selected_edge_ids(), vec![50]);
    assert_eq!(g.is_expanded(EntityKind::Edge, 50), Some(true));
}

#[test]
fn select_many_keeps_first_place_of_a_repeated_id() {
    let mut g: GraphInfo<String, String> = GraphInfo::new();
    g.select_many(&vec![3, 1, 3, 2, 1], &node);
    assert_eq!(g.selected_node_ids(), vec![3, 1, 2]);
    assert_eq!(g.selected_nodes().len(), 3);
    g.select_many(&vec![], &node);
    assert!(g.selected_node_ids().is_empty());
}

#[test]
fn toggle_after_select_many_focuses_the_new_node() {
    let mut g: GraphInfo<String, String> = GraphInfo::new();
    g.select_many(&vec![1, 2], &node);
    g.set_expanded(EntityKind::Node, 1, true);
    g.set_expanded(EntityKind::Node, 2, true);
    g.toggle_node(3, &node);
    assert_eq!(
        flags(&g, EntityKind::Node, &[1, 2, 3]),
        vec![Some(false), Some(false), Some(true)]
    );
}

#[test]
fn deselect_all_clears_nodes_and_edges() {
    let mut g: GraphInfo<String, String> = GraphInfo::new();
    g.toggle_node(1, &node);
    g.toggle_edge(2, &edge);
    g.record_matching_loop_search(vec!["t".to_string()]);
    assert!(g.deselect_all());
    assert!(g.selected_nodes().is_empty());
    assert!(g.selected_edges().is_empty());
    assert_eq!(g.is_expanded(EntityKind::Node, 1), None);
    assert_eq!(g.is_expanded(EntityKind::Edge, 2), None);
    assert_eq!(g.generalized_terms(), &vec!["t".to_string()]);
    assert!(g.ignore_term_ids());
}

#[test]
fn set_ignore_term_ids_recomputes_every_detail() {
    let mut g: GraphInfo<String, String> = GraphInfo::new();
    g.toggle_node(1, &node);
    g.toggle_node(2, &node);
    g.toggle_edge(7, &edge);
    let before = g.selected_nodes().clone();
    assert!(g.set_ignore_term_ids(false, &node, &edge));
    assert!(!g.ignore_term_ids());
    assert_eq!(
        g.selected_nodes(),
        &vec!["node 1 ignore=false".to_string(), "node 2 ignore=false".to_string()]
    );
    assert_ne!(g.selected_nodes()[0], before[0]);
    assert_ne!(g.selected_nodes()[1], before[1]);
    assert_eq!(g.selected_edges(), &vec!["edge 7 ignore=false".to_string()]);
    assert_eq!(g.selected_node_ids(), vec![1, 2]);
    assert_eq!(flags(&g, EntityKind::Node, &[1, 2]), vec![Some(false), Some(true)]);
    assert_eq!(g.is_expanded(EntityKind::Edge, 7), Some(true));
}

#[test]
fn set_ignore_term_ids_looks_up_each_entry_once() {
    let calls = Cell::new(0);
    let counting = |id: usize, ignore: bool| {
        calls.set(calls.get() + 1);
        node(id, ignore)
    };
    let mut g: GraphInfo<String, String> = GraphInfo::new();
    g.select_many(&vec![1, 2, 3], &counting);
    calls.set(0);
    g.set_ignore_term_ids(true, &counting, &edge);
    assert_eq!(calls.get(), 3);
}

#[test]
fn later_lookups_use_the_new_flag() {
    let mut g: GraphInfo<String, String> = GraphInfo::new();
    g.set_ignore_term_ids(false, &node, &edge);
    g.toggle_node(5, &node);
    g.toggle_edge(6, &edge);
    assert_eq!(g.selected_nodes(), &vec!["node 5 ignore=false".to_string()]);
    assert_eq!(g.selected_edges(), &vec!["edge 6 ignore=false".to_string()]);
}

#[test]
fn record_matching_loop_search_replaces_terms() {
    let mut g: GraphInfo<String, String> = GraphInfo::new();
    assert!(g.record_matching_loop_search(vec!["a".to_string(), "b".to_string()]));
    assert_eq!(g.generalized_terms(), &vec!["a".to_string(), "b".to_string()]);
    assert!(g.record_matching_loop_search(vec!["c".to_string()]));
    assert_eq!(g.generalized_terms(), &vec!["c".to_string()]);
}

#[test]
fn update_handles_every_message() {
    let mut g: GraphInfo<String, String> = GraphInfo::new();
    let shown = Outcome { render: true, publish_nodes: false };
    let published = Outcome { render: true, publish_nodes: true };
    let silent = Outcome { render: false, publish_nodes: false };

    assert_eq!(g.update(Msg::UserSelectedNode(1), &node, &edge), published);
    assert_eq!(g.update(Msg::UserSelectedNode(2), &node, &edge), published);
    assert_eq!(g.update(Msg::UserSelectedEdge(3), &node, &edge), shown);
    assert_eq!(g.selected_node_ids(), vec![1, 2]);
    assert_eq!(g.selected_edge_ids(), vec![3]);

    assert_eq!(g.update(Msg::ToggleOpenNode(1), &node, &edge), silent);
    assert_eq!(flags(&g, EntityKind::Node, &[1, 2]), vec![Some(true), Some(true)]);
    assert_eq!(g.update(Msg::ToggleOpenNode(77), &node, &edge), silent);
    assert_eq!(g.update(Msg::ToggleOpenEdge(3), &node, &edge), silent);
    assert_eq!(g.is_expanded(EntityKind::Edge, 3), Some(false));
    assert_eq!(g.update(Msg::ToggleOpenEdge(77), &node, &edge), silent);

    assert_eq!(g.update(Msg::ToggleIgnoreTermIds, &node, &edge), shown);
    assert!(!g.ignore_term_ids());
    assert_eq!(g.selected_nodes()[0], "node 1 ignore=false");
    assert_eq!(g.selected_edges()[0], "edge 3 ignore=false");
    assert_eq!(g.update(Msg::ToggleIgnoreTermIds, &node, &edge), shown);
    assert!(g.ignore_term_ids());

    assert_eq!(
        g.update(Msg::ShowGeneralizedTerms(vec!["x".to_string()]), &node, &edge),
        shown
    );
    assert_eq!(g.generalized_terms(), &vec!["x".to_string()]);

    assert_eq!(g.update(Msg::SelectNodes(vec![8, 9]), &node, &edge), published);
    assert_eq!(g.selected_node_ids(), vec![8, 9]);
    assert_eq!(g.selected_edge_ids(), vec![3]);

    assert_eq!(g.update(Msg::DeselectAll, &node, &edge), published);
    assert!(g.selected_node_ids().is_empty());
    assert!(g.selected_edge_ids().is_empty());
}

#[test]
fn element_open_follows_the_expand_flag() {
    let mut g: GraphInfo<String, String> = GraphInfo::new();
    g.toggle_node(12, &node);
    g.toggle_node(7, &node);
    g.toggle_edge(12, &edge);
    assert_eq!(g.element_open(EntityKind::Node, "12"), Some(false));
    assert_eq!(g.element_open(EntityKind::Node, "7"), Some(true));
    assert_eq!(g.element_open(EntityKind::Node, "007"), Some(true));
    assert_eq!(g.element_open(EntityKind::Edge, "12"), Some(true));
    assert_eq!(g.element_open(EntityKind::Edge, "7"), None);
    assert_eq!(g.element_open(EntityKind::Node, "8"), None);
    assert_eq!(g.element_open(EntityKind::Node, ""), None);
    assert_eq!(g.element_open(EntityKind::Node, "node7"), None);
    assert_eq!(g.element_open(EntityKind::Node, "+7"), Some(true));
    assert_eq!(g.element_open(EntityKind::Node, "-7"), None);
    assert_eq!(g.element_open(EntityKind::Node, "7 "), None);
}

#[test]
fn picked_edge_is_known_by_its_number_in_the_graph() {
    let mut g: GraphInfo<String, String> = GraphInfo::new();
    g.update(Msg::UserSelectedEdge(5), &node, &edge);
    assert_eq!(g.selected_edge_ids(), vec![5]);
    // Graphs count their edges in 32 bits.
    if let Ok(far) = usize::try_from((1u64 << 32) + 6) {
        g.update(Msg::UserSelectedEdge(far), &node, &edge);
        assert_eq!(g.selected_edge_ids(), vec![5, 6]);
        assert_eq!(g.selected_edges()[1], "edge 6 ignore=true");
        let again = usize::try_from((7u64 << 32) + 5).unwrap();
        g.update(Msg::UserSelectedEdge(again), &node, &edge);
        assert_eq!(g.selected_edge_ids(), vec![6]);
    }
}
