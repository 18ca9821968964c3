use deckbattle::GameMap;
use deckbattle::MapNodeData;
use deckbattle::NodeType;

#[test]
fn test_cli_map_node_selection() {
    let mut map = GameMap {
        levels: vec![vec![MapNodeData {
            node_type: NodeType::Battle,
            next_indices: vec![0],
            visible: true,
        }]],
        current_node: None,
        visited_path: vec![],
    };
    let picked = map.select_node(0);
    assert_eq!(picked, Some(NodeType::Battle));
    assert_eq!(map.current_node, Some((0, 0)));
}

#[test]
fn test_selection_follows_edges_only() {
    let mut map = GameMap {
        levels: vec![
            vec![
                MapNodeData { node_type: NodeType::Battle, next_indices: vec![1], visible: true },
                MapNodeData { node_type: NodeType::Rest, next_indices: vec![0], visible: true },
            ],
            vec![
                MapNodeData { node_type: NodeType::Shop, next_indices: vec![], visible: false },
                MapNodeData { node_type: NodeType::Event, next_indices: vec![], visible: false },
            ],
        ],
        current_node: None,
        visited_path: vec![],
    };
    assert_eq!(map.select_node(0), Some(NodeType::Battle));
    // The chosen node only connects to index 1 of the next level.
    assert_eq!(map.select_node(0), None);
    assert_eq!(map.current_node, Some((0, 0)));
    assert_eq!(map.select_node(1), Some(NodeType::Event));
    assert_eq!(map.current_node, Some((1, 1)));
    assert_eq!(map.visited_path, vec![(0, 0), (1, 1)]);
}

#[test]
fn test_out_of_range_first_pick_is_rejected() {
    let mut map = GameMap {
        levels: vec![vec![MapNodeData {
            node_type: NodeType::Battle,
            next_indices: vec![],
            visible: true,
        }]],
        current_node: None,
        visited_path: vec![],
    };
    assert_eq!(map.select_node(3), None);
    assert_eq!(map.current_node, None);
    assert!(map.visited_path.is_empty());
}
