use infra_sim::camera::state::CamState;
use infra_sim::game::input_click::{should_skip_click, world_pos_to_tile, Placement};
use infra_sim::game::node_type::NodeType;
use infra_sim::game::resources::{Game, TileData};
use infra_sim::game::state::GameState;
use infra_sim::game::tiles::tile_click;
use infra_sim::game::types::ToolType;
use infra_sim::ui::interaction::{any_engaged, Interaction};

fn board(size_x: usize, size_z: usize) -> Game<u64> {
    let mut tiles: Vec<Vec<u64>> = Vec::new();
    for z in 0..size_z {
        let mut row: Vec<u64> = Vec::new();
        for x in 0..size_x {
            row.push((z * 100 + x) as u64);
        }
        tiles.push(row);
    }
    let mut game: Game<u64> = Game::new();
    game.setup_board(size_x, &tiles);
    game
}

#[test]
fn node_type_labels() {
    assert_eq!(NodeType::Empty.name(), "Dlt");
    assert_eq!(NodeType::Internet.name(), "W.W.W");
    assert_eq!(NodeType::LoadBalancer.name(), "LB");
    assert_eq!(NodeType::Firewall.name(), "FW");
    assert_eq!(NodeType::Database.name(), "DB");
    assert_eq!(NodeType::Compute.name(), "Cmput");
    assert_eq!(NodeType::Storage.name(), "Strg");
    assert_eq!(NodeType::Queue.name(), "Que");
    assert_eq!(NodeType::Cache.name(), "Cch");
    assert_eq!(NodeType::CDN.name(), "CDN");
}

#[test]
fn node_type_mesh_paths() {
    assert_eq!(NodeType::Empty.mesh_path(), None);
    assert_eq!(NodeType::Internet.mesh_path(), Some("models/Internet.glb#Mesh0/Primitive0"));
    assert_eq!(
        NodeType::LoadBalancer.mesh_path(),
        Some("models/LoadBalancer.glb#Mesh0/Primitive0")
    );
    assert_eq!(NodeType::Firewall.mesh_path(), Some("models/Firewall.glb#Mesh0/Primitive0"));
    assert_eq!(NodeType::Database.mesh_path(), Some("models/Database.glb#Mesh0/Primitive0"));
    assert_eq!(NodeType::Compute.mesh_path(), Some("models/Compute.glb#Mesh0/Primitive0"));
    assert_eq!(NodeType::Storage.mesh_path(), Some("models/Storage.glb#Mesh0/Primitive0"));
    assert_eq!(NodeType::Queue.mesh_path(), Some("models/Queue.glb#Mesh0/Primitive0"));
    assert_eq!(NodeType::Cache.mesh_path(), Some("models/Cache.glb#Mesh0/Primitive0"));
    assert_eq!(NodeType::CDN.mesh_path(), Some("models/CDN.glb#Mesh0/Primitive0"));
}

#[test]
fn node_type_model_paths() {
    assert_eq!(NodeType::Empty.model_path(), None);
    assert_eq!(NodeType::Internet.model_path(), Some("models/Internet.glb#Scene0"));
    assert_eq!(NodeType::LoadBalancer.model_path(), Some("models/LoadBalancer.glb#Scene0"));
    assert_eq!(NodeType::Firewall.model_path(), Some("models/Firewall.glb#Scene0"));
    assert_eq!(NodeType::Database.model_path(), Some("models/Database.glb#Scene0"));
    assert_eq!(NodeType::Compute.model_path(), Some("models/Compute.glb#Scene0"));
    assert_eq!(NodeType::Storage.model_path(), Some("models/Storage.glb#Scene0"));
    assert_eq!(NodeType::Queue.model_path(), Some("models/Queue.glb#Scene0"));
    assert_eq!(NodeType::Cache.model_path(), Some("models/Cache.glb#Scene0"));
    assert_eq!(NodeType::CDN.model_path(), Some("models/CDN.glb#Scene0"));
}

#[test]
fn all_types_lists_every_node_type_in_hotbar_order() {
    let expected = [
        (NodeType::Empty, "Dlt"),
        (NodeType::Internet, "W.W.W"),
        (NodeType::LoadBalancer, "LB"),
        (NodeType::Firewall, "FW"),
        (NodeType::Database, "DB"),
        (NodeType::Compute, "Cmput"),
        (NodeType::Storage, "Strg"),
        (NodeType::Queue, "Que"),
        (NodeType::Cache, "Cch"),
        (NodeType::CDN, "CDN"),
    ];
    assert_eq!(NodeType::all_types(), expected);
    assert_eq!(NodeType::all(), expected.to_vec());
    for (node_type, label) in NodeType::all() {
        assert_eq!(node_type.name(), label);
    }
}

#[test]
fn defaults_of_the_game_enums() {
    assert_eq!(NodeType::default(), NodeType::Empty);
    assert_eq!(GameState::default(), GameState::Setup);
    assert_eq!(ToolType::default(), ToolType::Add(NodeType::Internet));
}

#[test]
fn palette_shows_only_for_add_tools() {
    assert!(ToolType::Add(NodeType::Cache).shows_palette());
    assert!(ToolType::default().shows_palette());
    assert!(!ToolType::Delete.shows_palette());
    assert!(!ToolType::Select.shows_palette());
    assert!(!ToolType::Link.shows_palette());
    assert!(!ToolType::Move.shows_palette());
}

#[test]
fn world_position_maps_to_tile_inside_board() {
    assert_eq!(world_pos_to_tile(0, 0, 32, 32), Some((0, 0)));
    assert_eq!(world_pos_to_tile(5, 7, 32, 32), Some((5, 7)));
    assert_eq!(world_pos_to_tile(31, 31, 32, 32), Some((31, 31)));
    assert_eq!(world_pos_to_tile(3, 1, 4, 2), Some((3, 1)));
}

#[test]
fn world_position_outside_board_maps_to_no_tile() {
    assert_eq!(world_pos_to_tile(-1, 0, 32, 32), None);
    assert_eq!(world_pos_to_tile(0, -1, 32, 32), None);
    assert_eq!(world_pos_to_tile(32, 0, 32, 32), None);
    assert_eq!(world_pos_to_tile(0, 32, 32, 32), None);
    assert_eq!(world_pos_to_tile(4, 1, 4, 2), None);
    assert_eq!(world_pos_to_tile(3, 2, 4, 2), None);
    assert_eq!(world_pos_to_tile(0, 0, 0, 0), None);
    assert_eq!(world_pos_to_tile(i32::MIN, i32::MAX, 32, 32), None);
}

#[test]
fn any_engaged_finds_a_hovered_or_pressed_widget() {
    assert!(!any_engaged(&vec![]));
    assert!(!any_engaged(&vec![Interaction::Idle, Interaction::Idle]));
    assert!(any_engaged(&vec![Interaction::Idle, Interaction::Hovered]));
    assert!(any_engaged(&vec![Interaction::Pressed, Interaction::Idle]));
}

#[test]
fn clicks_are_skipped_over_ui_or_while_navigating() {
    let idle = vec![Interaction::Idle, Interaction::Idle];
    let hovered = vec![Interaction::Idle, Interaction::Hovered];
    assert!(!should_skip_click(&idle, CamState::Fixed, false));
    assert!(!should_skip_click(&vec![], CamState::Fixed, false));
    assert!(should_skip_click(&hovered, CamState::Fixed, false));
    assert!(should_skip_click(&idle, CamState::Free, false));
    assert!(should_skip_click(&idle, CamState::Fixed, true));
    assert!(should_skip_click(&hovered, CamState::Free, true));
}

#[test]
fn new_game_has_no_board() {
    let game: Game<u64> = Game::new();
    assert_eq!(game.board_size_x, 0);
    assert_eq!(game.board_size_z, 0);
    assert!(game.board.is_empty());
    assert_eq!(game.hotbar_selection, NodeType::Empty);
}

#[test]
fn setup_board_lays_empty_tiles_row_by_row() {
    let mut game = board(3, 2);
    assert_eq!(game.board_size_x, 3);
    assert_eq!(game.board_size_z, 2);
    assert_eq!(game.board.len(), 2);
    for z in 0..2 {
        assert_eq!(game.board[z].len(), 3);
        for x in 0..3 {
            assert_eq!(
                game.board[z][x],
                TileData { tile_entity: (z * 100 + x) as u64, node_entity: None }
            );
        }
    }
    game.hotbar_selection = NodeType::Queue;
    let tiles: Vec<Vec<u64>> = vec![vec![9]];
    game.setup_board(1, &tiles);
    assert_eq!(game.board_size_x, 1);
    assert_eq!(game.board_size_z, 1);
    assert_eq!(game.board[0][0], TileData { tile_entity: 9, node_entity: None });
    assert_eq!(game.hotbar_selection, NodeType::Queue);
}

#[test]
fn placing_on_an_empty_tile_asks_for_a_spawn() {
    let mut game = board(4, 4);
    game.hotbar_selection = NodeType::Firewall;
    let before = game.board.clone();
    assert_eq!(game.place_node(2, 1), Placement::Spawn(NodeType::Firewall));
    assert_eq!(game.board, before);
    game.set_node(2, 1, Some(777));
    assert_eq!(game.board[1][2].node_entity, Some(777));
    assert_eq!(game.board[1][2].tile_entity, 102);
    assert_eq!(game.board[2][1].node_entity, None);
}

#[test]
fn placing_on_an_occupied_tile_changes_nothing() {
    let mut game = board(4, 4);
    game.set_node(0, 3, Some(55));
    game.hotbar_selection = NodeType::Database;
    let before = game.board.clone();
    assert_eq!(game.place_node(0, 3), Placement::Keep);
    assert_eq!(game.board, before);
}

#[test]
fn eraser_removes_the_node_of_an_occupied_tile() {
    let mut game = board(4, 4);
    let empty = game.board.clone();
    game.set_node(3, 0, Some(55));
    game.hotbar_selection = NodeType::Empty;
    assert_eq!(game.place_node(3, 0), Placement::Remove(55));
    assert_eq!(game.board, empty);
}

#[test]
fn eraser_on_an_empty_tile_changes_nothing() {
    let mut game = board(2, 2);
    game.hotbar_selection = NodeType::Empty;
    let before = game.board.clone();
    assert_eq!(game.place_node(1, 1), Placement::Keep);
    assert_eq!(game.board, before);
}

#[test]
fn node_click_removes_only_with_the_eraser() {
    let mut game = board(3, 3);
    game.set_node(1, 2, Some(42));
    game.hotbar_selection = NodeType::Cache;
    assert_eq!(game.node_click(1, 2), None);
    assert_eq!(game.board[2][1].node_entity, Some(42));

    game.hotbar_selection = NodeType::Empty;
    assert_eq!(game.node_click(0, 0), None);
    assert_eq!(game.node_click(1, 2), Some(42));
    assert_eq!(game.board[2][1].node_entity, None);
    assert_eq!(game.board[2][1].tile_entity, 201);
    assert_eq!(game.node_click(1, 2), None);
}

#[test]
fn set_node_touches_one_tile_only() {
    let mut game = board(3, 2);
    let before = game.board.clone();
    game.set_node(2, 1, Some(8));
    for z in 0..2 {
        for x in 0..3 {
            if (x, z) == (2, 1) {
                assert_eq!(game.board[z][x], TileData { tile_entity: 102, node_entity: Some(8) });
            } else {
                assert_eq!(game.board[z][x], before[z][x]);
            }
        }
    }
    game.set_node(2, 1, None);
    assert_eq!(game.board, before);
}

#[test]
fn tile_click_applies_the_tool() {
    assert_eq!(tile_click(ToolType::Delete, Some(3u64)), Placement::Remove(3));
    assert_eq!(tile_click::<u64>(ToolType::Delete, None), Placement::Keep);
    assert_eq!(tile_click(ToolType::Add(NodeType::CDN), Some(3u64)), Placement::Keep);
    assert_eq!(
        tile_click::<u64>(ToolType::Add(NodeType::CDN), None),
        Placement::Spawn(NodeType::CDN)
    );
    assert_eq!(tile_click(ToolType::Select, Some(3u64)), Placement::Keep);
    assert_eq!(tile_click::<u64>(ToolType::Link, None), Placement::Keep);
    assert_eq!(tile_click::<u64>(ToolType::Move, None), Placement::Keep);
}
