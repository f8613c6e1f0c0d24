use exosphere::ids::PieceId;
use exosphere::pathfollower::{PathFollower, PathNode};
use exosphere::server_path;

fn pt(x: f32, y: f32) -> PathNode {
    PathNode::StraightTo(x.to_bits(), y.to_bits())
}

#[test]
fn path_starts_with_one_point_and_keeps_its_endcap() {
    let mut p = PathFollower::start(1.0f32.to_bits(), 2.0f32.to_bits());
    assert_eq!(p.len().unwrap(), 1);
    assert_eq!(p.get_next(), Some(pt(1.0, 2.0)));
    assert_eq!(p.bump().unwrap(), false);
    assert_eq!(p.len().unwrap(), 1);
    p.insert_node(1, pt(3.0, 4.0));
    assert_eq!(p.endex().unwrap(), 2);
    assert_eq!(p.bump().unwrap(), true);
    assert_eq!(p.get_next(), Some(pt(3.0, 4.0)));
    assert_eq!(p.get_last(), Some(pt(3.0, 4.0)));
}

#[test]
fn path_insert_update_remove_and_walk() {
    let mut p = PathFollower::start(0, 0);
    p.insert_node(0, PathNode::Target(PieceId(9)));
    p.insert_node(5, pt(9.0, 9.0));
    assert_eq!(p.len().unwrap(), 2);
    p.update_node(1, PathNode::Rotation(1.5f32.to_bits(), 3));
    p.update_node(7, pt(1.0, 1.0));
    assert_eq!(p.get(1), Some(PathNode::Rotation(1.5f32.to_bits(), 3)));
    assert_eq!(p.get(2), None);
    let mut it = p.iter();
    assert_eq!(it.next(), Some(PathNode::Target(PieceId(9))));
    assert_eq!(it.next(), Some(PathNode::Rotation(1.5f32.to_bits(), 3)));
    assert_eq!(it.next(), None);
    p.remove_node(0);
    p.remove_node(4);
    assert_eq!(p.len().unwrap(), 1);
    p.clear();
    assert_eq!(p.get_next(), None);
}

#[test]
fn rotation_nodes_hold_while_their_time_runs() {
    let mut p = PathFollower::start(0, 0);
    p.insert_node(0, PathNode::Rotation(7, 2));
    assert_eq!(p.bump_with_rotation().unwrap(), false);
    assert_eq!(p.get_next(), Some(PathNode::Rotation(7, 1)));
    assert_eq!(p.bump_with_rotation().unwrap(), false);
    assert_eq!(p.bump_with_rotation().unwrap(), true);
    assert_eq!(p.get_next(), Some(PathNode::StraightTo(0, 0)));
    assert_eq!(p.bump_with_rotation().unwrap(), false);
}

#[test]
fn server_path_tracks_only_when_allowed() {
    let mut p = server_path::PathFollower::start(1, 2);
    p.insert_target(0, PieceId(4));
    assert_eq!(p.len(), 1);
    let mut p = p.with_tracking();
    p.insert_target(0, PieceId(4));
    assert_eq!(p.len(), 2);
    assert_eq!(p.get_next(), Some(server_path::PathNode::Target(PieceId(4))));
    p.update_point(0, 5, 5);
    assert_eq!(p.get_next(), Some(server_path::PathNode::Target(PieceId(4))));
    p.update_point(1, 5, 6);
    p.insert_point(2, 8, 8);
    assert!(p.bump());
    assert_eq!(p.get_next(), Some(server_path::PathNode::StraightTo(5, 6)));
    assert!(p.bump());
    assert!(!p.bump());
    assert_eq!(p.get_endcap(), server_path::EndNode::Unset);
    p.set_endcap_rotation(3);
    assert_eq!(p.get_endcap(), server_path::EndNode::Rotation(3));
    p.remove_node(0);
    assert_eq!(p.len(), 0);
    p.insert_point(0, 1, 1);
    p.clear();
    assert_eq!(p.get_next(), None);
}
