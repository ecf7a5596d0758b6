use kbgp::registry::{NodeRegistry, Rect};
use kbgp::resolver::{resolve, NavDirection};

fn three_stacked() -> NodeRegistry {
    // A above B above C, horizontally aligned.
    let mut reg = NodeRegistry::new();
    reg.register(1, Rect::new(0, 0, 100, 10));
    reg.register(2, Rect::new(0, 20, 100, 30));
    reg.register(3, Rect::new(0, 40, 100, 50));
    reg
}

#[test]
fn up_from_bottom_of_stack_goes_to_middle() {
    let reg = three_stacked();
    assert_eq!(resolve(&reg, NavDirection::Up, Some(3)), Some(2));
}

#[test]
fn up_from_middle_of_stack_goes_to_top() {
    let reg = three_stacked();
    assert_eq!(resolve(&reg, NavDirection::Up, Some(2)), Some(1));
}

#[test]
fn down_from_top_of_stack_goes_back_to_middle() {
    let reg = three_stacked();
    assert_eq!(resolve(&reg, NavDirection::Down, Some(1)), Some(2));
}

fn side_by_side() -> NodeRegistry {
    // Two nodes side by side whose horizontal ranges do not overlap.
    let mut reg = NodeRegistry::new();
    reg.register(1, Rect::new(0, 0, 10, 10));
    reg.register(2, Rect::new(20, 0, 30, 10));
    reg
}

#[test]
fn right_goes_to_the_neighbor() {
    let reg = side_by_side();
    assert_eq!(resolve(&reg, NavDirection::Right, Some(1)), Some(2));
}

#[test]
fn left_goes_back() {
    let reg = side_by_side();
    assert_eq!(resolve(&reg, NavDirection::Left, Some(2)), Some(1));
}

#[test]
fn resolution_is_idempotent_on_identical_registry_state() {
    let reg = side_by_side();
    let first = resolve(&reg, NavDirection::Right, Some(1));
    let second = resolve(&reg, NavDirection::Right, Some(1));
    assert_eq!(first, second);
    assert_eq!(first, Some(2));
}

#[test]
fn empty_registry_resolves_to_no_target() {
    let reg = NodeRegistry::new();
    assert_eq!(resolve(&reg, NavDirection::Up, None), None);
    assert_eq!(resolve(&reg, NavDirection::Down, None), None);
    assert_eq!(resolve(&reg, NavDirection::Left, None), None);
    assert_eq!(resolve(&reg, NavDirection::Right, None), None);
}

#[test]
fn stale_focused_node_stays_put() {
    // The focused id is not registered this frame: resolution answers the
    // same id, so the focus does not move and nothing fails.
    let mut reg = NodeRegistry::new();
    reg.register(1, Rect::new(0, 0, 10, 10));
    assert_eq!(resolve(&reg, NavDirection::Down, Some(99)), Some(99));
    let empty = NodeRegistry::new();
    assert_eq!(resolve(&empty, NavDirection::Up, Some(7)), Some(7));
}

#[test]
fn nothing_focused_picks_topmost_then_leftmost() {
    let mut reg = NodeRegistry::new();
    reg.register(1, Rect::new(50, 0, 60, 10));
    reg.register(2, Rect::new(0, 0, 10, 10));
    reg.register(3, Rect::new(0, 20, 10, 30));
    // Down with nothing focused: the topmost row wins, then the leftmost.
    assert_eq!(resolve(&reg, NavDirection::Down, None), Some(2));
}

#[test]
fn nothing_focused_left_behaves_like_up_and_right_like_down() {
    // The deliberate transpose (not rotation) asymmetry: with nothing
    // focused, Left starts where Up would and Right starts where Down
    // would.
    let mut reg = NodeRegistry::new();
    reg.register(1, Rect::new(0, 0, 10, 10));
    reg.register(2, Rect::new(20, 20, 30, 30));
    assert_eq!(resolve(&reg, NavDirection::Down, None), Some(1));
    assert_eq!(resolve(&reg, NavDirection::Up, None), Some(2));
    assert_eq!(resolve(&reg, NavDirection::Right, None), Some(1));
    assert_eq!(resolve(&reg, NavDirection::Left, None), Some(2));
}

#[test]
fn aligned_neighbor_beats_closer_drifted_one() {
    // From the focused node, a vertically aligned node further away still
    // wins over a slightly closer node that is far off to the side,
    // because ranking adds the horizontal drift.
    let mut reg = NodeRegistry::new();
    reg.register(1, Rect::new(0, 0, 10, 10));
    // Aligned below, gap 10.
    reg.register(2, Rect::new(0, 20, 10, 30));
    // A little closer vertically (gap 5) but 200 pixels to the right.
    reg.register(3, Rect::new(210, 15, 220, 25));
    assert_eq!(resolve(&reg, NavDirection::Down, Some(1)), Some(2));
}

#[test]
fn candidates_start_at_the_focused_bottom_edge() {
    // A node whose top edge sits exactly on the focused bottom edge is a
    // candidate (ties at the same row are allowed down to zero); a node
    // above the focused one is not.
    let mut reg = NodeRegistry::new();
    reg.register(1, Rect::new(0, 0, 10, 10));
    reg.register(2, Rect::new(0, 10, 10, 20));
    reg.register(3, Rect::new(0, -20, 10, -10));
    assert_eq!(resolve(&reg, NavDirection::Down, Some(1)), Some(2));
}

#[test]
fn no_candidate_below_means_no_move() {
    // The only other node is strictly above: pressing Down finds nothing.
    let mut reg = NodeRegistry::new();
    reg.register(1, Rect::new(0, 0, 10, 10));
    reg.register(2, Rect::new(0, -20, 10, -10));
    assert_eq!(resolve(&reg, NavDirection::Down, Some(1)), None);
}

#[test]
fn reregistering_a_node_overwrites_its_rectangle() {
    let mut reg = NodeRegistry::new();
    reg.register(1, Rect::new(0, 0, 10, 10));
    reg.register(2, Rect::new(0, 100, 10, 110));
    // Node 2 moves right next to node 1; the old rectangle must not count.
    reg.register(2, Rect::new(0, 20, 10, 30));
    assert_eq!(resolve(&reg, NavDirection::Down, Some(1)), Some(2));
    assert_eq!(reg.len(), 2);
}
