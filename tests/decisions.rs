use autotiling::config::{clamp_master_percent, is_master_window, master_share, same_text, AutotileConfig};
use autotiling::decide::{
    apply_spiral_autotile, decide, focused_workspace, is_eligible, is_fullscreen, workspace_allowed,
    LayoutCommand,
};
use autotiling::dispatch::{command_text, event_commands, handle_event, wants_decision, WindowEventKind};
use autotiling::geometry::{calculate_aspect_ratio, calculate_optimal_split};
use autotiling::tree::{Layout, Node, NodeKind, Rect, Workspace};

fn node(id: i64, kind: NodeKind, layout: Layout, width: u32, height: u32, children: Vec<Node>) -> Node {
    Node {
        id,
        kind,
        layout,
        rect: Rect { width, height },
        percent_ppm: Some(500_000),
        focused: false,
        class: None,
        children,
    }
}

fn window(id: i64, focused: bool) -> Node {
    let mut n = node(id, NodeKind::Con, Layout::Unset, 960, 1080, Vec::new());
    n.focused = focused;
    n
}

/// A workspace whose container of the given size and layout holds a focused
/// window and an unfocused one.
fn tree_with_parent(width: u32, height: u32, layout: Layout) -> Node {
    let parent = node(10, NodeKind::Con, layout, width, height, vec![window(11, true), window(12, false)]);
    let ws = node(2, NodeKind::Workspace, Layout::SplitH, 1920, 1080, vec![parent]);
    node(1, NodeKind::Root, Layout::SplitH, 1920, 1080, vec![ws])
}

fn workspaces(focused: i32) -> Vec<Workspace> {
    vec![
        Workspace { num: 1, focused: focused == 1 },
        Workspace { num: 2, focused: focused == 2 },
        Workspace { num: 3, focused: focused == 3 },
        Workspace { num: 4, focused: focused == 4 },
    ]
}

fn config(allowed: Vec<i32>, balance: bool) -> AutotileConfig {
    AutotileConfig::new(allowed, balance, Vec::new(), 60)
}

fn focused_mut(tree: &mut Node) -> &mut Node {
    &mut tree.children[0].children[0].children[0]
}

#[test]
fn aspect_ratio_of_zero_height_is_one() {
    for width in [0u32, 1, 1920, u32::MAX] {
        let n = node(1, NodeKind::Con, Layout::SplitH, width, 0, Vec::new());
        let r = calculate_aspect_ratio(&n);
        assert_eq!((r.num, r.den), (1, 1));
    }
}

#[test]
fn aspect_ratio_is_width_over_height() {
    let n = node(1, NodeKind::Con, Layout::SplitH, 1920, 1080, Vec::new());
    let r = calculate_aspect_ratio(&n);
    assert_eq!((r.num, r.den), (1920, 1080));
}

#[test]
fn optimal_split_squares_up() {
    let wide = node(1, NodeKind::Con, Layout::SplitH, 1920, 1080, Vec::new());
    let tall = node(1, NodeKind::Con, Layout::SplitH, 1080, 1920, Vec::new());
    let square = node(1, NodeKind::Con, Layout::SplitH, 800, 800, Vec::new());
    let flat = node(1, NodeKind::Con, Layout::SplitH, 800, 0, Vec::new());
    assert_eq!(calculate_optimal_split(&wide), Layout::SplitV);
    assert_eq!(calculate_optimal_split(&tall), Layout::SplitH);
    assert_eq!(calculate_optimal_split(&square), Layout::SplitH);
    assert_eq!(calculate_optimal_split(&flat), Layout::SplitH);
}

#[test]
fn wide_parent_split_horizontally_becomes_vertical() {
    let tree = tree_with_parent(1920, 1080, Layout::SplitH);
    assert_eq!(decide(&tree, &workspaces(2), &config(Vec::new(), true)), LayoutCommand::SplitVertical);
}

#[test]
fn tall_parent_gets_horizontal_split() {
    let tree = tree_with_parent(1080, 1920, Layout::SplitV);
    assert_eq!(decide(&tree, &workspaces(2), &config(Vec::new(), true)), LayoutCommand::SplitHorizontal);
}

#[test]
fn parent_already_in_desired_layout_is_left_alone() {
    let tall = tree_with_parent(1080, 1920, Layout::SplitH);
    assert_eq!(decide(&tall, &workspaces(2), &config(Vec::new(), true)), LayoutCommand::NoOp);
    let wide = tree_with_parent(1920, 1080, Layout::SplitV);
    assert_eq!(decide(&wide, &workspaces(2), &config(Vec::new(), true)), LayoutCommand::NoOp);
}

#[test]
fn deciding_again_after_the_command_does_nothing() {
    let mut tree = tree_with_parent(1920, 1080, Layout::SplitH);
    let cfg = config(Vec::new(), true);
    let first = decide(&tree, &workspaces(2), &cfg);
    assert_eq!(first, LayoutCommand::SplitVertical);
    tree.children[0].children[0].layout = Layout::SplitV;
    assert_eq!(decide(&tree, &workspaces(2), &cfg), LayoutCommand::NoOp);
}

#[test]
fn workspace_off_the_list_is_ignored() {
    let tree = tree_with_parent(1920, 1080, Layout::SplitH);
    let cfg = config(vec![2, 4], true);
    assert_eq!(decide(&tree, &workspaces(3), &cfg), LayoutCommand::NoOp);
    assert_eq!(decide(&tree, &workspaces(2), &cfg), LayoutCommand::SplitVertical);
    assert_eq!(decide(&tree, &workspaces(4), &cfg), LayoutCommand::SplitVertical);
    assert_eq!(decide(&tree, &workspaces(0), &cfg), LayoutCommand::NoOp);
}

#[test]
fn fullscreen_node_is_never_split() {
    let mut tree = tree_with_parent(1920, 1080, Layout::SplitH);
    focused_mut(&mut tree).percent_ppm = Some(1_500_000);
    assert!(is_fullscreen(focused_mut(&mut tree)));
    assert_eq!(decide(&tree, &workspaces(2), &config(Vec::new(), true)), LayoutCommand::NoOp);
    focused_mut(&mut tree).percent_ppm = Some(1_000_000);
    assert_eq!(decide(&tree, &workspaces(2), &config(Vec::new(), true)), LayoutCommand::SplitVertical);
}

#[test]
fn ineligible_focus_does_nothing() {
    let cfg = config(Vec::new(), true);
    let mut floating = tree_with_parent(1920, 1080, Layout::SplitH);
    focused_mut(&mut floating).kind = NodeKind::FloatingCon;
    assert_eq!(decide(&floating, &workspaces(2), &cfg), LayoutCommand::NoOp);
    let mut stacked = tree_with_parent(1920, 1080, Layout::SplitH);
    focused_mut(&mut stacked).layout = Layout::Stacked;
    assert_eq!(decide(&stacked, &workspaces(2), &cfg), LayoutCommand::NoOp);
    let mut tabbed = tree_with_parent(1920, 1080, Layout::SplitH);
    focused_mut(&mut tabbed).layout = Layout::Tabbed;
    assert!(!is_eligible(focused_mut(&mut tabbed), &workspaces(2), &cfg));
    assert_eq!(decide(&tabbed, &workspaces(2), &cfg), LayoutCommand::NoOp);
}

#[test]
fn no_focus_or_focused_root_does_nothing() {
    let cfg = config(Vec::new(), true);
    let mut tree = tree_with_parent(1920, 1080, Layout::SplitH);
    focused_mut(&mut tree).focused = false;
    assert!(tree.find_focused().is_none());
    assert_eq!(decide(&tree, &workspaces(2), &cfg), LayoutCommand::NoOp);
    let mut root = node(1, NodeKind::Root, Layout::SplitH, 1920, 1080, Vec::new());
    root.focused = true;
    assert!(root.find_focused_parent().is_none());
    assert_eq!(decide(&root, &workspaces(2), &cfg), LayoutCommand::NoOp);
}

#[test]
fn locator_walks_depth_first() {
    let mut tree = tree_with_parent(1920, 1080, Layout::SplitH);
    let mut later = node(20, NodeKind::Con, Layout::SplitV, 100, 100, vec![window(21, true)]);
    later.focused = false;
    tree.children[0].children.push(later);
    assert_eq!(tree.find_focused().map(|n| n.id), Some(11));
    assert_eq!(tree.find_focused_parent().map(|n| n.id), Some(10));
    focused_mut(&mut tree).focused = false;
    assert_eq!(tree.find_focused().map(|n| n.id), Some(21));
    assert_eq!(tree.find_focused_parent().map(|n| n.id), Some(20));
}

#[test]
fn new_window_with_balance_decides_then_balances() {
    let tree = tree_with_parent(1920, 1080, Layout::SplitH);
    let cmds = handle_event(WindowEventKind::New, &tree, &workspaces(2), &config(Vec::new(), true));
    assert_eq!(cmds, vec![LayoutCommand::SplitVertical, LayoutCommand::Balance]);
    let settled = tree_with_parent(1920, 1080, Layout::SplitV);
    let cmds = handle_event(WindowEventKind::New, &settled, &workspaces(2), &config(Vec::new(), true));
    assert_eq!(cmds, vec![LayoutCommand::Balance]);
}

#[test]
fn close_without_balance_issues_nothing() {
    let tree = tree_with_parent(1920, 1080, Layout::SplitH);
    let cmds = handle_event(WindowEventKind::Close, &tree, &workspaces(2), &config(Vec::new(), false));
    assert_eq!(cmds, Vec::new());
    let cmds = handle_event(WindowEventKind::Close, &tree, &workspaces(2), &config(Vec::new(), true));
    assert_eq!(cmds, vec![LayoutCommand::Balance]);
}

#[test]
fn focus_and_other_events() {
    let tree = tree_with_parent(1920, 1080, Layout::SplitH);
    let cfg = config(Vec::new(), true);
    assert_eq!(handle_event(WindowEventKind::Focus, &tree, &workspaces(2), &cfg), vec![LayoutCommand::SplitVertical]);
    assert_eq!(handle_event(WindowEventKind::Other, &tree, &workspaces(2), &cfg), Vec::new());
    assert!(wants_decision(WindowEventKind::Focus));
    assert!(!wants_decision(WindowEventKind::Close));
    assert_eq!(event_commands(WindowEventKind::Focus, LayoutCommand::NoOp, &cfg), Vec::new());
}

#[test]
fn command_texts() {
    assert_eq!(command_text(LayoutCommand::SplitHorizontal), Some("splith"));
    assert_eq!(command_text(LayoutCommand::SplitVertical), Some("splitv"));
    assert_eq!(command_text(LayoutCommand::Balance), Some("balance"));
    assert_eq!(command_text(LayoutCommand::NoOp), None);
}

#[test]
fn workspace_filter_pieces() {
    let ws = vec![Workspace { num: 5, focused: false }, Workspace { num: 7, focused: true }];
    assert_eq!(focused_workspace(&ws), Some(7));
    assert_eq!(focused_workspace(&Vec::new()), None);
    assert!(workspace_allowed(&ws, &config(Vec::new(), true)));
    assert!(workspace_allowed(&ws, &config(vec![7], true)));
    assert!(!workspace_allowed(&ws, &config(vec![5], true)));
}

#[test]
fn master_share_is_clamped_and_looked_up() {
    assert_eq!(clamp_master_percent(10), 50);
    assert_eq!(clamp_master_percent(65), 65);
    assert_eq!(clamp_master_percent(95), 70);
    let cfg = AutotileConfig::new(Vec::new(), true, vec!["mpv".to_string(), "kitty".to_string()], 90);
    assert_eq!(cfg.master_apps.len(), 2);
    assert_eq!(cfg.master_apps[1].percent, 70);
    let mut w = window(1, true);
    w.class = Some("kitty".to_string());
    assert_eq!(master_share(&w, &cfg), Some(70));
    assert!(is_master_window(&w, &cfg));
    w.class = Some("firefox".to_string());
    assert_eq!(master_share(&w, &cfg), None);
    assert_eq!(master_share(&w, &AutotileConfig::default()), Some(60));
    w.class = Some("steam".to_string());
    assert_eq!(master_share(&w, &AutotileConfig::default()), Some(65));
    w.class = None;
    assert!(!is_master_window(&w, &AutotileConfig::default()));
}

#[test]
fn default_config() {
    let cfg = AutotileConfig::default();
    assert!(cfg.enable_balance);
    assert!(cfg.workspaces.is_empty());
    let names: Vec<&str> = cfg.master_apps.iter().map(|a| a.class.as_str()).collect();
    assert_eq!(names, vec!["firefox", "chromium", "steam"]);
}

#[test]
fn text_comparison() {
    assert!(same_text("firefox", "firefox"));
    assert!(!same_text("firefox", "firefo"));
    assert!(!same_text("firefox", "Firefox"));
    assert!(same_text("", ""));
}

#[test]
fn spiral_leaves_manual_layouts_alone() {
    let mut n = window(1, false);
    assert_eq!(apply_spiral_autotile(&n, Layout::SplitV), Some(Layout::SplitV));
    n.layout = Layout::SplitV;
    assert_eq!(apply_spiral_autotile(&n, Layout::SplitV), Some(Layout::SplitV));
    n.layout = Layout::Tabbed;
    assert_eq!(apply_spiral_autotile(&n, Layout::SplitV), None);
    n.layout = Layout::SplitH;
    n.kind = NodeKind::FloatingCon;
    assert_eq!(apply_spiral_autotile(&n, Layout::SplitH), None);
}
