use resvg::render_state::{
    before_child, layer_plan, paints_layer_plainly, render_group, GroupEffects, RenderNode,
    RenderState,
};

fn tree() -> Vec<RenderNode> {
    // 1, group 2 { 3, group 4 { 5 }, 6 }, 7
    vec![
        RenderNode::Leaf(1),
        RenderNode::Group(
            2,
            vec![
                RenderNode::Leaf(3),
                RenderNode::Group(4, vec![RenderNode::Leaf(5)]),
                RenderNode::Leaf(6),
            ],
        ),
        RenderNode::Leaf(7),
    ]
}

fn run(state: &mut RenderState, nodes: &[RenderNode]) -> Vec<u64> {
    let mut out = Vec::new();
    render_group(state, nodes, &mut out);
    out
}

#[test]
fn render_all_renders_everything_in_preorder() {
    let mut st = RenderState::RenderAll;
    assert_eq!(run(&mut st, &tree()), vec![1, 2, 3, 4, 5, 6, 7]);
    assert!(st == RenderState::RenderAll);
    assert!(!paints_layer_plainly(&st));
}

#[test]
fn render_until_stops_before_the_node() {
    let mut st = RenderState::RenderUntil(7);
    assert_eq!(run(&mut st, &tree()), vec![1, 2, 3, 4, 5, 6]);
    assert!(st == RenderState::BackgroundFinished);
    assert!(paints_layer_plainly(&st));
}

#[test]
fn render_until_a_nested_node_stops_the_outer_groups_too() {
    let mut st = RenderState::RenderUntil(5);
    assert_eq!(run(&mut st, &tree()), vec![1, 2, 3, 4]);
    assert!(st == RenderState::BackgroundFinished);
}

#[test]
fn render_until_a_group_skips_it_and_its_children() {
    let mut st = RenderState::RenderUntil(4);
    assert_eq!(run(&mut st, &tree()), vec![1, 2, 3]);
    assert!(st == RenderState::BackgroundFinished);
}

#[test]
fn finished_pass_renders_nothing() {
    let mut st = RenderState::BackgroundFinished;
    assert!(run(&mut st, &tree()).is_empty());
    assert!(st == RenderState::BackgroundFinished);
}

#[test]
fn render_until_absent_node() {
    let mut st = RenderState::RenderUntil(9);
    assert_eq!(run(&mut st, &tree()), vec![1, 2, 3, 4, 5, 6, 7]);
    assert!(st == RenderState::RenderUntil(9));
}

#[test]
fn rendered_ids_are_appended() {
    let mut st = RenderState::RenderAll;
    let mut out = vec![42];
    render_group(&mut st, &[RenderNode::Leaf(1)], &mut out);
    assert_eq!(out, vec![42, 1]);
}

#[test]
fn single_steps() {
    let mut st = RenderState::RenderUntil(3);
    assert!(before_child(&mut st, 1));
    assert!(st == RenderState::RenderUntil(3));
    assert!(!before_child(&mut st, 3));
    assert!(st == RenderState::BackgroundFinished);
    assert!(!before_child(&mut st, 4));
}

fn all_effects() -> GroupEffects {
    GroupEffects { filter_found: true, clip_path_found: true, mask_found: true, opacity_is_default: false }
}

#[test]
fn layer_plan_with_a_bbox_applies_everything() {
    let p = layer_plan(&RenderState::RenderAll, true, all_effects());
    assert!(p.apply_filter && p.apply_clip_path && p.apply_mask && p.paint_with_opacity);
}

#[test]
fn layer_plan_without_a_bbox_still_filters() {
    let p = layer_plan(&RenderState::RenderUntil(3), false, all_effects());
    assert!(p.apply_filter);
    assert!(!p.apply_clip_path && !p.apply_mask);
    assert!(p.paint_with_opacity);
}

#[test]
fn layer_plan_after_the_background_is_plain() {
    let p = layer_plan(&RenderState::BackgroundFinished, true, all_effects());
    assert!(!p.apply_filter && !p.apply_clip_path && !p.apply_mask && !p.paint_with_opacity);
}

#[test]
fn layer_plan_default_opacity_and_missing_effects() {
    let e = GroupEffects {
        filter_found: false,
        clip_path_found: false,
        mask_found: true,
        opacity_is_default: true,
    };
    let p = layer_plan(&RenderState::RenderAll, true, e);
    assert!(!p.apply_filter && !p.apply_clip_path && p.apply_mask && !p.paint_with_opacity);
}
