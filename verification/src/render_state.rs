//! Which children of a group are rendered while an image for a filter's
//! background is prepared: rendering runs until a given node and then
//! stops everywhere.

use vstd::prelude::*;

verus! {

/// The state of a rendering pass. Nodes are named by ids.
#[derive(Clone, Copy, PartialEq, Eq, Structural)]
pub enum RenderState {
    /// Render everything.
    RenderAll,
    /// Render until this node is reached; the node itself is excluded.
    RenderUntil(u64),
    /// The node was reached: render nothing more.
    BackgroundFinished,
}

/// The state after meeting `child`, and whether to render it.
pub open spec fn step_spec(state: RenderState, child: u64) -> (RenderState, bool) {
    match state {
        RenderState::RenderAll => (state, true),
        RenderState::RenderUntil(last) => if child == last {
            (RenderState::BackgroundFinished, false)
        } else {
            (state, true)
        },
        RenderState::BackgroundFinished => (state, false),
    }
}

/// Decides, before a group renders `child`, whether it does, and updates
/// the state: meeting the node that ends the pass finishes it.
pub fn before_child(state: &mut RenderState, child: u64) -> (render: bool)
    ensures
        (*final(state), render) == step_spec(*old(state), child),
{
    match *state {
        RenderState::RenderAll => true,
        RenderState::RenderUntil(last) => {
            if child == last {
                *state = RenderState::BackgroundFinished;
                false
            } else {
                true
            }
        },
        RenderState::BackgroundFinished => false,
    }
}

/// A node of the render tree, named by its id: a leaf (a path, an image)
/// or a group with its children.
pub enum RenderNode {
    Leaf(u64),
    Group(u64, Vec<RenderNode>),
}

impl RenderNode {
    /// The node's id.
    pub open spec fn id(&self) -> u64 {
        match self {
            RenderNode::Leaf(id) => *id,
            RenderNode::Group(id, _) => *id,
        }
    }
}

/// What a group renders of `nodes`, its children, from `state`: the ids
/// of the nodes rendered, in order (a group before its own children), and
/// the state after. A group stops at the first child that is not
/// rendered; a child group may itself end the pass.
pub open spec fn group_pass(state: RenderState, nodes: Seq<RenderNode>) -> (Seq<u64>, RenderState)
    decreases nodes,
{
    if nodes.len() == 0 {
        (Seq::empty(), state)
    } else {
        let n = nodes[0];
        let (next, render) = step_spec(state, n.id());
        if !render {
            (Seq::empty(), next)
        } else {
            let (inner, after_inner) = match n {
                RenderNode::Leaf(_) => (Seq::<u64>::empty(), next),
                RenderNode::Group(_, ch) => {
                    proof {
                        assert(decreases_to!(nodes => nodes[0]));
                    }
                    group_pass(next, ch@)
                },
            };
            let (rest, fin) = group_pass(after_inner, nodes.drop_first());
            (seq![n.id()] + inner + rest, fin)
        }
    }
}

/// The ids of `nodes` and of all their descendants, each group before its
/// children.
pub open spec fn preorder(nodes: Seq<RenderNode>) -> Seq<u64>
    decreases nodes,
{
    if nodes.len() == 0 {
        Seq::empty()
    } else {
        let n = nodes[0];
        let inner = match n {
            RenderNode::Leaf(_) => Seq::<u64>::empty(),
            RenderNode::Group(_, ch) => {
                proof {
                    assert(decreases_to!(nodes => nodes[0]));
                }
                preorder(ch@)
            },
        };
        seq![n.id()] + inner + preorder(nodes.drop_first())
    }
}

/// Renders the children of a group: each rendered node's id is appended
/// to `rendered`, a group's children right after the group, and `state`
/// is updated as the pass goes.
pub fn render_group(state: &mut RenderState, nodes: &[RenderNode], rendered: &mut Vec<u64>)
    ensures
        final(rendered)@ == old(rendered)@ + group_pass(*old(state), nodes@).0,
        *final(state) == group_pass(*old(state), nodes@).1,
    decreases nodes@,
{
    let ghost start = *old(state);
    let ghost start_rendered = old(rendered)@;
    let mut i: usize = 0;
    let mut stopped = false;
    assert(nodes@.skip(0) =~= nodes@);
    while !stopped && i < nodes.len()
        invariant
            i <= nodes@.len(),
            !stopped ==> ({
                let (rest, fin) = group_pass(*state, nodes@.skip(i as int));
                group_pass(start, nodes@) == (rendered@.skip(start_rendered.len() as int) + rest, fin)
            }),
            stopped ==> group_pass(start, nodes@) == (rendered@.skip(start_rendered.len() as int), *state),
            rendered@.len() >= start_rendered.len(),
            rendered@.take(start_rendered.len() as int) == start_rendered,
        decreases nodes@.len() - i + if stopped {
            0int
        } else {
            1int
        },
    {
        let ghost before = *state;
        let ghost before_rendered = rendered@;
        let ghost tail = nodes@.skip(i as int);
        assert(tail.drop_first() =~= nodes@.skip(i + 1));
        assert(tail[0] == nodes@[i as int]);
        let node = &nodes[i];
        let id = match node {
            RenderNode::Leaf(id) => *id,
            RenderNode::Group(id, _) => *id,
        };
        if before_child(state, id) {
            rendered.push(id);
            match node {
                RenderNode::Leaf(_) => {},
                RenderNode::Group(_, ch) => {
                    proof {
                        assert(decreases_to!(nodes@ => nodes@[i as int]));
                    }
                    render_group(state, ch.as_slice(), rendered);
                },
            }
            proof {
                assert(rendered@.skip(start_rendered.len() as int) =~= before_rendered.skip(
                    start_rendered.len() as int,
                ) + (seq![id] + (rendered@.skip((before_rendered.len() + 1) as int))));
                assert(rendered@.take(start_rendered.len() as int) =~= before_rendered.take(
                    start_rendered.len() as int,
                ));
            }
            i += 1;
        } else {
            stopped = true;
        }
    }
    if !stopped {
        assert(nodes@.skip(i as int) =~= Seq::<RenderNode>::empty());
    }
}

/// Whether a group, once its children are drawn on a layer, takes the
/// plain path that ignores its filter, clip, mask and opacity: when the
/// background pass has finished.
pub fn paints_layer_plainly(state: &RenderState) -> (r: bool)
    ensures
        r == (*state == RenderState::BackgroundFinished),
{
    match state {
        RenderState::BackgroundFinished => true,
        _ => false,
    }
}

/// What a group has of the effects that are applied to its layer. Each
/// flag holds when the group names the effect and the name resolves to a
/// definition of that kind.
#[derive(Clone, Copy, PartialEq, Eq, Structural)]
pub struct GroupEffects {
    pub filter_found: bool,
    pub clip_path_found: bool,
    pub mask_found: bool,
    /// The group's opacity is the default (fully opaque).
    pub opacity_is_default: bool,
}

/// What is done to a group's layer once its children are drawn on it, in
/// this order: the filter, the clip path, the mask, then painting the
/// layer, with the group's opacity or without.
#[derive(Clone, Copy, PartialEq, Eq, Structural)]
pub struct LayerPlan {
    pub apply_filter: bool,
    pub apply_clip_path: bool,
    pub apply_mask: bool,
    pub paint_with_opacity: bool,
}

/// The plan for a group's layer: after the background pass has finished,
/// the layer is painted as it is; otherwise a found filter applies even
/// without a bounding box, a found clip path or mask only with one, and
/// the opacity when it is not the default.
pub open spec fn layer_plan_of(state: RenderState, has_bbox: bool, e: GroupEffects) -> LayerPlan {
    if state == RenderState::BackgroundFinished {
        LayerPlan {
            apply_filter: false,
            apply_clip_path: false,
            apply_mask: false,
            paint_with_opacity: false,
        }
    } else {
        LayerPlan {
            apply_filter: e.filter_found,
            apply_clip_path: has_bbox && e.clip_path_found,
            apply_mask: has_bbox && e.mask_found,
            paint_with_opacity: !e.opacity_is_default,
        }
    }
}

/// Decides what is done to a group's layer after its children are drawn,
/// given the pass state then and whether the group has a bounding box.
pub fn layer_plan(state: &RenderState, has_bbox: bool, effects: GroupEffects) -> (r: LayerPlan)
    ensures
        r == layer_plan_of(*state, has_bbox, effects),
{
    if paints_layer_plainly(state) {
        LayerPlan {
            apply_filter: false,
            apply_clip_path: false,
            apply_mask: false,
            paint_with_opacity: false,
        }
    } else {
        LayerPlan {
            apply_filter: effects.filter_found,
            apply_clip_path: has_bbox && effects.clip_path_found,
            apply_mask: has_bbox && effects.mask_found,
            paint_with_opacity: !effects.opacity_is_default,
        }
    }
}

/// After the background pass has finished nothing is applied to a
/// layer; otherwise the filter does not depend on the bounding box, while
/// the clip path and the mask need one, and the opacity is used exactly
/// when it is not the default.
pub proof fn lemma_layer_plan(state: RenderState, has_bbox: bool, e: GroupEffects)
    ensures
        state == RenderState::BackgroundFinished ==> !layer_plan_of(state, has_bbox, e).apply_filter
            && !layer_plan_of(state, has_bbox, e).apply_clip_path && !layer_plan_of(
            state,
            has_bbox,
            e,
        ).apply_mask && !layer_plan_of(state, has_bbox, e).paint_with_opacity,
        state != RenderState::BackgroundFinished ==> (layer_plan_of(state, has_bbox, e).apply_filter
            <==> e.filter_found) && (layer_plan_of(state, has_bbox, e).apply_clip_path <==> (has_bbox
            && e.clip_path_found)) && (layer_plan_of(state, has_bbox, e).apply_mask <==> (has_bbox
            && e.mask_found)) && (layer_plan_of(state, has_bbox, e).paint_with_opacity
            <==> !e.opacity_is_default),
        layer_plan_of(state, true, e).apply_filter == layer_plan_of(state, false, e).apply_filter,
{
}

/// Once the background pass has finished, no group renders anything and
/// the pass stays finished.
pub proof fn lemma_finished_renders_nothing(nodes: Seq<RenderNode>)
    ensures
        group_pass(RenderState::BackgroundFinished, nodes) == (
            Seq::<u64>::empty(),
            RenderState::BackgroundFinished,
        ),
{
}

/// Without a node to stop at, a group renders all its descendants, each
/// group before its children.
pub proof fn lemma_render_all(nodes: Seq<RenderNode>)
    ensures
        group_pass(RenderState::RenderAll, nodes) == (preorder(nodes), RenderState::RenderAll),
    decreases nodes,
{
    if nodes.len() > 0 {
        match nodes[0] {
            RenderNode::Leaf(_) => {},
            RenderNode::Group(_, ch) => {
                assert(decreases_to!(nodes => nodes[0]));
                lemma_render_all(ch@);
            },
        }
        lemma_render_all(nodes.drop_first());
    }
}

/// A group whose descendants do not hold the node where the pass ends
/// renders all of them and leaves the pass going.
pub proof fn lemma_render_until_absent(last: u64, nodes: Seq<RenderNode>)
    requires
        forall|j: int| 0 <= j < preorder(nodes).len() ==> preorder(nodes)[j] != last,
    ensures
        group_pass(RenderState::RenderUntil(last), nodes) == (
            preorder(nodes),
            RenderState::RenderUntil(last),
        ),
    decreases nodes,
{
    if nodes.len() > 0 {
        let n = nodes[0];
        let all = preorder(nodes);
        let inner = match n {
            RenderNode::Leaf(_) => Seq::<u64>::empty(),
            RenderNode::Group(_, ch) => preorder(ch@),
        };
        let rest = preorder(nodes.drop_first());
        assert(all == seq![n.id()] + inner + rest);
        assert(all[0] == n.id());
        match n {
            RenderNode::Leaf(_) => {},
            RenderNode::Group(_, ch) => {
                assert(decreases_to!(nodes => nodes[0]));
                assert forall|j: int| 0 <= j < inner.len() implies inner[j] != last by {
                    assert(all[1 + j] == inner[j]);
                }
                lemma_render_until_absent(last, ch@);
            },
        }
        assert forall|j: int| 0 <= j < rest.len() implies rest[j] != last by {
            assert(all[1 + inner.len() + j] == rest[j]);
        }
        lemma_render_until_absent(last, nodes.drop_first());
    }
}

/// A group whose descendants hold the node where the pass ends renders
/// exactly the nodes before its first occurrence, in order, and finishes
/// the pass: the background of a filter is what was drawn before it.
pub proof fn lemma_render_until(last: u64, nodes: Seq<RenderNode>, p: int)
    requires
        0 <= p < preorder(nodes).len(),
        preorder(nodes)[p] == last,
        forall|j: int| 0 <= j < p ==> preorder(nodes)[j] != last,
    ensures
        group_pass(RenderState::RenderUntil(last), nodes) == (
            preorder(nodes).take(p),
            RenderState::BackgroundFinished,
        ),
    decreases nodes,
{
    let n = nodes[0];
    let all = preorder(nodes);
    let inner = match n {
        RenderNode::Leaf(_) => Seq::<u64>::empty(),
        RenderNode::Group(_, ch) => preorder(ch@),
    };
    let rest = preorder(nodes.drop_first());
    assert(all == seq![n.id()] + inner + rest);
    assert(all[0] == n.id());
    if p == 0 {
        assert(all.take(0) =~= Seq::<u64>::empty());
    } else {
        match n {
            RenderNode::Leaf(_) => {},
            RenderNode::Group(_, ch) => {
                assert(decreases_to!(nodes => nodes[0]));
                if p <= inner.len() {
                    assert forall|j: int| 0 <= j < p - 1 implies inner[j] != last by {
                        assert(all[1 + j] == inner[j]);
                    }
                    assert(all[p] == inner[p - 1]);
                    lemma_render_until(last, ch@, p - 1);
                } else {
                    assert forall|j: int| 0 <= j < inner.len() implies inner[j] != last by {
                        assert(all[1 + j] == inner[j]);
                    }
                    lemma_render_until_absent(last, ch@);
                }
            },
        }
        if p <= inner.len() {
            lemma_finished_renders_nothing(nodes.drop_first());
            assert(all.take(p) =~= seq![n.id()] + inner.take(p - 1) + Seq::<u64>::empty());
        } else {
            let r = p - 1 - inner.len();
            assert forall|j: int| 0 <= j < r implies rest[j] != last by {
                assert(all[1 + inner.len() + j] == rest[j]);
            }
            assert(all[p] == rest[r]);
            lemma_render_until(last, nodes.drop_first(), r);
            assert(all.take(p) =~= seq![n.id()] + inner + rest.take(r));
        }
    }
}

} // verus!
