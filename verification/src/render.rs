//! Per-frame drawing decisions: which frame slot a frame uses, and which
//! bindings are recorded before each object is drawn.
use vstd::prelude::*;
use crate::config::MAX_FRAMES_COUNT;

verus! {

/// What the draw loop knows of a render object: which material and which
/// mesh it uses, each by an identity that is equal exactly when the two
/// are equal.
#[derive(Clone, Copy, PartialEq, Eq, Structural, Debug)]
pub struct RenderObjectKey {
    pub material: u64,
    pub mesh: u64,
}

/// What is recorded before one object is drawn.
#[derive(Clone, Copy, PartialEq, Eq, Structural, Debug)]
pub struct BindStep {
    pub bind_material: bool,
    pub bind_mesh: bool,
}

/// The draw loop's memory of what it bound last.
#[derive(Clone, Copy, PartialEq, Eq, Structural, Debug)]
pub struct BoundState {
    pub material: Option<u64>,
    pub mesh: Option<u64>,
}

/// One object of the draw loop: its material (and likewise its mesh) is
/// bound when it differs from the one bound last, or when nothing is bound
/// yet, and is then remembered as the one bound last.
pub open spec fn bind_step_spec(state: BoundState, obj: RenderObjectKey) -> (BindStep, BoundState) {
    let bind_material = state.material != Some(obj.material);
    let bind_mesh = state.mesh != Some(obj.mesh);
    (
        BindStep { bind_material, bind_mesh },
        BoundState { material: Some(obj.material), mesh: Some(obj.mesh) },
    )
}

/// The step for one object and the state after it.
pub fn bind_step(state: BoundState, obj: RenderObjectKey) -> (r: (BindStep, BoundState))
    ensures
        r == bind_step_spec(state, obj),
{
    let bind_material = match state.material {
        Some(m) => m != obj.material,
        None => true,
    };
    let bind_mesh = match state.mesh {
        Some(m) => m != obj.mesh,
        None => true,
    };
    (
        BindStep { bind_material, bind_mesh },
        BoundState { material: Some(obj.material), mesh: Some(obj.mesh) },
    )
}

/// What is bound before object `k` of a frame: the first object binds both,
/// and each later object binds its material (or mesh) exactly when it
/// differs from the previous object's.
pub open spec fn planned_step(objects: Seq<RenderObjectKey>, k: int) -> BindStep {
    BindStep {
        bind_material: k == 0 || objects[k].material != objects[k - 1].material,
        bind_mesh: k == 0 || objects[k].mesh != objects[k - 1].mesh,
    }
}

/// The bindings recorded for each object of a frame, in order, starting
/// with nothing bound.
pub fn draw_bind_plan(objects: &Vec<RenderObjectKey>) -> (plan: Vec<BindStep>)
    ensures
        plan.len() == objects.len(),
        forall|k: int| 0 <= k < plan.len() ==> #[trigger] plan[k] == planned_step(objects@, k),
{
    let mut state = BoundState { material: None, mesh: None };
    let mut plan: Vec<BindStep> = Vec::new();
    let mut i: usize = 0;
    while i < objects.len()
        invariant
            i <= objects.len(),
            plan.len() == i,
            i == 0 ==> state == (BoundState { material: None, mesh: None }),
            i > 0 ==> state == (BoundState {
                material: Some(objects@[i - 1].material),
                mesh: Some(objects@[i - 1].mesh),
            }),
            forall|k: int| 0 <= k < i ==> #[trigger] plan[k] == planned_step(objects@, k),
        decreases objects.len() - i,
    {
        let (step, next) = bind_step(state, objects[i]);
        plan.push(step);
        state = next;
        i = i + 1;
    }
    plan
}

/// The frame counter after one more frame, and the slot that frame uses.
pub fn next_frame(frame_num: usize) -> (r: (usize, usize))
    requires
        frame_num < usize::MAX,
    ensures
        r.0 == frame_num + 1,
        r.1 == (frame_num + 1) % (MAX_FRAMES_COUNT as int),
        r.1 < MAX_FRAMES_COUNT,
{
    let n = frame_num + 1;
    (n, n % MAX_FRAMES_COUNT)
}

/// Consecutive frames use different slots, and a slot comes back after
/// [`MAX_FRAMES_COUNT`] frames.
pub proof fn law_consecutive_frames_alternate(frame_num: int)
    requires
        0 <= frame_num,
    ensures
        (frame_num + 1) % (MAX_FRAMES_COUNT as int) != frame_num % (MAX_FRAMES_COUNT as int),
        (frame_num + (MAX_FRAMES_COUNT as int)) % (MAX_FRAMES_COUNT as int) == frame_num % (
        MAX_FRAMES_COUNT as int),
{
}

} // verus!
