//! Which camera poses the 3D scene draws as frustums, how a frustum is
//! wired, and which window sizes the drawing surface follows.
use vstd::prelude::*;

verus! {

/// The most frustums the scene draws at once.
pub const MAX_POSES: usize = 10_000;

/// The poses from the first up to the current frame (or up to the last pose,
/// if the current frame lies beyond it): how many of them there are.
pub open spec fn trail_len(n_poses: nat, current_frame: nat) -> nat {
    if current_frame <= n_poses - 1 {
        current_frame + 1
    } else {
        n_poses
    }
}

/// How many frustums are drawn: the trail up to the current frame, at most
/// `MAX_POSES` of its first poses.
pub open spec fn visible_count(n_poses: nat, current_frame: nat) -> nat {
    let trail: nat = trail_len(n_poses, current_frame);
    if trail <= 10_000 {
        trail
    } else {
        10_000
    }
}

/// The number of poses from the first up to the current frame, clamped to
/// the poses that exist; it sets the colour gradient of the drawn frustums.
pub fn trail_length(n_poses: usize, current_frame: usize) -> (r: usize)
    requires
        n_poses > 0,
    ensures
        r == trail_len(n_poses as nat, current_frame as nat),
        1 <= r <= n_poses,
        r <= current_frame + 1,
        current_frame < n_poses ==> r == current_frame + 1,
        current_frame >= n_poses ==> r == n_poses,
{
    if current_frame <= n_poses - 1 {
        current_frame + 1
    } else {
        n_poses
    }
}

/// The number of frustums drawn for `n_poses` poses while `current_frame`
/// is shown; the first ones of the trail are drawn, and pose `i` of them is
/// highlighted when `i == current_frame`.
pub fn visible_frustum_count(n_poses: usize, current_frame: usize) -> (r: usize)
    requires
        n_poses > 0,
    ensures
        r == visible_count(n_poses as nat, current_frame as nat),
        1 <= r <= n_poses,
        r <= MAX_POSES,
        r <= current_frame + 1,
        r <= trail_len(n_poses as nat, current_frame as nat),
        r == trail_len(n_poses as nat, current_frame as nat) || r == MAX_POSES,
        current_frame < n_poses && current_frame < MAX_POSES ==> r == current_frame + 1,
{
    let trail: usize = trail_length(n_poses, current_frame);
    if trail <= MAX_POSES {
        trail
    } else {
        MAX_POSES
    }
}

/// Edge `e` of a line list: the pair of vertex indices at positions `2e`, `2e + 1`.
pub open spec fn edge_at(list: Seq<u16>, e: int) -> (u16, u16) {
    (list[2 * e], list[2 * e + 1])
}

/// Edge `e` of the frustum wireframe: vertex 0 is the apex and vertices 1
/// to 4 are the corners of the near plane in order around it; edges 0 to 3
/// join the apex to each corner, edges 4 to 7 go around the near plane.
pub open spec fn frustum_edge(e: int) -> (u16, u16) {
    if e < 4 {
        (0, (e + 1) as u16)
    } else {
        ((e - 3) as u16, ((e - 4 + 1) % 4 + 1) as u16)
    }
}

/// The wireframe of a frustum as a line list of eight edges.
pub fn frustum_edge_indices() -> (r: [u16; 16])
    ensures
        forall|e: int| 0 <= e < 8 ==> #[trigger] edge_at(r@, e) == frustum_edge(e),
{
    let r: [u16; 16] = [0, 1, 0, 2, 0, 3, 0, 4, 1, 2, 2, 3, 3, 4, 4, 1];
    assert forall|e: int| 0 <= e < 8 implies #[trigger] edge_at(r@, e) == frustum_edge(e) by {
        if e == 0 {
        } else if e == 1 {
        } else if e == 2 {
        } else if e == 3 {
        } else if e == 4 {
        } else if e == 5 {
        } else if e == 6 {
        } else {
        }
    }
    r
}

/// The size the drawing surface is reconfigured to when the window becomes
/// `width` by `height`: a window with no area (minimised) leaves the surface
/// as it was.
pub fn resized_surface(width: u32, height: u32) -> (r: Option<(u32, u32)>)
    ensures
        r == if width == 0 || height == 0 {
            None::<(u32, u32)>
        } else {
            Some((width, height))
        },
{
    if width == 0 || height == 0 {
        None
    } else {
        Some((width, height))
    }
}

/// Only the trail is drawn: no pose after the current frame (nor past the
/// last pose) gets a frustum, and the whole trail is drawn unless it is
/// longer than the cap, in which case exactly `MAX_POSES` are drawn.
pub proof fn lemma_visible_within_trail(n_poses: nat, current_frame: nat)
    requires
        n_poses > 0,
    ensures
        1 <= visible_count(n_poses, current_frame) <= trail_len(n_poses, current_frame),
        visible_count(n_poses, current_frame) <= current_frame + 1,
        visible_count(n_poses, current_frame) <= n_poses,
        visible_count(n_poses, current_frame) <= 10_000,
        trail_len(n_poses, current_frame) <= 10_000 ==> visible_count(n_poses, current_frame)
            == trail_len(n_poses, current_frame),
        trail_len(n_poses, current_frame) > 10_000 ==> visible_count(n_poses, current_frame)
            == 10_000,
        current_frame < n_poses ==> trail_len(n_poses, current_frame) == current_frame + 1,
        current_frame >= n_poses ==> trail_len(n_poses, current_frame) == n_poses,
{
}

/// The frames drawn grow with playback: a later frame never draws fewer
/// frustums, and the current frame is among those drawn while it is below
/// the cap.
pub proof fn lemma_visible_monotone(n_poses: nat, a: nat, b: nat)
    requires
        n_poses > 0,
        a <= b,
    ensures
        visible_count(n_poses, a) <= visible_count(n_poses, b),
        a < n_poses && a < 10_000 ==> a < visible_count(n_poses, a),
{
}

} // verus!
