use vstd::prelude::*;

verus! {

/// One step of a pane controller's per-frame update, applied to its cameras.
#[derive(Clone, Copy, Debug, PartialEq, Eq, Structural)]
pub enum ControlStep {
    /// Project the pointer through the target camera into `mouse_world`.
    ProjectPointer,
    /// Zoom the target camera about the point under the pointer, so that
    /// this point stays under the pointer, and rederive the vertical zoom.
    ZoomAtCursor,
    /// Rederive the vertical zoom from the horizontal one and the aspect ratio.
    FixAspect,
    /// Move the target camera against the pointer's world-space motion.
    Pan,
    /// Move the rendered camera a frame-time dependent part of the way
    /// towards the target camera.
    Smooth,
    /// Record the drag delta and reproject the pointer for the next frame.
    RecordDrag,
}

/// The steps of one update: none when the viewport has no height; else the
/// projection of the pointer, a zoom about the pointer when the pane is active
/// and the wheel moved (else only the aspect fix), a pan when the pane is
/// active and the secondary button is held, then smoothing and drag tracking.
pub open spec fn update_plan(height_positive: bool, active: bool, wheel_moved: bool, secondary_down: bool) -> Seq<ControlStep> {
    if !height_positive {
        Seq::empty()
    } else {
        seq![ControlStep::ProjectPointer]
            + (if active && wheel_moved {
            seq![ControlStep::ZoomAtCursor]
        } else {
            seq![ControlStep::FixAspect]
        }) + (if active && secondary_down {
            seq![ControlStep::Pan]
        } else {
            Seq::empty()
        }) + seq![ControlStep::Smooth, ControlStep::RecordDrag]
    }
}

/// Plans a controller's update for one frame.
///
/// `active` says whether the pointer lies in the pane's viewport: wheel and
/// secondary button only act on an active pane, so one pointer never moves
/// both panes. A viewport without height skips the frame, so that no aspect
/// ratio is formed by dividing by zero.
pub fn update_steps(height_positive: bool, active: bool, wheel_moved: bool, secondary_down: bool) -> (r: Vec<ControlStep>)
    ensures
        r@ == update_plan(height_positive, active, wheel_moved, secondary_down),
        !active ==> !r@.contains(ControlStep::ZoomAtCursor) && !r@.contains(ControlStep::Pan),
{
    let mut r: Vec<ControlStep> = Vec::new();
    if height_positive {
        r.push(ControlStep::ProjectPointer);
        if active && wheel_moved {
            r.push(ControlStep::ZoomAtCursor);
        } else {
            r.push(ControlStep::FixAspect);
        }
        if active && secondary_down {
            r.push(ControlStep::Pan);
        }
        r.push(ControlStep::Smooth);
        r.push(ControlStep::RecordDrag);
    }
    proof {
        let s = update_plan(height_positive, active, wheel_moved, secondary_down);
        assert(r@ =~= s);
        if !active {
            assert(forall|i: int| 0 <= i < s.len() ==> s[i] != ControlStep::ZoomAtCursor && s[i] != ControlStep::Pan);
        }
    }
    r
}

} // verus!
