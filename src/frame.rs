use vstd::prelude::*;
use crate::pane::{Pane, InterpolationSource, interpolation_source};

verus! {

/// One draw call of a frame.
#[derive(Clone, Copy, Debug, PartialEq, Eq, Structural)]
pub enum DrawStep {
    /// Render a pane's fractal into its viewport with the shader.
    Fractal(Pane),
    /// Draw the orbit path through the given pane's rendered camera, with the
    /// blend factor that the pane uses.
    Path(Pane, InterpolationSource),
    /// Mark the picked point in the Mandelbrot pane.
    PickedMarker,
    /// Draw the bar between the two panes.
    Divider,
}

/// The pane that is not `p`.
pub open spec fn other_pane(p: Pane) -> Pane {
    match p {
        Pane::Mandelbrot => Pane::Julia,
        Pane::Julia => Pane::Mandelbrot,
    }
}

/// The draw order of a frame. In sample mode the sampled pane is drawn first,
/// the orbit path over it, then the other pane; otherwise both fractals and
/// the picked-point marker. The divider comes last in either case.
pub open spec fn draw_plan(sample_mode: bool, sample_pane: Pane) -> Seq<DrawStep> {
    if sample_mode {
        let blend = if sample_pane == Pane::Mandelbrot {
            InterpolationSource::Zero
        } else {
            InterpolationSource::Shared
        };
        seq![
            DrawStep::Fractal(sample_pane),
            DrawStep::Path(sample_pane, blend),
            DrawStep::Fractal(other_pane(sample_pane)),
            DrawStep::Divider,
        ]
    } else {
        seq![
            DrawStep::Fractal(Pane::Mandelbrot),
            DrawStep::Fractal(Pane::Julia),
            DrawStep::PickedMarker,
            DrawStep::Divider,
        ]
    }
}

/// Plans the draw calls of one frame.
pub fn draw_steps(sample_mode: bool, sample_pane: Pane) -> (r: Vec<DrawStep>)
    ensures
        r@ == draw_plan(sample_mode, sample_pane),
{
    let mut r: Vec<DrawStep> = Vec::new();
    if sample_mode {
        let other = match sample_pane {
            Pane::Mandelbrot => Pane::Julia,
            Pane::Julia => Pane::Mandelbrot,
        };
        r.push(DrawStep::Fractal(sample_pane));
        r.push(DrawStep::Path(sample_pane, interpolation_source(sample_pane)));
        r.push(DrawStep::Fractal(other));
    } else {
        r.push(DrawStep::Fractal(Pane::Mandelbrot));
        r.push(DrawStep::Fractal(Pane::Julia));
        r.push(DrawStep::PickedMarker);
    }
    r.push(DrawStep::Divider);
    assert(r@ =~= draw_plan(sample_mode, sample_pane));
    r
}

/// How many times `s` renders the fractal of pane `p`.
pub open spec fn fractal_draws(s: Seq<DrawStep>, p: Pane) -> nat
    decreases s.len(),
{
    if s.len() == 0 {
        0
    } else {
        (if s.last() == DrawStep::Fractal(p) {
            1nat
        } else {
            0nat
        }) + fractal_draws(s.drop_last(), p)
    }
}

/// Each pane's fractal is drawn exactly once per frame, and an orbit path is
/// drawn only in sample mode, over the sampled pane.
pub proof fn lemma_draw_plan_covers_panes(sample_mode: bool, sample_pane: Pane)
    ensures
        ({
            let s = draw_plan(sample_mode, sample_pane);
            &&& forall|p: Pane| #[trigger] fractal_draws(s, p) == 1
            &&& forall|i: int|
                0 <= i < s.len() && #[trigger] s[i] is Path ==> sample_mode && s[i]->Path_0 == sample_pane
        }),
{
    let s = draw_plan(sample_mode, sample_pane);
    assert forall|p: Pane| #[trigger] fractal_draws(s, p) == 1 by {
        reveal_with_fuel(fractal_draws, 5);
        assert(s.drop_last().drop_last().drop_last().drop_last() =~= Seq::<DrawStep>::empty());
    }
}

} // verus!
