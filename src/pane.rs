use vstd::prelude::*;

verus! {

/// One of the two views of the complex plane.
#[derive(Clone, Copy, Debug, PartialEq, Eq, Structural)]
pub enum Pane {
    /// The left view: the Mandelbrot set, parameterised by the pixel's point.
    Mandelbrot,
    /// The right view: the Julia set of the picked point.
    Julia,
}

/// What a held primary button writes during one frame.
#[derive(Clone, Copy, Debug, PartialEq, Eq, Structural)]
pub enum PickTarget {
    /// Nothing is written.
    Nothing,
    /// The shared picked point takes the Mandelbrot pane's pointer position.
    PickedPoint,
    /// The orbit start takes the pointer position of the given pane, and that
    /// pane becomes the one in which the orbit is sampled.
    SampleStart(Pane),
}

/// Which blend factor between orbit start and picked point a pane uses.
#[derive(Clone, Copy, Debug, PartialEq, Eq, Structural)]
pub enum InterpolationSource {
    /// Factor zero: the parameter is the point itself.
    Zero,
    /// The live shared factor.
    Shared,
}

/// What a press writes: nothing without the primary button; with sample mode
/// off, the picked point when the pointer is in the Mandelbrot viewport; with
/// sample mode on, the sample start of the Mandelbrot pane when the pointer is
/// there, else of the Julia pane when it is there.
pub open spec fn pick_target(primary_down: bool, sample_mode: bool, in_mandelbrot: bool, in_julia: bool) -> PickTarget {
    if !primary_down {
        PickTarget::Nothing
    } else if !sample_mode {
        if in_mandelbrot {
            PickTarget::PickedPoint
        } else {
            PickTarget::Nothing
        }
    } else if in_mandelbrot {
        PickTarget::SampleStart(Pane::Mandelbrot)
    } else if in_julia {
        PickTarget::SampleStart(Pane::Julia)
    } else {
        PickTarget::Nothing
    }
}

/// Decides what a primary-button press writes this frame.
///
/// `in_mandelbrot` and `in_julia` say whether the pointer lies in each pane's
/// viewport. The Mandelbrot pane is tested first; the Julia pane is only a
/// target for the orbit start, and only when sample mode is on.
pub fn resolve_pick(primary_down: bool, sample_mode: bool, in_mandelbrot: bool, in_julia: bool) -> (r: PickTarget)
    ensures
        r == pick_target(primary_down, sample_mode, in_mandelbrot, in_julia),
{
    if !primary_down {
        PickTarget::Nothing
    } else if sample_mode {
        if in_mandelbrot {
            PickTarget::SampleStart(Pane::Mandelbrot)
        } else if in_julia {
            PickTarget::SampleStart(Pane::Julia)
        } else {
            PickTarget::Nothing
        }
    } else if in_mandelbrot {
        PickTarget::PickedPoint
    } else {
        PickTarget::Nothing
    }
}

/// The pane in which the orbit is sampled after `target` has been applied.
pub fn sample_pane_after(target: PickTarget, current: Pane) -> (r: Pane)
    ensures
        r == match target {
            PickTarget::SampleStart(p) => p,
            _ => current,
        },
{
    match target {
        PickTarget::SampleStart(p) => p,
        _ => current,
    }
}

/// The blend factor a pane renders and samples with: the Mandelbrot pane
/// always uses zero, the Julia pane the shared factor.
pub fn interpolation_source(pane: Pane) -> (r: InterpolationSource)
    ensures
        pane == Pane::Mandelbrot <==> r == InterpolationSource::Zero,
        pane == Pane::Julia <==> r == InterpolationSource::Shared,
{
    match pane {
        Pane::Mandelbrot => InterpolationSource::Zero,
        Pane::Julia => InterpolationSource::Shared,
    }
}

/// With sample mode on, a press inside the Mandelbrot viewport writes the
/// Mandelbrot pane's sample start and never the Julia pane's; a press inside
/// the Julia viewport only, the Julia pane's and never the Mandelbrot pane's.
/// The picked point is never written in sample mode.
pub proof fn lemma_pick_exclusive(primary_down: bool, sample_mode: bool, in_mandelbrot: bool, in_julia: bool)
    ensures
        ({
            let r = pick_target(primary_down, sample_mode, in_mandelbrot, in_julia);
            &&& (sample_mode && in_mandelbrot ==> r != PickTarget::SampleStart(Pane::Julia))
            &&& (sample_mode && in_julia && !in_mandelbrot ==> r != PickTarget::SampleStart(Pane::Mandelbrot))
            &&& (r == PickTarget::SampleStart(Pane::Julia) ==> sample_mode && in_julia && !in_mandelbrot)
            &&& (r == PickTarget::SampleStart(Pane::Mandelbrot) ==> sample_mode && in_mandelbrot)
            &&& (sample_mode ==> r != PickTarget::PickedPoint)
        }),
{
}

} // verus!
