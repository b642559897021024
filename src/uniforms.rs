use vstd::prelude::*;
use vstd::string::*;

verus! {

/// The type of a shader uniform.
#[derive(Clone, Copy, Debug, PartialEq, Eq, Structural)]
pub enum UniformKind {
    /// One float.
    Float1,
    /// Two floats.
    Float2,
    /// One integer.
    Int1,
}

/// The uniforms the fractal shader reads: the pane's visible rectangle, the
/// picked point, the blend factor, the iteration bound and the exponent.
pub open spec fn uniform_layout() -> Seq<(Seq<char>, UniformKind)> {
    seq![
        ("topLeft"@, UniformKind::Float2),
        ("bottomRight"@, UniformKind::Float2),
        ("picked"@, UniformKind::Float2),
        ("juliaInterpolation"@, UniformKind::Float1),
        ("iterations"@, UniformKind::Int1),
        ("power"@, UniformKind::Float1),
    ]
}

/// Names and types of the shader's uniforms, in declaration order.
pub fn uniforms() -> (r: Vec<(String, UniformKind)>)
    ensures
        r@.map_values(|u: (String, UniformKind)| (u.0@, u.1)) == uniform_layout(),
{
    let mut r: Vec<(String, UniformKind)> = Vec::new();
    r.push((String::from_str("topLeft"), UniformKind::Float2));
    r.push((String::from_str("bottomRight"), UniformKind::Float2));
    r.push((String::from_str("picked"), UniformKind::Float2));
    r.push((String::from_str("juliaInterpolation"), UniformKind::Float1));
    r.push((String::from_str("iterations"), UniformKind::Int1));
    r.push((String::from_str("power"), UniformKind::Float1));
    assert(r@.map_values(|u: (String, UniformKind)| (u.0@, u.1)) =~= uniform_layout());
    r
}

} // verus!
