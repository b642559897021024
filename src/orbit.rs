use vstd::prelude::*;

verus! {

/// `path` is the orbit of `start` under `step`: each entry is a result of
/// `step` applied to the entry before it, the first one to `start` itself.
pub open spec fn is_orbit<T, F: Fn(T) -> T>(step: F, start: T, path: Seq<T>) -> bool {
    &&& (path.len() > 0 ==> step.ensures((start,), path[0]))
    &&& forall|i: int| 0 < i < path.len() ==> step.ensures((path[i - 1],), #[trigger] path[i])
}

/// Iterates `step` `count` times from `start` and returns the `count`
/// iterates that follow `start`, in order, without stopping early.
///
/// For the explorer the step is `z -> z^power + c`; a path drawn through the
/// result starts at `start` itself.
pub fn orbit<T: Copy, F: Fn(T) -> T>(start: T, count: usize, step: F) -> (path: Vec<T>)
    requires
        forall|z: T| step.requires((z,)),
    ensures
        path.len() == count,
        is_orbit(step, start, path@),
{
    let mut path: Vec<T> = Vec::new();
    let mut z = start;
    let mut n: usize = 0;
    while n < count
        invariant
            forall|z: T| step.requires((z,)),
            n <= count,
            path.len() == n,
            is_orbit(step, start, path@),
            n == 0 ==> z == start,
            n > 0 ==> z == path@[n - 1],
        decreases count - n,
    {
        let next = step(z);
        path.push(next);
        z = next;
        n = n + 1;
    }
    path
}

} // verus!
