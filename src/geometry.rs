//! Filling in the optional parts of geometric inputs.
use vstd::prelude::*;

verus! {

/// Component `k` of a waypoint, or `zero` where the waypoint is shorter.
pub open spec fn component<T>(w: Seq<T>, k: int, zero: T) -> T {
    if k < w.len() { w[k] } else { zero }
}

/// The position of a waypoint: its first three components, each missing one
/// taken as `zero`; further components are ignored.
pub fn waypoint_position<T: Copy>(w: &Vec<T>, zero: T) -> (r: [T; 3])
    ensures
        r@ == seq![component(w@, 0, zero), component(w@, 1, zero), component(w@, 2, zero)],
{
    let x = if w.len() > 0 { w[0] } else { zero };
    let y = if w.len() > 1 { w[1] } else { zero };
    let z = if w.len() > 2 { w[2] } else { zero };
    let r = [x, y, z];
    assert(r@ =~= seq![x, y, z]);
    r
}

/// The length of link `i` of a chain: `uniform` for every link when no
/// lengths are given, else the given length, or `fallback` past their end.
pub open spec fn link_length_of<T>(links: Option<Seq<T>>, i: int, uniform: T, fallback: T) -> T {
    match links {
        None => uniform,
        Some(l) => component(l, i, fallback),
    }
}

/// Picks the length of link `i`; see `link_length_of`.
pub fn link_length<T: Copy>(links: &Option<Vec<T>>, i: usize, uniform: T, fallback: T) -> (r: T)
    ensures
        r == link_length_of(
            match links {
                Some(l) => Some(l@),
                None => None,
            },
            i as int,
            uniform,
            fallback,
        ),
{
    match links {
        None => uniform,
        Some(l) => if i < l.len() { l[i] } else { fallback },
    }
}

/// Walks a chain of `joints` links from `origin`, one step per joint: the
/// result holds every state on the way, the origin first, and state `k + 1`
/// is what `advance` makes of state `k` at joint `k`.
pub fn walk_chain<S: Copy, F: Fn(S, usize) -> S>(origin: S, joints: usize, advance: F) -> (r: Vec<S>)
    requires
        joints < usize::MAX,
        forall|s: S, k: usize| k < joints ==> #[trigger] advance.requires((s, k)),
    ensures
        r@.len() == joints + 1,
        r@[0] == origin,
        forall|k: int|
            0 <= k < joints ==> #[trigger] advance.ensures((r@[k], k as usize), r@[k + 1]),
{
    let mut states: Vec<S> = Vec::new();
    states.push(origin);
    let mut current = origin;
    let mut k: usize = 0;
    while k < joints
        invariant
            k <= joints < usize::MAX,
            forall|s: S, j: usize| j < joints ==> #[trigger] advance.requires((s, j)),
            states@.len() == k + 1,
            states@[0] == origin,
            states@[k as int] == current,
            forall|j: int|
                0 <= j < k ==> #[trigger] advance.ensures((states@[j], j as usize), states@[j + 1]),
        decreases joints - k,
    {
        let next = advance(current, k);
        states.push(next);
        current = next;
        k = k + 1;
    }
    states
}

} // verus!
