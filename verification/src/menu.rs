//! Keyboard movement through a popup menu whose entries are either actions
//! or separators: separators are skipped, and the ends hold.

use vstd::prelude::*;

verus! {

/// From `idx`, keep stepping by `dir` until an action entry is reached;
/// stepping off either end gives back `from`.
pub open spec fn walk(acts: Seq<bool>, from: int, dir: int, idx: int) -> int
    decreases (if dir > 0 {
        acts.len() - idx
    } else {
        idx + 1
    }),
{
    if dir == 0 {
        from
    } else {
        let next = idx + dir;
        if next < 0 || next >= acts.len() {
            from
        } else if acts[next] {
            next
        } else {
            walk(acts, from, dir, next)
        }
    }
}

/// The next action entry from `from` in `direction`, staying put at the
/// ends.
pub open spec fn step_spec(acts: Seq<bool>, from: int, direction: int) -> int {
    walk(acts, from, direction, from)
}

/// Step over `acts` (which entries are actions) from `from`.
pub fn step(acts: &Vec<bool>, from: usize, direction: isize) -> (r: usize)
    requires
        direction != 0 || from >= acts.len() || acts@[from as int],
    ensures
        r == step_spec(acts@, from as int, direction as int),
        r == from || (r < acts.len() && acts@[r as int]),
{
    let len = acts.len() as i128;
    let dir = direction as i128;
    let mut index: i128 = from as i128;
    if dir == 0 {
        return from;
    }
    loop
        invariant
            dir == direction as int,
            dir != 0,
            len == acts.len(),
            index == from || (0 <= index < len),
            step_spec(acts@, from as int, dir as int) == walk(acts@, from as int, dir as int, index as int),
        decreases (if dir > 0 {
            len - index
        } else {
            index + 1
        }),
    {
        let next = index + dir;
        if next < 0 || next >= len {
            return from;
        }
        if acts[next as usize] {
            return next as usize;
        }
        index = next;
    }
}

} // verus!
