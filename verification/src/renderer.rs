use vstd::prelude::*;

verus! {

/// Most control-point handles the handle buffer holds.
pub const MAX_HANDLES: usize = 1024;

/// Most spline segments the spline buffer holds.
pub const MAX_SPLINE_SEGS: usize = 128;

/// How many of `len` items fit in a buffer of `capacity` items, and whether some were left out.
pub fn clamp_draw_count(len: usize, capacity: usize) -> (r: (usize, bool))
    ensures
        r.0 == (if len > capacity { capacity } else { len }),
        r.1 == (len > capacity),
{
    if len > capacity {
        (capacity, true)
    } else {
        (len, false)
    }
}

/// Vertices drawn for `num_handles` handles: two triangles each.
pub fn handle_vertex_count(num_handles: usize) -> (r: u32)
    requires
        num_handles <= MAX_HANDLES,
    ensures
        r == 6 * num_handles,
{
    6 * (num_handles as u32)
}

} // verus!
