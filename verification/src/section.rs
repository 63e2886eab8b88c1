use vstd::prelude::*;

verus! {

/// How a spline section through `n` control points is solved.
#[derive(Clone, Copy, Debug, PartialEq, Eq, Structural)]
pub enum SectionShape {
    /// Fewer than two points: no segment.
    Empty,
    /// Two points: one straight segment.
    Straight,
    /// Three or more points: Euler-spiral segments fitted by Newton iteration.
    Curved,
}

/// The points whose circumscribed circle gives the starting estimate of a tangent.
#[derive(Clone, Copy, Debug, PartialEq, Eq, Structural)]
pub enum TangentEstimate {
    /// Tangent at the middle point `b` of the circle through `a`, `b`, `c`.
    Mid(usize, usize, usize),
    /// Tangent at `a` of the circle through `a`, `b`, `c`.
    Start(usize, usize, usize),
    /// Reverse of the tangent at `a` of the circle through `a`, `b`, `c`.
    End(usize, usize, usize),
}

/// The two spline segments that meet at a control point: the one ending
/// there and the one starting there, where they exist.
#[derive(Clone, Copy, Debug, PartialEq, Eq, Structural)]
pub struct Joint {
    pub incoming: Option<usize>,
    pub outgoing: Option<usize>,
}

pub open spec fn section_shape_spec(n: usize) -> SectionShape {
    if n < 2 {
        SectionShape::Empty
    } else if n == 2 {
        SectionShape::Straight
    } else {
        SectionShape::Curved
    }
}

/// How a section with `n` control points is solved.
pub fn section_shape(n: usize) -> (r: SectionShape)
    ensures
        r == section_shape_spec(n),
{
    if n < 2 {
        SectionShape::Empty
    } else if n == 2 {
        SectionShape::Straight
    } else {
        SectionShape::Curved
    }
}

/// Number of segments of a section with `n` control points.
pub open spec fn segment_count(n: nat, cyclic: bool) -> nat {
    if cyclic { n } else { (n - 1) as nat }
}

/// Index of the point after `i` along the section, wrapping around on a cyclic one.
pub open spec fn next_index(i: int, n: int) -> int {
    if i + 1 == n { 0 } else { i + 1 }
}

/// Index of the point before `i` along a cyclic section.
pub open spec fn prev_index(i: int, n: int) -> int {
    if i == 0 { n - 1 } else { i - 1 }
}

/// The starting estimate of the tangent at control point `i` of `n`.
pub open spec fn tangent_estimate(i: int, n: int, cyclic: bool) -> TangentEstimate {
    if 0 < i < n - 1 {
        TangentEstimate::Mid((i - 1) as usize, i as usize, (i + 1) as usize)
    } else if i == 0 {
        if cyclic {
            TangentEstimate::Mid((n - 1) as usize, 0, 1)
        } else {
            TangentEstimate::Start(0, 1, 2)
        }
    } else if cyclic {
        TangentEstimate::Mid((n - 2) as usize, (n - 1) as usize, 0)
    } else {
        TangentEstimate::End((n - 1) as usize, (n - 2) as usize, (n - 3) as usize)
    }
}

/// The indices named by an estimate.
pub open spec fn estimate_indices(t: TangentEstimate) -> (usize, usize, usize) {
    match t {
        TangentEstimate::Mid(a, b, c) => (a, b, c),
        TangentEstimate::Start(a, b, c) => (a, b, c),
        TangentEstimate::End(a, b, c) => (a, b, c),
    }
}

/// The segments meeting at control point `i` of `n`.
pub open spec fn joint_at(i: int, n: int, cyclic: bool) -> Joint {
    if cyclic {
        Joint { incoming: Some(prev_index(i, n) as usize), outgoing: Some(i as usize) }
    } else if i == 0 {
        Joint { incoming: None, outgoing: Some(0) }
    } else if i == n - 1 {
        Joint { incoming: Some((n - 2) as usize), outgoing: None }
    } else {
        Joint { incoming: Some((i - 1) as usize), outgoing: Some(i as usize) }
    }
}

/// The starting tangent estimate at every control point of a curved section of `n` points.
pub fn tangent_estimates(n: usize, cyclic: bool) -> (r: Vec<TangentEstimate>)
    requires
        n >= 3,
    ensures
        r.len() == n,
        forall|i: int| 0 <= i < n ==> r@[i] == tangent_estimate(i, n as int, cyclic),
{
    let mut out: Vec<TangentEstimate> = Vec::new();
    let mut i: usize = 0;
    while i < n
        invariant
            n >= 3,
            i <= n,
            out.len() == i,
            forall|j: int| 0 <= j < i ==> out@[j] == tangent_estimate(j, n as int, cyclic),
        decreases n - i,
    {
        let t = if 0 < i && i < n - 1 {
            TangentEstimate::Mid(i - 1, i, i + 1)
        } else if i == 0 {
            if cyclic {
                TangentEstimate::Mid(n - 1, 0, 1)
            } else {
                TangentEstimate::Start(0, 1, 2)
            }
        } else if cyclic {
            TangentEstimate::Mid(n - 2, n - 1, 0)
        } else {
            TangentEstimate::End(n - 1, n - 2, n - 3)
        };
        out.push(t);
        i = i + 1;
    }
    out
}

/// The start and end control point of every segment of a section of `n` points.
pub fn segment_ends(n: usize, cyclic: bool) -> (r: Vec<(usize, usize)>)
    requires
        cyclic || n >= 2,
    ensures
        r.len() == segment_count(n as nat, cyclic),
        forall|i: int| 0 <= i < r.len() ==> r@[i] == (i as usize, next_index(i, n as int) as usize),
{
    let count = if cyclic { n } else { n - 1 };
    let mut out: Vec<(usize, usize)> = Vec::new();
    let mut i: usize = 0;
    while i < count
        invariant
            cyclic || n >= 2,
            count == segment_count(n as nat, cyclic),
            count <= n,
            i <= count,
            out.len() == i,
            forall|j: int| 0 <= j < i ==> out@[j] == (j as usize, next_index(j, n as int) as usize),
        decreases count - i,
    {
        let e = if i + 1 == n { 0 } else { i + 1 };
        out.push((i, e));
        i = i + 1;
    }
    out
}

/// The segments meeting at every control point of a section of `n` points.
pub fn joints(n: usize, cyclic: bool) -> (r: Vec<Joint>)
    requires
        cyclic || n >= 2,
    ensures
        r.len() == n,
        forall|i: int| 0 <= i < n ==> r@[i] == joint_at(i, n as int, cyclic),
{
    let mut out: Vec<Joint> = Vec::new();
    let mut i: usize = 0;
    while i < n
        invariant
            cyclic || n >= 2,
            i <= n,
            out.len() == i,
            forall|j: int| 0 <= j < i ==> out@[j] == joint_at(j, n as int, cyclic),
        decreases n - i,
    {
        let jt = if cyclic {
            Joint { incoming: Some(if i == 0 { n - 1 } else { i - 1 }), outgoing: Some(i) }
        } else if i == 0 {
            Joint { incoming: None, outgoing: Some(0) }
        } else if i == n - 1 {
            Joint { incoming: Some(n - 2), outgoing: None }
        } else {
            Joint { incoming: Some(i - 1), outgoing: Some(i) }
        };
        out.push(jt);
        i = i + 1;
    }
    out
}

/// Every index that a tangent estimate names is a control point of the section,
/// and the three points of an estimate are distinct.
pub proof fn lemma_estimates_in_range(i: int, n: int, cyclic: bool)
    requires
        3 <= n <= usize::MAX,
        0 <= i < n,
    ensures
        ({
            let (a, b, c) = estimate_indices(tangent_estimate(i, n, cyclic));
            a < n && b < n && c < n && a != b && b != c && a != c
        }),
{
}

/// Every joint names segments of the section: the one that ends at the
/// control point and the one that starts there; only the two ends of an open
/// section lack one of them.
pub proof fn lemma_joints_match_segments(i: int, n: int, cyclic: bool)
    requires
        cyclic || 2 <= n,
        n <= usize::MAX,
        0 <= i < n,
    ensures
        match joint_at(i, n, cyclic).incoming {
            Some(s) => s < segment_count(n as nat, cyclic) && next_index(s as int, n) == i,
            None => !cyclic && i == 0,
        },
        match joint_at(i, n, cyclic).outgoing {
            Some(s) => s < segment_count(n as nat, cyclic) && s == i,
            None => !cyclic && i == n - 1,
        },
{
}

/// The last refinement pass of the Newton iteration; passes are counted from zero.
pub const MAX_REFINE_PASS: u32 = 20;

/// What the tangent solver does after a refinement pass.
#[derive(Clone, Copy, Debug, PartialEq, Eq, Structural)]
pub enum RefineAction {
    /// Stop and return the current tangents.
    Finish,
    /// Take the new tangents from this pass.
    Accept,
    /// Reject this pass and move the tangents halfway back to the previous ones.
    Backtrack,
}

pub open spec fn refine_action_spec(pass: u32, converged: bool, improved: bool) -> RefineAction {
    if converged || pass >= MAX_REFINE_PASS {
        RefineAction::Finish
    } else if pass == 0 || improved {
        RefineAction::Accept
    } else {
        RefineAction::Backtrack
    }
}

/// The solver's decision after pass `pass`: `converged` tells whether every
/// error was already small enough, `improved` whether the summed squared
/// error fell below that of the previous pass.
pub fn refine_action(pass: u32, converged: bool, improved: bool) -> (r: RefineAction)
    ensures
        r == refine_action_spec(pass, converged, improved),
{
    if converged || pass >= MAX_REFINE_PASS {
        RefineAction::Finish
    } else if pass == 0 || improved {
        RefineAction::Accept
    } else {
        RefineAction::Backtrack
    }
}

/// The tangent solver stops after at most `MAX_REFINE_PASS + 1` passes, and
/// never backtracks after its first pass.
pub proof fn lemma_refine_terminates(pass: u32, converged: bool, improved: bool)
    ensures
        pass >= MAX_REFINE_PASS ==> refine_action_spec(pass, converged, improved) == RefineAction::Finish,
        pass == 0 ==> refine_action_spec(pass, converged, improved) != RefineAction::Backtrack,
{
}

/// A section is one straight segment exactly when it has two control points;
/// with fewer it has no segment, and every section of three or more points
/// is fitted with Euler-spiral segments, so no point is dropped.
pub proof fn lemma_section_shape_by_count(n: usize)
    ensures
        (section_shape_spec(n) == SectionShape::Empty) <==> n < 2,
        (section_shape_spec(n) == SectionShape::Straight) <==> n == 2,
        (section_shape_spec(n) == SectionShape::Curved) <==> n >= 3,
        section_shape_spec(n) == SectionShape::Straight ==> segment_count(n as nat, false) == 1,
{
}

} // verus!
