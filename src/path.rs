use vstd::prelude::*;
use vstd::std_specs::cmp::PartialEqSpec;

use crate::ring::rings_view;

verus! {

/// One step of a drawn path.
#[derive(Debug, PartialEq, Eq)]
pub enum PathCommand<P> {
    /// Starts a new sub-path at the point.
    MoveTo(P),
    /// Adds a segment from the current point to the point.
    LineTo(P),
}

/// What a renderer does for one drawing request: the path to trace, then
/// whether to stroke it and whether to fill it.
pub struct DrawPlan<P> {
    pub commands: Vec<PathCommand<P>>,
    pub stroke: bool,
    pub fill: bool,
}

/// A segment to each point of `pts`, in order.
pub open spec fn line_tos<P>(pts: Seq<P>) -> Seq<PathCommand<P>> {
    pts.map_values(|p: P| PathCommand::LineTo(p))
}

/// The path through a non-empty point sequence: a move to the first point,
/// a segment to each further point, and, for three or more points, a
/// closing segment back to the first.
pub open spec fn ring_path<P>(pts: Seq<P>) -> Seq<PathCommand<P>>
    recommends
        pts.len() > 0,
{
    seq![PathCommand::MoveTo(pts[0])] + line_tos(pts.drop_first()) + if pts.len() >= 3 {
        seq![PathCommand::LineTo(pts[0])]
    } else {
        Seq::empty()
    }
}

/// The paths of several rings, one after the other.
pub open spec fn rings_path<P>(rings: Seq<Seq<P>>) -> Seq<PathCommand<P>>
    decreases rings.len(),
{
    if rings.len() == 0 {
        Seq::empty()
    } else {
        rings_path(rings.drop_last()) + ring_path(rings.last())
    }
}

/// Appends the path through the non-empty ring `pts` to `commands`.
fn push_ring_path<P: Copy>(commands: &mut Vec<PathCommand<P>>, pts: &Vec<P>)
    requires
        pts@.len() > 0,
    ensures
        final(commands)@ == old(commands)@ + ring_path(pts@),
{
    let start = pts[0];
    commands.push(PathCommand::MoveTo(start));
    let mut i: usize = 1;
    while i < pts.len()
        invariant
            1 <= i <= pts@.len(),
            commands@ == old(commands)@ + seq![PathCommand::MoveTo(pts@[0])] + line_tos(
                pts@.subrange(1, i as int),
            ),
        decreases pts@.len() - i,
    {
        commands.push(PathCommand::LineTo(pts[i]));
        proof {
            assert(pts@.subrange(1, i + 1) =~= pts@.subrange(1, i as int).push(pts@[i as int]));
            assert(line_tos(pts@.subrange(1, i + 1)) =~= line_tos(pts@.subrange(1, i as int)).push(
                PathCommand::LineTo(pts@[i as int]),
            ));
        }
        i += 1;
    }
    if pts.len() >= 3 {
        commands.push(PathCommand::LineTo(start));
    }
    proof {
        assert(pts@.subrange(1, pts@.len() as int) =~= pts@.drop_first());
        assert(final(commands)@ =~= old(commands)@ + ring_path(pts@));
    }
}

/// The drawing of a point sequence: nothing at all when it is empty;
/// otherwise its path, stroked (and filled when `fill` is set) only when it
/// has three or more points.
pub fn point_list_plan<P: Copy>(pts: &Vec<P>, fill: bool) -> (r: Option<DrawPlan<P>>)
    ensures
        pts@.len() == 0 <==> r is None,
        r matches Some(plan) ==> {
            &&& plan.commands@ == ring_path(pts@)
            &&& plan.stroke == (pts@.len() >= 3)
            &&& plan.fill == (fill && pts@.len() >= 3)
        },
{
    if pts.len() == 0 {
        return None;
    }
    let mut commands: Vec<PathCommand<P>> = Vec::new();
    push_ring_path(&mut commands, pts);
    proof {
        assert(commands@ =~= ring_path(pts@));
    }
    let closed = pts.len() >= 3;
    Some(DrawPlan { commands, stroke: closed, fill: fill && closed })
}

/// The drawing of several point sequences as one path: nothing at all when
/// there is none; otherwise the paths of all of them, stroked, and filled
/// when `fill` is set.
pub fn point_lists_plan<P: Copy>(rings: &Vec<Vec<P>>, fill: bool) -> (r: Option<DrawPlan<P>>)
    requires
        forall|k: int| 0 <= k < rings@.len() ==> #[trigger] rings@[k]@.len() > 0,
    ensures
        rings@.len() == 0 <==> r is None,
        r matches Some(plan) ==> {
            &&& plan.commands@ == rings_path(rings_view(rings@))
            &&& plan.stroke
            &&& plan.fill == fill
        },
{
    if rings.len() == 0 {
        return None;
    }
    let ghost views = rings_view(rings@);
    let mut commands: Vec<PathCommand<P>> = Vec::new();
    let mut i: usize = 0;
    while i < rings.len()
        invariant
            i <= rings@.len(),
            views == rings_view(rings@),
            forall|k: int| 0 <= k < rings@.len() ==> #[trigger] rings@[k]@.len() > 0,
            commands@ == rings_path(views.subrange(0, i as int)),
        decreases rings@.len() - i,
    {
        push_ring_path(&mut commands, &rings[i]);
        proof {
            assert(views.subrange(0, i + 1).drop_last() =~= views.subrange(0, i as int));
        }
        i += 1;
    }
    proof {
        assert(views.subrange(0, rings@.len() as int) =~= views);
    }
    Some(DrawPlan { commands, stroke: true, fill })
}

/// The segment back to `start` that closes a ring whose last traced point
/// `end` differs from it.
pub open spec fn closing<P: PartialEq>(start: P, end: P) -> Seq<PathCommand<P>> {
    if start.eq_spec(&end) {
        Seq::empty()
    } else {
        seq![PathCommand::LineTo(start)]
    }
}

/// Tracing an exterior ring: a move to its first point and segments to the
/// points strictly between its first and last. Also gives the ring's first
/// and last point, where `origin` stands in for a missing one.
pub open spec fn exterior_trace<P>(pts: Seq<P>, origin: P) -> (Seq<PathCommand<P>>, P, P) {
    if pts.len() == 0 {
        (Seq::empty(), origin, origin)
    } else if pts.len() == 1 {
        (seq![PathCommand::MoveTo(pts[0])], pts[0], origin)
    } else {
        (
            seq![PathCommand::MoveTo(pts[0])] + line_tos(pts.subrange(1, pts.len() - 1)),
            pts[0],
            pts.last(),
        )
    }
}

/// Tracing the hole rings after an exterior whose first and last points were
/// `start` and `end`: a segment to each point of a hole, then its closing
/// segment. A hole too short to have a first (or a last) point keeps the
/// previous one.
pub open spec fn holes_trace<P: PartialEq>(holes: Seq<Seq<P>>, start: P, end: P) -> (
    Seq<PathCommand<P>>,
    P,
    P,
)
    decreases holes.len(),
{
    if holes.len() == 0 {
        (Seq::empty(), start, end)
    } else {
        let (before, s0, e0) = holes_trace(holes.drop_last(), start, end);
        let pts = holes.last();
        let s = if pts.len() > 0 {
            pts[0]
        } else {
            s0
        };
        let e = if pts.len() > 1 {
            pts.last()
        } else {
            e0
        };
        (before + line_tos(pts) + closing(s, e), s, e)
    }
}

/// The path of a polygon with holes: the traced exterior and its closing
/// segment, then the traced holes.
pub open spec fn polygon_path<P: PartialEq>(exterior: Seq<P>, holes: Seq<Seq<P>>, origin: P) -> Seq<
    PathCommand<P>,
> {
    let (outer, start, end) = exterior_trace(exterior, origin);
    outer + closing(start, end) + holes_trace(holes, start, end).0
}

/// Appends the segment back to `start` unless `end` equals it.
fn push_closing<P: PartialEq + Copy>(commands: &mut Vec<PathCommand<P>>, start: P, end: P)
    ensures
        P::obeys_eq_spec() ==> final(commands)@ == old(commands)@ + closing(start, end),
{
    if start != end {
        commands.push(PathCommand::LineTo(start));
    }
    proof {
        if P::obeys_eq_spec() {
            assert(final(commands)@ =~= old(commands)@ + closing(start, end));
        }
    }
}

/// The drawing of a polygon with holes as one path, always stroked, and
/// filled when `fill` is set. The exterior ring is traced without its last
/// point and closed back to its first one when the two differ; each hole is
/// traced through all of its points and closed the same way. `origin` stands
/// in for the first and last point of an exterior ring too short to have
/// them.
pub fn polygon_plan<P: PartialEq + Copy>(exterior: &Vec<P>, holes: &Vec<Vec<P>>, origin: P, fill: bool) -> (r:
    DrawPlan<P>)
    ensures
        P::obeys_eq_spec() ==> r.commands@ == polygon_path(exterior@, rings_view(holes@), origin),
        r.stroke,
        r.fill == fill,
{
    let mut commands: Vec<PathCommand<P>> = Vec::new();
    let mut start = origin;
    let mut end = origin;
    let n = exterior.len();
    let mut i: usize = 0;
    while i < n
        invariant
            n == exterior@.len(),
            i <= n,
            i == 0 ==> commands@.len() == 0 && start == origin,
            i > 0 ==> commands@ == seq![PathCommand::MoveTo(exterior@[0])] + line_tos(
                exterior@.subrange(1, if i < n || n == 1 { i as int } else { n - 1 }),
            ) && start == exterior@[0],
            end == (if i == n && n > 1 { exterior@.last() } else { origin }),
        decreases n - i,
    {
        let pt = exterior[i];
        if i == 0 {
            start = pt;
            commands.push(PathCommand::MoveTo(start));
            proof {
                assert(exterior@.subrange(1, 1) =~= Seq::<P>::empty());
                assert(commands@ =~= seq![PathCommand::MoveTo(exterior@[0])] + line_tos(
                    exterior@.subrange(1, 1),
                ));
            }
        } else if i == n - 1 {
            end = pt;
        } else {
            commands.push(PathCommand::LineTo(pt));
            proof {
                assert(exterior@.subrange(1, i + 1) =~= exterior@.subrange(1, i as int).push(pt));
                assert(line_tos(exterior@.subrange(1, i + 1)) =~= line_tos(
                    exterior@.subrange(1, i as int),
                ).push(PathCommand::LineTo(pt)));
            }
        }
        i += 1;
    }
    proof {
        let (outer, s, e) = exterior_trace(exterior@, origin);
        if n == 1 {
            assert(exterior@.subrange(1, 1) =~= Seq::<P>::empty());
        }
        assert(commands@ =~= outer);
        assert(start == s && end == e);
    }
    push_closing(&mut commands, start, end);
    let ghost views = rings_view(holes@);
    let ghost head = commands@;
    let mut k: usize = 0;
    while k < holes.len()
        invariant
            k <= holes@.len(),
            views == rings_view(holes@),
            P::obeys_eq_spec() ==> {
                let (traced, s, e) = holes_trace(
                    views.subrange(0, k as int),
                    exterior_trace(exterior@, origin).1,
                    exterior_trace(exterior@, origin).2,
                );
                commands@ == head + traced && start == s && end == e
            },
        decreases holes@.len() - k,
    {
        let pts = &holes[k];
        let ghost before = commands@;
        let ghost s0 = start;
        let ghost e0 = end;
        let m = pts.len();
        let mut j: usize = 0;
        while j < m
            invariant
                m == pts@.len(),
                j <= m,
                commands@ == before + line_tos(pts@.subrange(0, j as int)),
                start == (if j > 0 { pts@[0] } else { s0 }),
                end == (if j == m && m > 1 { pts@.last() } else { e0 }),
            decreases m - j,
        {
            let pt = pts[j];
            commands.push(PathCommand::LineTo(pt));
            proof {
                assert(pts@.subrange(0, j + 1) =~= pts@.subrange(0, j as int).push(pt));
                assert(line_tos(pts@.subrange(0, j + 1)) =~= line_tos(
                    pts@.subrange(0, j as int),
                ).push(PathCommand::LineTo(pt)));
            }
            if j == 0 {
                start = pt;
            } else if j == m - 1 {
                end = pt;
            }
            j += 1;
        }
        push_closing(&mut commands, start, end);
        proof {
            assert(views.subrange(0, k + 1).drop_last() =~= views.subrange(0, k as int));
            assert(pts@.subrange(0, m as int) =~= pts@);
        }
        k += 1;
    }
    proof {
        assert(views.subrange(0, holes@.len() as int) =~= views);
    }
    DrawPlan { commands, stroke: true, fill }
}

} // verus!
