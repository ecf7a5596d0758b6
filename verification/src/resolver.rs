//! The directional focus resolver.
//!
//! Given a direction, the registered nodes and the currently focused node,
//! pick the node that should receive focus next. Every direction is mapped
//! onto one canonical "move downward" case by a coordinate transform: Down is
//! the identity, Up negates both axes, and Left and Right transpose the axes
//! (with negation for Left) rather than rotating them — deliberately, so
//! that, when nothing is focused yet, Left picks a starting node the way Up
//! does and Right the way Down does.
//!
//! In transformed space, candidates are the nodes whose top edge is not above
//! the focused node's bottom edge. Among them the resolver keeps the first
//! node that minimizes a two-tier key: candidates whose vertical span is
//! disjoint from the incumbent's compare by horizontal drift alone, all
//! others by the sum of vertical gap and horizontal drift. This favors nodes
//! that are close in the movement direction and horizontally aligned, while
//! still allowing a "closest corridor" fallback.

use vstd::prelude::*;

use crate::registry::{NodeEntry, NodeRegistry, Rect, reg_find};

verus! {

/// A direction the focus can be moved in.
#[derive(Clone, Copy, PartialEq, Eq, Structural, Debug)]
pub enum NavDirection {
    Up,
    Down,
    Left,
    Right,
}

/// A rectangle after the direction's coordinate transform, with exact
/// (unbounded) coordinates.
pub ghost struct TRect {
    pub min_x: int,
    pub min_y: int,
    pub max_x: int,
    pub max_y: int,
}

/// The transformed horizontal coordinate of a point.
pub open spec fn transform_x(dir: NavDirection, x: int, y: int) -> int {
    match dir {
        NavDirection::Down => x,
        NavDirection::Up => -x,
        NavDirection::Left => -y,
        NavDirection::Right => y,
    }
}

/// The transformed vertical coordinate of a point.
pub open spec fn transform_y(dir: NavDirection, x: int, y: int) -> int {
    match dir {
        NavDirection::Down => y,
        NavDirection::Up => -y,
        NavDirection::Left => -x,
        NavDirection::Right => x,
    }
}

/// Transform a rectangle by transforming its two corners and re-ordering
/// them.
pub open spec fn transform_rect(dir: NavDirection, r: Rect) -> TRect {
    let ax = transform_x(dir, r.min_x as int, r.min_y as int);
    let ay = transform_y(dir, r.min_x as int, r.min_y as int);
    let bx = transform_x(dir, r.max_x as int, r.max_y as int);
    let by = transform_y(dir, r.max_x as int, r.max_y as int);
    TRect {
        min_x: if ax <= bx {
            ax
        } else {
            bx
        },
        min_y: if ay <= by {
            ay
        } else {
            by
        },
        max_x: if ax <= bx {
            bx
        } else {
            ax
        },
        max_y: if ay <= by {
            by
        } else {
            ay
        },
    }
}

/// How a candidate compares against the focused rectangle in transformed
/// space: its vertical gap below the focused bottom edge (`min_y`, `max_y`
/// for its two edges) and its horizontal drift (zero when the rectangles
/// overlap horizontally, else the smaller gap between them).
pub ghost struct CandInfo {
    pub min_y: int,
    pub max_y: int,
    pub x_drift: int,
}

/// Whether a transformed rectangle is a candidate: its top edge must not lie
/// above the focused rectangle's bottom edge.
pub open spec fn is_candidate(f: TRect, c: TRect) -> bool {
    c.min_y - f.max_y >= 0
}

/// The comparison data of a candidate.
pub open spec fn cand_info(f: TRect, c: TRect) -> CandInfo {
    CandInfo {
        min_y: c.min_y - f.max_y,
        max_y: c.max_y - f.max_y,
        x_drift: if f.max_x < c.min_x {
            c.max_x - f.min_x
        } else if c.max_x < f.min_x {
            f.max_x - c.min_x
        } else {
            0
        },
    }
}

/// Whether candidate `a` strictly beats candidate `b`: with disjoint
/// vertical spans, by horizontal drift alone; otherwise by vertical gap plus
/// horizontal drift.
pub open spec fn prefer(a: CandInfo, b: CandInfo) -> bool {
    if a.max_y < b.min_y && b.max_y < a.min_y {
        a.x_drift < b.x_drift
    } else {
        a.min_y + a.x_drift < b.min_y + b.x_drift
    }
}

/// Fold one entry into the running best candidate: the focused node itself
/// and non-candidates are skipped, and an earlier winner is kept unless the
/// new candidate is strictly preferred.
pub open spec fn cand_step(
    acc: Option<(u64, CandInfo)>,
    e: NodeEntry,
    dir: NavDirection,
    fid: u64,
    f: TRect,
) -> Option<(u64, CandInfo)> {
    if e.id == fid || !is_candidate(f, transform_rect(dir, e.rect)) {
        acc
    } else {
        let info = cand_info(f, transform_rect(dir, e.rect));
        match acc {
            None => Some((e.id, info)),
            Some((_, best)) => if prefer(info, best) {
                Some((e.id, info))
            } else {
                acc
            },
        }
    }
}

/// The best candidate among the entries from index `i` on, folded over the
/// registration order with `acc` as the running best.
pub open spec fn best_from(
    s: Seq<NodeEntry>,
    i: int,
    acc: Option<(u64, CandInfo)>,
    dir: NavDirection,
    fid: u64,
    f: TRect,
) -> Option<(u64, CandInfo)>
    decreases s.len() - i,
{
    if i < 0 || i >= s.len() {
        acc
    } else {
        best_from(s, i + 1, cand_step(acc, s[i], dir, fid, f), dir, fid, f)
    }
}

/// Fold one entry into the running pick for the "nothing focused" case: the
/// node whose transformed top-left corner is smallest, top edge first, then
/// left edge; the earliest registered of several equal nodes wins.
pub open spec fn first_step(acc: Option<(u64, int, int)>, e: NodeEntry, dir: NavDirection) -> Option<
    (u64, int, int),
> {
    let t = transform_rect(dir, e.rect);
    match acc {
        None => Some((e.id, t.min_y, t.min_x)),
        Some((_, by, bx)) => if t.min_y < by || (t.min_y == by && t.min_x < bx) {
            Some((e.id, t.min_y, t.min_x))
        } else {
            acc
        },
    }
}

/// The starting node among the entries from index `i` on.
pub open spec fn first_from(
    s: Seq<NodeEntry>,
    i: int,
    acc: Option<(u64, int, int)>,
    dir: NavDirection,
) -> Option<(u64, int, int)>
    decreases s.len() - i,
{
    if i < 0 || i >= s.len() {
        acc
    } else {
        first_from(s, i + 1, first_step(acc, s[i], dir), dir)
    }
}

/// Where a directional command moves the focus:
/// - with no node focused, to the topmost-then-leftmost node in transformed
///   space, or nowhere when no node is registered;
/// - with a focused node that is still registered, to the best candidate, or
///   nowhere when no candidate exists;
/// - with a focused node that is missing from the registry, back to that
///   same node: stale focus never moves and never fails.
pub open spec fn resolve_spec(s: Seq<NodeEntry>, dir: NavDirection, focus: Option<u64>) -> Option<
    u64,
> {
    match focus {
        Some(fid) => match reg_find(s, fid) {
            Some(fe) => match best_from(s, 0, None, dir, fid, transform_rect(dir, fe.rect)) {
                Some((id, _)) => Some(id),
                None => None,
            },
            None => Some(fid),
        },
        None => match first_from(s, 0, None, dir) {
            Some((id, _, _)) => Some(id),
            None => None,
        },
    }
}

/// Transform a rectangle in executable code. Coordinates come from `i32`
/// space, so every transformed coordinate fits comfortably in `i64`.
fn transform_rect_exec(dir: NavDirection, r: Rect) -> (t: (i64, i64, i64, i64))
    ensures
        ({
            let tr = transform_rect(dir, r);
            t.0 == tr.min_x && t.1 == tr.min_y && t.2 == tr.max_x && t.3 == tr.max_y
        }),
        -0x8000_0000 <= t.0 <= 0x8000_0000,
        -0x8000_0000 <= t.1 <= 0x8000_0000,
        -0x8000_0000 <= t.2 <= 0x8000_0000,
        -0x8000_0000 <= t.3 <= 0x8000_0000,
{
    let (ax, ay, bx, by): (i64, i64, i64, i64) = match dir {
        NavDirection::Down => (r.min_x as i64, r.min_y as i64, r.max_x as i64, r.max_y as i64),
        NavDirection::Up => (
            -(r.min_x as i64),
            -(r.min_y as i64),
            -(r.max_x as i64),
            -(r.max_y as i64),
        ),
        NavDirection::Left => (
            -(r.min_y as i64),
            -(r.min_x as i64),
            -(r.max_y as i64),
            -(r.max_x as i64),
        ),
        NavDirection::Right => (r.min_y as i64, r.min_x as i64, r.max_y as i64, r.max_x as i64),
    };
    let (min_x, max_x) = if ax <= bx {
        (ax, bx)
    } else {
        (bx, ax)
    };
    let (min_y, max_y) = if ay <= by {
        (ay, by)
    } else {
        (by, ay)
    };
    (min_x, min_y, max_x, max_y)
}

/// Resolve a directional command against the registry.
pub fn resolve(reg: &NodeRegistry, dir: NavDirection, focus: Option<u64>) -> (r: Option<u64>)
    ensures
        r == resolve_spec(reg@, dir, focus),
{
    match focus {
        Some(fid) => {
            let fe = match reg.find(fid) {
                Some(fe) => fe,
                None => {
                    return Some(fid);
                },
            };
            let (fmin_x, fmin_y, fmax_x, fmax_y) = transform_rect_exec(dir, fe.rect);
            let ghost f = transform_rect(dir, fe.rect);
            let n = reg.len();
            let mut best: Option<(u64, i64, i64, i64)> = None;
            let mut i: usize = 0;
            while i < n
                invariant
                    n == reg@.len(),
                    i <= n,
                    f == transform_rect(dir, fe.rect),
                    fmin_x == f.min_x && fmin_y == f.min_y && fmax_x == f.max_x && fmax_y
                        == f.max_y,
                    -0x8000_0000 <= fmin_x <= 0x8000_0000,
                    -0x8000_0000 <= fmin_y <= 0x8000_0000,
                    -0x8000_0000 <= fmax_x <= 0x8000_0000,
                    -0x8000_0000 <= fmax_y <= 0x8000_0000,
                    best_from(reg@, 0, None, dir, fid, f) == best_from(
                        reg@,
                        i as int,
                        cand_acc(best),
                        dir,
                        fid,
                        f,
                    ),
                    match best {
                        Some((_, a, b, c)) => -0x2_0000_0000 <= a <= 0x2_0000_0000 && -0x2_0000_0000
                            <= b <= 0x2_0000_0000 && -0x2_0000_0000 <= c <= 0x2_0000_0000,
                        None => true,
                    },
                decreases n - i,
            {
                let e = reg.entry_at(i);
                if e.id != fid {
                    let (cmin_x, cmin_y, cmax_x, cmax_y) = transform_rect_exec(dir, e.rect);
                    let min_y = cmin_y - fmax_y;
                    if min_y >= 0 {
                        let max_y = cmax_y - fmax_y;
                        let x_drift = if fmax_x < cmin_x {
                            cmax_x - fmin_x
                        } else if cmax_x < fmin_x {
                            fmax_x - cmin_x
                        } else {
                            0
                        };
                        proof {
                            assert(cand_info(f, transform_rect(dir, e.rect)) == (CandInfo {
                                min_y: min_y as int,
                                max_y: max_y as int,
                                x_drift: x_drift as int,
                            }));
                        }
                        match best {
                            None => {
                                best = Some((e.id, min_y, max_y, x_drift));
                            },
                            Some((_, bmin_y, bmax_y, bx_drift)) => {
                                let better = if max_y < bmin_y && bmax_y < min_y {
                                    x_drift < bx_drift
                                } else {
                                    min_y + x_drift < bmin_y + bx_drift
                                };
                                if better {
                                    best = Some((e.id, min_y, max_y, x_drift));
                                }
                            },
                        }
                    }
                }
                i = i + 1;
            }
            match best {
                Some((id, _, _, _)) => Some(id),
                None => None,
            }
        },
        None => {
            let n = reg.len();
            let mut best: Option<(u64, i64, i64)> = None;
            let mut i: usize = 0;
            while i < n
                invariant
                    n == reg@.len(),
                    i <= n,
                    first_from(reg@, 0, None, dir) == first_from(reg@, i as int, first_acc(best), dir),
                decreases n - i,
            {
                let e = reg.entry_at(i);
                let (tmin_x, tmin_y, _, _) = transform_rect_exec(dir, e.rect);
                match best {
                    None => {
                        best = Some((e.id, tmin_y, tmin_x));
                    },
                    Some((_, by, bx)) => {
                        if tmin_y < by || (tmin_y == by && tmin_x < bx) {
                            best = Some((e.id, tmin_y, tmin_x));
                        }
                    },
                }
                i = i + 1;
            }
            match best {
                Some((id, _, _)) => Some(id),
                None => None,
            }
        },
    }
}

/// The spec-level running best that an executable best tuple stands for.
pub open spec fn cand_acc(best: Option<(u64, i64, i64, i64)>) -> Option<(u64, CandInfo)> {
    match best {
        None => None,
        Some((id, a, b, c)) => Some(
            (id, CandInfo { min_y: a as int, max_y: b as int, x_drift: c as int }),
        ),
    }
}

/// The spec-level running pick that an executable pick tuple stands for.
pub open spec fn first_acc(best: Option<(u64, i64, i64)>) -> Option<(u64, int, int)> {
    match best {
        None => None,
        Some((id, y, x)) => Some((id, y as int, x as int)),
    }
}

/// Whatever the fold answers, it answers with a genuine candidate: either
/// the running best it started from, or a registered node other than the
/// focused one that lies in the movement direction.
pub proof fn lemma_best_from_membership(
    s: Seq<NodeEntry>,
    i: int,
    acc: Option<(u64, CandInfo)>,
    dir: NavDirection,
    fid: u64,
    f: TRect,
)
    ensures
        match best_from(s, i, acc, dir, fid, f) {
            Some((id, info)) => (acc matches Some((aid, ainfo)) && aid == id && ainfo == info)
                || exists|j: int|
                #![auto]
                i <= j < s.len() && s[j].id == id && id != fid && is_candidate(
                    f,
                    transform_rect(dir, s[j].rect),
                ) && info == cand_info(f, transform_rect(dir, s[j].rect)),
            None => acc is None,
        },
    decreases s.len() - i,
{
    if i < 0 || i >= s.len() {
    } else {
        lemma_best_from_membership(s, i + 1, cand_step(acc, s[i], dir, fid, f), dir, fid, f);
    }
}

/// The same for the starting pick: the answer is the running pick or a
/// registered node.
pub proof fn lemma_first_from_membership(
    s: Seq<NodeEntry>,
    i: int,
    acc: Option<(u64, int, int)>,
    dir: NavDirection,
)
    ensures
        match first_from(s, i, acc, dir) {
            Some((id, y, x)) => (acc matches Some((aid, ay, ax)) && aid == id && ay == y && ax == x)
                || exists|j: int| #![auto] i <= j < s.len() && s[j].id == id,
            None => acc is None,
        },
    decreases s.len() - i,
{
    if i < 0 || i >= s.len() {
    } else {
        lemma_first_from_membership(s, i + 1, first_step(acc, s[i], dir), dir);
    }
}

/// Resolving against an empty registry finds no target, whatever direction
/// is pressed; with a stale focused node it answers that same node, so focus
/// never moves on stale state.
pub proof fn lemma_resolve_empty(s: Seq<NodeEntry>, dir: NavDirection, focus: Option<u64>)
    requires
        s.len() == 0,
    ensures
        resolve_spec(s, dir, focus) == (match focus {
            Some(fid) => Some(fid),
            None => None::<u64>,
        }),
{
}

/// With a focused, registered node, the focus only ever moves to another
/// registered node that lies in the pressed direction: in transformed
/// space, the target's top edge is not above the focused node's bottom
/// edge.
pub proof fn lemma_resolve_moves_in_direction(s: Seq<NodeEntry>, dir: NavDirection, fid: u64)
    requires
        reg_find(s, fid) is Some,
    ensures
        match resolve_spec(s, dir, Some(fid)) {
            Some(id) => id != fid && exists|j: int|
                #![auto]
                0 <= j < s.len() && s[j].id == id && is_candidate(
                    transform_rect(dir, (reg_find(s, fid)->0).rect),
                    transform_rect(dir, s[j].rect),
                ),
            None => true,
        },
{
    let fe = reg_find(s, fid)->0;
    lemma_best_from_membership(s, 0, None, dir, fid, transform_rect(dir, fe.rect));
}

/// A resolved target other than a stale focus is always a registered node,
/// and never the focused node itself.
pub proof fn lemma_resolve_in_registry(s: Seq<NodeEntry>, dir: NavDirection, focus: Option<u64>)
    ensures
        match resolve_spec(s, dir, focus) {
            Some(id) => (focus == Some(id) && reg_find(s, id) is None) || exists|j: int|
                #![auto]
                0 <= j < s.len() && s[j].id == id && focus != Some(id),
            None => true,
        },
{
    match focus {
        Some(fid) => {
            match reg_find(s, fid) {
                Some(fe) => {
                    lemma_best_from_membership(s, 0, None, dir, fid, transform_rect(dir, fe.rect));
                },
                None => {},
            }
        },
        None => {
            lemma_first_from_membership(s, 0, None, dir);
        },
    }
}

} // verus!
