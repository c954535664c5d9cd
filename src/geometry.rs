use glam::Vec2;
use vstd::prelude::*;

verus! {

/// glam's `Vec2`, a 2D point, declared opaque: the library carries points
/// from clicks into curves and never reads their coordinates.
#[verifier::external_type_specification]
#[verifier::external_body]
pub struct ExVec2(Vec2);

/// One quadratic Bezier segment: start point `a`, control point `control`
/// and end point `c`.
#[derive(Clone, Copy, Debug, PartialEq)]
pub struct QuadCurve {
    pub a: Vec2,
    pub control: Vec2,
    pub c: Vec2,
}

impl QuadCurve {
    pub fn new(a: Vec2, control: Vec2, c: Vec2) -> (r: QuadCurve)
        ensures
            r == (QuadCurve { a, control, c }),
    {
        QuadCurve { a, control, c }
    }

    /// The index list of one curve's quad: two triangles over its four
    /// corners, `0, 1, 2` and `0, 2, 3`.
    pub fn indices() -> (r: Vec<u16>)
        ensures
            r@ == corner_order(),
    {
        let r: Vec<u16> = vec![0, 1, 2, 0, 2, 3];
        proof {
            assert(r@ =~= corner_order());
        }
        r
    }
}

/// Corner numbers of the two triangles that cover one curve's quad.
pub open spec fn corner_order() -> Seq<u16> {
    seq![0u16, 1u16, 2u16, 0u16, 2u16, 3u16]
}

/// The first vertex of curve `k` in the combined mesh: the running vertex
/// count `4 * k`, reduced to 16 bits as the index type holds it.
pub open spec fn vertex_base(k: nat) -> int {
    ((4 * k) % 65536) as int
}

/// The six indices of curve `k` in the combined mesh.
pub open spec fn curve_indices(k: nat) -> Seq<u16> {
    corner_order().map_values(|j: u16| (vertex_base(k) + j) as u16)
}

/// The index buffer of a path of `n` curves: each curve's indices, in order.
pub open spec fn index_buffer_of(n: nat) -> Seq<u16>
    decreases n,
{
    if n == 0 {
        Seq::empty()
    } else {
        index_buffer_of((n - 1) as nat) + curve_indices((n - 1) as nat)
    }
}

/// What a path is: the pending start point, the pending control point and the
/// committed curves.
pub struct PathView {
    pub last: Option<Vec2>,
    pub control: Option<Vec2>,
    pub curves: Seq<QuadCurve>,
}

impl PathView {
    /// The path after one click at `point`.
    pub open spec fn stroked(self, point: Vec2) -> PathView {
        match (self.last, self.control) {
            (Some(last), Some(control)) => PathView {
                last: Some(point),
                control: None,
                curves: self.curves.push(QuadCurve { a: last, control, c: point }),
            },
            (None, _) => PathView { last: Some(point), ..self },
            (Some(_), None) => PathView { control: Some(point), ..self },
        }
    }

    /// The path after an undo: the newest curve is taken back and its start
    /// and control points become pending again.
    pub open spec fn undone(self) -> PathView {
        if self.curves.len() > 0 {
            PathView {
                last: Some(self.curves.last().a),
                control: Some(self.curves.last().control),
                curves: self.curves.drop_last(),
            }
        } else {
            self
        }
    }
}

/// Where a path stands in its construction.
#[derive(Clone, Copy, Debug, PartialEq, Eq, Structural)]
pub enum Phase {
    /// No start point yet.
    Empty,
    /// A start point and no control point.
    HaveStart,
    /// A start point and a control point: the next click commits a curve.
    HaveControl,
}

/// A path of quadratic Bezier curves, built one click at a time.
pub struct BezierPath {
    pub last: Option<Vec2>,
    pub control: Option<Vec2>,
    pub curves: Vec<QuadCurve>,
}

impl View for BezierPath {
    type V = PathView;

    open spec fn view(&self) -> PathView {
        PathView { last: self.last, control: self.control, curves: self.curves@ }
    }
}

impl Default for BezierPath {
    fn default() -> (r: BezierPath)
        ensures
            r@ == (PathView { last: None, control: None, curves: Seq::empty() }),
    {
        BezierPath { last: None, control: None, curves: Vec::new() }
    }
}

impl BezierPath {
    /// Resets the path to empty.
    pub fn clear(&mut self)
        ensures
            final(self)@ == (PathView { last: None, control: None, curves: Seq::empty() }),
    {
        self.last = None;
        self.control = None;
        self.curves = Vec::new();
    }

    /// The construction phase, read off the pending points.
    pub fn phase(&self) -> (r: Phase)
        ensures
            r == (match (self.last, self.control) {
                (None, _) => Phase::Empty,
                (Some(_), None) => Phase::HaveStart,
                (Some(_), Some(_)) => Phase::HaveControl,
            }),
    {
        match (self.last, self.control) {
            (None, _) => Phase::Empty,
            (Some(_), None) => Phase::HaveStart,
            (Some(_), Some(_)) => Phase::HaveControl,
        }
    }

    /// One click at `point`: it sets the start point, else the control point,
    /// else commits the curve that ends there and starts the next one at it.
    pub fn stroke(&mut self, point: Vec2)
        ensures
            final(self)@ == old(self)@.stroked(point),
    {
        if let (Some(last), Some(control)) = (self.last, self.control) {
            self.curves.push(QuadCurve { a: last, control, c: point });
            self.last = Some(point);
            self.control = None;
        } else if self.last.is_none() {
            self.last = Some(point);
        } else if self.control.is_none() {
            self.control = Some(point);
        }
    }

    /// Takes back the newest curve, if any, and makes its start and control
    /// points pending again.
    pub fn undo(&mut self)
        ensures
            final(self)@ == old(self)@.undone(),
    {
        if let Some(curve) = self.curves.pop() {
            self.last = Some(curve.a);
            self.control = Some(curve.control);
        }
    }

    /// Starts a live preview of the curve that a click at `point` would
    /// commit: when a control point is pending, clicks there and returns
    /// true; otherwise leaves the path alone and returns false. The caller
    /// renders, then hands the result to `end_preview`.
    pub fn begin_preview(&mut self, point: Vec2) -> (r: bool)
        ensures
            r == old(self).control.is_some(),
            final(self)@ == (if r {
                old(self)@.stroked(point)
            } else {
                old(self)@
            }),
    {
        if self.control.is_some() {
            self.stroke(point);
            true
        } else {
            false
        }
    }

    /// Ends a live preview: undoes the click that `begin_preview` made when
    /// it returned `began`.
    pub fn end_preview(&mut self, began: bool)
        ensures
            final(self)@ == (if began {
                old(self)@.undone()
            } else {
                old(self)@
            }),
    {
        if began {
            self.undo();
        }
    }

    /// The index buffer that draws every committed curve as two triangles
    /// over its own four vertices.
    pub fn index_buffer(&self) -> (r: Vec<u16>)
        ensures
            r@ == index_buffer_of(self.curves@.len()),
            r@.len() == 6 * self.curves@.len(),
    {
        proof {
            lemma_index_buffer_len(self.curves@.len());
        }
        let mut indices: Vec<u16> = Vec::new();
        let n = self.curves.len();
        let mut k: usize = 0;
        while k < n
            invariant
                k <= n,
                n == self.curves@.len(),
                indices@ == index_buffer_of(k as nat),
            decreases n - k,
        {
            let ids = QuadCurve::indices();
            let base: u16 = ((k % 16384) * 4) as u16;
            proof {
                let q = k / 16384;
                assert(k == 16384 * q + k % 16384);
                assert(4 * k == 65536 * q + 4 * (k % 16384)) by (nonlinear_arith)
                    requires
                        k == 16384 * q + k % 16384,
                ;
                vstd::arithmetic::div_mod::lemma_fundamental_div_mod_converse(
                    4 * k as int,
                    65536,
                    q as int,
                    4 * (k % 16384) as int,
                );
            }
            let mut j: usize = 0;
            while j < ids.len()
                invariant
                    j <= ids@.len(),
                    ids@ == corner_order(),
                    base as int == vertex_base(k as nat),
                    indices@ == index_buffer_of(k as nat) + curve_indices(k as nat).take(j as int),
                decreases ids@.len() - j,
            {
                proof {
                    assert(ids@[j as int] <= 3);
                }
                indices.push(base + ids[j]);
                proof {
                    assert(curve_indices(k as nat).take(j as int + 1) =~= curve_indices(
                        k as nat,
                    ).take(j as int).push((base + ids@[j as int]) as u16));
                }
                j = j + 1;
            }
            proof {
                assert(curve_indices(k as nat).take(6) =~= curve_indices(k as nat));
            }
            k = k + 1;
        }
        indices
    }
}


/// A click followed by an undo leaves a path that has both a start and a
/// control point pending exactly as it was: this is what lets a caller show
/// the curve under the pointer before it is committed.
pub proof fn lemma_stroke_then_undo(path: PathView, point: Vec2)
    requires
        path.last.is_some(),
        path.control.is_some(),
    ensures
        path.stroked(point).undone() == path,
{
    let after = path.stroked(point);
    assert(after.curves.drop_last() =~= path.curves);
}

/// Clicks chain curves: from an empty path, the first two clicks only set the
/// start and control points, the third commits the curve through the three
/// points, and from then on every second click commits the next curve, which
/// starts where the previous one ended.
pub proof fn lemma_chained_construction(p0: Vec2, p1: Vec2, p2: Vec2, p3: Vec2, p4: Vec2)
    ensures
        ({
            let empty = PathView { last: None, control: None, curves: Seq::empty() };
            let two = empty.stroked(p0).stroked(p1);
            let three = two.stroked(p2);
            let four = three.stroked(p3);
            let five = four.stroked(p4);
            &&& two == (PathView { last: Some(p0), control: Some(p1), curves: Seq::empty() })
            &&& three == (PathView {
                last: Some(p2),
                control: None,
                curves: seq![QuadCurve { a: p0, control: p1, c: p2 }],
            })
            &&& four == (PathView { control: Some(p3), ..three })
            &&& five == (PathView {
                last: Some(p4),
                control: None,
                curves: seq![
                    QuadCurve { a: p0, control: p1, c: p2 },
                    QuadCurve { a: p2, control: p3, c: p4 },
                ],
            })
        }),
{
    let empty = PathView { last: None, control: None, curves: Seq::empty() };
    let three = empty.stroked(p0).stroked(p1).stroked(p2);
    assert(three.curves =~= seq![QuadCurve { a: p0, control: p1, c: p2 }]);
    let five = three.stroked(p3).stroked(p4);
    assert(five.curves =~= seq![
        QuadCurve { a: p0, control: p1, c: p2 },
        QuadCurve { a: p2, control: p3, c: p4 },
    ]);
}

/// The index buffer of `n` curves holds six indices per curve.
pub proof fn lemma_index_buffer_len(n: nat)
    ensures
        index_buffer_of(n).len() == 6 * n,
    decreases n,
{
    if n > 0 {
        lemma_index_buffer_len((n - 1) as nat);
    }
}

/// While every vertex number fits in 16 bits, the six indices of curve `k`
/// (those at positions `6 * k` to `6 * k + 5`) all lie in `[4 * k, 4 * k + 4)`:
/// each curve draws its own four vertices and no other.
pub proof fn lemma_index_buffer_ranges(n: nat)
    requires
        n <= 16384,
    ensures
        index_buffer_of(n).len() == 6 * n,
        forall|i: int|
            0 <= i < 6 * n ==> 4 * (i / 6) <= #[trigger] index_buffer_of(n)[i] < 4 * (i / 6) + 4,
    decreases n,
{
    lemma_index_buffer_len(n);
    if n > 0 {
        let m = (n - 1) as nat;
        lemma_index_buffer_ranges(m);
        assert((4 * m) % 65536 == 4 * m);
        assert forall|i: int| 0 <= i < 6 * n implies 4 * (i / 6) <= #[trigger] index_buffer_of(
            n,
        )[i] < 4 * (i / 6) + 4 by {
            if i < 6 * m {
                assert(index_buffer_of(n)[i] == index_buffer_of(m)[i]);
            } else {
                let j = i - 6 * m;
                assert(i / 6 == m) by (nonlinear_arith)
                    requires
                        6 * m <= i < 6 * m + 6,
                ;
                assert(index_buffer_of(n)[i] == curve_indices(m)[j]);
                assert(corner_order()[j] <= 3);
            }
        }
    }
}


/// A live preview leaves a path with a pending start point exactly as it
/// was: `begin_preview` followed by `end_preview` with its result changes
/// nothing.
pub proof fn lemma_preview_leaves_path(path: PathView, point: Vec2)
    requires
        path.last.is_some() || path.control.is_none(),
    ensures
        ({
            let began = path.control.is_some();
            let shown = if began {
                path.stroked(point)
            } else {
                path
            };
            (if began {
                shown.undone()
            } else {
                shown
            }) == path
        }),
{
    if path.control.is_some() {
        lemma_stroke_then_undo(path, point);
    }
}

} // verus!
