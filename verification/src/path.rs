//! Path objects and the command-stream iteration protocol.
//!
//! A path is a finite sequence of drawing commands. Each command is a
//! tag together with the points the tag mandates: the point count is a
//! function of the tag alone, and every element a path hands out obeys
//! it. Construction from a rectangle yields the documented five-command
//! stream; iteration hands a borrowed view of each command, in order, to
//! a caller-supplied closure.

use vstd::prelude::*;

use crate::geometry::CGAffineTransform;
use crate::geometry::CGPoint;
use crate::geometry::CGRect;
use crate::geometry::in_i64;
use crate::geometry::transformed_x;
use crate::geometry::transformed_y;
use core_foundation::base::CFTypeID;

verus! {

/// The tag of one drawing command.
#[derive(Clone, Copy, PartialEq, Eq, Structural, Debug)]
pub enum CGPathElementType {
    /// Begin a new subpath at a point.
    MoveToPoint,
    /// A straight segment to a point.
    AddLineToPoint,
    /// A quadratic curve, given by a control point and an end point.
    AddQuadCurveToPoint,
    /// A cubic curve, given by two control points and an end point.
    AddCurveToPoint,
    /// Close the current subpath.
    CloseSubpath,
}

/// The number of points each tag carries. The tag alone determines it.
pub open spec fn point_count(t: CGPathElementType) -> nat {
    match t {
        CGPathElementType::MoveToPoint => 1,
        CGPathElementType::AddLineToPoint => 1,
        CGPathElementType::AddQuadCurveToPoint => 2,
        CGPathElementType::AddCurveToPoint => 3,
        CGPathElementType::CloseSubpath => 0,
    }
}

/// The mathematical value of one drawing command: a tag and the points
/// it carries.
#[verifier::ext_equal]
pub ghost struct ElementModel {
    pub element_type: CGPathElementType,
    pub points: Seq<CGPoint>,
}

/// A command model is well formed when it carries exactly the points its
/// tag mandates.
pub open spec fn model_wf(m: ElementModel) -> bool {
    m.points.len() == point_count(m.element_type)
}

/// One drawing command of a path: a tag and its points.
#[derive(Debug)]
pub struct CGPathElement {
    pub element_type: CGPathElementType,
    points: Vec<CGPoint>,
}

impl View for CGPathElement {
    type V = ElementModel;

    closed spec fn view(&self) -> ElementModel {
        ElementModel { element_type: self.element_type, points: self.points@ }
    }
}

impl CGPathElement {
    /// Whether this element carries exactly the points its tag mandates.
    pub open spec fn wf(self) -> bool {
        model_wf(self@)
    }

    /// Builds an element from a tag and the points the tag mandates.
    pub fn new(element_type: CGPathElementType, points: Vec<CGPoint>) -> (e: CGPathElement)
        requires
            points@.len() == point_count(element_type),
        ensures
            e@ == (ElementModel { element_type, points: points@ }),
            e.wf(),
    {
        CGPathElement { element_type, points }
    }

    /// The tag of this command.
    pub fn tag(&self) -> (t: CGPathElementType)
        ensures
            t == self@.element_type,
    {
        self.element_type
    }

    /// The points of this command. Their number is exactly what the tag
    /// mandates: never more, never fewer.
    pub fn points(&self) -> (r: &[CGPoint])
        requires
            self.wf(),
        ensures
            r@ == self@.points,
            r@.len() == point_count(self@.element_type),
    {
        self.points.as_slice()
    }
}

impl Clone for CGPathElement {
    fn clone(&self) -> (r: Self)
        ensures
            r@ == self@,
    {
        let r = CGPathElement {
            element_type: self.element_type,
            points: clone_points(&self.points),
        };
        proof {
            assert(r@ =~= self@);
        }
        r
    }
}

fn clone_points(v: &Vec<CGPoint>) -> (r: Vec<CGPoint>)
    ensures
        r@ == v@,
{
    let mut r: Vec<CGPoint> = Vec::new();
    let mut i: usize = 0;
    while i < v.len()
        invariant
            i <= v@.len(),
            r@ == v@.take(i as int),
        decreases v@.len() - i,
    {
        r.push(v[i]);
        proof {
            assert(r@ =~= v@.take(i as int + 1));
        }
        i = i + 1;
    }
    proof {
        assert(v@.take(v@.len() as int) =~= v@);
    }
    r
}

/// A borrowed, type-tagged view over one foreign-owned command, valid
/// only while the iteration that handed it out is running.
#[derive(Clone, Copy)]
pub struct CGPathElementRef<'a> {
    element: &'a CGPathElement,
}

impl<'a> View for CGPathElementRef<'a> {
    type V = ElementModel;

    closed spec fn view(&self) -> ElementModel {
        self.element@
    }
}

impl<'a> CGPathElementRef<'a> {
    /// Wraps a borrowed command element.
    pub fn new(element: &'a CGPathElement) -> (r: CGPathElementRef<'a>)
        ensures
            r@ == element@,
            r.wf() == element.wf(),
    {
        CGPathElementRef { element }
    }

    /// Whether the viewed element carries exactly the points its tag
    /// mandates.
    pub open spec fn wf(self) -> bool {
        model_wf(self@)
    }

    /// The borrowed element itself.
    pub fn get(&self) -> (r: &'a CGPathElement)
        ensures
            r@ == self@,
            r.wf() == self.wf(),
    {
        self.element
    }
}

/// The x coordinate of corner `k` of a rectangle, in the order the
/// rectangle path visits the corners: the origin, then along the width,
/// the far corner, then along the height.
pub open spec fn rect_corner_x(rect: CGRect, k: int) -> int {
    if k == 1 || k == 2 {
        rect.origin.x + rect.size.width
    } else {
        rect.origin.x as int
    }
}

/// The y coordinate of corner `k` of a rectangle.
pub open spec fn rect_corner_y(rect: CGRect, k: int) -> int {
    if k == 2 || k == 3 {
        rect.origin.y + rect.size.height
    } else {
        rect.origin.y as int
    }
}

/// The optional transform argument of `from_rect`, as a value.
pub open spec fn opt_transform(t: Option<&CGAffineTransform>) -> Option<CGAffineTransform> {
    match t {
        Option::None => Option::None,
        Option::Some(tt) => Option::Some(*tt),
    }
}

/// The x coordinate of corner `k` after the optional transform.
pub open spec fn path_point_x(rect: CGRect, t: Option<CGAffineTransform>, k: int) -> int {
    match t {
        Option::None => rect_corner_x(rect, k),
        Option::Some(tt) => transformed_x(tt, rect_corner_x(rect, k), rect_corner_y(rect, k)),
    }
}

/// The y coordinate of corner `k` after the optional transform.
pub open spec fn path_point_y(rect: CGRect, t: Option<CGAffineTransform>, k: int) -> int {
    match t {
        Option::None => rect_corner_y(rect, k),
        Option::Some(tt) => transformed_y(tt, rect_corner_x(rect, k), rect_corner_y(rect, k)),
    }
}

/// Whether corner `k` stays within the machine coordinate range, both as
/// written in the rectangle and after the optional transform.
pub open spec fn corner_fits(rect: CGRect, t: Option<CGAffineTransform>, k: int) -> bool {
    &&& in_i64(rect_corner_x(rect, k))
    &&& in_i64(rect_corner_y(rect, k))
    &&& in_i64(path_point_x(rect, t, k))
    &&& in_i64(path_point_y(rect, t, k))
}

/// Whether the whole rectangle path stays within the machine coordinate
/// range.
pub open spec fn rect_path_fits(rect: CGRect, t: Option<CGAffineTransform>) -> bool {
    forall|k: int| 0 <= k < 4 ==> #[trigger] corner_fits(rect, t, k)
}

/// Corner `k` after the optional transform, as a machine point.
pub open spec fn path_point(rect: CGRect, t: Option<CGAffineTransform>, k: int) -> CGPoint {
    CGPoint { x: path_point_x(rect, t, k) as i64, y: path_point_y(rect, t, k) as i64 }
}

/// The five-command stream of a rectangle path: one move to the first
/// corner, one line to each of the other three corners in order, and one
/// close of the subpath.
pub open spec fn rect_path_model(rect: CGRect, t: Option<CGAffineTransform>) -> Seq<
    ElementModel,
> {
    seq![
        ElementModel {
            element_type: CGPathElementType::MoveToPoint,
            points: seq![path_point(rect, t, 0)],
        },
        ElementModel {
            element_type: CGPathElementType::AddLineToPoint,
            points: seq![path_point(rect, t, 1)],
        },
        ElementModel {
            element_type: CGPathElementType::AddLineToPoint,
            points: seq![path_point(rect, t, 2)],
        },
        ElementModel {
            element_type: CGPathElementType::AddLineToPoint,
            points: seq![path_point(rect, t, 3)],
        },
        ElementModel { element_type: CGPathElementType::CloseSubpath, points: Seq::empty() },
    ]
}

/// Every element of a rectangle path is well formed, the stream has
/// exactly five commands with the tags move, line, line, line, close and
/// the point counts one, one, one, one, zero, and the first point is the
/// rectangle's origin corner after the optional transform.
pub proof fn lemma_rect_path_model_shape(rect: CGRect, t: Option<CGAffineTransform>)
    ensures
        rect_path_model(rect, t).len() == 5,
        forall|i: int|
            0 <= i < 5 ==> model_wf(#[trigger] rect_path_model(rect, t)[i]),
        rect_path_model(rect, t)[0].element_type == CGPathElementType::MoveToPoint,
        rect_path_model(rect, t)[1].element_type == CGPathElementType::AddLineToPoint,
        rect_path_model(rect, t)[2].element_type == CGPathElementType::AddLineToPoint,
        rect_path_model(rect, t)[3].element_type == CGPathElementType::AddLineToPoint,
        rect_path_model(rect, t)[4].element_type == CGPathElementType::CloseSubpath,
        rect_path_model(rect, t)[0].points == seq![path_point(rect, t, 0)],
{
}

/// A handle to one path object, the owner of a command stream.
///
/// In the foreign runtime a handle owns exactly one reference-count
/// increment on a shared path object; the discipline of those increments
/// and decrements is stated and proved in the refcount module. The
/// object itself is immutable once built, so its observable value is its
/// command stream, and that stream is what a handle carries here.
/// Cloning a handle yields a second, independently droppable view of the
/// same stream.
pub struct CGPath {
    elements: Vec<CGPathElement>,
}

impl View for CGPath {
    type V = Seq<ElementModel>;

    closed spec fn view(&self) -> Seq<ElementModel> {
        self.elements@.map_values(|e: CGPathElement| e@)
    }
}

impl CGPath {
    #[verifier::type_invariant]
    spec fn inv(self) -> bool {
        forall|i: int|
            0 <= i < self.elements@.len() ==> model_wf(#[trigger] self.elements@[i]@)
    }

    /// The empty path: a stream of no commands.
    pub fn empty() -> (p: CGPath)
        ensures
            p@ == Seq::<ElementModel>::empty(),
    {
        let p = CGPath { elements: Vec::new() };
        proof {
            assert(p@ =~= Seq::<ElementModel>::empty());
        }
        p
    }

    /// Builds a path from a command stream whose elements all carry the
    /// points their tags mandate.
    pub fn from_elements(elements: Vec<CGPathElement>) -> (p: CGPath)
        requires
            forall|i: int| 0 <= i < elements@.len() ==> (#[trigger] elements@[i]).wf(),
        ensures
            p@ == elements@.map_values(|e: CGPathElement| e@),
    {
        CGPath { elements }
    }

    /// Builds the path of a rectangle, optionally transformed: a move to
    /// the rectangle's origin corner, a line to each of the three other
    /// corners in a fixed order, and a close of the subpath. The foreign
    /// allocator defines no failure for this call, and none is modelled;
    /// the one machine limit is that the corners fit the coordinate
    /// range.
    pub fn from_rect(rect: CGRect, transform: Option<&CGAffineTransform>) -> (p: CGPath)
        requires
            rect_path_fits(rect, opt_transform(transform)),
        ensures
            p@ == rect_path_model(rect, opt_transform(transform)),
    {
        let ghost t = opt_transform(transform);
        let c0 = Self::corner_point(rect, transform, 0);
        let c1 = Self::corner_point(rect, transform, 1);
        let c2 = Self::corner_point(rect, transform, 2);
        let c3 = Self::corner_point(rect, transform, 3);
        let mut elements: Vec<CGPathElement> = Vec::new();
        elements.push(CGPathElement::new(CGPathElementType::MoveToPoint, one_point(c0)));
        elements.push(CGPathElement::new(CGPathElementType::AddLineToPoint, one_point(c1)));
        elements.push(CGPathElement::new(CGPathElementType::AddLineToPoint, one_point(c2)));
        elements.push(CGPathElement::new(CGPathElementType::AddLineToPoint, one_point(c3)));
        elements.push(CGPathElement::new(CGPathElementType::CloseSubpath, Vec::new()));
        let p = CGPath { elements };
        proof {
            assert(p@ =~~= rect_path_model(rect, t));
        }
        p
    }

    /// Computes corner `k` of the rectangle path, transformed when a
    /// transform is given.
    fn corner_point(rect: CGRect, transform: Option<&CGAffineTransform>, k: usize) -> (q: CGPoint)
        requires
            k < 4,
            rect_path_fits(rect, opt_transform(transform)),
        ensures
            q == path_point(rect, opt_transform(transform), k as int),
    {
        proof {
            assert(corner_fits(rect, opt_transform(transform), k as int));
        }
        let x: i64 = if k == 1 || k == 2 {
            rect.origin.x + rect.size.width
        } else {
            rect.origin.x
        };
        let y: i64 = if k == 2 || k == 3 {
            rect.origin.y + rect.size.height
        } else {
            rect.origin.y
        };
        match transform {
            Option::None => CGPoint { x, y },
            Option::Some(t) => t.apply_to_point(CGPoint { x, y }),
        }
    }

    /// The process-wide type identifier of the path class. Within one
    /// process every call returns the same value.
    pub fn type_id() -> (r: CFTypeID)
        ensures
            r == spec_type_id(),
    {
        1
    }

    /// How many commands the path holds.
    pub fn element_count(&self) -> (n: usize)
        ensures
            n == self@.len(),
    {
        self.elements.len()
    }

    /// Borrows command `i` of the path. Everything the path hands out is
    /// well formed.
    pub fn element_at(&self, i: usize) -> (r: &CGPathElement)
        requires
            i < self@.len(),
        ensures
            r@ == self@[i as int],
            r.wf(),
    {
        proof {
            use_type_invariant(self);
        }
        vstd::slice::slice_index_get(self.elements.as_slice(), i)
    }

    /// Walks the command stream, handing a borrowed view of each command
    /// to the closure. The returned ghost sequence is the record of the
    /// walk: its `i`-th entry is the view handed to the `i`-th closure
    /// invocation, it views exactly the path's commands in stream order,
    /// and each entry satisfies the closure's postcondition. The walk is
    /// synchronous and reads the path without changing it.
    pub fn apply<'a, F: Fn(CGPathElementRef<'a>)>(&'a self, closure: &F) -> (calls: Ghost<
        Seq<CGPathElementRef<'a>>,
    >)
        requires
            forall|r: CGPathElementRef<'a>|
                (r.wf() && self@.contains(r@)) ==> #[trigger] call_requires(*closure, (r,)),
        ensures
            calls@.len() == self@.len(),
            forall|i: int|
                0 <= i < self@.len() ==> (#[trigger] calls@[i])@ == self@[i] && call_ensures(
                    *closure,
                    (calls@[i],),
                    (),
                ),
    {
        let n = self.elements.len();
        let mut i: usize = 0;
        let ghost mut seen: Seq<CGPathElementRef<'a>> = Seq::empty();
        while i < n
            invariant
                n == self.elements@.len(),
                i <= n,
                seen.len() == i,
                forall|r: CGPathElementRef<'a>|
                    (r.wf() && self@.contains(r@)) ==> #[trigger] call_requires(*closure, (r,)),
                forall|j: int|
                    0 <= j < i ==> (#[trigger] seen[j])@ == self@[j] && call_ensures(
                        *closure,
                        (seen[j],),
                        (),
                    ),
            decreases n - i,
        {
            let element = vstd::slice::slice_index_get(self.elements.as_slice(), i);
            let elem_ref = CGPathElementRef::new(element);
            proof {
                use_type_invariant(self);
                assert(elem_ref@ == self@[i as int]);
                assert(self@.contains(elem_ref@)) by {
                    assert(self@[i as int] == elem_ref@);
                }
                assert(elem_ref.wf());
            }
            (closure)(elem_ref);
            proof {
                seen = seen.push(elem_ref);
            }
            i = i + 1;
        }
        proof {
            assert(self@.len() == self.elements@.len());
        }
        Ghost(seen)
    }
}

/// The fixed identifier that the type-identity query returns in this
/// process.
pub open spec fn spec_type_id() -> CFTypeID {
    1
}

impl Clone for CGPath {
    /// Cloning a handle yields a second view of the same command stream:
    /// the clone observes exactly the commands the original observes. In
    /// the foreign runtime this is the point where the shared object's
    /// reference count is retained once for the new handle.
    fn clone(&self) -> (r: Self)
        ensures
            r@ == self@,
    {
        proof {
            use_type_invariant(self);
        }
        let mut elements: Vec<CGPathElement> = Vec::new();
        let n = self.elements.len();
        let mut i: usize = 0;
        while i < n
            invariant
                n == self.elements@.len(),
                i <= n,
                forall|j: int| 0 <= j < n ==> model_wf(#[trigger] self.elements@[j]@),
                elements@.len() == i,
                forall|j: int| 0 <= j < i ==> #[trigger] elements@[j]@ == self.elements@[j]@,
            decreases n - i,
        {
            let element = vstd::slice::slice_index_get(self.elements.as_slice(), i);
            elements.push(element.clone());
            i = i + 1;
        }
        let r = CGPath { elements };
        proof {
            assert(r@ =~~= self@);
        }
        r
    }
}

/// What a walk delivers is the path's own command stream: the views of
/// the walk's record, in invocation order, are exactly the path's
/// commands in stream order. The hypotheses are what `apply` ensures of
/// its record.
pub proof fn lemma_observed_stream_is_path_stream<'a>(
    p: &CGPath,
    calls: Seq<CGPathElementRef<'a>>,
)
    requires
        calls.len() == p@.len(),
        forall|i: int| 0 <= i < p@.len() ==> (#[trigger] calls[i])@ == p@[i],
    ensures
        calls.map_values(|r: CGPathElementRef<'a>| r@) == p@,
{
    assert(calls.map_values(|r: CGPathElementRef<'a>| r@) =~= p@);
}

/// Iteration is a pure read: a walk leaves the handle unchanged, and
/// what it delivers is a function of the handle's stream alone, so two
/// walks of the same unmodified handle observe the same command
/// sequence. The hypotheses are what `apply` ensures of each walk's
/// record.
pub proof fn lemma_apply_observation_pure<'a>(
    p: &CGPath,
    calls1: Seq<CGPathElementRef<'a>>,
    calls2: Seq<CGPathElementRef<'a>>,
)
    requires
        calls1.len() == p@.len(),
        calls2.len() == p@.len(),
        forall|i: int| 0 <= i < p@.len() ==> (#[trigger] calls1[i])@ == p@[i],
        forall|i: int| 0 <= i < p@.len() ==> (#[trigger] calls2[i])@ == p@[i],
    ensures
        calls1.map_values(|r: CGPathElementRef<'a>| r@) == calls2.map_values(
            |r: CGPathElementRef<'a>| r@,
        ),
{
    lemma_observed_stream_is_path_stream(p, calls1);
    lemma_observed_stream_is_path_stream(p, calls2);
}

/// The type-identity query is deterministic: two calls in one process
/// return the same identifier.
pub proof fn lemma_type_id_deterministic(a: CFTypeID, b: CFTypeID)
    requires
        a == spec_type_id(),
        b == spec_type_id(),
    ensures
        a == b,
{
}

/// A vector holding one point.
fn one_point(p: CGPoint) -> (v: Vec<CGPoint>)
    ensures
        v@ == seq![p],
{
    let mut v: Vec<CGPoint> = Vec::new();
    v.push(p);
    proof {
        assert(v@ =~= seq![p]);
    }
    v
}

} // verus!
