use std::cell::RefCell;

use core_graphics::geometry::CGAffineTransform;
use core_graphics::geometry::CGPoint;
use core_graphics::geometry::CGRect;
use core_graphics::geometry::CGSize;
use core_graphics::path::CGPath;
use core_graphics::path::CGPathElement;
use core_graphics::path::CGPathElementRef;
use core_graphics::path::CGPathElementType;

fn rect(x: i64, y: i64, w: i64, h: i64) -> CGRect {
    CGRect {
        origin: CGPoint { x, y },
        size: CGSize { width: w, height: h },
    }
}

fn collect(path: &CGPath) -> Vec<(CGPathElementType, Vec<CGPoint>)> {
    let commands = RefCell::new(Vec::new());
    path.apply(&|element: CGPathElementRef| {
        let e = element.get();
        commands.borrow_mut().push((e.element_type, e.points().to_vec()));
    });
    commands.into_inner()
}

#[test]
fn rect_path_has_five_commands() {
    let path = CGPath::from_rect(rect(1, 2, 10, 20), None);
    let commands = collect(&path);
    assert_eq!(commands.len(), 5);
    assert_eq!(commands[0].0, CGPathElementType::MoveToPoint);
    assert_eq!(commands[1].0, CGPathElementType::AddLineToPoint);
    assert_eq!(commands[2].0, CGPathElementType::AddLineToPoint);
    assert_eq!(commands[3].0, CGPathElementType::AddLineToPoint);
    assert_eq!(commands[4].0, CGPathElementType::CloseSubpath);
    let counts: Vec<usize> = commands.iter().map(|c| c.1.len()).collect();
    assert_eq!(counts, vec![1, 1, 1, 1, 0]);
}

#[test]
fn rect_path_visits_corners_in_order() {
    let path = CGPath::from_rect(rect(1, 2, 10, 20), None);
    let commands = collect(&path);
    assert_eq!(commands[0].1, vec![CGPoint { x: 1, y: 2 }]);
    assert_eq!(commands[1].1, vec![CGPoint { x: 11, y: 2 }]);
    assert_eq!(commands[2].1, vec![CGPoint { x: 11, y: 22 }]);
    assert_eq!(commands[3].1, vec![CGPoint { x: 1, y: 22 }]);
    assert_eq!(commands[4].1, vec![]);
}

#[test]
fn rect_path_applies_transform_to_corners() {
    let transform = CGAffineTransform {
        a: 2,
        b: 0,
        c: 0,
        d: 3,
        tx: 5,
        ty: 7,
    };
    let path = CGPath::from_rect(rect(1, 2, 10, 20), Some(&transform));
    let commands = collect(&path);
    assert_eq!(commands.len(), 5);
    assert_eq!(commands[0].0, CGPathElementType::MoveToPoint);
    assert_eq!(commands[0].1, vec![CGPoint { x: 7, y: 13 }]);
    assert_eq!(commands[1].1, vec![CGPoint { x: 27, y: 13 }]);
    assert_eq!(commands[2].1, vec![CGPoint { x: 27, y: 73 }]);
    assert_eq!(commands[3].1, vec![CGPoint { x: 7, y: 73 }]);
    assert_eq!(commands[4].1, vec![]);
}

#[test]
fn rect_path_with_identity_transform_matches_untransformed() {
    let identity = CGAffineTransform::identity();
    let with = collect(&CGPath::from_rect(rect(-3, 4, 6, 8), Some(&identity)));
    let without = collect(&CGPath::from_rect(rect(-3, 4, 6, 8), None));
    assert_eq!(with, without);
}

#[test]
fn apply_is_idempotent_observation() {
    let path = CGPath::from_rect(rect(0, 0, 5, 5), None);
    let first = collect(&path);
    let second = collect(&path);
    let third = collect(&path);
    assert_eq!(first, second);
    assert_eq!(second, third);
}

#[test]
fn apply_counts_one_invocation_per_command_in_order() {
    let path = CGPath::from_rect(rect(2, 3, 4, 5), None);
    let invocations = RefCell::new(0usize);
    let tags = RefCell::new(Vec::new());
    path.apply(&|element: CGPathElementRef| {
        *invocations.borrow_mut() += 1;
        tags.borrow_mut().push(element.get().element_type);
    });
    assert_eq!(invocations.into_inner(), 5);
    assert_eq!(
        tags.into_inner(),
        vec![
            CGPathElementType::MoveToPoint,
            CGPathElementType::AddLineToPoint,
            CGPathElementType::AddLineToPoint,
            CGPathElementType::AddLineToPoint,
            CGPathElementType::CloseSubpath,
        ]
    );
}

#[test]
fn apply_on_empty_path_never_invokes_closure() {
    let path = CGPath::empty();
    let invocations = RefCell::new(0usize);
    path.apply(&|_element: CGPathElementRef| {
        *invocations.borrow_mut() += 1;
    });
    assert_eq!(invocations.into_inner(), 0);
}

fn curve_path() -> CGPath {
    let elements = vec![
        CGPathElement::new(CGPathElementType::MoveToPoint, vec![CGPoint { x: 0, y: 0 }]),
        CGPathElement::new(
            CGPathElementType::AddLineToPoint,
            vec![CGPoint { x: 1, y: 0 }],
        ),
        CGPathElement::new(
            CGPathElementType::AddQuadCurveToPoint,
            vec![CGPoint { x: 2, y: 1 }, CGPoint { x: 3, y: 0 }],
        ),
        CGPathElement::new(
            CGPathElementType::AddCurveToPoint,
            vec![
                CGPoint { x: 4, y: 1 },
                CGPoint { x: 5, y: -1 },
                CGPoint { x: 6, y: 0 },
            ],
        ),
        CGPathElement::new(CGPathElementType::CloseSubpath, vec![]),
    ];
    CGPath::from_elements(elements)
}

#[test]
fn point_count_matches_tag_for_every_observed_element() {
    let expected = |tag: CGPathElementType| -> usize {
        match tag {
            CGPathElementType::MoveToPoint => 1,
            CGPathElementType::AddLineToPoint => 1,
            CGPathElementType::AddQuadCurveToPoint => 2,
            CGPathElementType::AddCurveToPoint => 3,
            CGPathElementType::CloseSubpath => 0,
        }
    };
    for (tag, points) in collect(&curve_path()) {
        assert_eq!(points.len(), expected(tag));
    }
}

#[test]
fn element_accessors_match_apply_observation() {
    let path = curve_path();
    let commands = collect(&path);
    assert_eq!(path.element_count(), commands.len());
    for (i, (tag, points)) in commands.iter().enumerate() {
        let element = path.element_at(i);
        assert_eq!(element.element_type, *tag);
        assert_eq!(element.tag(), *tag);
        assert_eq!(element.points().to_vec(), *points);
    }
}

#[test]
fn element_ref_wraps_borrowed_element() {
    let element = CGPathElement::new(
        CGPathElementType::AddQuadCurveToPoint,
        vec![CGPoint { x: 8, y: 9 }, CGPoint { x: 10, y: 11 }],
    );
    let view = CGPathElementRef::new(&element);
    assert_eq!(view.get().element_type, CGPathElementType::AddQuadCurveToPoint);
    assert_eq!(
        view.get().points(),
        &[CGPoint { x: 8, y: 9 }, CGPoint { x: 10, y: 11 }]
    );
}

#[test]
fn clone_observes_the_same_stream() {
    let path = CGPath::from_rect(rect(7, 8, 9, 10), None);
    let copy = path.clone();
    assert_eq!(collect(&path), collect(&copy));
    let curves = curve_path();
    assert_eq!(collect(&curves), collect(&curves.clone()));
}

#[test]
fn type_id_is_deterministic_within_a_process() {
    assert_eq!(CGPath::type_id(), CGPath::type_id());
}
