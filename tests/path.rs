use bezier::geometry::{BezierPath, Phase, QuadCurve};
use glam::{vec2, Vec2};

fn curve(a: Vec2, control: Vec2, c: Vec2) -> QuadCurve {
    QuadCurve::new(a, control, c)
}

#[test]
fn new_curve_keeps_points() {
    let q = QuadCurve::new(vec2(1.0, 2.0), vec2(3.0, 4.0), vec2(5.0, 6.0));
    assert_eq!(q.a, vec2(1.0, 2.0));
    assert_eq!(q.control, vec2(3.0, 4.0));
    assert_eq!(q.c, vec2(5.0, 6.0));
}

#[test]
fn curve_indices_are_two_triangles() {
    assert_eq!(QuadCurve::indices(), vec![0, 1, 2, 0, 2, 3]);
}

#[test]
fn default_path_is_empty() {
    let path = BezierPath::default();
    assert!(path.last.is_none());
    assert!(path.control.is_none());
    assert!(path.curves.is_empty());
    assert_eq!(path.phase(), Phase::Empty);
}

#[test]
fn chained_construction() {
    let p = [
        vec2(0.0, 0.0),
        vec2(10.0, 20.0),
        vec2(30.0, 0.0),
        vec2(40.0, -10.0),
        vec2(60.0, 5.0),
    ];
    let mut path = BezierPath::default();
    path.stroke(p[0]);
    assert_eq!(path.phase(), Phase::HaveStart);
    assert_eq!(path.last, Some(p[0]));
    path.stroke(p[1]);
    assert_eq!(path.phase(), Phase::HaveControl);
    assert_eq!(path.control, Some(p[1]));
    assert!(path.curves.is_empty());
    path.stroke(p[2]);
    assert_eq!(path.curves, vec![curve(p[0], p[1], p[2])]);
    assert_eq!(path.last, Some(p[2]));
    assert_eq!(path.control, None);
    path.stroke(p[3]);
    assert_eq!(path.control, Some(p[3]));
    assert_eq!(path.curves.len(), 1);
    path.stroke(p[4]);
    assert_eq!(
        path.curves,
        vec![curve(p[0], p[1], p[2]), curve(p[2], p[3], p[4])]
    );
    assert_eq!(path.last, Some(p[4]));
    assert_eq!(path.control, None);
}

#[test]
fn stroke_then_undo_restores_pending_curve() {
    let mut path = BezierPath::default();
    path.stroke(vec2(1.0, 1.0));
    path.stroke(vec2(2.0, 3.0));
    path.stroke(vec2(4.0, 1.0));
    path.stroke(vec2(5.0, 5.0));
    let last = path.last;
    let control = path.control;
    let curves = path.curves.clone();
    path.stroke(vec2(7.0, 2.0));
    assert_eq!(path.curves.len(), 2);
    path.undo();
    assert_eq!(path.last, last);
    assert_eq!(path.control, control);
    assert_eq!(path.curves, curves);
}

#[test]
fn undo_reopens_committed_curve() {
    let mut path = BezierPath::default();
    path.stroke(vec2(1.0, 1.0));
    path.stroke(vec2(2.0, 3.0));
    path.stroke(vec2(4.0, 1.0));
    path.undo();
    assert!(path.curves.is_empty());
    assert_eq!(path.last, Some(vec2(1.0, 1.0)));
    assert_eq!(path.control, Some(vec2(2.0, 3.0)));
    path.stroke(vec2(4.0, 1.0));
    assert_eq!(
        path.curves,
        vec![curve(vec2(1.0, 1.0), vec2(2.0, 3.0), vec2(4.0, 1.0))]
    );
}

#[test]
fn undo_on_empty_path_does_nothing() {
    let mut path = BezierPath::default();
    path.undo();
    assert!(path.last.is_none());
    assert!(path.control.is_none());
    path.stroke(vec2(1.0, 1.0));
    path.undo();
    assert_eq!(path.last, Some(vec2(1.0, 1.0)));
    assert!(path.control.is_none());
    assert!(path.curves.is_empty());
}

#[test]
fn clear_empties_path() {
    let mut path = BezierPath::default();
    for i in 0..7 {
        path.stroke(vec2(i as f32, 0.0));
    }
    assert_eq!(path.curves.len(), 3);
    path.clear();
    assert!(path.last.is_none());
    assert!(path.control.is_none());
    assert!(path.curves.is_empty());
}

#[test]
fn index_buffer_of_empty_path() {
    assert!(BezierPath::default().index_buffer().is_empty());
}

#[test]
fn index_buffer_offsets_each_curve() {
    let mut path = BezierPath::default();
    for i in 0..7 {
        path.stroke(vec2(i as f32, (i * i) as f32));
    }
    assert_eq!(
        path.index_buffer(),
        vec![0, 1, 2, 0, 2, 3, 4, 5, 6, 4, 6, 7, 8, 9, 10, 8, 10, 11]
    );
}

#[test]
fn index_buffer_ranges_per_curve() {
    let mut path = BezierPath::default();
    for i in 0..41 {
        path.stroke(vec2(i as f32, 1.0));
    }
    let n = path.curves.len();
    assert_eq!(n, 20);
    let ids = path.index_buffer();
    assert_eq!(ids.len(), 6 * n);
    for (i, &v) in ids.iter().enumerate() {
        let k = (i / 6) as u16;
        assert!(4 * k <= v && v < 4 * k + 4);
    }
}

#[test]
fn index_buffer_wraps_at_sixteen_bits() {
    let q = curve(vec2(0.0, 0.0), vec2(1.0, 1.0), vec2(2.0, 0.0));
    let path = BezierPath {
        last: None,
        control: None,
        curves: vec![q; 16385],
    };
    let ids = path.index_buffer();
    assert_eq!(ids.len(), 6 * 16385);
    assert_eq!(&ids[6 * 16383..6 * 16384], &[65532, 65533, 65534, 65532, 65534, 65535]);
    assert_eq!(&ids[6 * 16384..], &[0, 1, 2, 0, 2, 3]);
}

#[test]
fn preview_shows_pending_curve_and_restores() {
    let mut path = BezierPath::default();
    path.stroke(vec2(0.0, 0.0));
    path.stroke(vec2(5.0, 5.0));
    let began = path.begin_preview(vec2(10.0, 0.0));
    assert!(began);
    assert_eq!(
        path.curves,
        vec![curve(vec2(0.0, 0.0), vec2(5.0, 5.0), vec2(10.0, 0.0))]
    );
    assert_eq!(path.index_buffer(), vec![0, 1, 2, 0, 2, 3]);
    path.end_preview(began);
    assert!(path.curves.is_empty());
    assert_eq!(path.last, Some(vec2(0.0, 0.0)));
    assert_eq!(path.control, Some(vec2(5.0, 5.0)));
}

#[test]
fn preview_without_control_does_nothing() {
    let mut path = BezierPath::default();
    path.stroke(vec2(0.0, 0.0));
    let began = path.begin_preview(vec2(3.0, 3.0));
    assert!(!began);
    assert_eq!(path.last, Some(vec2(0.0, 0.0)));
    assert!(path.control.is_none());
    path.end_preview(began);
    assert_eq!(path.last, Some(vec2(0.0, 0.0)));
    assert!(path.control.is_none());
}
