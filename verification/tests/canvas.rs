use canvas_demo::canvas::CanvasOp;
use canvas_demo::canvas::draw_squre;
use canvas_demo::geometry::Point;
use canvas_demo::geometry::Size;

#[test]
fn draw_squre_emits_exact_sequence() {
    let origin = Point { x: 100, y: 100 };
    let size = Size { width: 200, height: 100 };
    let ops = draw_squre(&origin, &size, "#112233");
    assert_eq!(
        ops,
        vec![
            CanvasOp::MoveTo(100, 100),
            CanvasOp::BeginPath,
            CanvasOp::LineTo(100, 200),
            CanvasOp::LineTo(300, 200),
            CanvasOp::LineTo(300, 100),
            CanvasOp::LineTo(100, 100),
            CanvasOp::ClosePath,
            CanvasOp::Stroke,
            CanvasOp::SetFillStyle("#112233".to_string()),
            CanvasOp::Fill,
        ]
    );
}

#[test]
fn draw_squre_negative_extent_is_unchecked() {
    let origin = Point { x: 10, y: 20 };
    let size = Size { width: -5, height: -7 };
    let ops = draw_squre(&origin, &size, "#000000");
    assert_eq!(ops[2], CanvasOp::LineTo(10, 13));
    assert_eq!(ops[3], CanvasOp::LineTo(5, 13));
    assert_eq!(ops[4], CanvasOp::LineTo(5, 20));
    assert_eq!(ops.len(), 10);
}

#[test]
fn size_new_makes_a_square() {
    let s = Size::new(42);
    assert_eq!(s.width, 42);
    assert_eq!(s.height, 42);
}
