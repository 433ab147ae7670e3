use canvas_demo::canvas::CanvasOp;
use canvas_demo::entry::image_source;
use canvas_demo::entry::start_ops;
use canvas_demo::loader::ImageLoader;
use canvas_demo::loader::LoadAction;
use canvas_demo::loader::LoadEvent;
use canvas_demo::loader::OneShot;

#[test]
fn one_shot_accepts_only_first_send() {
    let mut c: OneShot<u8> = OneShot::new();
    assert!(c.send(7));
    assert!(!c.send(9));
    assert_eq!(c.recv(), Some(7));
}

#[test]
fn one_shot_without_send_is_empty() {
    let c: OneShot<u8> = OneShot::new();
    assert_eq!(c.recv(), None);
}

#[test]
fn race_success_first_draws_once() {
    let mut l = ImageLoader::new();
    assert_eq!(l.deliver(LoadEvent::Success), LoadAction::DrawImageAt(0, 0));
    assert_eq!(l.deliver(LoadEvent::Failure), LoadAction::Ignore);
    assert_eq!(l.deliver(LoadEvent::Success), LoadAction::Ignore);
}

#[test]
fn race_failure_first_never_draws() {
    let mut l = ImageLoader::new();
    assert_eq!(l.deliver(LoadEvent::Failure), LoadAction::ReportFailure);
    assert_eq!(l.deliver(LoadEvent::Success), LoadAction::Ignore);
    assert_eq!(l.deliver(LoadEvent::Failure), LoadAction::Ignore);
}

#[test]
fn entry_draws_rectangle_then_image() {
    let ops = start_ops();
    assert_eq!(ops.len(), 10);
    assert_eq!(ops[0], CanvasOp::MoveTo(100, 100));
    assert_eq!(ops[3], CanvasOp::LineTo(300, 200));
    assert_eq!(ops[7], CanvasOp::Stroke);
    match &ops[8] {
        CanvasOp::SetFillStyle(c) => {
            assert_eq!(c.len(), 7);
            assert!(c.starts_with('#'));
            assert!(c.chars().skip(1).all(|d| d.is_ascii_hexdigit() && !d.is_ascii_uppercase()));
        }
        other => panic!("expected a fill style, got {:?}", other),
    }
    assert_eq!(ops[9], CanvasOp::Fill);

    let mut l = ImageLoader::new();
    assert_eq!(l.deliver(LoadEvent::Success), LoadAction::DrawImageAt(0, 0));
}

#[test]
fn entry_survives_unreachable_image() {
    let _ops = start_ops();
    let mut l = ImageLoader::new();
    assert_eq!(l.deliver(LoadEvent::Failure), LoadAction::ReportFailure);
}

#[test]
fn image_source_path() {
    assert_eq!(image_source(), "images/boy_idle_1.png");
}
