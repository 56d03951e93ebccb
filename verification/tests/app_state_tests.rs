use simple_image_tool::app_state::{AppState, Mode};
use simple_image_tool::messages::{done_message, failed_message, watermark_message};
use simple_image_tool::sit_delegate::{AppEvent, SitDelegate};
use simple_image_tool::ConvertError;

#[test]
fn fresh_state_is_empty_and_idle() {
    let s = AppState::new();
    assert_eq!(s.title, "");
    assert!(s.files.is_empty());
    assert_eq!(s.watermark, "");
    assert!(s.messages.is_empty());
    assert_eq!(s.status, "");
    assert_eq!(s.mode, Mode::Idle);
}

#[test]
fn add_file_admits_raster_paths_only() {
    let mut s = AppState::new();
    s.add_file("/pics/a.jpg");
    s.add_file("/pics/b.txt");
    s.add_file("/pics/c.PNG");
    s.add_file("noextension");
    assert_eq!(s.files, vec!["/pics/a.jpg".to_string(), "/pics/c.PNG".to_string()]);
}

#[test]
fn set_watermark_requires_exact_png_extension() {
    let mut s = AppState::new();
    s.set_watermark("/pics/wm.jpg");
    assert_eq!(s.watermark, "");
    s.set_watermark("/pics/wm.PNG");
    assert_eq!(s.watermark, "");
    s.set_watermark("/pics/wm.png");
    assert_eq!(s.watermark, "/pics/wm.png");
    assert!(s.has_watermark());
}

#[test]
fn status_and_messages_are_recorded() {
    let mut s = AppState::new();
    s.set_status("converting");
    assert_eq!(s.status, "converting");
    s.add_message("one".to_string());
    s.add_message("two".to_string());
    assert_eq!(s.messages, vec!["one".to_string(), "two".to_string()]);
}

#[test]
fn remove_file_drops_first_occurrence() {
    let mut s = AppState::new();
    s.add_file("a.jpg");
    s.add_file("b.jpg");
    s.add_file("a.jpg");
    s.remove_file("a.jpg".to_string());
    assert_eq!(s.files, vec!["b.jpg".to_string(), "a.jpg".to_string()]);
}

#[test]
fn snapshot_pairs_every_file_with_the_current_watermark() {
    let mut s = AppState::new();
    s.add_file("a.jpg");
    s.add_file("b.png");
    s.set_watermark("wm.png");
    let reqs = s.snapshot_requests();
    assert_eq!(reqs.len(), 2);
    assert_eq!(reqs[0].path, "a.jpg");
    assert_eq!(reqs[0].watermark_path, "wm.png");
    assert_eq!(reqs[1].path, "b.png");
    assert_eq!(reqs[1].watermark_path, "wm.png");
    // The snapshot leaves the pending list as it stands.
    assert_eq!(s.files.len(), 2);
}

#[test]
fn same_compares_title_and_lists() {
    let mut a = AppState::new();
    let mut b = AppState::new();
    assert!(a.same(&b));
    a.add_file("x.jpg");
    assert!(!a.same(&b));
    b.add_file("x.jpg");
    assert!(a.same(&b));
    a.add_message("done".to_string());
    assert!(!a.same(&b));
    b.add_message("other text, same length list".to_string());
    // Message contents are not compared, only how many there are.
    assert!(a.same(&b));
}

#[test]
fn delegate_switches_modes() {
    let d = SitDelegate;
    let mut s = AppState::new();
    d.command(&mut s, AppEvent::Watermark);
    assert_eq!(s.mode, Mode::AwaitingWatermark);
    d.command(&mut s, AppEvent::Opening);
    assert_eq!(s.mode, Mode::AwaitingSourceFiles);
    d.command(&mut s, AppEvent::Processing);
    assert_eq!(s.mode, Mode::Converting);
    d.command(&mut s, AppEvent::Done);
    assert_eq!(s.mode, Mode::Done);
    d.command(&mut s, AppEvent::Convert);
    assert_eq!(s.mode, Mode::Done);
}

#[test]
fn delegate_routes_picked_files_by_mode() {
    let d = SitDelegate;
    let mut s = AppState::new();
    d.command(&mut s, AppEvent::Opening);
    d.command(&mut s, AppEvent::OpenFile("/p/a.jpg".to_string()));
    assert_eq!(s.files, vec!["/p/a.jpg".to_string()]);
    assert_eq!(s.watermark, "");

    d.command(&mut s, AppEvent::Watermark);
    d.command(&mut s, AppEvent::OpenFile("/p/wm.png".to_string()));
    assert_eq!(s.watermark, "/p/wm.png");
    assert_eq!(s.files, vec!["/p/a.jpg".to_string()]);
    // Picking a watermark is reported even before the extension check.
    assert_eq!(s.messages, vec!["watermark: \"/p/wm.png\"".to_string()]);
}

#[test]
fn delegate_records_messages() {
    let d = SitDelegate;
    let mut s = AppState::new();
    d.command(&mut s, AppEvent::Message("done: \"a.jpg\"".to_string()));
    assert_eq!(s.messages, vec!["done: \"a.jpg\"".to_string()]);
}

#[test]
fn status_lines_are_exact() {
    assert_eq!(done_message("/p/a.jpg"), "done: \"/p/a.jpg\"");
    assert_eq!(watermark_message("/p/wm.png"), "watermark: \"/p/wm.png\"");
    assert_eq!(
        failed_message("/p/a.png", ConvertError::DecodeError),
        "failed: \"/p/a.png\" (decode error)"
    );
    assert_eq!(
        failed_message("/p/b.jpg", ConvertError::IoError),
        "failed: \"/p/b.jpg\" (io error)"
    );
}
