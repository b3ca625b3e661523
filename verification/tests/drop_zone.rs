use ios_drop::drop_zone::{
    display_name, file_label, file_list_heading, fixed_status_text, ColorRole, DropZone, Fill,
    StatusText,
};
use ios_drop::external_paths::ExternalPaths;
use ios_drop::file_drop::FileDropEvent;
use ios_drop::geometry::{Pixels, Point};

fn point(x: f32, y: f32) -> Point<Pixels> {
    Point::new(Pixels::from_bits(x.to_bits()), Pixels::from_bits(y.to_bits()))
}

fn entered(x: f32, y: f32) -> FileDropEvent {
    FileDropEvent::Entered {
        position: point(x, y),
        paths: ExternalPaths::from_vec(vec!["/tmp/a.txt".to_string()]),
    }
}

#[test]
fn new_zone_is_idle() {
    let zone = DropZone::new();
    assert!(!zone.is_drag_over());
    assert_eq!(zone.drag_position(), None);
    assert!(zone.dropped_files().is_empty());
}

#[test]
fn entered_marks_drag_over_with_position() {
    let mut zone = DropZone::new();
    zone.handle_file_drop(entered(10.0, 20.5));
    assert!(zone.is_drag_over());
    assert_eq!(zone.drag_position(), Some(point(10.0, 20.5)));
}

#[test]
fn pending_and_submit_move_position_only() {
    let mut zone = DropZone::new();
    zone.handle_file_drop(FileDropEvent::Pending { position: point(1.0, 2.0) });
    assert!(!zone.is_drag_over());
    assert_eq!(zone.drag_position(), Some(point(1.0, 2.0)));
    zone.handle_file_drop(entered(3.0, 4.0));
    zone.handle_file_drop(FileDropEvent::Submit { position: point(5.0, 6.0) });
    assert!(zone.is_drag_over());
    assert_eq!(zone.drag_position(), Some(point(5.0, 6.0)));
}

#[test]
fn full_drag_returns_to_idle() {
    let mut zone = DropZone::new();
    zone.handle_file_drop(entered(3.0, 4.0));
    zone.handle_file_drop(FileDropEvent::Pending { position: point(7.0, 8.0) });
    zone.handle_file_drop(FileDropEvent::Submit { position: point(9.0, 9.0) });
    zone.handle_file_drop(FileDropEvent::Exited);
    assert!(!zone.is_drag_over());
    assert_eq!(zone.drag_position(), None);
    assert_eq!(zone.dropped_files(), vec!["/tmp/a.txt".to_string()]);
}

#[test]
fn drag_that_leaves_drops_nothing() {
    let mut zone = DropZone::new();
    zone.handle_file_drop(entered(3.0, 4.0));
    zone.handle_file_drop(FileDropEvent::Exited);
    zone.handle_file_drop(FileDropEvent::Submit { position: point(1.0, 1.0) });
    assert!(zone.dropped_files().is_empty());
}

#[test]
fn drops_accumulate_in_order() {
    let mut zone = DropZone::new();
    zone.handle_file_drop(FileDropEvent::Entered {
        position: point(0.0, 0.0),
        paths: ExternalPaths::from_vec(vec!["/x/one.txt".to_string(), "/x/two".to_string()]),
    });
    zone.handle_file_drop(FileDropEvent::Submit { position: point(0.0, 0.0) });
    zone.handle_file_drop(FileDropEvent::Exited);
    zone.handle_file_drop(FileDropEvent::Entered {
        position: point(0.0, 0.0),
        paths: ExternalPaths::from_vec(vec!["/y/three/".to_string()]),
    });
    zone.handle_file_drop(FileDropEvent::Submit { position: point(0.0, 0.0) });
    zone.handle_file_drop(FileDropEvent::Submit { position: point(0.0, 0.0) });
    assert_eq!(
        zone.dropped_files(),
        vec!["/x/one.txt".to_string(), "/x/two".to_string(), "/y/three/".to_string()]
    );
    let view = zone.render_with_back_button();
    assert_eq!(view.file_count, 3);
    assert_eq!(view.file_names, vec!["one.txt".to_string(), "two".to_string(), "three".to_string()]);
}

#[test]
fn status_texts_and_heading() {
    assert_eq!(fixed_status_text(&StatusText::Prompt), Some("Drag files here from Files app".to_string()));
    assert_eq!(fixed_status_text(&StatusText::Dragging), Some("Dragging...".to_string()));
    assert_eq!(fixed_status_text(&StatusText::DraggingAt(point(1.0, 2.0))), None);
    assert_eq!(file_list_heading(0), "Dropped Files (0)");
    assert_eq!(file_list_heading(12), "Dropped Files (12)");
}

#[test]
fn idle_zone_view() {
    let zone = DropZone::new();
    let view = zone.render_with_back_button();
    assert_eq!(view.border_color, ColorRole::Overlay);
    assert_eq!(view.zone_fill, Fill::Solid(ColorRole::Surface));
    assert_eq!(view.marker_color, ColorRole::Overlay);
    assert_eq!(view.status, StatusText::Prompt);
    assert_eq!(view.status_color, ColorRole::Subtext);
    assert_eq!(view.file_count, 0);
    assert!(view.file_names.is_empty());
}

#[test]
fn dragged_over_zone_view() {
    let mut zone = DropZone::new();
    zone.handle_file_drop(entered(12.0, 34.0));
    let view = zone.render_with_back_button();
    assert_eq!(view.border_color, ColorRole::Teal);
    assert_eq!(view.zone_fill, Fill::DragHighlight);
    assert_eq!(view.marker_color, ColorRole::Teal);
    assert_eq!(view.status, StatusText::DraggingAt(point(12.0, 34.0)));
    assert_eq!(view.status_color, ColorRole::Teal);
}

#[test]
fn pending_without_entry_still_prompts() {
    let mut zone = DropZone::new();
    zone.handle_file_drop(FileDropEvent::Pending { position: point(1.0, 1.0) });
    let view = zone.render_with_back_button();
    assert_eq!(view.status, StatusText::Prompt);
    assert_eq!(view.border_color, ColorRole::Overlay);
}

#[test]
fn file_label_prefers_file_name() {
    let path = "/var/mobile/report.pdf".to_string();
    assert_eq!(file_label(&path, Some("report.pdf".to_string())), "report.pdf");
    assert_eq!(file_label(&path, None), "/var/mobile/report.pdf");
}

#[test]
fn display_name_of_paths() {
    assert_eq!(display_name(&"/var/mobile/report.pdf".to_string()), "report.pdf");
    assert_eq!(display_name(&"notes.txt".to_string()), "notes.txt");
    assert_eq!(display_name(&"/".to_string()), "/");
    assert_eq!(display_name(&"docs/..".to_string()), "docs/..");
    assert_eq!(display_name(&"".to_string()), "");
    assert_eq!(display_name(&"/tmp/a.txt".to_string()), "a.txt");
    assert_eq!(display_name(&"dir/./".to_string()), "dir");
    assert_eq!(display_name(&"./x".to_string()), "x");
    assert_eq!(display_name(&".".to_string()), ".");
    assert_eq!(display_name(&"/notes/10:30/plan:v2.txt".to_string()), "plan:v2.txt");
}

#[test]
fn pixels_keep_their_bits() {
    let p = Pixels::from_bits(1.5f32.to_bits());
    assert_eq!(f32::from_bits(p.to_bits()), 1.5);
}
