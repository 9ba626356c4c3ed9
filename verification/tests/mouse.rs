use ipscannr::app::{App, Focus, ScanEvent};
use ipscannr::config::Config;
use ipscannr::host::HostInfo;
use ipscannr::input::InputMode;
use ipscannr::layout::{mouse_in, Area, MouseEvent, MouseKind, ScreenAreas};
use ipscannr::ping::unreachable_result;

fn areas() -> ScreenAreas {
    ScreenAreas {
        header: Area { x: 0, y: 0, width: 120, height: 3 },
        hosts_table: Area { x: 0, y: 3, width: 66, height: 30 },
        details_pane: Some(Area { x: 66, y: 3, width: 54, height: 30 }),
    }
}

fn at(kind: MouseKind, column: u16, row: u16) -> MouseEvent {
    MouseEvent { kind, column, row }
}

fn app_with_hosts(count: usize) -> App {
    let mut app = App::new(Config::default());
    app.load_adapters(Vec::new());
    app.range_input.set("10.0.0.1-100");
    let run = app.start_scan().expect("a valid range");
    let addresses = app.session.addresses().to_vec();
    for ip in addresses.into_iter().take(count) {
        app.handle_scan_event(run, ScanEvent::HostDiscovered(HostInfo::from(unreachable_result(ip, true))));
    }
    app
}

#[test]
fn cells_of_a_rectangle() {
    let r = Area { x: 2, y: 3, width: 4, height: 2 };
    assert!(mouse_in(r, 2, 3));
    assert!(mouse_in(r, 5, 4));
    assert!(!mouse_in(r, 6, 4));
    assert!(!mouse_in(r, 5, 5));
    assert!(!mouse_in(r, 1, 3));
    assert!(!mouse_in(r, 2, 2));
    assert!(!mouse_in(Area { x: 0, y: 0, width: 0, height: 5 }, 0, 0));
    let edge = Area { x: 65535, y: 65535, width: 65535, height: 65535 };
    assert!(mouse_in(edge, 65535, 65535));
    assert!(!mouse_in(edge, 65534, 65535));
}

#[test]
fn click_gives_the_focus() {
    let mut app = app_with_hosts(5);
    app.handle_mouse_event(at(MouseKind::LeftDown, 10, 1), areas(), 0);
    assert_eq!(app.focus, Focus::RangeInput);
    app.handle_mouse_event(at(MouseKind::LeftDown, 70, 10), areas(), 0);
    assert_eq!(app.focus, Focus::DetailsPane);
    app.handle_mouse_event(at(MouseKind::LeftDown, 10, 3), areas(), 0);
    assert_eq!(app.focus, Focus::HostsTable);
    assert_eq!(app.selected, Some(0));
    app.handle_mouse_event(at(MouseKind::LeftDown, 200, 200), areas(), 0);
    assert_eq!(app.focus, Focus::HostsTable);
    app.handle_mouse_event(at(MouseKind::Other, 10, 1), areas(), 0);
    assert_eq!(app.focus, Focus::HostsTable);
}

#[test]
fn click_on_a_row_selects_it() {
    let mut app = app_with_hosts(40);
    app.handle_mouse_event(at(MouseKind::LeftDown, 10, 5), areas(), 0);
    assert_eq!(app.selected, Some(0));
    app.handle_mouse_event(at(MouseKind::LeftDown, 10, 8), areas(), 0);
    assert_eq!(app.selected, Some(3));
    app.handle_mouse_event(at(MouseKind::LeftDown, 10, 8), areas(), 20);
    assert_eq!(app.selected, Some(23));
    app.handle_mouse_event(at(MouseKind::LeftDown, 10, 4), areas(), 0);
    assert_eq!(app.selected, Some(23));
    app.handle_mouse_event(at(MouseKind::LeftDown, 10, 31), areas(), 0);
    assert_eq!(app.selected, Some(26));
    app.handle_mouse_event(at(MouseKind::LeftDown, 10, 32), areas(), 0);
    assert_eq!(app.selected, Some(26));
    app.handle_mouse_event(at(MouseKind::LeftDown, 10, 8), areas(), 37);
    assert_eq!(app.selected, Some(26));
    app.handle_mouse_event(at(MouseKind::LeftDown, 10, 8), areas(), usize::MAX);
    assert_eq!(app.selected, Some(26));
    app.handle_mouse_event(at(MouseKind::LeftDown, 10, 8), areas(), 36);
    assert_eq!(app.selected, Some(39));
}

#[test]
fn wheel_moves_the_table_cursor() {
    let mut app = app_with_hosts(3);
    app.handle_mouse_event(at(MouseKind::ScrollDown, 70, 10), areas(), 0);
    assert_eq!(app.focus, Focus::HostsTable);
    assert_eq!(app.selected, Some(1));
    app.handle_mouse_event(at(MouseKind::ScrollUp, 10, 10), areas(), 0);
    app.handle_mouse_event(at(MouseKind::ScrollUp, 10, 10), areas(), 0);
    assert_eq!(app.selected, Some(2));
    app.focus = Focus::RangeInput;
    app.handle_mouse_event(at(MouseKind::ScrollUp, 10, 1), areas(), 0);
    assert_eq!(app.selected, Some(2));
    assert_eq!(app.focus, Focus::RangeInput);
    let compact = ScreenAreas { details_pane: None, ..areas() };
    app.handle_mouse_event(at(MouseKind::ScrollDown, 70, 10), compact, 0);
    assert_eq!(app.selected, Some(2));
}

#[test]
fn mouse_is_dead_in_other_modes() {
    let mut app = app_with_hosts(3);
    app.input_mode = InputMode::Help;
    app.handle_mouse_event(at(MouseKind::LeftDown, 10, 1), areas(), 0);
    app.handle_mouse_event(at(MouseKind::ScrollDown, 10, 10), areas(), 0);
    assert_eq!(app.focus, Focus::HostsTable);
    assert_eq!(app.selected, Some(0));
    app.input_mode = InputMode::EditingRange;
    app.handle_mouse_event(at(MouseKind::LeftDown, 70, 10), areas(), 0);
    assert_eq!(app.focus, Focus::HostsTable);
}

#[test]
fn wheel_scrolls_the_overlay() {
    let mut app = app_with_hosts(3);
    app.start_overlay("out".to_string());
    app.handle_mouse_event(at(MouseKind::ScrollDown, 0, 0), areas(), 0);
    app.handle_mouse_event(at(MouseKind::ScrollDown, 0, 0), areas(), 0);
    assert_eq!(app.overlay_scroll, 2);
    app.handle_mouse_event(at(MouseKind::ScrollUp, 0, 0), areas(), 0);
    assert_eq!(app.overlay_scroll, 1);
    app.handle_mouse_event(at(MouseKind::ScrollUp, 0, 0), areas(), 0);
    app.handle_mouse_event(at(MouseKind::ScrollUp, 0, 0), areas(), 0);
    assert_eq!(app.overlay_scroll, 0);
    app.handle_mouse_event(at(MouseKind::LeftDown, 10, 1), areas(), 0);
    assert_eq!(app.focus, Focus::HostsTable);
    assert_eq!(app.selected, Some(0));
}
