use glance::output::status_line;
use glance::server::{NotificationConfig, NotificationServer};
use glance::template::{replace_all_exec, Notification};

fn plain_config() -> NotificationConfig {
    NotificationConfig {
        read_format: "r:{app}".to_string(),
        unread_format: "u:{app}".to_string(),
        bar_format: "{app}|{summary}|{body}".to_string(),
    }
}

fn note(app: &str) -> Notification {
    Notification {
        app_name: app.to_string(),
        summary: format!("{} summary", app),
        body: format!("{} body", app),
        read: false,
    }
}

fn send(server: &mut NotificationServer, app: &str, replaces_id: u32) -> u32 {
    server.notify(app, replaces_id, "", "s", "b", Vec::new(), -1)
}

#[test]
fn format_with_fills_all_placeholders() {
    let n = Notification {
        app_name: "X".to_string(),
        summary: "S".to_string(),
        body: "B".to_string(),
        read: false,
    };
    assert_eq!(n.format_with("[{app}] {summary}: {body}"), "[X] S: B");
}

#[test]
fn format_with_repeats_and_unknown_tokens() {
    let n = Notification {
        app_name: "a".to_string(),
        summary: "s".to_string(),
        body: "b".to_string(),
        read: true,
    };
    assert_eq!(n.format_with("{app}{app} {other} {{body}}"), "aa {other} {b}");
    assert_eq!(n.format_with(""), "");
}

#[test]
fn substitution_is_sequential() {
    // the application name is substituted first, so a token inside it is
    // filled by the later passes
    let n = Notification {
        app_name: "{summary}".to_string(),
        summary: "S".to_string(),
        body: "B".to_string(),
        read: false,
    };
    assert_eq!(n.format_with("{app}"), "S");
}

#[test]
fn replace_all_scans_from_the_left() {
    assert_eq!(replace_all_exec("aaa", "aa", "b"), "ba");
    assert_eq!(replace_all_exec("xyz", "q", "w"), "xyz");
    assert_eq!(replace_all_exec("héllo wörld", "ö", "o"), "héllo world");
}

#[test]
fn ids_count_up_from_one() {
    let mut server = NotificationServer::new(plain_config());
    assert_eq!(server.new_id(), 1);
    assert_eq!(server.new_id(), 2);
    assert_eq!(send(&mut server, "A", 0), 3);
}

#[test]
fn tooltip_lists_newest_first() {
    let mut server = NotificationServer::new(plain_config());
    assert_eq!(send(&mut server, "A", 0), 1);
    assert_eq!(send(&mut server, "B", 0), 2);
    assert_eq!(send(&mut server, "C", 0), 3);
    assert_eq!(server.get_notification_list(), "u:C\nu:B\nu:A");
}

#[test]
fn tooltip_uses_read_template_for_read_entries() {
    let mut server = NotificationServer::new(plain_config());
    send(&mut server, "A", 0);
    send(&mut server, "B", 0);
    server.mark_read(0);
    assert_eq!(server.get_notification_list(), "u:B\nr:A");
}

#[test]
fn paging_forward_marks_passed_entries_read() {
    let mut server = NotificationServer::new(plain_config());
    server.add_to_history(1, note("A"));
    server.add_to_history(2, note("B"));
    server.add_to_history(3, note("C"));
    assert_eq!(server.visible(), None);
    assert!(server.next_notification().is_some());
    assert_eq!(server.visible(), Some(0));
    assert!(server.next_notification().is_some());
    assert_eq!(server.visible(), Some(1));
    assert!(server.next_notification().is_some());
    assert_eq!(server.visible(), Some(2));
    assert_eq!(server.is_read(0), Some(true));
    assert_eq!(server.is_read(1), Some(true));
    assert_eq!(server.is_read(2), Some(false));
}

#[test]
fn next_at_the_end_stays_and_marks_read() {
    let mut server = NotificationServer::new(plain_config());
    send(&mut server, "A", 0);
    send(&mut server, "B", 0);
    assert_eq!(server.visible(), Some(1));
    let first = server.next_notification().unwrap();
    assert_eq!(server.visible(), Some(1));
    assert_eq!(server.is_read(1), Some(true));
    let second = server.next_notification().unwrap();
    assert_eq!(server.visible(), Some(1));
    assert_eq!(first, second);
}

#[test]
fn previous_at_the_start_stays_and_marks_read() {
    let mut server = NotificationServer::new(plain_config());
    server.add_to_history(7, note("A"));
    server.add_to_history(8, note("B"));
    assert!(server.previous_notification().is_some());
    assert_eq!(server.visible(), Some(0));
    assert_eq!(server.is_read(0), Some(false));
    assert!(server.previous_notification().is_some());
    assert_eq!(server.visible(), Some(0));
    assert_eq!(server.is_read(0), Some(true));
    assert_eq!(server.is_read(1), Some(false));
}

#[test]
fn previous_moves_back_and_marks_read() {
    let mut server = NotificationServer::new(plain_config());
    send(&mut server, "A", 0);
    send(&mut server, "B", 0);
    assert!(server.previous_notification().is_some());
    assert_eq!(server.visible(), Some(0));
    assert_eq!(server.is_read(1), Some(true));
    assert_eq!(server.is_read(0), Some(false));
}

#[test]
fn navigation_on_empty_history_does_nothing() {
    let mut server = NotificationServer::new(plain_config());
    assert!(server.next_notification().is_none());
    assert!(server.previous_notification().is_none());
    assert_eq!(server.visible(), None);
    assert_eq!(server.len(), 0);
}

#[test]
fn mark_current_read() {
    let mut server = NotificationServer::new(plain_config());
    assert_eq!(server.mark_read_and_render(), "{\"text\":\"\",\"tooltip\":\"\"}");
    send(&mut server, "A", 0);
    assert_eq!(
        server.mark_read_and_render(),
        "{\"text\":\"A|s|b\",\"tooltip\":\"r:A\"}"
    );
    assert_eq!(server.is_read(0), Some(true));
}

#[test]
fn close_zero_removes_the_visible_entry() {
    let mut server = NotificationServer::new(plain_config());
    send(&mut server, "A", 0);
    send(&mut server, "B", 0);
    assert_eq!(server.visible(), Some(1));
    let line = server.close_notification(0);
    assert_eq!(server.len(), 1);
    assert_eq!(server.visible(), Some(0));
    assert_eq!(line, "{\"text\":\"A|s|b\",\"tooltip\":\"u:A\"}");
}

#[test]
fn closing_the_last_entry_clears_the_bar() {
    let mut server = NotificationServer::new(plain_config());
    let id = send(&mut server, "A", 0);
    let line = server.close_notification(id);
    assert_eq!(server.len(), 0);
    assert_eq!(server.visible(), None);
    assert_eq!(line, "{\"text\":\"\",\"tooltip\":\"\"}");
}

#[test]
fn closing_an_absent_id_changes_nothing() {
    let mut server = NotificationServer::new(plain_config());
    send(&mut server, "A", 0);
    send(&mut server, "B", 0);
    server.close_notification(42);
    assert_eq!(server.len(), 2);
    assert_eq!(server.visible(), Some(1));
}

#[test]
fn closing_an_earlier_entry_keeps_order() {
    let mut server = NotificationServer::new(plain_config());
    send(&mut server, "A", 0);
    send(&mut server, "B", 0);
    send(&mut server, "C", 0);
    server.close_notification(1);
    assert_eq!(server.get_notification_list(), "u:C\nu:B");
    // the cursor index stays, now past the end, and is clamped
    assert_eq!(server.visible(), Some(1));
}

#[test]
fn replacing_keeps_position() {
    let mut server = NotificationServer::new(plain_config());
    send(&mut server, "A", 0);
    send(&mut server, "B", 0);
    assert_eq!(send(&mut server, "A2", 1), 1);
    assert_eq!(server.len(), 2);
    assert_eq!(server.visible(), Some(0));
    assert_eq!(server.get_notification_list(), "u:B\nu:A2");
}

#[test]
fn replacing_resets_read_flag() {
    let mut server = NotificationServer::new(plain_config());
    send(&mut server, "A", 0);
    server.mark_read(0);
    send(&mut server, "A", 1);
    assert_eq!(server.is_read(0), Some(false));
}

#[test]
fn explicit_new_id_is_appended() {
    let mut server = NotificationServer::new(plain_config());
    assert_eq!(send(&mut server, "A", 50), 50);
    assert_eq!(send(&mut server, "B", 0), 1);
    assert_eq!(server.visible(), Some(1));
}

#[test]
fn new_notification_line_carries_class() {
    let mut server = NotificationServer::new(plain_config());
    send(&mut server, "A", 0);
    assert_eq!(
        server.new_notification_display(),
        "{\"class\":\"notify\",\"text\":\"A|s|b\",\"tooltip\":\"u:A\"}"
    );
    assert_eq!(
        server.display_notifications_on_bar(),
        "{\"text\":\"A|s|b\",\"tooltip\":\"u:A\"}"
    );
}

#[test]
fn bar_text_formats_entry() {
    let mut server = NotificationServer::new(plain_config());
    server.notify("app", 0, "icon", "sum", "body", vec!["x".to_string()], 5);
    assert_eq!(server.bar_text(0), "app|sum|body");
}

#[test]
fn status_line_escapes_strings() {
    assert_eq!(
        status_line("a\"b", "x\ny", false),
        "{\"text\":\"a\\\"b\",\"tooltip\":\"x\\ny\"}"
    );
    assert_eq!(
        status_line("", "", true),
        "{\"class\":\"notify\",\"text\":\"\",\"tooltip\":\"\"}"
    );
}

#[test]
fn fixed_protocol_answers() {
    let server = NotificationServer::new(plain_config());
    assert_eq!(server.get_capabilities(), vec!["body", "actions"]);
    assert_eq!(
        server.get_server_information(),
        ("Glance", "Glance", "0.1.0", "1.3")
    );
}

#[test]
fn is_read_past_the_end() {
    let server = NotificationServer::new(plain_config());
    assert_eq!(server.is_read(0), None);
}
