use theatremix_remote_display::cue::CueInfo;
use theatremix_remote_display::event::{NetCmd, NetEvent};
use theatremix_remote_display::shell::{CueState, TheatreMixApp};

fn cue(number: &str, text: &str, color: Option<&str>) -> CueInfo {
    CueInfo {
        number: number.to_string(),
        text: text.to_string(),
        color: color.map(|c| c.to_string()),
    }
}

#[test]
fn default_cue_state_is_empty() {
    let state = CueState::default();
    assert_eq!(state.current, cue("", "", None));
    assert_eq!(state.next, cue("", "", None));
    assert!(!state.connected);
    assert_eq!(state.last_rx, None);
    assert_eq!(CueInfo::default(), cue("", "", None));
}

#[test]
fn new_display_is_connecting() {
    let app = TheatreMixApp::new("127.0.0.1".to_string());
    assert_eq!(app.host, "127.0.0.1");
    assert_eq!(app.status, "Connecting…");
    assert_eq!(app.host_edit, "");
    assert!(!app.always_on_top);
    assert!(!app.show_settings);
    assert!(!app.state.connected);
    assert_eq!(app.state.last_rx, None);
    assert_eq!(app.state.current, cue("", "", None));
    assert_eq!(app.state.next, cue("", "(not provided by OSC)", None));
    assert_eq!(app.host_line(), "Host: 127.0.0.1");
    assert_eq!(app.status_line(), "Status: Connecting… (waiting)");
    assert_eq!(app.age(1000), None);
}

#[test]
fn subscribe_ok_connects() {
    let mut app = TheatreMixApp::new("h".to_string());
    app.apply_event(NetEvent::SubscribeOk(10), 500);
    assert!(app.state.connected);
    assert_eq!(app.status, "Subscribed");
    assert_eq!(app.state.last_rx, None);
    assert_eq!(app.status_line(), "Status: Subscribed");
}

#[test]
fn subscribe_fail_disconnects() {
    let mut app = TheatreMixApp::new("h".to_string());
    app.apply_event(NetEvent::SubscribeOk(10), 500);
    app.apply_event(NetEvent::SubscribeFail, 600);
    assert!(!app.state.connected);
    assert_eq!(app.status, "Subscription failed");
    assert_eq!(app.status_line(), "Status: Subscription failed (waiting)");
    assert_eq!(app.state.last_rx, None);
}

#[test]
fn error_disconnects_and_shows_the_reason() {
    let mut app = TheatreMixApp::new("h".to_string());
    app.apply_event(NetEvent::SubscribeOk(10), 500);
    app.apply_event(NetEvent::Error("Could not resolve host 'h'".to_string()), 600);
    assert!(!app.state.connected);
    assert_eq!(app.status, "Error: Could not resolve host 'h'");
    app.apply_event(NetEvent::Error(String::new()), 700);
    assert_eq!(app.status, "Error: ");
}

#[test]
fn thump_only_moves_the_time() {
    let mut app = TheatreMixApp::new("h".to_string());
    let before = app.clone();
    app.apply_event(NetEvent::Thump, 1234);
    assert_eq!(app.state.last_rx, Some(1234));
    app.state.last_rx = None;
    assert_eq!(app, before);
}

#[test]
fn cue_fired_replaces_the_current_cue() {
    let mut app = TheatreMixApp::new("h".to_string());
    app.apply_event(NetEvent::CueFired(cue("Q12", "Enter Juliet", Some("red"))), 100);
    assert_eq!(app.state.current, cue("Q12", "Enter Juliet", Some("red")));
    assert_eq!(app.state.last_rx, Some(100));
    assert_eq!(app.status, "Connecting…");
    assert!(!app.state.connected);
    assert_eq!(app.state.current.title(), "Cue Q12");
    assert_eq!(app.state.current.caption(), "Enter Juliet");
    assert_eq!(app.state.current.color_line(), "Color: red");
    app.apply_event(NetEvent::CueFired(cue("Q13", "", None)), 200);
    assert_eq!(app.state.current, cue("Q13", "", None));
    assert_eq!(app.state.current.title(), "Cue Q13");
    assert_eq!(app.state.current.caption(), "—");
    assert_eq!(app.state.current.color_line(), "Color: —");
    assert_eq!(app.state.next, cue("", "(not provided by OSC)", None));
}

#[test]
fn same_cue_twice_changes_only_the_time() {
    let mut app = TheatreMixApp::new("h".to_string());
    app.apply_event(NetEvent::SubscribeOk(4), 0);
    app.apply_event(NetEvent::CueFired(cue("Q1", "Go", Some("green"))), 100);
    let once = app.clone();
    app.apply_event(NetEvent::CueFired(cue("Q1", "Go", Some("green"))), 900);
    assert_eq!(app.state.current, once.state.current);
    assert_eq!(app.state.last_rx, Some(900));
    app.state.last_rx = once.state.last_rx;
    assert_eq!(app, once);
}

#[test]
fn time_of_the_latest_packet_never_moves_back() {
    let mut app = TheatreMixApp::new("h".to_string());
    app.apply_event(NetEvent::Thump, 1000);
    app.apply_event(NetEvent::Thump, 400);
    assert_eq!(app.state.last_rx, Some(1000));
    app.apply_event(NetEvent::CueFired(cue("Q1", "", None)), 999);
    assert_eq!(app.state.last_rx, Some(1000));
    app.apply_event(NetEvent::CueFired(cue("Q1", "", None)), 1001);
    assert_eq!(app.state.last_rx, Some(1001));
    app.apply_event(NetEvent::SubscribeOk(3), 5000);
    app.apply_event(NetEvent::SubscribeFail, 5000);
    app.apply_event(NetEvent::Error("x".to_string()), 5000);
    assert_eq!(app.state.last_rx, Some(1001));
}

#[test]
fn age_counts_from_the_latest_packet() {
    let mut app = TheatreMixApp::new("h".to_string());
    app.apply_event(NetEvent::Thump, 1000);
    assert_eq!(app.age(1000), Some(0));
    assert_eq!(app.age(3500), Some(2500));
    assert_eq!(app.age(999), Some(0));
    assert_eq!(app.age(u64::MAX), Some(u64::MAX - 1000));
}

#[test]
fn events_are_applied_in_order() {
    let mut app = TheatreMixApp::new("h".to_string());
    app.apply_events(
        vec![
            NetEvent::SubscribeOk(10),
            NetEvent::CueFired(cue("Q1", "One", None)),
            NetEvent::CueFired(cue("Q2", "Two", None)),
            NetEvent::SubscribeFail,
        ],
        77,
    );
    assert_eq!(app.state.current, cue("Q2", "Two", None));
    assert!(!app.state.connected);
    assert_eq!(app.status, "Subscription failed");
    assert_eq!(app.state.last_rx, Some(77));
    let before = app.clone();
    app.apply_events(vec![], 78);
    assert_eq!(app, before);
    app.apply_events(vec![NetEvent::SubscribeFail, NetEvent::SubscribeOk(2)], 79);
    assert!(app.state.connected);
    assert_eq!(app.status, "Subscribed");
}

#[test]
fn candidate_is_the_trimmed_edit() {
    let mut app = TheatreMixApp::new("127.0.0.1".to_string());
    assert_eq!(app.host_candidate(), None);
    app.host_edit = "   ".to_string();
    assert_eq!(app.host_candidate(), None);
    app.host_edit = " \t\n".to_string();
    assert_eq!(app.host_candidate(), None);
    app.host_edit = "127.0.0.1".to_string();
    assert_eq!(app.host_candidate(), None);
    app.host_edit = "  127.0.0.1 ".to_string();
    assert_eq!(app.host_candidate(), None);
    app.host_edit = "  studio.local\n".to_string();
    assert_eq!(app.host_candidate(), Some("studio.local".to_string()));
    app.host_edit = "studio local".to_string();
    assert_eq!(app.host_candidate(), Some("studio local".to_string()));
    assert_eq!(app.host_edit, "studio local");
}

#[test]
fn resolved_host_is_taken_over() {
    let mut app = TheatreMixApp::new("127.0.0.1".to_string());
    app.apply_event(NetEvent::SubscribeOk(10), 0);
    app.apply_event(NetEvent::CueFired(cue("Q1", "Go", None)), 5);
    app.host_edit = " studio.local ".to_string();
    let host = app.host_candidate().unwrap();
    let cmd = app.change_host(host, true);
    assert_eq!(cmd, Some(NetCmd::SetHost("studio.local".to_string())));
    assert_eq!(app.host, "studio.local");
    assert_eq!(app.status, "Reconnecting…");
    assert!(!app.state.connected);
    assert_eq!(app.state.current, cue("Q1", "Go", None));
    assert_eq!(app.state.last_rx, Some(5));
    assert_eq!(app.host_edit, " studio.local ");
    assert_eq!(app.host_line(), "Host: studio.local");
    assert_eq!(app.status_line(), "Status: Reconnecting… (waiting)");
}

#[test]
fn unresolved_host_is_refused() {
    let mut app = TheatreMixApp::new("127.0.0.1".to_string());
    app.apply_event(NetEvent::SubscribeOk(10), 0);
    let cmd = app.change_host("no such host".to_string(), false);
    assert_eq!(cmd, None);
    assert_eq!(app.host, "127.0.0.1");
    assert_eq!(app.status, "Invalid host: no such host");
    assert!(app.state.connected);
    assert_eq!(app.status_line(), "Status: Invalid host: no such host");
}

#[test]
fn settings_show_the_host_in_use() {
    let mut app = TheatreMixApp::new("127.0.0.1".to_string());
    app.prefill_host_edit();
    assert_eq!(app.host_edit, "127.0.0.1");
    app.host_edit = "x".to_string();
    app.prefill_host_edit();
    assert_eq!(app.host_edit, "x");
    assert_eq!(app.host, "127.0.0.1");
}

#[test]
fn status_texts_end_in_an_ellipsis() {
    let mut app = TheatreMixApp::new("127.0.0.1".to_string());
    assert_eq!(app.status.chars().count(), 11);
    assert_eq!(app.status.chars().last(), Some('\u{2026}'));
    assert_eq!(app.status, "Connecting\u{2026}");
    app.change_host("studio.local".to_string(), true);
    assert_eq!(app.status.chars().count(), 13);
    assert_eq!(app.status, "Reconnecting\u{2026}");
}
