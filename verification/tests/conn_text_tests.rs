//! Tests for the connection-session state machine and the text helpers.

use simplex_tui::conn::{conn_step, ConnAction, ConnEvent, ConnState};
use simplex_tui::strutil::u64_to_string;
use simplex_tui::text::{avatar_color_index, get_footer_text, get_initials};
use simplex_tui::types::SimplexEvent;

#[test]
fn session_opens_with_bootstrap_commands() {
    let (next, actions) = conn_step(ConnState::Connecting, ConnEvent::Opened);
    assert_eq!(next, ConnState::Connected);
    assert_eq!(actions.len(), 3);
    assert!(matches!(
        &actions[0],
        ConnAction::Emit(SimplexEvent::Connected)
    ));
    match &actions[1] {
        ConnAction::SendFrame(f) => {
            assert_eq!(f, r#"{"corrId":"init","cmd":"/contacts"}"#)
        }
        other => panic!("wrong action: {:?}", other),
    }
    match &actions[2] {
        ConnAction::SendFrame(f) => assert_eq!(f, r#"{"corrId":"addr","cmd":"/sa"}"#),
        other => panic!("wrong action: {:?}", other),
    }
}

#[test]
fn session_retries_forever() {
    let (next, actions) = conn_step(ConnState::Connected, ConnEvent::Closed);
    assert_eq!(next, ConnState::Disconnected);
    assert!(matches!(
        &actions[0],
        ConnAction::Emit(SimplexEvent::Disconnected)
    ));
    assert!(matches!(&actions[1], ConnAction::Sleep));
    let (next, actions) = conn_step(next, ConnEvent::Retry);
    assert_eq!(next, ConnState::Connecting);
    assert!(matches!(&actions[0], ConnAction::Connect));
    let (next, actions) = conn_step(next, ConnEvent::ConnectFailed);
    assert_eq!(next, ConnState::Disconnected);
    assert_eq!(actions.len(), 2);
}

#[test]
fn session_forwards_decoded_frames() {
    let frame = r#"{"type":"contactConnecting"}"#.to_string();
    let (next, actions) = conn_step(ConnState::Connected, ConnEvent::Frame(frame));
    assert_eq!(next, ConnState::Connected);
    assert_eq!(actions.len(), 1);
    match &actions[0] {
        ConnAction::Emit(SimplexEvent::Status(s)) => assert_eq!(s, "Connecting..."),
        other => panic!("wrong action: {:?}", other),
    }
}

#[test]
fn session_drops_malformed_frames() {
    let (next, actions) = conn_step(
        ConnState::Connected,
        ConnEvent::Frame("not json".to_string()),
    );
    assert_eq!(next, ConnState::Connected);
    assert!(actions.is_empty());
}

#[test]
fn session_ignores_stray_events() {
    let (next, actions) = conn_step(ConnState::Disconnected, ConnEvent::Closed);
    assert_eq!(next, ConnState::Disconnected);
    assert!(actions.is_empty());
}

#[test]
fn initials_of_names() {
    assert_eq!(get_initials("alice"), "AL");
    assert_eq!(get_initials("alice cooper"), "AC");
    assert_eq!(get_initials("  spaced   name  "), "SN");
    assert_eq!(get_initials("x"), "X");
    assert_eq!(get_initials(""), "?");
    assert_eq!(get_initials("   "), "?");
    assert_eq!(get_initials("three word name"), "TW");
}

#[test]
fn avatar_colors_are_stable() {
    // "ab": 97 + 98 = 195; 195 mod 8 = 3.
    assert_eq!(avatar_color_index("ab"), 3);
    assert_eq!(avatar_color_index(""), 0);
    assert!(avatar_color_index("anything at all") < 8);
    assert_eq!(
        avatar_color_index("alice"),
        avatar_color_index("alice")
    );
}

#[test]
fn footer_phases() {
    // Frame 0: nothing typed in yet.
    assert_eq!(get_footer_text(0), "");
    // Mid-phase: the whole first text.
    assert_eq!(get_footer_text(100), "v0.1.1-alpha");
    // Second text's hold phase.
    assert_eq!(get_footer_text(300), "i(N) cod(E) w(E) trus(T)");
    // Third text's hold phase.
    assert_eq!(get_footer_text(500), "(c) by cannatoshi");
    // The cycle wraps.
    assert_eq!(get_footer_text(700), "v0.1.1-alpha");
    // Deep in the type-out, one character is left.
    assert_eq!(get_footer_text(199), "v");
}

#[test]
fn decimal_rendering() {
    assert_eq!(u64_to_string(0), "0");
    assert_eq!(u64_to_string(7), "7");
    assert_eq!(u64_to_string(1024), "1024");
    assert_eq!(u64_to_string(u64::MAX), "18446744073709551615");
}

#[test]
fn footer_types_in_gradually() {
    // Twenty frames into the type-in: half of the twelve characters.
    assert_eq!(get_footer_text(20), "v0.1.1");
}
