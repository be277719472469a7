//! Tests for the application state machine: selection, unread merging,
//! status reconciliation, the address flow, the confirmation latch, key
//! routing, and the end-to-end scenarios.

use simplex_tui::app::{App, ContactOption};
use simplex_tui::codec::decode_text;
use simplex_tui::types::{ChatMessage, Contact, Key, MessageStatus, Mode, Panel, SimplexEvent};

fn app_with_contacts(names: &[&str]) -> App {
    let mut app = App::new();
    let contacts: Vec<Contact> = names
        .iter()
        .map(|n| Contact::new(n.to_string()))
        .collect();
    app.apply_event(SimplexEvent::Contacts(contacts));
    app
}

fn msg(mine: bool, status: MessageStatus) -> ChatMessage {
    ChatMessage {
        sender: if mine { "You".to_string() } else { "Contact".to_string() },
        content: "x".to_string(),
        time: "10:00".to_string(),
        mine,
        status,
    }
}

#[test]
fn select_contact_clears_unread_and_fetches_history() {
    let mut app = app_with_contacts(&["alice", "bob"]);
    app.contacts[0].unread = 3;
    app.messages.push(msg(false, MessageStatus::Delivered));
    app.select_contact();
    assert_eq!(app.current_contact.as_deref(), Some("alice"));
    assert_eq!(app.contacts[0].unread, 0);
    assert!(app.messages.is_empty());
    assert_eq!(app.scroll, 0);
    let cmds = app.take_outbox();
    assert_eq!(cmds.last().unwrap(), "/tail @alice 50");
}

#[test]
fn unread_merge_is_idempotent() {
    // Refreshing twice with identical remote data yields identical
    // unread counts both times.
    let mut app = app_with_contacts(&["alice", "bob"]);
    app.contacts[1].unread = 4;
    let remote = || {
        vec![
            Contact::new("alice".to_string()),
            Contact::new("bob".to_string()),
        ]
    };
    app.apply_event(SimplexEvent::Contacts(remote()));
    let once: Vec<usize> = app.contacts.iter().map(|c| c.unread).collect();
    app.apply_event(SimplexEvent::Contacts(remote()));
    let twice: Vec<usize> = app.contacts.iter().map(|c| c.unread).collect();
    assert_eq!(once, vec![0, 4]);
    assert_eq!(once, twice);
    assert_eq!(app.status, "2 contacts");
}

#[test]
fn select_then_refresh_keeps_zero_unread() {
    let mut app = app_with_contacts(&["alice", "bob"]);
    app.contacts[0].unread = 5;
    app.select_contact();
    assert_eq!(app.contacts[0].unread, 0);
    app.apply_event(SimplexEvent::Contacts(vec![
        Contact::new("alice".to_string()),
        Contact::new("bob".to_string()),
    ]));
    assert_eq!(app.contacts[0].unread, 0);
}

#[test]
fn status_never_regresses() {
    let mut app = App::new();
    app.messages.push(msg(true, MessageStatus::Delivered));
    app.apply_event(SimplexEvent::MessageUpdate { status: MessageStatus::Sent });
    // Delivered followed by Sent must leave it at Delivered.
    assert_eq!(app.messages[0].status, MessageStatus::Delivered);
}

#[test]
fn failed_is_never_overwritten() {
    let mut app = App::new();
    app.messages.push(msg(true, MessageStatus::Failed));
    app.apply_event(SimplexEvent::MessageUpdate { status: MessageStatus::Read });
    assert_eq!(app.messages[0].status, MessageStatus::Failed);
}

#[test]
fn update_attaches_to_most_recent_in_flight_message() {
    let mut app = App::new();
    app.messages.push(msg(true, MessageStatus::Sending));
    app.messages.push(msg(false, MessageStatus::Delivered));
    app.messages.push(msg(true, MessageStatus::Sent));
    app.apply_event(SimplexEvent::MessageUpdate { status: MessageStatus::Delivered });
    // The most recent outgoing in-flight message takes the update; the
    // older one keeps its state, and the inbound one is untouched.
    assert_eq!(app.messages[2].status, MessageStatus::Delivered);
    assert_eq!(app.messages[0].status, MessageStatus::Sending);
    assert_eq!(app.messages[1].status, MessageStatus::Delivered);
}

#[test]
fn address_two_phase_flow() {
    let mut app = App::new();
    app.create_address();
    assert!(app.pending_new_address);
    assert!(app.invite_link.is_none());
    let before = app.outbox.clone();
    assert_eq!(before.last().unwrap(), "/da");
    // Phase two: the deleted event queues exactly one create command.
    app.apply_event(SimplexEvent::AddressDeleted);
    assert!(!app.pending_new_address);
    assert_eq!(app.outbox.len(), before.len() + 1);
    assert_eq!(app.outbox.last().unwrap(), "/ad");
    // A second deleted event with the flag already clear is a no-op.
    let len = app.outbox.len();
    app.apply_event(SimplexEvent::AddressDeleted);
    assert_eq!(app.outbox.len(), len);
    assert!(!app.pending_new_address);
}

#[test]
fn no_address_error_finishes_pending_creation() {
    let mut app = App::new();
    app.create_address();
    app.apply_event(SimplexEvent::Error("No address".to_string()));
    assert!(!app.pending_new_address);
    assert_eq!(app.outbox.last().unwrap(), "/ad");
}

#[test]
fn address_exists_error_refetches() {
    let mut app = App::new();
    app.apply_event(SimplexEvent::Error("Address exists".to_string()));
    assert_eq!(app.outbox.last().unwrap(), "/sa");
    assert_eq!(app.status, "Loading address...");
}

#[test]
fn confirmation_latch_arms_then_performs_once() {
    let mut app = app_with_contacts(&["alice"]);
    app.open_contact_options("alice".to_string());
    let before = app.outbox.len();
    // First activation arms the latch without performing anything.
    app.execute_selected_option();
    assert_eq!(app.confirm_action, Some(ContactOption::DeleteContact));
    assert_eq!(app.outbox.len(), before);
    assert_eq!(app.contacts.len(), 1);
    // Second activation performs exactly one delete.
    app.execute_selected_option();
    assert_eq!(app.outbox.len(), before + 1);
    assert_eq!(app.outbox.last().unwrap(), "/d 'alice'");
    assert!(app.contacts.is_empty());
    assert!(app.confirm_action.is_none());
    assert_eq!(app.mode, Mode::Normal);
}

#[test]
fn cancel_disarms_without_performing() {
    let mut app = app_with_contacts(&["alice"]);
    app.open_contact_options("alice".to_string());
    let before = app.outbox.len();
    app.execute_selected_option();
    assert!(app.confirm_action.is_some());
    // Escape cancels the armed confirmation without performing it.
    app.handle_key(Key::Esc, false);
    assert!(app.confirm_action.is_none());
    assert_eq!(app.outbox.len(), before);
    assert_eq!(app.contacts.len(), 1);
    assert_eq!(app.status, "Action cancelled");
    // The view is still open; a second Escape closes it.
    assert_eq!(app.mode, Mode::ContactOptions);
    app.handle_key(Key::Esc, false);
    assert_eq!(app.mode, Mode::Normal);
}

#[test]
fn navigation_disarms_the_latch() {
    let mut app = app_with_contacts(&["alice"]);
    app.open_contact_options("alice".to_string());
    app.execute_selected_option();
    assert!(app.confirm_action.is_some());
    app.handle_key(Key::Down, false);
    assert!(app.confirm_action.is_none());
    assert_eq!(app.option_selection, 1);
}

#[test]
fn non_destructive_actions_skip_the_latch() {
    let mut app = app_with_contacts(&["alice"]);
    app.open_contact_options("alice".to_string());
    app.option_selection = 2;
    app.execute_selected_option();
    assert!(app.confirm_action.is_none());
    assert_eq!(app.outbox.last().unwrap(), "/info 'alice'");
}

#[test]
fn clear_chat_confirmation() {
    let mut app = app_with_contacts(&["alice"]);
    app.select_contact();
    app.messages.push(msg(false, MessageStatus::Delivered));
    app.open_contact_options("alice".to_string());
    app.option_selection = 1;
    app.execute_selected_option();
    assert_eq!(app.confirm_action, Some(ContactOption::ClearChat));
    app.execute_selected_option();
    assert_eq!(app.outbox.last().unwrap(), "/clear 'alice'");
    assert!(app.messages.is_empty());
}

#[test]
fn scenario_contacts_then_select() {
    // End to end: a contactsList response yields the contact, selecting
    // it queues a history fetch naming it and clears the log.
    let raw = r#"{"corrId":"1","resp":{"type":"contactsList","contacts":[{"localDisplayName":"alice"}]}}"#;
    let d = decode_text(raw);
    assert!(d.response);
    let mut app = App::new();
    app.messages.push(msg(false, MessageStatus::Delivered));
    for ev in d.events {
        app.apply_event(ev);
    }
    assert_eq!(app.contacts.len(), 1);
    assert_eq!(app.contacts[0].name, "alice");
    assert_eq!(app.contacts[0].unread, 0);
    app.select_contact();
    assert!(app.messages.is_empty());
    let cmds = app.take_outbox();
    assert!(cmds.iter().any(|c| c.contains("@alice")));
}

#[test]
fn scenario_push_message_for_other_contact() {
    // End to end: a pushed message from bob, while bob is not the open
    // conversation, raises bob's unread count and leaves the log alone.
    let mut app = app_with_contacts(&["alice", "bob"]);
    app.select_contact();
    app.take_outbox();
    let log_len = app.messages.len();
    let raw = r#"{"type":"newChatItems","chatItems":[{"chatInfo":{"contact":{"localDisplayName":"bob"}},"chatItem":{"chatDir":{"type":"directRcv"},"content":{"msgContent":{"text":"hi"}}}}]}"#;
    let d = decode_text(raw);
    assert!(!d.response);
    for ev in d.events {
        app.apply_event(ev);
    }
    assert_eq!(app.contacts[1].unread, 1);
    assert_eq!(app.messages.len(), log_len);
}

#[test]
fn push_message_for_current_contact_appends() {
    let mut app = app_with_contacts(&["bob"]);
    app.select_contact();
    app.apply_event(SimplexEvent::NewMessage {
        sender: "bob".to_string(),
        text: "hello there".to_string(),
    });
    assert_eq!(app.messages.len(), 1);
    assert_eq!(app.messages[0].content, "hello there");
    assert!(!app.messages[0].mine);
    assert_eq!(app.messages[0].status, MessageStatus::Delivered);
    assert_eq!(app.messages[0].time.len(), 5);
    assert_eq!(app.contacts[0].unread, 0);
}

#[test]
fn send_message_optimistic_append() {
    let mut app = app_with_contacts(&["alice"]);
    app.take_outbox();
    app.handle_key(Key::Enter, false); // select alice, enters history fetch
    app.take_outbox();
    app.mode = Mode::Input;
    for c in "hello".chars() {
        app.handle_key(Key::Char(c), false);
    }
    app.handle_key(Key::Enter, false);
    assert_eq!(app.messages.len(), 1);
    assert!(app.messages[0].mine);
    assert_eq!(app.messages[0].sender, "You");
    assert_eq!(app.messages[0].content, "hello");
    assert_eq!(app.messages[0].status, MessageStatus::Sending);
    assert_eq!(app.messages[0].time.len(), 5);
    assert!(app.input.is_empty());
    assert_eq!(app.take_outbox().last().unwrap(), "@alice hello");
}

#[test]
fn send_message_empty_input_is_noop() {
    let mut app = app_with_contacts(&["alice"]);
    app.take_outbox();
    app.send_message();
    assert!(app.messages.is_empty());
    assert!(app.take_outbox().is_empty());
}

#[test]
fn input_editing() {
    let mut app = App::new();
    app.mode = Mode::Input;
    for c in "helo".chars() {
        app.handle_key(Key::Char(c), false);
    }
    app.handle_key(Key::Left, false);
    app.handle_key(Key::Char('l'), false);
    assert_eq!(app.input.iter().collect::<String>(), "hello");
    app.handle_key(Key::Home, false);
    app.handle_key(Key::Delete, false);
    assert_eq!(app.input.iter().collect::<String>(), "ello");
    app.handle_key(Key::End, false);
    app.handle_key(Key::Backspace, false);
    assert_eq!(app.input.iter().collect::<String>(), "ell");
}

#[test]
fn mode_transitions() {
    let mut app = App::new();
    assert_eq!(app.mode, Mode::Normal);
    app.handle_key(Key::F(12), false);
    assert_eq!(app.mode, Mode::Panic);
    app.handle_key(Key::Esc, false);
    assert_eq!(app.mode, Mode::Normal);
    app.handle_key(Key::Char('i'), false);
    assert_eq!(app.mode, Mode::AddContact);
    assert_eq!(app.take_outbox().last().unwrap(), "/sa");
    app.handle_key(Key::Esc, false);
    assert_eq!(app.mode, Mode::Normal);
    app.handle_key(Key::Tab, false);
    assert_eq!(app.panel, Panel::Chat);
    app.handle_key(Key::Tab, false);
    assert_eq!(app.panel, Panel::Input);
    assert_eq!(app.mode, Mode::Input);
}

#[test]
fn ctrl_chords() {
    let mut app = App::new();
    app.handle_key(Key::Char('l'), true);
    assert_eq!(app.take_outbox().last().unwrap(), "/contacts");
    assert!(app.running);
    app.handle_key(Key::Char('q'), true);
    assert!(!app.running);
}

#[test]
fn unknown_keys_are_noops() {
    let mut app = app_with_contacts(&["alice"]);
    app.take_outbox();
    let contacts_before = app.contacts.len();
    let mode_before = app.mode;
    app.handle_key(Key::Other, false);
    app.handle_key(Key::Char('z'), false);
    assert_eq!(app.contacts.len(), contacts_before);
    assert_eq!(app.mode, mode_before);
    assert!(app.take_outbox().is_empty());
}

#[test]
fn connect_input_trims_and_sends() {
    let mut app = App::new();
    app.mode = Mode::AddContact;
    for c in "https://simplex/invite  ".chars() {
        app.handle_key(Key::Char(c), false);
    }
    // Leading white space typed around the pasted link is trimmed too.
    app.connect_input.insert(0, ' ');
    app.connect_input.insert(0, ' ');
    app.handle_key(Key::Enter, false);
    assert_eq!(app.mode, Mode::Normal);
    assert!(app.connect_input.is_empty());
    assert_eq!(app.take_outbox().last().unwrap(), "/c https://simplex/invite");
}

#[test]
fn add_contact_shortcuts() {
    let mut app = App::new();
    app.mode = Mode::AddContact;
    app.handle_key(Key::Char('g'), false);
    assert_eq!(app.take_outbox().last().unwrap(), "/sa");
    app.handle_key(Key::Char('c'), false);
    assert!(app.pending_new_address);
    assert_eq!(app.take_outbox().last().unwrap(), "/da");
}

#[test]
fn double_click_detection() {
    let mut app = app_with_contacts(&["alice", "bob"]);
    assert!(!app.check_double_click(0));
    // Immediately again on the same entry: a double activation.
    assert!(app.check_double_click(0));
    // A different entry: single again.
    assert!(!app.check_double_click(1));
}

#[test]
fn contact_deleted_event_clamps_selection() {
    let mut app = app_with_contacts(&["alice", "bob"]);
    app.selected = 1;
    app.apply_event(SimplexEvent::ContactDeleted("bob".to_string()));
    assert_eq!(app.contacts.len(), 1);
    assert_eq!(app.selected, 0);
    assert_eq!(app.status, "Deleted: bob");
}

#[test]
fn connection_status_events() {
    let mut app = App::new();
    app.apply_event(SimplexEvent::Connected);
    assert!(app.connected);
    app.apply_event(SimplexEvent::Disconnected);
    assert!(!app.connected);
    app.apply_event(SimplexEvent::Status("anything".to_string()));
    assert_eq!(app.status, "anything");
}

#[test]
fn contact_info_event_opens_view() {
    let raw = r#"{"corrId":"6","resp":{"type":"contactInfo","contact":{"localDisplayName":"gina"}}}"#;
    let mut app = App::new();
    for ev in decode_text(raw).events {
        app.apply_event(ev);
    }
    assert_eq!(app.mode, Mode::ContactInfo);
    assert_eq!(app.contact_info_data.as_ref().unwrap().name, "gina");
    app.handle_key(Key::Esc, false);
    assert_eq!(app.mode, Mode::Normal);
    assert!(app.contact_info_data.is_none());
}

#[test]
fn refresh_key_fetches_contacts_and_history() {
    let mut app = app_with_contacts(&["alice"]);
    app.select_contact();
    app.take_outbox();
    app.handle_key(Key::Char('r'), false);
    let cmds = app.take_outbox();
    assert_eq!(cmds.len(), 2);
    assert_eq!(cmds[0], "/tail @alice 50");
    assert_eq!(cmds[1], "/contacts");
}

#[test]
fn send_file_builds_command() {
    let mut app = app_with_contacts(&["alice"]);
    app.select_contact();
    app.take_outbox();
    app.send_file("/tmp/cat.png", "cat.png");
    assert_eq!(app.take_outbox().last().unwrap(), "/f @'alice' /tmp/cat.png");
    assert_eq!(app.status, "Sending cat.png...");
}

#[test]
fn send_file_without_conversation_is_noop() {
    let mut app = App::new();
    app.send_file("/tmp/cat.png", "cat.png");
    assert!(app.take_outbox().is_empty());
}

#[test]
fn panic_mode_actions() {
    let mut app = App::new();
    app.handle_key(Key::F(12), false);
    app.handle_key(Key::Char('1'), false);
    assert_eq!(app.status, "Screen locked");
    assert_eq!(app.mode, Mode::Panic);
    app.handle_key(Key::Char('2'), false);
    assert!(!app.running);
}

#[test]
fn options_open_via_key() {
    let mut app = app_with_contacts(&["alice", "bob"]);
    app.handle_key(Key::Down, false);
    app.handle_key(Key::Char('o'), false);
    assert_eq!(app.mode, Mode::ContactOptions);
    assert_eq!(app.contact_for_options.as_deref(), Some("bob"));
    assert_eq!(app.option_selection, 0);
    assert!(app.confirm_action.is_none());
}

#[test]
fn message_from_unknown_sender_changes_no_counts() {
    let mut app = app_with_contacts(&["alice"]);
    app.apply_event(SimplexEvent::NewMessage {
        sender: "stranger".to_string(),
        text: "hi".to_string(),
    });
    assert_eq!(app.contacts[0].unread, 0);
    assert!(app.messages.is_empty());
}

#[test]
fn invite_link_event_is_cached() {
    let mut app = App::new();
    app.apply_event(SimplexEvent::InviteLink("simplex://me".to_string()));
    assert_eq!(app.invite_link.as_deref(), Some("simplex://me"));
}

#[test]
fn contact_selection_wraps() {
    let mut app = app_with_contacts(&["a", "b", "c"]);
    assert_eq!(app.selected, 0);
    app.prev_contact();
    assert_eq!(app.selected, 2);
    app.next_contact();
    assert_eq!(app.selected, 0);
}
