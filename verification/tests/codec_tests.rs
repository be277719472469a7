//! Tests for the protocol codec: classification, the discriminator table,
//! error resolution, history reconstruction, and the wire encoding.

use simplex_tui::codec::{decode_text, encode_request};
use simplex_tui::types::{ApiCommand, MessageStatus, SimplexEvent};

#[test]
fn classification_by_corr_id() {
    // The same discriminator with and without an outer correlation
    // identifier: presence alone decides response versus push.
    let with_id = r#"{"corrId":"1","resp":{"type":"userContactLinkDeleted"}}"#;
    let without = r#"{"resp":{"type":"userContactLinkDeleted"}}"#;
    let a = decode_text(with_id);
    let b = decode_text(without);
    assert!(a.response);
    assert!(!b.response);
    // The produced events are decided by the discriminator alone.
    assert_eq!(a.events.len(), 2);
    assert_eq!(b.events.len(), 2);
}

#[test]
fn classification_error_payloads() {
    let with_id = r#"{"corrId":"7","resp":{"type":"chatCmdError"}}"#;
    let without = r#"{"resp":{"type":"chatCmdError"}}"#;
    assert!(decode_text(with_id).response);
    assert!(!decode_text(without).response);
    assert!(decode_text(r#"{"corrId":"8","resp":{"type":"chatError"}}"#).response);
    assert!(!decode_text(r#"{"resp":{"type":"chatError"}}"#).response);
    assert!(decode_text(r#"{"corrId":"9","resp":{"type":"cmdError"}}"#).response);
    assert!(!decode_text(r#"{"resp":{"type":"cmdError"}}"#).response);
}

#[test]
fn classification_address_payloads() {
    // Discriminators that occur both as responses and as pushes.
    for t in ["userContactLinkCreated", "userContactLinkUpdated"] {
        let with_id = format!(r#"{{"corrId":"1","resp":{{"type":"{}"}}}}"#, t);
        let without = format!(r#"{{"resp":{{"type":"{}"}}}}"#, t);
        let a = decode_text(&with_id);
        let b = decode_text(&without);
        assert!(a.response);
        assert!(!b.response);
        assert!(matches!(a.events[0], SimplexEvent::AddressCreated));
        assert!(matches!(b.events[0], SimplexEvent::AddressCreated));
    }
}

#[test]
fn contacts_list_extracts_names() {
    let raw = r#"{"corrId":"1","resp":{"type":"contactsList","contacts":
        [{"localDisplayName":"alice"},{"noName":true},{"localDisplayName":"bob"}]}}"#;
    let d = decode_text(raw);
    assert!(d.response);
    assert_eq!(d.events.len(), 1);
    match &d.events[0] {
        SimplexEvent::Contacts(cs) => {
            assert_eq!(cs.len(), 2);
            assert_eq!(cs[0].name, "alice");
            assert_eq!(cs[0].unread, 0);
            assert!(!cs[0].online);
            assert_eq!(cs[1].name, "bob");
        }
        other => panic!("wrong event: {:?}", other),
    }
}

#[test]
fn effective_payload_without_resp_wrapper() {
    let raw = r#"{"type":"contactsList","contacts":[{"localDisplayName":"carol"}]}"#;
    let d = decode_text(raw);
    assert!(!d.response);
    assert_eq!(d.events.len(), 1);
    match &d.events[0] {
        SimplexEvent::Contacts(cs) => assert_eq!(cs[0].name, "carol"),
        other => panic!("wrong event: {:?}", other),
    }
}

#[test]
fn chat_history_reconstruction() {
    let raw = r#"{"corrId":"2","resp":{"type":"chatItems","chatItems":[
        {"chatItem":{"chatDir":{"type":"directSnd"},
            "meta":{"itemTs":"2024-01-05T09:41:23Z",
                    "itemStatus":{"type":"sndRcvd"}},
            "content":{"msgContent":{"text":"hello"}}}},
        {"chatItem":{"chatDir":{"type":"directRcv"},
            "meta":{"itemTs":"2024-01-05T09:42:00Z"},
            "content":{"msgContent":{"text":"hi back"}}}},
        {"chatItem":{"chatDir":{"type":"directRcv"}}}
    ]}}"#;
    let d = decode_text(raw);
    assert_eq!(d.events.len(), 1);
    match &d.events[0] {
        SimplexEvent::Messages(ms) => {
            // The third entry has neither text nor file and is dropped.
            assert_eq!(ms.len(), 2);
            assert_eq!(ms[0].sender, "You");
            assert_eq!(ms[0].content, "hello");
            assert_eq!(ms[0].time, "09:41");
            assert!(ms[0].mine);
            assert_eq!(ms[0].status, MessageStatus::Delivered);
            assert_eq!(ms[1].sender, "Contact");
            assert_eq!(ms[1].content, "hi back");
            assert_eq!(ms[1].time, "09:42");
            assert!(!ms[1].mine);
        }
        other => panic!("wrong event: {:?}", other),
    }
}

#[test]
fn history_file_attachment_lines() {
    let raw = r#"{"corrId":"2","resp":{"type":"chatItems","chatItems":[
        {"chatItem":{"chatDir":{"type":"directRcv"},
            "content":{"msgContent":{"text":"look"}},
            "file":{"fileName":"pic.png","fileSize":2048,"fileId":7}}},
        {"chatItem":{"chatDir":{"type":"directSnd"},
            "file":{"fileName":"doc.pdf","fileSize":10}}}
    ]}}"#;
    let d = decode_text(raw);
    match &d.events[0] {
        SimplexEvent::Messages(ms) => {
            assert_eq!(ms.len(), 2);
            assert_eq!(ms[0].content, "look\n[file] pic.png (2048 bytes) [/fr 7 ./]");
            assert_eq!(ms[1].content, "[file] doc.pdf (10 bytes)");
            assert!(ms[1].mine);
        }
        other => panic!("wrong event: {:?}", other),
    }
}

#[test]
fn new_chat_items_received_message() {
    let raw = r#"{"type":"newChatItems","chatItems":[
        {"chatInfo":{"contact":{"localDisplayName":"bob"}},
         "chatItem":{"chatDir":{"type":"directRcv"},
                     "content":{"msgContent":{"text":"hi"}}}}]}"#;
    let d = decode_text(raw);
    assert!(!d.response);
    assert_eq!(d.events.len(), 1);
    match &d.events[0] {
        SimplexEvent::NewMessage { sender, text } => {
            assert_eq!(sender, "bob");
            assert_eq!(text, "hi");
        }
        other => panic!("wrong event: {:?}", other),
    }
}

#[test]
fn new_chat_items_sent_becomes_status_update() {
    let raw = r#"{"type":"newChatItems","chatItems":[
        {"chatInfo":{"contact":{"localDisplayName":"bob"}},
         "chatItem":{"chatDir":{"type":"directSnd"},
                     "meta":{"itemStatus":{"type":"sndSent"}},
                     "content":{"msgContent":{"text":"mine"}}}}]}"#;
    let d = decode_text(raw);
    assert_eq!(d.events.len(), 1);
    match &d.events[0] {
        SimplexEvent::MessageUpdate { status } => assert_eq!(*status, MessageStatus::Sent),
        other => panic!("wrong event: {:?}", other),
    }
}

#[test]
fn new_chat_items_empty_text_is_dropped() {
    let raw = r#"{"type":"newChatItems","chatItems":[
        {"chatInfo":{"contact":{"localDisplayName":"bob"}},
         "chatItem":{"chatDir":{"type":"directRcv"},
                     "content":{"msgContent":{"text":""}}}}]}"#;
    let d = decode_text(raw);
    assert_eq!(d.events.len(), 0);
}

#[test]
fn status_vocabulary_mapping() {
    for (wire, want) in [
        ("sndNew", MessageStatus::Sending),
        ("sndCreated", MessageStatus::Sending),
        ("sndSent", MessageStatus::Sent),
        ("sndRcvd", MessageStatus::Delivered),
        ("sndDelivered", MessageStatus::Delivered),
        ("sndRead", MessageStatus::Read),
        ("sndError", MessageStatus::Failed),
        ("sndFailed", MessageStatus::Failed),
        ("sndErrorAuth", MessageStatus::Failed),
        ("somethingElse", MessageStatus::Sent),
    ] {
        let raw = format!(
            r#"{{"type":"chatItemStatusUpdated","chatItem":{{"meta":{{"itemStatus":{{"type":"{}"}}}}}}}}"#,
            wire
        );
        let d = decode_text(&raw);
        match &d.events[0] {
            SimplexEvent::MessageUpdate { status } => assert_eq!(*status, want),
            other => panic!("wrong event: {:?}", other),
        }
    }
}

#[test]
fn statuses_updated_uses_first_item_only() {
    let raw = r#"{"type":"chatItemsStatusesUpdated","chatItems":[
        {"chatItem":{"meta":{"itemStatus":{"type":"sndRead"}}}},
        {"chatItem":{"meta":{"itemStatus":{"type":"sndSent"}}}}]}"#;
    let d = decode_text(raw);
    assert_eq!(d.events.len(), 1);
    match &d.events[0] {
        SimplexEvent::MessageUpdate { status } => assert_eq!(*status, MessageStatus::Read),
        other => panic!("wrong event: {:?}", other),
    }
}

#[test]
fn address_events() {
    let link = r#"{"corrId":"3","resp":{"type":"userContactLink","contactLink":
        {"connLinkContact":{"connShortLink":"https://x/abc"}}}}"#;
    let d = decode_text(link);
    match &d.events[0] {
        SimplexEvent::InviteLink(l) => assert_eq!(l, "https://x/abc"),
        other => panic!("wrong event: {:?}", other),
    }

    // No short link present: no event at all.
    let no_link = r#"{"corrId":"3","resp":{"type":"userContactLink","contactLink":{}}}"#;
    assert_eq!(decode_text(no_link).events.len(), 0);

    let created = r#"{"type":"userContactLinkCreated"}"#;
    assert!(matches!(
        decode_text(created).events[0],
        SimplexEvent::AddressCreated
    ));

    let deleted = r#"{"type":"userContactLinkDeleted"}"#;
    let d = decode_text(deleted);
    assert_eq!(d.events.len(), 2);
    match &d.events[0] {
        SimplexEvent::Status(s) => assert_eq!(s, "Address deleted, creating new..."),
        other => panic!("wrong event: {:?}", other),
    }
    assert!(matches!(d.events[1], SimplexEvent::AddressDeleted));
}

#[test]
fn invitation_and_confirmations() {
    let inv = r#"{"corrId":"4","resp":{"type":"invitation","connReqInvitation":"simplex://inv"}}"#;
    match &decode_text(inv).events[0] {
        SimplexEvent::InviteLink(l) => assert_eq!(l, "simplex://inv"),
        other => panic!("wrong event: {:?}", other),
    }
    let sent = r#"{"corrId":"5","resp":{"type":"sentInvitation"}}"#;
    match &decode_text(sent).events[0] {
        SimplexEvent::Status(s) => assert_eq!(s, "Invitation sent"),
        other => panic!("wrong event: {:?}", other),
    }
}

#[test]
fn contact_lifecycle_events() {
    let connecting = r#"{"type":"contactConnecting"}"#;
    match &decode_text(connecting).events[0] {
        SimplexEvent::Status(s) => assert_eq!(s, "Connecting..."),
        other => panic!("wrong event: {:?}", other),
    }
    let connected = r#"{"type":"contactConnected","contact":{"localDisplayName":"dan"}}"#;
    match &decode_text(connected).events[0] {
        SimplexEvent::ContactRequest(n) => assert_eq!(n, "dan"),
        other => panic!("wrong event: {:?}", other),
    }
    let request = r#"{"type":"receivedContactRequest","contactRequest":{"localDisplayName":"eva"}}"#;
    match &decode_text(request).events[0] {
        SimplexEvent::ContactRequest(n) => assert_eq!(n, "eva"),
        other => panic!("wrong event: {:?}", other),
    }
    let gone = r#"{"type":"contactDeleted","contact":{"localDisplayName":"dan"}}"#;
    match &decode_text(gone).events[0] {
        SimplexEvent::ContactDeleted(n) => assert_eq!(n, "dan"),
        other => panic!("wrong event: {:?}", other),
    }
    let cleared = r#"{"type":"chatCleared","chatInfo":{"contact":{"localDisplayName":"dan"}}}"#;
    match &decode_text(cleared).events[0] {
        SimplexEvent::ChatCleared(n) => assert_eq!(n, "dan"),
        other => panic!("wrong event: {:?}", other),
    }
}

#[test]
fn error_resolution() {
    for (body, want) in [
        (r#"{"storeError":{"type":"duplicateContactLink"}}"#, "Address exists"),
        (r#"{"storeError":{"type":"userContactLinkNotFound"}}"#, "No address"),
        (r#"{"storeError":{"type":"somethingOdd"}}"#, "somethingOdd"),
        (r#"{"agentError":{"smpErr":{"type":"AUTH"}}}"#, "Invalid link"),
        (r#"{"agentError":{"smpErr":{"type":"QUOTA"}}}"#, "Server: QUOTA"),
        (r#"{"other":true}"#, "Error"),
    ] {
        let raw = format!(
            r#"{{"corrId":"9","resp":{{"type":"chatCmdError","chatError":{}}}}}"#,
            body
        );
        let d = decode_text(&raw);
        match &d.events[0] {
            SimplexEvent::Error(e) => assert_eq!(e, want),
            other => panic!("wrong event: {:?}", other),
        }
    }
}

#[test]
fn contact_info_assembly() {
    let raw = r#"{"corrId":"6","resp":{"type":"contactInfo",
        "contact":{"localDisplayName":"fred",
                   "profile":{"shortDescr":"a friend","contactLink":"simplex://fred"},
                   "activeConn":{"pqEncryption":true,"connStatus":"ready",
                                 "peerChatVRange":{"minVersion":2,"maxVersion":7}},
                   "createdAt":"2023-11-20T10:00:00Z",
                   "updatedAt":"2024-02-02T11:30:00Z"},
        "connectionStats":{"rcvServers":["smp://r1"],"sndServers":["smp://s1"]}}}"#;
    let d = decode_text(raw);
    match &d.events[0] {
        SimplexEvent::ContactInfo(i) => {
            assert_eq!(i.name, "fred");
            assert_eq!(i.bio, "a friend");
            assert_eq!(i.address, "simplex://fred");
            assert_eq!(i.receiving_server, "smp://r1");
            assert_eq!(i.sending_server, "smp://s1");
            assert!(i.pq_encryption);
            assert_eq!(i.connection_status, "ready");
            assert_eq!(i.chat_version, "v2-7");
            assert_eq!(i.created_at, "2023-11-20");
            assert_eq!(i.updated_at, "2024-02-02");
        }
        other => panic!("wrong event: {:?}", other),
    }
}

#[test]
fn contact_info_defaults() {
    let raw = r#"{"corrId":"6","resp":{"type":"contactInfo"}}"#;
    let d = decode_text(raw);
    match &d.events[0] {
        SimplexEvent::ContactInfo(i) => {
            assert_eq!(i.name, "Unknown");
            assert_eq!(i.bio, "");
            assert_eq!(i.address, "");
            assert_eq!(i.receiving_server, "");
            assert_eq!(i.sending_server, "");
            assert!(!i.pq_encryption);
            assert_eq!(i.connection_status, "unknown");
            assert_eq!(i.chat_version, "");
            assert_eq!(i.created_at, "");
            assert_eq!(i.updated_at, "");
        }
        other => panic!("wrong event: {:?}", other),
    }
}

#[test]
fn unrecognized_and_malformed_payloads() {
    assert_eq!(decode_text(r#"{"type":"noSuchThing"}"#).events.len(), 0);
    assert_eq!(decode_text(r#"{"noType":1}"#).events.len(), 0);
    let bad = decode_text("this is not json");
    assert!(!bad.response);
    assert_eq!(bad.events.len(), 0);
}

#[test]
fn encode_request_wire_shape() {
    let c = ApiCommand::with_id("init", "/contacts");
    assert_eq!(
        encode_request(&c),
        r#"{"corrId":"init","cmd":"/contacts"}"#
    );
}

#[test]
fn encode_request_escapes_like_serde() {
    // The verified encoder must agree with serde_json on every escape.
    for cmd in [
        "@alice hello",
        "quote \" backslash \\ done",
        "line\nbreak\ttab\rcr",
        "control \u{1} \u{1f} backspace \u{8} formfeed \u{c}",
        "unicode \u{00e9}\u{4e16}\u{1f600}",
    ] {
        let ours = encode_request(&ApiCommand::with_id("id1", cmd));
        let escaped =
            serde_json::to_string(&serde_json::Value::String(cmd.to_string())).unwrap();
        let theirs = format!(r#"{{"corrId":"id1","cmd":{}}}"#, escaped);
        assert_eq!(ours, theirs);
    }
}

#[test]
fn encode_request_round_trips_through_decoder() {
    let c = ApiCommand::with_id("42", "@bob say \"hi\"\n");
    let wire = encode_request(&c);
    let v: serde_json::Value = serde_json::from_str(&wire).unwrap();
    assert_eq!(v.get("corrId").unwrap().as_str().unwrap(), "42");
    assert_eq!(v.get("cmd").unwrap().as_str().unwrap(), "@bob say \"hi\"\n");
}

#[test]
fn fresh_correlation_ids_are_decimal() {
    let c = ApiCommand::new("/contacts");
    assert_eq!(c.cmd, "/contacts");
    assert!(!c.corr_id.is_empty());
    assert!(c.corr_id.chars().all(|ch| ch.is_ascii_digit()));
}
