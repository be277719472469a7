//! Protocol codec: stateless translation between the daemon's JSON payloads
//! and domain events, and between domain commands and wire requests.
//!
//! Every decode function has a specification-level twin stating exactly
//! which events a payload yields; malformed or unrecognized payloads yield
//! no event rather than an error.

use vstd::prelude::*;

use crate::json::{
    jarr, jbool, jget, jget2, jget3, jstr, jstr_field, ju64, JsonValue,
};
use crate::strutil::{dec_digits, str_eq};
use crate::types::{
    contact_views, event_views, msg_views, ChatMessage, Contact, ContactInfoData, ContactModel,
    EventModel, InfoModel, MessageStatus, MsgModel, SimplexEvent,
};

verus! {

/// The value behind an optional reference, as a spec-level option.
pub open spec fn unref(o: Option<&JsonValue>) -> Option<JsonValue> {
    match o {
        Some(v) => Some(*v),
        None => None,
    }
}

/// Field `k` of an optional object.
pub open spec fn oget(o: Option<JsonValue>, k: Seq<char>) -> Option<JsonValue> {
    match o {
        Some(v) => jget(v, k),
        None => None,
    }
}

/// The characters of an optional string value.
pub open spec fn ostr(o: Option<JsonValue>) -> Option<Seq<char>> {
    match o {
        Some(v) => jstr(v),
        None => None,
    }
}

/// The elements of an optional array value.
pub open spec fn oarr(o: Option<JsonValue>) -> Option<Seq<JsonValue>> {
    match o {
        Some(v) => jarr(v),
        None => None,
    }
}

/// The number in an optional value, or `d` when absent or not a `u64`.
pub open spec fn ou64_or(o: Option<JsonValue>, d: u64) -> u64 {
    match o {
        Some(v) => match ju64(v) {
            Some(n) => n,
            None => d,
        },
        None => d,
    }
}

/// The boolean in an optional value, or `false`.
pub open spec fn obool_or(o: Option<JsonValue>) -> bool {
    match o {
        Some(v) => match jbool(v) {
            Some(b) => b,
            None => false,
        },
        None => false,
    }
}

/// The characters of an optional string value, or `d` when absent or not a
/// string.
pub open spec fn ostr_or(o: Option<JsonValue>, d: Seq<char>) -> Seq<char> {
    match ostr(o) {
        Some(s) => s,
        None => d,
    }
}

/// Field `k` of an optional object, executable form.
pub fn og<'a>(o: Option<&'a JsonValue>, k: &str) -> (r: Option<&'a JsonValue>)
    ensures
        unref(r) == oget(unref(o), k@),
{
    match o {
        Some(v) => v.get(k),
        None => None,
    }
}

/// The characters of an optional string value, executable form.
pub fn ostr_exec<'a>(o: Option<&'a JsonValue>) -> (r: Option<&'a String>)
    ensures
        match r {
            Some(s) => ostr(unref(o)) == Some(s@),
            None => ostr(unref(o)) is None,
        },
{
    match o {
        Some(v) => v.as_str(),
        None => None,
    }
}

/// The elements of an optional array value, executable form.
pub fn oarr_exec<'a>(o: Option<&'a JsonValue>) -> (r: Option<&'a Vec<JsonValue>>)
    ensures
        match r {
            Some(a) => oarr(unref(o)) == Some(a@),
            None => oarr(unref(o)) is None,
        },
{
    match o {
        Some(v) => v.as_arr(),
        None => None,
    }
}

/// The number in an optional value, or `d`, executable form.
pub fn ou64_or_exec(o: Option<&JsonValue>, d: u64) -> (r: u64)
    ensures
        r == ou64_or(unref(o), d),
{
    match o {
        Some(v) => match v.as_u64() {
            Some(n) => n,
            None => d,
        },
        None => d,
    }
}

/// The boolean in an optional value, or `false`, executable form.
pub fn obool_or_exec(o: Option<&JsonValue>) -> (r: bool)
    ensures
        r == obool_or(unref(o)),
{
    match o {
        Some(v) => match v.as_bool() {
            Some(b) => b,
            None => false,
        },
        None => false,
    }
}

/// String field `k` of `v`, or `d`, executable form.
pub fn str_field_or(v: &JsonValue, k: &str, d: &str) -> (r: String)
    ensures
        r@ == jstr_field(*v, k@, d@),
{
    match ostr_exec(v.get(k)) {
        Some(s) => s.clone(),
        None => String::from_str(d),
    }
}

/// How the daemon's fine-grained status vocabulary maps onto the five-value
/// domain enumeration; unmapped values mean `Sent`, never an error.
pub open spec fn status_of(t: Seq<char>) -> MessageStatus {
    if t == "sndNew"@ || t == "sndCreated"@ {
        MessageStatus::Sending
    } else if t == "sndSent"@ {
        MessageStatus::Sent
    } else if t == "sndRcvd"@ || t == "sndDelivered"@ {
        MessageStatus::Delivered
    } else if t == "sndRead"@ {
        MessageStatus::Read
    } else if t == "sndError"@ || t == "sndFailed"@ || t == "sndErrorAuth"@ {
        MessageStatus::Failed
    } else {
        MessageStatus::Sent
    }
}

/// The delivery status recorded in a chat item's metadata.
pub open spec fn item_status_of(ci: Option<JsonValue>) -> MessageStatus {
    status_of(ostr_or(oget(oget(oget(ci, "meta"@), "itemStatus"@), "type"@), ""@))
}

/// Status derivation from a chat item, reading
/// `meta.itemStatus.type`; an absent or unrecognized value means `Sent`.
pub fn get_item_status(chat_item: Option<&JsonValue>) -> (r: MessageStatus)
    ensures
        r == item_status_of(unref(chat_item)),
{
    let st = ostr_exec(og(og(og(chat_item, "meta"), "itemStatus"), "type"));
    let t: &str = match st {
        Some(s) => s.as_str(),
        None => "",
    };
    if str_eq(t, "sndNew") || str_eq(t, "sndCreated") {
        MessageStatus::Sending
    } else if str_eq(t, "sndSent") {
        MessageStatus::Sent
    } else if str_eq(t, "sndRcvd") || str_eq(t, "sndDelivered") {
        MessageStatus::Delivered
    } else if str_eq(t, "sndRead") {
        MessageStatus::Read
    } else if str_eq(t, "sndError") || str_eq(t, "sndFailed") || str_eq(t, "sndErrorAuth") {
        MessageStatus::Failed
    } else {
        MessageStatus::Sent
    }
}

/// The short user-facing string for a daemon-reported error: store-layer
/// duplicate-address and not-found errors and the transport-layer
/// authentication failure map to fixed labels, other recognized layers echo
/// their tag, and anything else is the generic label.
pub open spec fn error_text(resp: JsonValue) -> Seq<char> {
    let err = jget(resp, "chatError"@);
    let store_t = ostr(oget(oget(err, "storeError"@), "type"@));
    let smp_t = ostr(oget(oget(oget(err, "agentError"@), "smpErr"@), "type"@));
    if store_t is Some {
        let t = store_t->0;
        if t == "duplicateContactLink"@ {
            "Address exists"@
        } else if t == "userContactLinkNotFound"@ {
            "No address"@
        } else {
            t
        }
    } else if smp_t is Some {
        let t = smp_t->0;
        if t == "AUTH"@ {
            "Invalid link"@
        } else {
            "Server: "@ + t
        }
    } else {
        "Error"@
    }
}

/// Error resolution for `chatCmdError`, `chatError` and `cmdError`
/// payloads.
pub fn extract_error(resp: &JsonValue) -> (r: String)
    ensures
        r@ == error_text(*resp),
{
    let err = resp.get("chatError");
    let store_t = ostr_exec(og(og(err, "storeError"), "type"));
    match store_t {
        Some(t) => {
            if str_eq(t.as_str(), "duplicateContactLink") {
                String::from_str("Address exists")
            } else if str_eq(t.as_str(), "userContactLinkNotFound") {
                String::from_str("No address")
            } else {
                t.clone()
            }
        },
        None => {
            let smp_t = ostr_exec(og(og(og(err, "agentError"), "smpErr"), "type"));
            match smp_t {
                Some(t) => {
                    if str_eq(t.as_str(), "AUTH") {
                        String::from_str("Invalid link")
                    } else {
                        let mut s = String::from_str("Server: ");
                        s.append(t.as_str());
                        s
                    }
                },
                None => String::from_str("Error"),
            }
        },
    }
}

/// The contact a `contactsList` entry describes: entries missing a display
/// name are dropped.
pub open spec fn contact_of(v: JsonValue) -> Option<ContactModel> {
    match ostr(oget(Some(v), "localDisplayName"@)) {
        Some(name) => Some(ContactModel { name: name, unread: 0, online: false }),
        None => None,
    }
}

/// The contacts described by a `contactsList` array, in order.
pub open spec fn contacts_of(items: Seq<JsonValue>) -> Seq<ContactModel>
    decreases items.len(),
{
    if items.len() == 0 {
        Seq::empty()
    } else {
        contacts_of(items.drop_last()) + (match contact_of(items.last()) {
            Some(c) => seq![c],
            None => Seq::empty(),
        })
    }
}

/// Extraction of the contact list from a `contactsList` payload's array.
pub fn parse_contacts(arr: &Vec<JsonValue>) -> (r: Vec<Contact>)
    ensures
        contact_views(r@) == contacts_of(arr@),
{
    let mut out: Vec<Contact> = Vec::new();
    let mut i: usize = 0;
    while i < arr.len()
        invariant
            i <= arr@.len(),
            contact_views(out@) == contacts_of(arr@.take(i as int)),
        decreases arr@.len() - i,
    {
        proof {
            assert(arr@.take(i + 1 as int).drop_last() =~= arr@.take(i as int));
            assert(arr@.take(i + 1 as int).last() == arr@[i as int]);
        }
        match ostr_exec(arr[i].get("localDisplayName")) {
            Some(name) => {
                let c = Contact::new(name.clone());
                out.push(c);
                proof {
                    assert(contact_views(out@) =~= contacts_of(
                        arr@.take(i + 1 as int),
                    ));
                }
            },
            None => {
                proof {
                    assert(contact_views(out@) =~= contacts_of(
                        arr@.take(i + 1 as int),
                    ));
                }
            },
        }
        i = i + 1;
    }
    proof {
        assert(arr@.take(arr@.len() as int) =~= arr@);
    }
    out
}

/// What follows the first `'T'` in `s`, if any.
pub open spec fn after_t(s: Seq<char>) -> Option<Seq<char>>
    decreases s.len(),
{
    if s.len() == 0 {
        None
    } else if s[0] == 'T' {
        Some(s.drop_first())
    } else {
        after_t(s.drop_first())
    }
}

/// The first `n` characters of `s`, or all of them when it is shorter.
pub open spec fn take_at_most(s: Seq<char>, n: int) -> Seq<char> {
    s.take(if s.len() < n { s.len() as int } else { n })
}

/// The `HH:MM` part of an ISO-like timestamp: the five characters after the
/// first `'T'`, or empty when there is no `'T'`.
pub open spec fn hhmm_of(ts: Seq<char>) -> Seq<char> {
    match after_t(ts) {
        Some(rest) => take_at_most(rest, 5),
        None => Seq::empty(),
    }
}

/// The prefix of at most `n` characters, executable form.
pub fn take_prefix(s: &str, n: usize) -> (r: String)
    ensures
        r@ == take_at_most(s@, n as int),
{
    let l = s.unicode_len();
    let k = if l < n { l } else { n };
    String::from_str(s.substring_char(0, k))
}

/// Extraction of the clock part of a timestamp string.
pub fn hhmm_exec(ts: &str) -> (r: String)
    ensures
        r@ == hhmm_of(ts@),
{
    let l = ts.unicode_len();
    let mut i: usize = 0;
    proof {
        assert(ts@.skip(0) =~= ts@);
    }
    while i < l
        invariant
            l == ts@.len(),
            i <= l,
            after_t(ts@) == after_t(ts@.skip(i as int)),
        decreases l - i,
    {
        proof {
            assert(ts@.skip(i as int)[0] == ts@[i as int]);
            assert(ts@.skip(i as int).drop_first() =~= ts@.skip(i + 1));
        }
        if ts.get_char(i) == 'T' {
            let rest_len = l - (i + 1);
            let k = if rest_len < 5 { rest_len } else { 5 };
            let r = String::from_str(ts.substring_char(i + 1, i + 1 + k));
            proof {
                assert(after_t(ts@) == Some(ts@.skip(i + 1)));
                assert(ts@.subrange(i + 1, i + 1 + k as int) =~= take_at_most(
                    ts@.skip(i + 1),
                    5,
                ));
            }
            return r;
        }
        i = i + 1;
    }
    proof {
        assert(ts@.skip(l as int) =~= Seq::<char>::empty());
    }
    String::new()
}

/// The text line standing in for a file attachment: its name and size, and,
/// for a received file, the command that would fetch it.
pub open spec fn file_line(f: JsonValue, mine: bool) -> Seq<char> {
    "[file] "@ + jstr_field(f, "fileName"@, "file"@) + " ("@ + dec_digits(
        ou64_or(jget(f, "fileSize"@), 0) as nat,
    ) + " bytes)"@ + (if mine {
        Seq::<char>::empty()
    } else {
        " [/fr "@ + dec_digits(ou64_or(jget(f, "fileId"@), 0) as nat) + " ./]"@
    })
}

/// Rendering of a file attachment as a message line.
pub fn file_line_exec(f: &JsonValue, mine: bool) -> (r: String)
    ensures
        r@ == file_line(*f, mine),
{
    let mut s = String::from_str("[file] ");
    let name = str_field_or(f, "fileName", "file");
    s.append(name.as_str());
    s.append(" (");
    let size = ou64_or_exec(f.get("fileSize"), 0);
    let size_s = crate::strutil::u64_to_string(size);
    s.append(size_s.as_str());
    s.append(" bytes)");
    if !mine {
        s.append(" [/fr ");
        let id = ou64_or_exec(f.get("fileId"), 0);
        let id_s = crate::strutil::u64_to_string(id);
        s.append(id_s.as_str());
        s.append(" ./]");
    }
    s
}

/// The message a `chatItems` history entry describes: direction from the
/// nested direction type, clock time from the item timestamp, text and file
/// attachment combined; entries with neither text nor file are dropped.
pub open spec fn history_msg(item: JsonValue) -> Option<MsgModel> {
    match jget(item, "chatItem"@) {
        None => None,
        Some(ci) => {
            let dir = ostr_or(jget2(ci, "chatDir"@, "type"@), ""@);
            let mine = dir == "directSnd"@;
            let time = hhmm_of(ostr_or(jget2(ci, "meta"@, "itemTs"@), ""@));
            let text = ostr(jget3(ci, "content"@, "msgContent"@, "text"@));
            let fline = match jget(ci, "file"@) {
                Some(f) => Some(file_line(f, mine)),
                None => None,
            };
            let content = match (text, fline) {
                (Some(t), Some(fl)) => Some(t + "\n"@ + fl),
                (Some(t), None) => Some(t),
                (None, Some(fl)) => Some(fl),
                (None, None) => None,
            };
            match content {
                None => None,
                Some(c) => Some(
                    MsgModel {
                        sender: if mine { "You"@ } else { "Contact"@ },
                        content: c,
                        time: time,
                        mine: mine,
                        status: if mine {
                            item_status_of(Some(ci))
                        } else {
                            MessageStatus::Delivered
                        },
                    },
                ),
            }
        },
    }
}

/// Reconstruction of one history entry.
pub fn history_msg_exec(item: &JsonValue) -> (r: Option<ChatMessage>)
    ensures
        match r {
            Some(m) => history_msg(*item) == Some(m@),
            None => history_msg(*item) is None,
        },
{
    let ci = match item.get("chatItem") {
        Some(ci) => ci,
        None => {
            return None;
        },
    };
    let dir = ostr_exec(ci.get2("chatDir", "type"));
    let mine = match dir {
        Some(d) => str_eq(d.as_str(), "directSnd"),
        None => {
            let r = str_eq("", "directSnd");
            r
        },
    };
    let ts = match ostr_exec(ci.get2("meta", "itemTs")) {
        Some(t) => t.clone(),
        None => String::from_str(""),
    };
    let time = hhmm_exec(ts.as_str());
    let text = match ostr_exec(ci.get3("content", "msgContent", "text")) {
        Some(t) => Some(t.clone()),
        None => None,
    };
    let fline = match ci.get("file") {
        Some(f) => Some(file_line_exec(f, mine)),
        None => None,
    };
    let content = match (text, fline) {
        (Some(t), Some(fl)) => {
            let ghost t0 = t@;
            let mut s = t;
            s.append("\n");
            s.append(fl.as_str());
            proof {
                assert(s@ =~= t0 + "\n"@ + fl@);
            }
            Some(s)
        },
        (Some(t), None) => Some(t),
        (None, Some(fl)) => Some(fl),
        (None, None) => None,
    };
    match content {
        None => None,
        Some(c) => {
            let status = if mine {
                get_item_status(Some(ci))
            } else {
                MessageStatus::Delivered
            };
            Some(
                ChatMessage {
                    sender: if mine {
                        String::from_str("You")
                    } else {
                        String::from_str("Contact")
                    },
                    content: c,
                    time: time,
                    mine: mine,
                    status: status,
                },
            )
        },
    }
}

/// The conversation history a `chatItems` array describes, in order.
pub open spec fn history_of(items: Seq<JsonValue>) -> Seq<MsgModel>
    decreases items.len(),
{
    if items.len() == 0 {
        Seq::empty()
    } else {
        history_of(items.drop_last()) + (match history_msg(items.last()) {
            Some(m) => seq![m],
            None => Seq::empty(),
        })
    }
}

/// Reconstruction of the full conversation history from a `chatItems`
/// payload's array.
pub fn parse_chat_history(items: &Vec<JsonValue>) -> (r: Vec<ChatMessage>)
    ensures
        msg_views(r@) == history_of(items@),
{
    let mut out: Vec<ChatMessage> = Vec::new();
    let mut i: usize = 0;
    while i < items.len()
        invariant
            i <= items@.len(),
            msg_views(out@) == history_of(items@.take(i as int)),
        decreases items@.len() - i,
    {
        proof {
            assert(items@.take(i + 1 as int).drop_last() =~= items@.take(i as int));
            assert(items@.take(i + 1 as int).last() == items@[i as int]);
        }
        match history_msg_exec(&items[i]) {
            Some(m) => {
                out.push(m);
                proof {
                    assert(msg_views(out@) =~= history_of(
                        items@.take(i + 1 as int),
                    ));
                }
            },
            None => {
                proof {
                    assert(msg_views(out@) =~= history_of(
                        items@.take(i + 1 as int),
                    ));
                }
            },
        }
        i = i + 1;
    }
    proof {
        assert(items@.take(items@.len() as int) =~= items@);
    }
    out
}

/// The events one `newChatItems` entry yields: a status update for a
/// self-sent item (plus a line for a sent file attachment), and for a
/// received item a message for its text (when non-empty) and one for its
/// file attachment.
pub open spec fn push_item_events(item: JsonValue) -> Seq<EventModel> {
    let contact_name = ostr_or(jget3(item, "chatInfo"@, "contact"@, "localDisplayName"@), "Unknown"@);
    match jget(item, "chatItem"@) {
        None => Seq::empty(),
        Some(ci) => {
            let dir = ostr_or(jget2(ci, "chatDir"@, "type"@), ""@);
            let ctype = ostr_or(jget2(ci, "content"@, "type"@), ""@);
            if dir == "directSnd"@ {
                seq![EventModel::MessageUpdate { status: item_status_of(Some(ci)) }] + (
                if ctype == "sndMsgContent"@ || ctype == "file"@ {
                    match jget(ci, "file"@) {
                        Some(f) => seq![
                            EventModel::NewMessage { sender: "You"@, text: file_line(f, true) },
                        ],
                        None => Seq::empty(),
                    }
                } else {
                    Seq::empty()
                })
            } else {
                (match ostr(jget3(ci, "content"@, "msgContent"@, "text"@)) {
                    Some(t) => if t.len() > 0 {
                        seq![EventModel::NewMessage { sender: contact_name, text: t }]
                    } else {
                        Seq::empty()
                    },
                    None => Seq::empty(),
                }) + (match jget(ci, "file"@) {
                    Some(f) => seq![
                        EventModel::NewMessage {
                            sender: contact_name,
                            text: file_line(f, false),
                        },
                    ],
                    None => Seq::empty(),
                })
            }
        },
    }
}

/// The events one `newChatItems` entry yields, executable form.
pub fn push_item_events_exec(item: &JsonValue) -> (r: Vec<SimplexEvent>)
    ensures
        event_views(r@) == push_item_events(*item),
{
    let mut out: Vec<SimplexEvent> = Vec::new();
    let name = match ostr_exec(item.get3("chatInfo", "contact", "localDisplayName")) {
        Some(s) => s.clone(),
        None => String::from_str("Unknown"),
    };
    let ci = match item.get("chatItem") {
        Some(ci) => ci,
        None => {
            proof {
                assert(event_views(out@) =~= push_item_events(*item));
            }
            return out;
        },
    };
    let dir_is_snd = match ostr_exec(ci.get2("chatDir", "type")) {
        Some(d) => str_eq(d.as_str(), "directSnd"),
        None => str_eq("", "directSnd"),
    };
    if dir_is_snd {
        let status = get_item_status(Some(ci));
        out.push(SimplexEvent::MessageUpdate { status });
        let ctype_matches = match ostr_exec(ci.get2("content", "type")) {
            Some(c) => str_eq(c.as_str(), "sndMsgContent") || str_eq(c.as_str(), "file"),
            None => str_eq("", "sndMsgContent") || str_eq("", "file"),
        };
        if ctype_matches {
            match ci.get("file") {
                Some(f) => {
                    let line = file_line_exec(f, true);
                    out.push(
                        SimplexEvent::NewMessage { sender: String::from_str("You"), text: line },
                    );
                },
                None => {},
            }
        }
    } else {
        match ostr_exec(ci.get3("content", "msgContent", "text")) {
            Some(t) => {
                if t.as_str().unicode_len() > 0 {
                    out.push(
                        SimplexEvent::NewMessage { sender: name.clone(), text: t.clone() },
                    );
                }
            },
            None => {},
        }
        match ci.get("file") {
            Some(f) => {
                let line = file_line_exec(f, false);
                out.push(SimplexEvent::NewMessage { sender: name, text: line });
            },
            None => {},
        }
    }
    proof {
        assert(event_views(out@) =~= push_item_events(*item));
    }
    out
}

/// The events a whole `newChatItems` array yields, in order.
pub open spec fn push_items_events(items: Seq<JsonValue>) -> Seq<EventModel>
    decreases items.len(),
{
    if items.len() == 0 {
        Seq::empty()
    } else {
        push_items_events(items.drop_last()) + push_item_events(items.last())
    }
}

fn push_items_events_exec(items: &Vec<JsonValue>) -> (r: Vec<SimplexEvent>)
    ensures
        event_views(r@) == push_items_events(items@),
{
    let mut out: Vec<SimplexEvent> = Vec::new();
    let mut i: usize = 0;
    while i < items.len()
        invariant
            i <= items@.len(),
            event_views(out@) == push_items_events(items@.take(i as int)),
        decreases items@.len() - i,
    {
        proof {
            assert(items@.take(i + 1 as int).drop_last() =~= items@.take(i as int));
            assert(items@.take(i + 1 as int).last() == items@[i as int]);
        }
        let mut evs = push_item_events_exec(&items[i]);
        let ghost before = out@;
        let ghost added = evs@;
        out.append(&mut evs);
        proof {
            assert(out@ == before + added);
            assert(event_views(out@) =~= event_views(before) + event_views(added));
            assert(event_views(out@) == push_items_events(items@.take(i + 1 as int)));
        }
        i = i + 1;
    }
    proof {
        assert(items@.take(items@.len() as int) =~= items@);
    }
    out
}

/// The contact details a `contactInfo` payload describes; each of the
/// nested fields is optional and defaults to an empty or `false` value.
pub open spec fn info_of(resp: JsonValue) -> InfoModel {
    let contact = jget(resp, "contact"@);
    let cstats = jget(resp, "connectionStats"@);
    InfoModel {
        name: ostr_or(oget(contact, "localDisplayName"@), "Unknown"@),
        bio: ostr_or(oget(oget(contact, "profile"@), "shortDescr"@), ""@),
        address: ostr_or(oget(oget(contact, "profile"@), "contactLink"@), ""@),
        receiving_server: first_server(oarr(oget(cstats, "rcvServers"@))),
        sending_server: first_server(oarr(oget(cstats, "sndServers"@))),
        created_at: match ostr(oget(contact, "createdAt"@)) {
            Some(s) => take_at_most(s, 10),
            None => Seq::empty(),
        },
        updated_at: match ostr(oget(contact, "updatedAt"@)) {
            Some(s) => take_at_most(s, 10),
            None => Seq::empty(),
        },
        pq_encryption: obool_or(oget(oget(contact, "activeConn"@), "pqEncryption"@)),
        connection_status: ostr_or(oget(oget(contact, "activeConn"@), "connStatus"@), "unknown"@),
        chat_version: match oget(oget(contact, "activeConn"@), "peerChatVRange"@) {
            Some(v) => "v"@ + dec_digits(ou64_or(jget(v, "minVersion"@), 0) as nat) + "-"@
                + dec_digits(ou64_or(jget(v, "maxVersion"@), 0) as nat),
            None => Seq::empty(),
        },
    }
}

/// The first entry of an optional server array, when it is a string.
pub open spec fn first_server(servers: Option<Seq<JsonValue>>) -> Seq<char> {
    match servers {
        Some(arr) => if arr.len() > 0 {
            match jstr(arr[0]) {
                Some(s) => s,
                None => ""@,
            }
        } else {
            ""@
        },
        None => ""@,
    }
}

fn first_server_exec(servers: Option<&Vec<JsonValue>>) -> (r: String)
    ensures
        r@ == first_server(match servers {
            Some(a) => Some(a@),
            None => None,
        }),
{
    match servers {
        Some(arr) => {
            if arr.len() > 0 {
                match arr[0].as_str() {
                    Some(s) => s.clone(),
                    None => String::from_str(""),
                }
            } else {
                String::from_str("")
            }
        },
        None => String::from_str(""),
    }
}

/// Assembly of the contact details from a `contactInfo` payload.
pub fn parse_contact_info(resp: &JsonValue) -> (r: ContactInfoData)
    ensures
        r@ == info_of(*resp),
{
    let contact = resp.get("contact");
    let cstats = resp.get("connectionStats");
    let name = match ostr_exec(og(contact, "localDisplayName")) {
        Some(s) => s.clone(),
        None => String::from_str("Unknown"),
    };
    let bio = match ostr_exec(og(og(contact, "profile"), "shortDescr")) {
        Some(s) => s.clone(),
        None => String::from_str(""),
    };
    let address = match ostr_exec(og(og(contact, "profile"), "contactLink")) {
        Some(s) => s.clone(),
        None => String::from_str(""),
    };
    let receiving_server = first_server_exec(oarr_exec(og(cstats, "rcvServers")));
    let sending_server = first_server_exec(oarr_exec(og(cstats, "sndServers")));
    let created_at = match ostr_exec(og(contact, "createdAt")) {
        Some(s) => take_prefix(s.as_str(), 10),
        None => String::from_str(""),
    };
    let updated_at = match ostr_exec(og(contact, "updatedAt")) {
        Some(s) => take_prefix(s.as_str(), 10),
        None => String::from_str(""),
    };
    let active = og(contact, "activeConn");
    let pq_encryption = obool_or_exec(og(active, "pqEncryption"));
    let connection_status = match ostr_exec(og(active, "connStatus")) {
        Some(s) => s.clone(),
        None => String::from_str("unknown"),
    };
    let chat_version = match og(active, "peerChatVRange") {
        Some(v) => {
            let lo = ou64_or_exec(v.get("minVersion"), 0);
            let hi = ou64_or_exec(v.get("maxVersion"), 0);
            let mut s = String::from_str("v");
            let lo_s = crate::strutil::u64_to_string(lo);
            s.append(lo_s.as_str());
            s.append("-");
            let hi_s = crate::strutil::u64_to_string(hi);
            s.append(hi_s.as_str());
            proof {
                assert(s@ =~= "v"@ + dec_digits(lo as nat) + "-"@ + dec_digits(hi as nat));
            }
            s
        },
        None => String::from_str(""),
    };
    proof {
        reveal_strlit("");
        assert(""@ =~= Seq::<char>::empty());
    }
    ContactInfoData {
        name,
        bio,
        address,
        receiving_server,
        sending_server,
        created_at,
        updated_at,
        pq_encryption,
        connection_status,
        chat_version,
    }
}

/// Whether a payload is a command response: exactly when the outer envelope
/// carries a correlation identifier.
pub open spec fn is_response(env: JsonValue) -> bool {
    jget(env, "corrId"@) is Some
}

/// The effective payload: the `resp` field when present, the envelope
/// itself otherwise.
pub open spec fn effective(env: JsonValue) -> JsonValue {
    match jget(env, "resp"@) {
        Some(r) => r,
        None => env,
    }
}

/// The events an inbound payload yields, keyed on the `type` discriminator
/// of the effective payload; an unrecognized discriminator yields none.
pub open spec fn decode_events(env: JsonValue) -> Seq<EventModel> {
    let resp = effective(env);
    let t = ostr_or(jget(resp, "type"@), ""@);
    if t == "contactsList"@ {
        match oarr(jget(resp, "contacts"@)) {
            Some(arr) => seq![EventModel::Contacts(contacts_of(arr))],
            None => Seq::empty(),
        }
    } else if t == "chatItems"@ {
        match oarr(jget(resp, "chatItems"@)) {
            Some(items) => seq![EventModel::Messages(history_of(items))],
            None => Seq::empty(),
        }
    } else if t == "newChatItems"@ {
        match oarr(jget(resp, "chatItems"@)) {
            Some(items) => push_items_events(items),
            None => Seq::empty(),
        }
    } else if t == "newChatItem"@ || t == "chatItemStatusUpdated"@ {
        seq![EventModel::MessageUpdate { status: item_status_of(jget(resp, "chatItem"@)) }]
    } else if t == "chatItemsStatusesUpdated"@ {
        match oarr(jget(resp, "chatItems"@)) {
            Some(items) => if items.len() > 0 {
                seq![
                    EventModel::MessageUpdate {
                        status: item_status_of(jget(items[0], "chatItem"@)),
                    },
                ]
            } else {
                Seq::empty()
            },
            None => Seq::empty(),
        }
    } else if t == "userContactLink"@ {
        match ostr(jget3(resp, "contactLink"@, "connLinkContact"@, "connShortLink"@)) {
            Some(l) => seq![EventModel::InviteLink(l)],
            None => Seq::empty(),
        }
    } else if t == "userContactLinkCreated"@ || t == "userContactLinkUpdated"@ {
        seq![EventModel::AddressCreated]
    } else if t == "userContactLinkDeleted"@ {
        seq![
            EventModel::Status("Address deleted, creating new..."@),
            EventModel::AddressDeleted,
        ]
    } else if t == "invitation"@ {
        match ostr(jget(resp, "connReqInvitation"@)) {
            Some(l) => seq![EventModel::InviteLink(l)],
            None => Seq::empty(),
        }
    } else if t == "sentConfirmation"@ || t == "sentInvitation"@ {
        seq![EventModel::Status("Invitation sent"@)]
    } else if t == "contactConnecting"@ {
        seq![EventModel::Status("Connecting..."@)]
    } else if t == "contactConnected"@ {
        seq![
            EventModel::ContactRequest(
                ostr_or(jget2(resp, "contact"@, "localDisplayName"@), "Contact"@),
            ),
        ]
    } else if t == "receivedContactRequest"@ {
        seq![
            EventModel::ContactRequest(
                ostr_or(jget2(resp, "contactRequest"@, "localDisplayName"@), "Someone"@),
            ),
        ]
    } else if t == "chatCmdError"@ || t == "chatError"@ || t == "cmdError"@ {
        seq![EventModel::Error(error_text(resp))]
    } else if t == "contactInfo"@ {
        seq![EventModel::ContactInfo(info_of(resp))]
    } else if t == "contactDeleted"@ {
        seq![
            EventModel::ContactDeleted(
                ostr_or(jget2(resp, "contact"@, "localDisplayName"@), "Unknown"@),
            ),
        ]
    } else if t == "chatCleared"@ {
        seq![
            EventModel::ChatCleared(
                ostr_or(jget3(resp, "chatInfo"@, "contact"@, "localDisplayName"@), "Unknown"@),
            ),
        ]
    } else {
        Seq::empty()
    }
}

/// A decoded payload: its classification and the events it yields.
pub struct Decoded {
    /// `true` exactly when the payload answered a client command.
    pub response: bool,
    pub events: Vec<SimplexEvent>,
}

/// Translation of one inbound payload into domain events.
///
/// The classification is decided by presence of the outer correlation
/// identifier alone; the events are decided by the discriminator table.
pub fn decode_payload(env: &JsonValue) -> (r: Decoded)
    ensures
        r.response == is_response(*env),
        event_views(r.events@) == decode_events(*env),
{
    let response = env.get("corrId").is_some();
    let resp: &JsonValue = match env.get("resp") {
        Some(r) => r,
        None => env,
    };
    let tstr = match ostr_exec(resp.get("type")) {
        Some(s) => s.clone(),
        None => String::from_str(""),
    };
    let t = tstr.as_str();
    let mut events: Vec<SimplexEvent> = Vec::new();
    if str_eq(t, "contactsList") {
        match oarr_exec(resp.get("contacts")) {
            Some(arr) => {
                let contacts = parse_contacts(arr);
                events.push(SimplexEvent::Contacts(contacts));
            },
            None => {},
        }
    } else if str_eq(t, "chatItems") {
        match oarr_exec(resp.get("chatItems")) {
            Some(items) => {
                let messages = parse_chat_history(items);
                events.push(SimplexEvent::Messages(messages));
            },
            None => {},
        }
    } else if str_eq(t, "newChatItems") {
        match oarr_exec(resp.get("chatItems")) {
            Some(items) => {
                events = push_items_events_exec(items);
            },
            None => {},
        }
    } else if str_eq(t, "newChatItem") || str_eq(t, "chatItemStatusUpdated") {
        let status = get_item_status(resp.get("chatItem"));
        events.push(SimplexEvent::MessageUpdate { status });
    } else if str_eq(t, "chatItemsStatusesUpdated") {
        match oarr_exec(resp.get("chatItems")) {
            Some(items) => {
                if items.len() > 0 {
                    let status = get_item_status(items[0].get("chatItem"));
                    events.push(SimplexEvent::MessageUpdate { status });
                }
            },
            None => {},
        }
    } else if str_eq(t, "userContactLink") {
        match ostr_exec(resp.get3("contactLink", "connLinkContact", "connShortLink")) {
            Some(l) => {
                events.push(SimplexEvent::InviteLink(l.clone()));
            },
            None => {},
        }
    } else if str_eq(t, "userContactLinkCreated") || str_eq(t, "userContactLinkUpdated") {
        events.push(SimplexEvent::AddressCreated);
    } else if str_eq(t, "userContactLinkDeleted") {
        events.push(
            SimplexEvent::Status(String::from_str("Address deleted, creating new...")),
        );
        events.push(SimplexEvent::AddressDeleted);
    } else if str_eq(t, "invitation") {
        match ostr_exec(resp.get("connReqInvitation")) {
            Some(l) => {
                events.push(SimplexEvent::InviteLink(l.clone()));
            },
            None => {},
        }
    } else if str_eq(t, "sentConfirmation") || str_eq(t, "sentInvitation") {
        events.push(SimplexEvent::Status(String::from_str("Invitation sent")));
    } else if str_eq(t, "contactConnecting") {
        events.push(SimplexEvent::Status(String::from_str("Connecting...")));
    } else if str_eq(t, "contactConnected") {
        let name = match ostr_exec(resp.get2("contact", "localDisplayName")) {
            Some(s) => s.clone(),
            None => String::from_str("Contact"),
        };
        events.push(SimplexEvent::ContactRequest(name));
    } else if str_eq(t, "receivedContactRequest") {
        let name = match ostr_exec(resp.get2("contactRequest", "localDisplayName")) {
            Some(s) => s.clone(),
            None => String::from_str("Someone"),
        };
        events.push(SimplexEvent::ContactRequest(name));
    } else if str_eq(t, "chatCmdError") || str_eq(t, "chatError") || str_eq(t, "cmdError") {
        let err = extract_error(resp);
        events.push(SimplexEvent::Error(err));
    } else if str_eq(t, "contactInfo") {
        let info = parse_contact_info(resp);
        events.push(SimplexEvent::ContactInfo(info));
    } else if str_eq(t, "contactDeleted") {
        let name = match ostr_exec(resp.get2("contact", "localDisplayName")) {
            Some(s) => s.clone(),
            None => String::from_str("Unknown"),
        };
        events.push(SimplexEvent::ContactDeleted(name));
    } else if str_eq(t, "chatCleared") {
        let name = match ostr_exec(resp.get3("chatInfo", "contact", "localDisplayName")) {
            Some(s) => s.clone(),
            None => String::from_str("Unknown"),
        };
        events.push(SimplexEvent::ChatCleared(name));
    }
    proof {
        assert(event_views(events@) =~= decode_events(*env));
    }
    Decoded { response, events }
}

/// The wire form of a request: a JSON object with the correlation
/// identifier under `corrId` and the command under `cmd`, both escaped as
/// JSON strings.
pub open spec fn wire_of(corr: Seq<char>, cmd: Seq<char>) -> Seq<char> {
    "{\"corrId\":\""@ + crate::strutil::json_escaped(corr) + "\",\"cmd\":\""@
        + crate::strutil::json_escaped(cmd) + "\"}"@
}

/// Serialization of a request envelope to its wire form.
pub fn encode_request(c: &crate::types::ApiCommand) -> (r: String)
    ensures
        r@ == wire_of(c.corr_id@, c.cmd@),
{
    let mut v: Vec<char> = crate::strutil::str_chars("{\"corrId\":\"");
    crate::strutil::push_escaped(c.corr_id.as_str(), &mut v);
    let mut mid: Vec<char> = crate::strutil::str_chars("\",\"cmd\":\"");
    v.append(&mut mid);
    crate::strutil::push_escaped(c.cmd.as_str(), &mut v);
    let mut end: Vec<char> = crate::strutil::str_chars("\"}");
    v.append(&mut end);
    proof {
        assert(v@ =~= wire_of(c.corr_id@, c.cmd@));
    }
    crate::strutil::chars_to_string(&v)
}

/// Translation of one raw frame: malformed JSON yields no event and counts
/// as a push.
pub fn decode_text(s: &str) -> (r: Decoded)
    ensures
        match crate::json::json_of(s@) {
            Some(j) => r.response == is_response(j) && event_views(r.events@) == decode_events(
                j,
            ),
            None => r.response == false && r.events@.len() == 0,
        },
{
    match crate::json::parse_json(s) {
        Some(j) => decode_payload(&j),
        None => Decoded { response: false, events: Vec::new() },
    }
}

} // verus!
