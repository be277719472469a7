//! The application state machine: single owner of all interface-relevant
//! state, reacting to domain events and user intents.
//!
//! Outbound commands are not sent here; they are appended to `outbox`, in
//! submission order, and the connection loop drains them.  Every method
//! states how the new state relates to the old one over the `AppModel`
//! view.

use vstd::prelude::*;

use crate::types::{
    contact_views, msg_views, str_views, ChatMessage, Contact, ContactInfoData, ContactModel,
    InfoModel, Key, MessageStatus, Mode, MsgModel, Panel,
};

verus! {

/// How long after an activation a second activation of the same list entry
/// counts as a double activation, in milliseconds.
pub const DOUBLE_CLICK_MS: u64 = 400;

/// The actions offered on a contact; a closed set, each with a label, a
/// shortcut key and a destructiveness flag.
#[derive(Clone, Copy, Debug, PartialEq, Eq, Structural)]
pub enum ContactOption {
    DeleteContact,
    ClearChat,
    ContactInfo,
    Cancel,
}

/// The fixed order in which the contact actions are offered.
pub open spec fn option_list() -> Seq<ContactOption> {
    seq![
        ContactOption::DeleteContact,
        ContactOption::ClearChat,
        ContactOption::ContactInfo,
        ContactOption::Cancel,
    ]
}

impl ContactOption {
    /// All actions, in display order.
    pub fn all() -> (r: Vec<ContactOption>)
        ensures
            r@ == option_list(),
    {
        let mut v: Vec<ContactOption> = Vec::new();
        v.push(ContactOption::DeleteContact);
        v.push(ContactOption::ClearChat);
        v.push(ContactOption::ContactInfo);
        v.push(ContactOption::Cancel);
        proof {
            assert(v@ =~= option_list());
        }
        v
    }

    /// Whether the action destroys data and so needs confirmation.
    pub open spec fn spec_destructive(self) -> bool {
        self is DeleteContact || self is ClearChat
    }

    /// Whether the action destroys data and so needs confirmation.
    pub fn is_destructive(&self) -> (r: bool)
        ensures
            r == self.spec_destructive(),
    {
        match self {
            ContactOption::DeleteContact => true,
            ContactOption::ClearChat => true,
            _ => false,
        }
    }

    /// The label shown for the action.
    pub open spec fn spec_label(self) -> Seq<char> {
        match self {
            ContactOption::DeleteContact => "Delete Contact"@,
            ContactOption::ClearChat => "Clear Chat"@,
            ContactOption::ContactInfo => "Contact Info"@,
            ContactOption::Cancel => "Cancel"@,
        }
    }

    /// The label shown for the action.
    pub fn label(&self) -> (r: &'static str)
        ensures
            r@ == self.spec_label(),
    {
        match self {
            ContactOption::DeleteContact => "Delete Contact",
            ContactOption::ClearChat => "Clear Chat",
            ContactOption::ContactInfo => "Contact Info",
            ContactOption::Cancel => "Cancel",
        }
    }

    /// The shortcut key for the action.
    pub fn key(&self) -> char {
        match self {
            ContactOption::DeleteContact => 'd',
            ContactOption::ClearChat => 'c',
            ContactOption::ContactInfo => 'i',
            ContactOption::Cancel => 'x',
        }
    }
}

/// Mathematical model of the whole application state.
#[verifier::ext_equal]
pub struct AppModel {
    pub running: bool,
    pub mode: Mode,
    pub panel: Panel,
    pub contacts: Seq<ContactModel>,
    pub selected: int,
    pub messages: Seq<MsgModel>,
    pub scroll: int,
    pub input: Seq<char>,
    pub cursor: int,
    pub show_help: bool,
    pub tick: u64,
    pub status: Seq<char>,
    pub connected: bool,
    pub current_contact: Option<Seq<char>>,
    pub invite_link: Option<Seq<char>>,
    pub connect_input: Seq<char>,
    pub pending_new_address: bool,
    pub contact_for_options: Option<Seq<char>>,
    pub contact_info: Option<InfoModel>,
    pub option_selection: int,
    pub confirm_action: Option<ContactOption>,
    pub outbox: Seq<Seq<char>>,
    pub last_click_time: Option<u64>,
    pub last_click_index: Option<int>,
}

/// The application state.  The input line and the invite-link input are
/// held as character vectors so that cursor editing is verified
/// character-wise.
pub struct App {
    pub running: bool,
    pub mode: Mode,
    pub panel: Panel,
    pub contacts: Vec<Contact>,
    pub selected: usize,
    pub messages: Vec<ChatMessage>,
    pub scroll: usize,
    pub input: Vec<char>,
    pub cursor: usize,
    pub show_help: bool,
    pub tick: u64,
    pub status: String,
    pub connected: bool,
    pub current_contact: Option<String>,
    pub invite_link: Option<String>,
    pub connect_input: Vec<char>,
    pub pending_new_address: bool,
    pub contact_for_options: Option<String>,
    pub contact_info_data: Option<ContactInfoData>,
    pub option_selection: usize,
    pub confirm_action: Option<ContactOption>,
    pub outbox: Vec<String>,
    pub last_click_time: Option<u64>,
    pub last_click_index: Option<usize>,
}

/// The view of an optional string.
pub open spec fn opt_view(o: Option<String>) -> Option<Seq<char>> {
    match o {
        Some(s) => Some(s@),
        None => None,
    }
}

/// The view of an optional index.
pub open spec fn opt_int(o: Option<usize>) -> Option<int> {
    match o {
        Some(i) => Some(i as int),
        None => None,
    }
}

/// The view of optional contact details.
pub open spec fn opt_info(o: Option<ContactInfoData>) -> Option<InfoModel> {
    match o {
        Some(d) => Some(d@),
        None => None,
    }
}

impl View for App {
    type V = AppModel;

    open spec fn view(&self) -> AppModel {
        AppModel {
            running: self.running,
            mode: self.mode,
            panel: self.panel,
            contacts: contact_views(self.contacts@),
            selected: self.selected as int,
            messages: msg_views(self.messages@),
            scroll: self.scroll as int,
            input: self.input@,
            cursor: self.cursor as int,
            show_help: self.show_help,
            tick: self.tick,
            status: self.status@,
            connected: self.connected,
            current_contact: opt_view(self.current_contact),
            invite_link: opt_view(self.invite_link),
            connect_input: self.connect_input@,
            pending_new_address: self.pending_new_address,
            contact_for_options: opt_view(self.contact_for_options),
            contact_info: opt_info(self.contact_info_data),
            option_selection: self.option_selection as int,
            confirm_action: self.confirm_action,
            outbox: str_views(self.outbox@),
            last_click_time: self.last_click_time,
            last_click_index: opt_int(self.last_click_index),
        }
    }
}

impl App {
    /// The initial state: Normal mode, contacts panel focused, nothing
    /// loaded yet, not connected.
    pub fn new() -> (r: App)
        ensures
            r@.running,
            r@.mode == Mode::Normal,
            r@.panel == Panel::Contacts,
            r@.contacts.len() == 0,
            r@.selected == 0,
            r@.messages.len() == 0,
            r@.scroll == 0,
            r@.input.len() == 0,
            r@.cursor == 0,
            !r@.show_help,
            r@.tick == 0,
            r@.status == "Connecting..."@,
            !r@.connected,
            r@.current_contact is None,
            r@.invite_link is None,
            r@.connect_input.len() == 0,
            !r@.pending_new_address,
            r@.contact_for_options is None,
            r@.contact_info is None,
            r@.option_selection == 0,
            r@.confirm_action is None,
            r@.outbox.len() == 0,
            r@.last_click_time is None,
            r@.last_click_index is None,
    {
        App {
            running: true,
            mode: Mode::Normal,
            panel: Panel::Contacts,
            contacts: Vec::new(),
            selected: 0,
            messages: Vec::new(),
            scroll: 0,
            input: Vec::new(),
            cursor: 0,
            show_help: false,
            tick: 0,
            status: String::from_str("Connecting..."),
            connected: false,
            current_contact: None,
            invite_link: None,
            connect_input: Vec::new(),
            pending_new_address: false,
            contact_for_options: None,
            contact_info_data: None,
            option_selection: 0,
            confirm_action: None,
            outbox: Vec::new(),
            last_click_time: None,
            last_click_index: None,
        }
    }

    /// The contact the selection rests on, if the list is long enough.
    pub fn selected_contact(&self) -> (r: Option<&Contact>)
        ensures
            match r {
                Some(c) => 0 <= self@.selected < self@.contacts.len() && c@
                    == self@.contacts[self@.selected],
                None => self@.selected >= self@.contacts.len(),
            },
    {
        if self.selected < self.contacts.len() {
            Some(&self.contacts[self.selected])
        } else {
            None
        }
    }

    /// Selection moves one entry down, wrapping; with no contacts nothing
    /// changes.
    pub fn next_contact(&mut self)
        ensures
            final(self)@ == (AppModel {
                selected: if old(self)@.contacts.len() == 0 {
                    old(self)@.selected
                } else if old(self)@.selected + 1 >= old(self)@.contacts.len() {
                    0
                } else {
                    old(self)@.selected + 1
                },
                ..old(self)@
            }),
    {
        let len = self.contacts.len();
        if len == 0 {
            return;
        }
        self.selected = if self.selected >= len - 1 {
            0
        } else {
            self.selected + 1
        };
    }

    /// Selection moves one entry up, wrapping; with no contacts nothing
    /// changes.
    pub fn prev_contact(&mut self)
        ensures
            final(self)@ == (AppModel {
                selected: if old(self)@.contacts.len() == 0 {
                    old(self)@.selected
                } else if old(self)@.selected == 0 {
                    old(self)@.contacts.len() - 1
                } else {
                    old(self)@.selected - 1
                },
                ..old(self)@
            }),
    {
        let len = self.contacts.len();
        if len == 0 {
            return;
        }
        self.selected = if self.selected == 0 {
            len - 1
        } else {
            self.selected - 1
        };
    }

    /// Focus moves to the next panel; the mode follows the panel: input
    /// panel means Input mode, any other means Normal.
    pub fn cycle_panel(&mut self)
        ensures
            final(self)@ == (AppModel {
                panel: match old(self)@.panel {
                    Panel::Contacts => Panel::Chat,
                    Panel::Chat => Panel::Input,
                    Panel::Input => Panel::Contacts,
                },
                mode: if old(self)@.panel == Panel::Chat {
                    Mode::Input
                } else {
                    Mode::Normal
                },
                ..old(self)@
            }),
    {
        self.panel = match self.panel {
            Panel::Contacts => Panel::Chat,
            Panel::Chat => Panel::Input,
            Panel::Input => Panel::Contacts,
        };
        self.mode = if self.panel == Panel::Input {
            Mode::Input
        } else {
            Mode::Normal
        };
    }

    /// Queues one command for the connection loop, in submission order.
    pub fn send_cmd(&mut self, cmd: &str)
        ensures
            final(self)@ == (AppModel { outbox: old(self)@.outbox.push(cmd@), ..old(self)@ }),
    {
        self.outbox.push(String::from_str(cmd));
        proof {
            assert(final(self)@.outbox =~= old(self)@.outbox.push(cmd@));
            assert(final(self)@ =~= (AppModel {
                outbox: old(self)@.outbox.push(cmd@),
                ..old(self)@
            }));
        }
    }

    /// The queued commands leave for the wire, oldest first; the queue
    /// empties.
    pub fn take_outbox(&mut self) -> (r: Vec<String>)
        ensures
            str_views(r@) == old(self)@.outbox,
            final(self)@ == (AppModel { outbox: Seq::empty(), ..old(self)@ }),
    {
        let mut out: Vec<String> = Vec::new();
        core::mem::swap(&mut out, &mut self.outbox);
        proof {
            assert(final(self)@ =~= (AppModel { outbox: Seq::empty(), ..old(self)@ }));
            assert(str_views(Seq::<String>::empty()) =~= Seq::<Seq<char>>::empty());
        }
        out
    }

    /// Scrolling: to the very bottom, one step up, one step down.
    pub fn auto_scroll(&mut self)
        ensures
            final(self)@ == (AppModel { scroll: usize::MAX as int, ..old(self)@ }),
    {
        self.scroll = usize::MAX;
    }

    /// One step up, saturating at the top.
    pub fn scroll_up(&mut self)
        ensures
            final(self)@ == (AppModel {
                scroll: if old(self)@.scroll == 0 {
                    0
                } else {
                    old(self)@.scroll - 1
                },
                ..old(self)@
            }),
    {
        self.scroll = if self.scroll == 0 {
            0
        } else {
            self.scroll - 1
        };
    }

    /// One step down, saturating at the largest index.
    pub fn scroll_down(&mut self)
        ensures
            final(self)@ == (AppModel {
                scroll: if old(self)@.scroll == usize::MAX as int {
                    usize::MAX as int
                } else {
                    old(self)@.scroll + 1
                },
                ..old(self)@
            }),
    {
        self.scroll = if self.scroll == usize::MAX {
            usize::MAX
        } else {
            self.scroll + 1
        };
    }

    /// A character is inserted at the cursor, which moves past it; with
    /// the cursor out of range or the input full, nothing changes.
    pub fn input_char(&mut self, c: char)
        ensures
            final(self)@ == (if old(self)@.cursor <= old(self)@.input.len() && old(
                self,
            )@.input.len() < usize::MAX {
                AppModel {
                    input: old(self)@.input.insert(old(self)@.cursor, c),
                    cursor: old(self)@.cursor + 1,
                    ..old(self)@
                }
            } else {
                old(self)@
            }),
    {
        if self.cursor <= self.input.len() && self.input.len() < usize::MAX {
            self.input.insert(self.cursor, c);
            self.cursor = self.cursor + 1;
            proof {
                assert(final(self)@ =~= (AppModel {
                    input: old(self)@.input.insert(old(self)@.cursor, c),
                    cursor: old(self)@.cursor + 1,
                    ..old(self)@
                }));
            }
        }
    }

    /// The character before the cursor is removed and the cursor moves
    /// back; at the start, or with the cursor out of range, nothing
    /// changes.
    pub fn input_backspace(&mut self)
        ensures
            final(self)@ == (if 0 < old(self)@.cursor <= old(self)@.input.len() {
                AppModel {
                    input: old(self)@.input.remove(old(self)@.cursor - 1),
                    cursor: old(self)@.cursor - 1,
                    ..old(self)@
                }
            } else {
                old(self)@
            }),
    {
        if self.cursor > 0 && self.cursor <= self.input.len() {
            self.cursor = self.cursor - 1;
            self.input.remove(self.cursor);
            proof {
                assert(final(self)@ =~= (AppModel {
                    input: old(self)@.input.remove(old(self)@.cursor - 1),
                    cursor: old(self)@.cursor - 1,
                    ..old(self)@
                }));
            }
        }
    }

    /// The character under the cursor is removed; at the end nothing
    /// changes.
    pub fn input_delete(&mut self)
        ensures
            final(self)@ == (AppModel {
                input: if old(self)@.cursor < old(self)@.input.len() {
                    old(self)@.input.remove(old(self)@.cursor)
                } else {
                    old(self)@.input
                },
                ..old(self)@
            }),
    {
        if self.cursor < self.input.len() {
            self.input.remove(self.cursor);
        }
        proof {
            assert(final(self)@ =~= (AppModel {
                input: if old(self)@.cursor < old(self)@.input.len() {
                    old(self)@.input.remove(old(self)@.cursor)
                } else {
                    old(self)@.input
                },
                ..old(self)@
            }));
        }
    }

    /// Cursor one step left, saturating.
    pub fn cursor_left(&mut self)
        ensures
            final(self)@ == (AppModel {
                cursor: if old(self)@.cursor == 0 {
                    0
                } else {
                    old(self)@.cursor - 1
                },
                ..old(self)@
            }),
    {
        self.cursor = if self.cursor == 0 {
            0
        } else {
            self.cursor - 1
        };
    }

    /// Cursor one step right, stopping at the end of the input.
    pub fn cursor_right(&mut self)
        ensures
            final(self)@ == (AppModel {
                cursor: if old(self)@.cursor < old(self)@.input.len() {
                    old(self)@.cursor + 1
                } else {
                    old(self)@.cursor
                },
                ..old(self)@
            }),
    {
        if self.cursor < self.input.len() {
            self.cursor = self.cursor + 1;
        }
    }

    /// Cursor to the start of the input.
    pub fn cursor_home(&mut self)
        ensures
            final(self)@ == (AppModel { cursor: 0, ..old(self)@ }),
    {
        self.cursor = 0;
    }

    /// Cursor to the end of the input.
    pub fn cursor_end(&mut self)
        ensures
            final(self)@ == (AppModel { cursor: old(self)@.input.len() as int, ..old(self)@ }),
    {
        self.cursor = self.input.len();
    }

    /// The frame counter advances, wrapping.
    pub fn tick(&mut self)
        ensures
            final(self)@ == (AppModel {
                tick: if old(self)@.tick == u64::MAX {
                    0
                } else {
                    (old(self)@.tick + 1) as u64
                },
                ..old(self)@
            }),
    {
        self.tick = if self.tick == u64::MAX {
            0
        } else {
            self.tick + 1
        };
    }

    /// The input line as a string, for rendering and sending.
    pub fn input_string(&self) -> (r: String)
        ensures
            r@ == self@.input,
    {
        crate::strutil::chars_to_string(&self.input)
    }

    /// The invite-link input as a string, for rendering.
    pub fn connect_input_string(&self) -> (r: String)
        ensures
            r@ == self@.connect_input,
    {
        crate::strutil::chars_to_string(&self.connect_input)
    }
}

/// First index in `cs` whose contact bears `name`, or `-1`.
pub open spec fn index_of_name(cs: Seq<ContactModel>, name: Seq<char>) -> int
    decreases cs.len(),
{
    if cs.len() == 0 {
        -1
    } else if cs[0].name == name {
        0
    } else {
        let r = index_of_name(cs.drop_first(), name);
        if r < 0 {
            -1
        } else {
            r + 1
        }
    }
}

/// The contact list after a refresh: the remote entries in their order,
/// each keeping the locally known unread count when a contact of the same
/// name was already present.
pub open spec fn merge_contacts(cur: Seq<ContactModel>, remote: Seq<ContactModel>) -> Seq<
    ContactModel,
> {
    Seq::new(
        remote.len(),
        |i: int|
            {
                let k = index_of_name(cur, remote[i].name);
                if k >= 0 {
                    ContactModel { unread: cur[k].unread, ..remote[i] }
                } else {
                    remote[i]
                }
            },
    )
}

/// `cs` with the unread count of the first contact named `name` set to
/// zero; unchanged when no contact bears the name.
pub open spec fn zero_unread(cs: Seq<ContactModel>, name: Seq<char>) -> Seq<ContactModel> {
    let k = index_of_name(cs, name);
    if k >= 0 {
        cs.update(k, ContactModel { unread: 0, ..cs[k] })
    } else {
        cs
    }
}

/// `cs` with the unread count of the first contact named `name` raised by
/// one, saturating; unchanged when no contact bears the name.
pub open spec fn inc_unread(cs: Seq<ContactModel>, name: Seq<char>) -> Seq<ContactModel> {
    let k = index_of_name(cs, name);
    if k >= 0 {
        cs.update(
            k,
            ContactModel {
                unread: if cs[k].unread == usize::MAX as int {
                    cs[k].unread
                } else {
                    cs[k].unread + 1
                },
                ..cs[k]
            },
        )
    } else {
        cs
    }
}

/// `cs` without the contacts named `name`.
pub open spec fn remove_name(cs: Seq<ContactModel>, name: Seq<char>) -> Seq<ContactModel>
    decreases cs.len(),
{
    if cs.len() == 0 {
        Seq::empty()
    } else {
        remove_name(cs.drop_last(), name) + (if cs.last().name == name {
            Seq::empty()
        } else {
            seq![cs.last()]
        })
    }
}

/// The selection after the list shrank to `len` entries: clamped to the
/// last entry, or reset to the top of an empty list.
pub open spec fn clamp_selected(selected: int, len: int) -> int {
    if selected >= len && len > 0 {
        len - 1
    } else if len == 0 {
        0
    } else {
        selected
    }
}

/// The state after selecting the highlighted contact: it becomes current,
/// its unread count clears, the log empties, and a history fetch scoped to
/// it is queued; an out-of-range selection changes nothing.
pub open spec fn step_select(m: AppModel) -> AppModel {
    if 0 <= m.selected < m.contacts.len() {
        let name = m.contacts[m.selected].name;
        AppModel {
            current_contact: Some(name),
            messages: Seq::empty(),
            scroll: 0,
            contacts: zero_unread(m.contacts, name),
            status: "Opening "@ + name + "..."@,
            outbox: m.outbox.push("/tail @"@ + name + " 50"@),
            ..m
        }
    } else {
        m
    }
}

impl App {
    /// First index of the contact bearing `name`, executable form.
    fn find_contact(&self, name: &str) -> (r: Option<usize>)
        ensures
            match r {
                Some(i) => 0 <= i < self@.contacts.len() && index_of_name(self@.contacts, name@)
                    == i as int,
                None => index_of_name(self@.contacts, name@) == -1,
            },
    {
        let ghost cs = self@.contacts;
        proof {
            assert(cs.skip(0) =~= cs);
        }
        let mut i: usize = 0;
        while i < self.contacts.len()
            invariant
                cs == self@.contacts,
                self.contacts@.len() == cs.len(),
                i <= cs.len(),
                index_of_name(cs, name@) == if index_of_name(cs.skip(i as int), name@) < 0 {
                    -1int
                } else {
                    index_of_name(cs.skip(i as int), name@) + i
                },
            decreases cs.len() - i,
        {
            proof {
                assert(cs.skip(i as int)[0] == cs[i as int]);
                assert(cs.skip(i as int).drop_first() =~= cs.skip(i + 1));
            }
            if crate::strutil::str_eq(self.contacts[i].name.as_str(), name) {
                return Some(i);
            }
            i = i + 1;
        }
        proof {
            assert(cs.skip(cs.len() as int) =~= Seq::<ContactModel>::empty());
        }
        None
    }

    /// Selecting the highlighted contact: it becomes current, its unread
    /// count clears, the message log empties, scrolling resets, and a
    /// history fetch scoped to it is queued.  With the selection out of
    /// range nothing changes.
    pub fn select_contact(&mut self)
        ensures
            final(self)@ == step_select(old(self)@),
    {
        if self.selected >= self.contacts.len() {
            return;
        }
        let name = self.contacts[self.selected].name.clone();
        self.current_contact = Some(name.clone());
        self.messages = Vec::new();
        self.scroll = 0;
        match self.find_contact(name.as_str()) {
            Some(k) => {
                let c = Contact {
                    name: self.contacts[k].name.clone(),
                    unread: 0,
                    online: self.contacts[k].online,
                };
                self.contacts.set(k, c);
            },
            None => {},
        }
        let mut st = String::from_str("Opening ");
        st.append(name.as_str());
        st.append("...");
        self.status = st;
        let mut cmd = String::from_str("/tail @");
        cmd.append(name.as_str());
        cmd.append(" 50");
        self.outbox.push(cmd);
        proof {
            let m = old(self)@;
            let nm = m.contacts[m.selected].name;
            assert(final(self)@.contacts =~= zero_unread(m.contacts, nm));
            assert(final(self)@.outbox =~= m.outbox.push("/tail @"@ + nm + " 50"@));
            assert(final(self)@ =~= (AppModel {
                current_contact: Some(nm),
                messages: Seq::empty(),
                scroll: 0,
                contacts: zero_unread(m.contacts, nm),
                status: "Opening "@ + nm + "..."@,
                outbox: m.outbox.push("/tail @"@ + nm + " 50"@),
                ..m
            }));
        }
    }

    /// The contact list is replaced by the remote list, unread counts
    /// merged by name.
    pub fn set_contacts(&mut self, remote: Vec<Contact>)
        ensures
            final(self)@ == (AppModel {
                contacts: merge_contacts(old(self)@.contacts, contact_views(remote@)),
                ..old(self)@
            }),
    {
        let ghost cur = self@.contacts;
        let ghost rv = contact_views(remote@);
        let mut merged: Vec<Contact> = Vec::new();
        let mut i: usize = 0;
        while i < remote.len()
            invariant
                cur == self@.contacts,
                rv == contact_views(remote@),
                remote@.len() == rv.len(),
                i <= rv.len(),
                contact_views(merged@) =~= merge_contacts(cur, rv).take(i as int),
            decreases rv.len() - i,
        {
            let c = match self.find_contact(remote[i].name.as_str()) {
                Some(k) => Contact {
                    name: remote[i].name.clone(),
                    unread: self.contacts[k].unread,
                    online: remote[i].online,
                },
                None => Contact {
                    name: remote[i].name.clone(),
                    unread: remote[i].unread,
                    online: remote[i].online,
                },
            };
            let ghost prev = merged@;
            merged.push(c);
            proof {
                let target = merge_contacts(cur, rv);
                assert(contact_views(prev).len() == prev.len());
                assert(contact_views(prev) == target.take(i as int));
                assert(prev.len() == i);
                assert(merged@ == prev.push(c));
                assert(merged@[i as int]@ == target[i as int]);
                assert forall|j: int| 0 <= j < i implies contact_views(merged@)[j] == target.take(
                    i + 1 as int,
                )[j] by {
                    assert(contact_views(merged@)[j] == merged@[j]@);
                    assert(merged@[j] == prev[j]);
                    assert(contact_views(prev)[j] == prev[j]@);
                    assert(contact_views(prev)[j] == target.take(i as int)[j]);
                }
                assert(contact_views(merged@) =~= target.take(i + 1 as int));
            }
            i = i + 1;
        }
        self.contacts = merged;
        proof {
            assert(merge_contacts(cur, rv).take(rv.len() as int) =~= merge_contacts(cur, rv));
            assert(final(self)@ =~= (AppModel {
                contacts: merge_contacts(cur, rv),
                ..old(self)@
            }));
        }
    }
}

/// Whether a status update may attach to this message: self-authored, not
/// terminal, not yet delivered, and strictly older than the incoming
/// status.
pub open spec fn eligible(m: MsgModel, st: MessageStatus) -> bool {
    &&& m.mine
    &&& !(m.status is Failed)
    &&& crate::types::status_rank(m.status) < crate::types::status_rank(MessageStatus::Delivered)
    &&& crate::types::status_rank(m.status) < crate::types::status_rank(st)
}

/// The most recent message a status update attaches to, or `-1`.
pub open spec fn target_index(log: Seq<MsgModel>, st: MessageStatus) -> int
    decreases log.len(),
{
    if log.len() == 0 {
        -1
    } else if eligible(log.last(), st) {
        log.len() - 1
    } else {
        target_index(log.drop_last(), st)
    }
}

/// The message log after a status update: the most recent in-flight
/// outgoing message takes the new status; with none, nothing changes.
pub open spec fn apply_update(log: Seq<MsgModel>, st: MessageStatus) -> Seq<MsgModel> {
    let k = target_index(log, st);
    if k >= 0 {
        log.update(k, MsgModel { status: st, ..log[k] })
    } else {
        log
    }
}

/// Whether a second activation at `idx` at time `now` counts as a double
/// activation: same entry as the last one, within the time window (a clock
/// running backwards counts as within).
pub open spec fn is_double(m: AppModel, idx: int, now: u64) -> bool {
    match (m.last_click_time, m.last_click_index) {
        (Some(t), Some(j)) => j == idx && (now < t || now - t < DOUBLE_CLICK_MS),
        _ => false,
    }
}

/// The contact action the selection rests on; out of range means Cancel.
pub open spec fn selected_option(m: AppModel) -> ContactOption {
    if 0 <= m.option_selection < option_list().len() {
        option_list()[m.option_selection]
    } else {
        ContactOption::Cancel
    }
}

/// The state after the options view closes: no subject, no selection, no
/// armed confirmation, Normal mode.
pub open spec fn step_close_options(m: AppModel) -> AppModel {
    AppModel {
        contact_for_options: None,
        option_selection: 0,
        confirm_action: None,
        mode: Mode::Normal,
        ..m
    }
}

/// The state after deleting `name`: the delete command is queued, the
/// contact disappears, the selection is clamped, an open conversation with
/// it closes, and the options view closes.
pub open spec fn step_delete_contact(m: AppModel, name: Seq<char>) -> AppModel {
    let cs = remove_name(m.contacts, name);
    AppModel {
        contacts: cs,
        selected: clamp_selected(m.selected, cs.len() as int),
        current_contact: if m.current_contact == Some(name) {
            None
        } else {
            m.current_contact
        },
        messages: if m.current_contact == Some(name) {
            Seq::empty()
        } else {
            m.messages
        },
        status: "Deleted: "@ + name,
        outbox: m.outbox.push("/d '"@ + name + "'"@),
        contact_for_options: None,
        option_selection: 0,
        confirm_action: None,
        mode: Mode::Normal,
        ..m
    }
}

/// The state after clearing the chat with `name`: the clear command is
/// queued, an open conversation with it empties, and the options view
/// closes.
pub open spec fn step_clear_chat(m: AppModel, name: Seq<char>) -> AppModel {
    AppModel {
        messages: if m.current_contact == Some(name) {
            Seq::empty()
        } else {
            m.messages
        },
        status: "Clearing chat with "@ + name + "..."@,
        outbox: m.outbox.push("/clear '"@ + name + "'"@),
        contact_for_options: None,
        option_selection: 0,
        confirm_action: None,
        mode: Mode::Normal,
        ..m
    }
}

/// The state after asking for details on `name`: the info command is
/// queued; the options view stays open until the response arrives.
pub open spec fn step_contact_info(m: AppModel, name: Seq<char>) -> AppModel {
    AppModel {
        status: "Loading info for "@ + name + "..."@,
        outbox: m.outbox.push("/info '"@ + name + "'"@),
        ..m
    }
}

/// The state after performing a contact action on the options view's
/// subject; with no subject the view just closes.
pub open spec fn step_execute_option(m: AppModel, o: ContactOption) -> AppModel {
    match m.contact_for_options {
        Some(name) => match o {
            ContactOption::DeleteContact => step_delete_contact(m, name),
            ContactOption::ClearChat => step_clear_chat(m, name),
            ContactOption::ContactInfo => step_contact_info(m, name),
            ContactOption::Cancel => step_close_options(m),
        },
        None => step_close_options(m),
    }
}

/// The state after activating the selected contact action: a destructive
/// action with the latch unarmed only arms it; anything else performs the
/// action.
pub open spec fn step_execute_selected(m: AppModel) -> AppModel {
    let o = selected_option(m);
    if o.spec_destructive() && m.confirm_action is None {
        AppModel {
            confirm_action: Some(o),
            status: "Press Enter again to confirm "@ + o.spec_label(),
            ..m
        }
    } else {
        step_execute_option(m, o)
    }
}

impl App {
    /// Status reconciliation: the update attaches to the most recent
    /// in-flight outgoing message, if any.
    pub fn apply_message_update(&mut self, st: MessageStatus)
        ensures
            final(self)@ == (AppModel {
                messages: apply_update(old(self)@.messages, st),
                ..old(self)@
            }),
    {
        let ghost log = self@.messages;
        let mut i: usize = self.messages.len();
        proof {
            assert(log.take(log.len() as int) =~= log);
        }
        while i > 0
            invariant
                self@ == old(self)@,
                log == self@.messages,
                self.messages@.len() == log.len(),
                i <= log.len(),
                target_index(log, st) == target_index(log.take(i as int), st),
            decreases i,
        {
            i = i - 1;
            proof {
                assert(log.take(i + 1 as int).drop_last() =~= log.take(i as int));
                assert(log.take(i + 1 as int).last() == log[i as int]);
            }
            let m = &self.messages[i];
            let elig = m.mine && !matches!(m.status, MessageStatus::Failed) && m.status.rank()
                < MessageStatus::Delivered.rank() && m.status.rank() < st.rank();
            if elig {
                let updated = ChatMessage {
                    sender: self.messages[i].sender.clone(),
                    content: self.messages[i].content.clone(),
                    time: self.messages[i].time.clone(),
                    mine: self.messages[i].mine,
                    status: st,
                };
                self.messages.set(i, updated);
                proof {
                    assert(target_index(log, st) == i as int);
                    assert(final(self)@.messages =~= apply_update(log, st));
                    assert(final(self)@ =~= (AppModel {
                        messages: apply_update(old(self)@.messages, st),
                        ..old(self)@
                    }));
                }
                return;
            }
        }
        proof {
            assert(log.take(0) =~= Seq::<MsgModel>::empty());
            assert(target_index(log, st) == -1);
            assert(final(self)@ =~= (AppModel {
                messages: apply_update(old(self)@.messages, st),
                ..old(self)@
            }));
        }
    }

    /// Registers an activation of list entry `idx` at time `now` and says
    /// whether it completed a double activation.
    pub fn register_click(&mut self, idx: usize, now: u64) -> (r: bool)
        ensures
            r == is_double(old(self)@, idx as int, now),
            final(self)@ == (AppModel {
                last_click_time: Some(now),
                last_click_index: Some(idx as int),
                ..old(self)@
            }),
    {
        let r = match (self.last_click_time, self.last_click_index) {
            (Some(t), Some(j)) => j == idx && (now < t || now - t < DOUBLE_CLICK_MS),
            _ => false,
        };
        self.last_click_time = Some(now);
        self.last_click_index = Some(idx);
        r
    }

    /// Registers an activation of list entry `idx` now; the time is read
    /// from the clock and recorded in the state.
    pub fn check_double_click(&mut self, idx: usize) -> (r: bool)
        ensures
            final(self)@.last_click_time is Some,
            final(self)@ == (AppModel {
                last_click_time: final(self)@.last_click_time,
                last_click_index: Some(idx as int),
                ..old(self)@
            }),
            r == is_double(old(self)@, idx as int, final(self)@.last_click_time->0),
    {
        let now = crate::clock::now_millis();
        self.register_click(idx, now)
    }

    /// The options view opens on `name` with the first action selected and
    /// the latch unarmed.
    pub fn open_contact_options(&mut self, name: String)
        ensures
            final(self)@ == (AppModel {
                contact_for_options: Some(name@),
                option_selection: 0,
                confirm_action: None,
                mode: Mode::ContactOptions,
                ..old(self)@
            }),
    {
        self.contact_for_options = Some(name);
        self.option_selection = 0;
        self.confirm_action = None;
        self.mode = Mode::ContactOptions;
    }

    /// The options view closes without performing anything.
    pub fn close_contact_options(&mut self)
        ensures
            final(self)@ == step_close_options(old(self)@),
    {
        self.contact_for_options = None;
        self.option_selection = 0;
        self.confirm_action = None;
        self.mode = Mode::Normal;
    }

    /// The action selection moves one entry down, wrapping.
    pub fn next_option(&mut self)
        ensures
            final(self)@ == (AppModel {
                option_selection: if old(self)@.option_selection + 1 >= option_list().len() {
                    0
                } else {
                    old(self)@.option_selection + 1
                },
                ..old(self)@
            }),
    {
        self.option_selection = if self.option_selection >= 3 {
            0
        } else {
            self.option_selection + 1
        };
    }

    /// The action selection moves one entry up, wrapping.
    pub fn prev_option(&mut self)
        ensures
            final(self)@ == (AppModel {
                option_selection: if old(self)@.option_selection == 0 {
                    option_list().len() - 1
                } else {
                    old(self)@.option_selection - 1
                },
                ..old(self)@
            }),
    {
        self.option_selection = if self.option_selection == 0 {
            3
        } else {
            self.option_selection - 1
        };
    }

    /// Contacts named `name` leave the list.
    fn retain_not_named(&mut self, name: &str)
        ensures
            final(self)@ == (AppModel {
                contacts: remove_name(old(self)@.contacts, name@),
                ..old(self)@
            }),
    {
        let ghost cs = self@.contacts;
        let mut kept: Vec<Contact> = Vec::new();
        let mut i: usize = 0;
        while i < self.contacts.len()
            invariant
                cs == self@.contacts,
                self.contacts@.len() == cs.len(),
                i <= cs.len(),
                contact_views(kept@) =~= remove_name(cs.take(i as int), name@),
            decreases cs.len() - i,
        {
            proof {
                assert(cs.take(i + 1 as int).drop_last() =~= cs.take(i as int));
                assert(cs.take(i + 1 as int).last() == cs[i as int]);
            }
            if !crate::strutil::str_eq(self.contacts[i].name.as_str(), name) {
                let c = Contact {
                    name: self.contacts[i].name.clone(),
                    unread: self.contacts[i].unread,
                    online: self.contacts[i].online,
                };
                let ghost prev = kept@;
                kept.push(c);
                proof {
                    assert(contact_views(prev).len() == prev.len());
                    assert(kept@ == prev.push(c));
                    assert(contact_views(kept@) =~= remove_name(cs.take(i + 1 as int), name@));
                }
            } else {
                proof {
                    assert(contact_views(kept@) =~= remove_name(cs.take(i + 1 as int), name@));
                }
            }
            i = i + 1;
        }
        proof {
            assert(cs.take(cs.len() as int) =~= cs);
        }
        self.contacts = kept;
        proof {
            assert(final(self)@ =~= (AppModel {
                contacts: remove_name(old(self)@.contacts, name@),
                ..old(self)@
            }));
        }
    }

    /// Whether the open conversation is with `name`.
    fn current_is(&self, name: &str) -> (r: bool)
        ensures
            r == (self@.current_contact == Some(name@)),
    {
        match &self.current_contact {
            Some(c) => crate::strutil::str_eq(c.as_str(), name),
            None => false,
        }
    }

    /// Deleting `name`: queues the delete command, removes the contact,
    /// clamps the selection, closes an open conversation with it, and
    /// closes the options view.
    pub fn delete_contact(&mut self, name: &str)
        ensures
            final(self)@ == step_delete_contact(old(self)@, name@),
    {
        let mut cmd = String::from_str("/d '");
        cmd.append(name);
        cmd.append("'");
        self.outbox.push(cmd);
        self.retain_not_named(name);
        if self.selected >= self.contacts.len() && self.contacts.len() > 0 {
            self.selected = self.contacts.len() - 1;
        } else if self.contacts.len() == 0 {
            self.selected = 0;
        }
        if self.current_is(name) {
            self.current_contact = None;
            self.messages = Vec::new();
        }
        let mut st = String::from_str("Deleted: ");
        st.append(name);
        self.status = st;
        self.close_contact_options();
        proof {
            assert(final(self)@.outbox =~= old(self)@.outbox.push("/d '"@ + name@ + "'"@));
            assert(final(self)@ =~= step_delete_contact(old(self)@, name@));
        }
    }

    /// Clearing the chat with `name`: queues the clear command, empties an
    /// open conversation with it, and closes the options view.
    pub fn clear_chat(&mut self, name: &str)
        ensures
            final(self)@ == step_clear_chat(old(self)@, name@),
    {
        let mut cmd = String::from_str("/clear '");
        cmd.append(name);
        cmd.append("'");
        self.outbox.push(cmd);
        let mut st = String::from_str("Clearing chat with ");
        st.append(name);
        st.append("...");
        self.status = st;
        if self.current_is(name) {
            self.messages = Vec::new();
        }
        self.close_contact_options();
        proof {
            assert(final(self)@.outbox =~= old(self)@.outbox.push("/clear '"@ + name@ + "'"@));
            assert(final(self)@ =~= step_clear_chat(old(self)@, name@));
        }
    }

    /// Asking for details on `name`: queues the info command.
    pub fn get_contact_info(&mut self, name: &str)
        ensures
            final(self)@ == step_contact_info(old(self)@, name@),
    {
        let mut cmd = String::from_str("/info '");
        cmd.append(name);
        cmd.append("'");
        self.outbox.push(cmd);
        let mut st = String::from_str("Loading info for ");
        st.append(name);
        st.append("...");
        self.status = st;
        proof {
            assert(final(self)@.outbox =~= old(self)@.outbox.push("/info '"@ + name@ + "'"@));
            assert(final(self)@ =~= step_contact_info(old(self)@, name@));
        }
    }

    /// Performing a contact action on the options view's subject.
    pub fn execute_option(&mut self, option: ContactOption)
        ensures
            final(self)@ == step_execute_option(old(self)@, option),
    {
        let name = match &self.contact_for_options {
            Some(n) => Some(n.clone()),
            None => None,
        };
        match name {
            Some(n) => {
                match option {
                    ContactOption::DeleteContact => self.delete_contact(n.as_str()),
                    ContactOption::ClearChat => self.clear_chat(n.as_str()),
                    ContactOption::ContactInfo => self.get_contact_info(n.as_str()),
                    ContactOption::Cancel => self.close_contact_options(),
                }
            },
            None => self.close_contact_options(),
        }
    }

    /// Activating the selected contact action: a destructive action first
    /// arms the confirmation latch; the second activation performs it.
    pub fn execute_selected_option(&mut self)
        ensures
            final(self)@ == step_execute_selected(old(self)@),
    {
        let opts = ContactOption::all();
        let option = if self.option_selection < opts.len() {
            opts[self.option_selection]
        } else {
            ContactOption::Cancel
        };
        if option.is_destructive() && self.confirm_action.is_none() {
            self.confirm_action = Some(option);
            let mut st = String::from_str("Press Enter again to confirm ");
            st.append(option.label());
            self.status = st;
            proof {
                assert(final(self)@ =~= step_execute_selected(old(self)@));
            }
        } else {
            self.execute_option(option);
        }
    }

    /// Asking to see the existing address: queues the show-address command.
    pub fn request_address(&mut self)
        ensures
            final(self)@ == (AppModel {
                outbox: old(self)@.outbox.push("/sa"@),
                status: "Loading address..."@,
                ..old(self)@
            }),
    {
        self.outbox.push(String::from_str("/sa"));
        self.status = String::from_str("Loading address...");
        proof {
            assert(final(self)@.outbox =~= old(self)@.outbox.push("/sa"@));
            assert(final(self)@ =~= (AppModel {
                outbox: old(self)@.outbox.push("/sa"@),
                status: "Loading address..."@,
                ..old(self)@
            }));
        }
    }

    /// Creating a new address, phase one: the cached link clears, the
    /// pending flag arms, and the delete-address command is queued.
    pub fn create_address(&mut self)
        ensures
            final(self)@ == (AppModel {
                invite_link: None,
                pending_new_address: true,
                outbox: old(self)@.outbox.push("/da"@),
                status: "Creating new address..."@,
                ..old(self)@
            }),
    {
        self.invite_link = None;
        self.pending_new_address = true;
        self.outbox.push(String::from_str("/da"));
        self.status = String::from_str("Creating new address...");
        proof {
            assert(final(self)@.outbox =~= old(self)@.outbox.push("/da"@));
            assert(final(self)@ =~= (AppModel {
                invite_link: None,
                pending_new_address: true,
                outbox: old(self)@.outbox.push("/da"@),
                status: "Creating new address..."@,
                ..old(self)@
            }));
        }
    }

    /// Creating a new address, phase two: exactly when the pending flag is
    /// armed, it disarms and the create-address command is queued; with
    /// the flag already clear nothing happens.
    pub fn finish_create_address(&mut self)
        ensures
            final(self)@ == (if old(self)@.pending_new_address {
                AppModel {
                    pending_new_address: false,
                    outbox: old(self)@.outbox.push("/ad"@),
                    ..old(self)@
                }
            } else {
                old(self)@
            }),
    {
        if self.pending_new_address {
            self.pending_new_address = false;
            self.outbox.push(String::from_str("/ad"));
            proof {
                assert(final(self)@.outbox =~= old(self)@.outbox.push("/ad"@));
                assert(final(self)@ =~= (AppModel {
                    pending_new_address: false,
                    outbox: old(self)@.outbox.push("/ad"@),
                    ..old(self)@
                }));
            }
        }
    }
}

/// The state after sending the typed message with timestamp `t`: an
/// optimistic local append in `Sending` status, the send command queued,
/// the input cleared, the log scrolled to the bottom.
pub open spec fn step_send(m: AppModel, t: Seq<char>) -> AppModel {
    let name = m.contacts[m.selected].name;
    AppModel {
        messages: m.messages.push(
            MsgModel {
                sender: "You"@,
                content: m.input,
                time: t,
                mine: true,
                status: MessageStatus::Sending,
            },
        ),
        input: Seq::empty(),
        cursor: 0,
        scroll: usize::MAX as int,
        status: "Sending..."@,
        outbox: m.outbox.push("@"@ + name + " "@ + m.input),
        ..m
    }
}

/// The state after submitting the invite-link input: the trimmed link is
/// queued as a connect command and the input closes.
pub open spec fn step_connect(m: AppModel) -> AppModel {
    AppModel {
        outbox: m.outbox.push("/c "@ + crate::strutil::trim_spec(m.connect_input)),
        status: "Connecting..."@,
        connect_input: Seq::empty(),
        mode: Mode::Normal,
        ..m
    }
}

impl App {
    /// Sending the typed message to the selected contact: a no-op when the
    /// input is empty or the selection is out of range; otherwise the
    /// message is appended locally in `Sending` status before any
    /// acknowledgment, and the send command is queued.  The timestamp is
    /// read from the clock; it is five characters.
    pub fn send_message(&mut self)
        ensures
            ({
                let m = old(self)@;
                if m.input.len() == 0 {
                    final(self)@ == m
                } else if 0 <= m.selected < m.contacts.len() {
                    final(self)@.messages.len() == m.messages.len() + 1
                    && final(self)@.messages.last().time.len() == 5
                    && final(self)@ == step_send(m, final(self)@.messages.last().time)
                } else {
                    final(self)@ == m
                }
            }),
    {
        if self.input.len() == 0 {
            return;
        }
        if self.selected >= self.contacts.len() {
            return;
        }
        let name = self.contacts[self.selected].name.clone();
        let text = crate::strutil::chars_to_string(&self.input);
        let mut cmd = String::from_str("@");
        cmd.append(name.as_str());
        cmd.append(" ");
        cmd.append(text.as_str());
        self.outbox.push(cmd);
        let time = crate::clock::now_hhmm();
        self.messages.push(
            ChatMessage {
                sender: String::from_str("You"),
                content: text,
                time: time,
                mine: true,
                status: MessageStatus::Sending,
            },
        );
        self.input = Vec::new();
        self.cursor = 0;
        self.scroll = usize::MAX;
        self.status = String::from_str("Sending...");
        proof {
            let m = old(self)@;
            let t = final(self)@.messages.last().time;
            assert(final(self)@.messages =~= m.messages.push(
                MsgModel {
                    sender: "You"@,
                    content: m.input,
                    time: t,
                    mine: true,
                    status: MessageStatus::Sending,
                },
            ));
            assert(final(self)@.outbox =~= m.outbox.push(
                "@"@ + m.contacts[m.selected].name + " "@ + m.input,
            ));
            assert(final(self)@ =~= step_send(m, t));
        }
    }

    /// A fresh history fetch for the open conversation, if there is one.
    pub fn refresh_chat(&mut self)
        ensures
            final(self)@ == (match old(self)@.current_contact {
                Some(n) => AppModel {
                    outbox: old(self)@.outbox.push("/tail @"@ + n + " 50"@),
                    ..old(self)@
                },
                None => old(self)@,
            }),
    {
        let name = match &self.current_contact {
            Some(n) => n.clone(),
            None => {
                return;
            },
        };
        let mut cmd = String::from_str("/tail @");
        cmd.append(name.as_str());
        cmd.append(" 50");
        self.outbox.push(cmd);
        proof {
            assert(final(self)@.outbox =~= old(self)@.outbox.push(
                "/tail @"@ + name@ + " 50"@,
            ));
            assert(final(self)@ =~= (AppModel {
                outbox: old(self)@.outbox.push("/tail @"@ + name@ + " 50"@),
                ..old(self)@
            }));
        }
    }

    /// A contact-deleted push event: the contact disappears and the
    /// selection is clamped; the open conversation is left as it is.
    pub fn on_contact_deleted(&mut self, name: &str)
        ensures
            ({
                let cs = remove_name(old(self)@.contacts, name@);
                final(self)@ == (AppModel {
                    contacts: cs,
                    selected: if old(self)@.selected >= cs.len() && cs.len() > 0 {
                        cs.len() - 1
                    } else {
                        old(self)@.selected
                    },
                    status: "Deleted: "@ + name@,
                    ..old(self)@
                })
            }),
    {
        self.retain_not_named(name);
        if self.selected >= self.contacts.len() && self.contacts.len() > 0 {
            self.selected = self.contacts.len() - 1;
        }
        let mut st = String::from_str("Deleted: ");
        st.append(name);
        self.status = st;
        proof {
            let cs = remove_name(old(self)@.contacts, name@);
            assert(final(self)@ =~= (AppModel {
                contacts: cs,
                selected: if old(self)@.selected >= cs.len() && cs.len() > 0 {
                    cs.len() - 1
                } else {
                    old(self)@.selected
                },
                status: "Deleted: "@ + name@,
                ..old(self)@
            }));
        }
    }

    /// A chat-cleared push event: only the status line reports it.
    pub fn on_chat_cleared(&mut self, name: &str)
        ensures
            final(self)@ == (AppModel { status: "Chat cleared: "@ + name@, ..old(self)@ }),
    {
        let mut st = String::from_str("Chat cleared: ");
        st.append(name);
        self.status = st;
        proof {
            assert(final(self)@ =~= (AppModel {
                status: "Chat cleared: "@ + name@,
                ..old(self)@
            }));
        }
    }

    /// Sending a file to the open conversation: queues the file command;
    /// without an open conversation nothing changes.
    pub fn send_file(&mut self, path: &str, file_name: &str)
        ensures
            final(self)@ == (match old(self)@.current_contact {
                Some(n) => AppModel {
                    outbox: old(self)@.outbox.push("/f @'"@ + n + "' "@ + path@),
                    status: "Sending "@ + file_name@ + "..."@,
                    ..old(self)@
                },
                None => old(self)@,
            }),
    {
        let name = match &self.current_contact {
            Some(n) => n.clone(),
            None => {
                return;
            },
        };
        let mut cmd = String::from_str("/f @'");
        cmd.append(name.as_str());
        cmd.append("' ");
        cmd.append(path);
        self.outbox.push(cmd);
        let mut st = String::from_str("Sending ");
        st.append(file_name);
        st.append("...");
        self.status = st;
        proof {
            assert(final(self)@.outbox =~= old(self)@.outbox.push(
                "/f @'"@ + name@ + "' "@ + path@,
            ));
            assert(final(self)@ =~= (AppModel {
                outbox: old(self)@.outbox.push("/f @'"@ + name@ + "' "@ + path@),
                status: "Sending "@ + file_name@ + "..."@,
                ..old(self)@
            }));
        }
    }

    /// A character joins the invite-link input; with the input full,
    /// nothing changes.
    pub fn connect_push(&mut self, c: char)
        ensures
            final(self)@ == (if old(self)@.connect_input.len() < usize::MAX {
                AppModel { connect_input: old(self)@.connect_input.push(c), ..old(self)@ }
            } else {
                old(self)@
            }),
    {
        if self.connect_input.len() < usize::MAX {
            self.connect_input.push(c);
            proof {
                assert(final(self)@ =~= (AppModel {
                    connect_input: old(self)@.connect_input.push(c),
                    ..old(self)@
                }));
            }
        }
    }

    /// The last character leaves the invite-link input.
    pub fn connect_pop(&mut self)
        ensures
            final(self)@ == (AppModel {
                connect_input: if old(self)@.connect_input.len() > 0 {
                    old(self)@.connect_input.drop_last()
                } else {
                    old(self)@.connect_input
                },
                ..old(self)@
            }),
    {
        if self.connect_input.len() > 0 {
            self.connect_input.pop();
        }
        proof {
            assert(final(self)@ =~= (AppModel {
                connect_input: if old(self)@.connect_input.len() > 0 {
                    old(self)@.connect_input.drop_last()
                } else {
                    old(self)@.connect_input
                },
                ..old(self)@
            }));
        }
    }

    /// Submitting the invite-link input: with anything typed, its trimmed
    /// text is queued as a connect command and the dialog closes; empty
    /// input is a no-op.
    pub fn connect_to_invite(&mut self)
        ensures
            final(self)@ == (if old(self)@.connect_input.len() == 0 {
                old(self)@
            } else {
                step_connect(old(self)@)
            }),
    {
        let len = self.connect_input.len();
        if len == 0 {
            return;
        }
        let ghost s = self@.connect_input;
        let mut start: usize = 0;
        proof {
            assert(s.skip(0) =~= s);
        }
        while start < len && crate::strutil::is_space_exec(self.connect_input[start])
            invariant
                self@ == old(self)@,
                s == self@.connect_input,
                len == s.len(),
                start <= len,
                crate::strutil::trim_front(s) == crate::strutil::trim_front(s.skip(start as int)),
            decreases len - start,
        {
            proof {
                assert(s.skip(start as int)[0] == s[start as int]);
                assert(s.skip(start as int).drop_first() =~= s.skip(start + 1));
            }
            start = start + 1;
        }
        proof {
            if start < len {
                assert(s.skip(start as int)[0] == s[start as int]);
            }
            assert(crate::strutil::trim_front(s) == s.skip(start as int));
        }
        let ghost t = s.skip(start as int);
        proof {
            assert(t.take(len - start as int) =~= t);
        }
        let mut end: usize = len;
        while end > start && crate::strutil::is_space_exec(self.connect_input[end - 1])
            invariant
                self@ == old(self)@,
                s == self@.connect_input,
                len == s.len(),
                start <= end <= len,
                t == s.skip(start as int),
                crate::strutil::trim_back(t) == crate::strutil::trim_back(t.take(end - start as int)),
            decreases end,
        {
            proof {
                let j = end - start as int;
                assert(t.take(j).last() == t[j - 1]);
                assert(t[j - 1] == s[end - 1]);
                assert(t.take(j).drop_last() =~= t.take(j - 1));
            }
            end = end - 1;
        }
        proof {
            let j = end - start as int;
            if end > start {
                assert(t.take(j).last() == t[j - 1]);
                assert(t[j - 1] == s[end - 1]);
            } else {
                assert(t.take(0) =~= Seq::<char>::empty());
            }
            assert(crate::strutil::trim_back(t.take(j)) == t.take(j));
            assert(crate::strutil::trim_spec(s) == t.take(j));
        }
        let mut cmd: Vec<char> = crate::strutil::str_chars("/c ");
        let mut k: usize = start;
        while k < end
            invariant
                self@ == old(self)@,
                s == self@.connect_input,
                len == s.len(),
                start <= k <= end <= len,
                cmd@ == "/c "@ + s.subrange(start as int, k as int),
            decreases end - k,
        {
            cmd.push(self.connect_input[k]);
            proof {
                assert(cmd@ =~= "/c "@ + s.subrange(start as int, k + 1 as int));
            }
            k = k + 1;
        }
        proof {
            assert(s.subrange(start as int, end as int) =~= t.take(end - start as int));
            assert(cmd@ == "/c "@ + crate::strutil::trim_spec(s));
        }
        let cmd_s = crate::strutil::chars_to_string(&cmd);
        self.outbox.push(cmd_s);
        self.status = String::from_str("Connecting...");
        self.connect_input = Vec::new();
        self.mode = Mode::Normal;
        proof {
            assert(final(self)@.outbox =~= old(self)@.outbox.push(
                "/c "@ + crate::strutil::trim_spec(old(self)@.connect_input),
            ));
            assert(final(self)@ =~= step_connect(old(self)@));
        }
    }
}

/// Whether this event appends a message to the open conversation: a new
/// inbound message from exactly the current contact.
pub open spec fn appends_msg(m: AppModel, e: crate::types::EventModel) -> bool {
    match e {
        crate::types::EventModel::NewMessage { sender, text } => m.current_contact == Some(
            sender,
        ),
        _ => false,
    }
}

/// The timestamp witness for `step_event`: the appended message's own
/// time when one is appended, empty otherwise.
pub open spec fn event_time(
    m: AppModel,
    e: crate::types::EventModel,
    f: AppModel,
) -> Seq<char> {
    if appends_msg(m, e) {
        f.messages.last().time
    } else {
        Seq::empty()
    }
}

/// How the application state reacts to one domain event, with `t` the
/// clock reading used when an inbound message is appended.
pub open spec fn step_event(m: AppModel, e: crate::types::EventModel, t: Seq<char>) -> AppModel {
    match e {
        crate::types::EventModel::Connected => AppModel {
            connected: true,
            status: "Connected"@,
            ..m
        },
        crate::types::EventModel::Disconnected => AppModel {
            connected: false,
            status: "Disconnected"@,
            ..m
        },
        crate::types::EventModel::Contacts(cs) => AppModel {
            contacts: merge_contacts(m.contacts, cs),
            status: crate::strutil::dec_digits(cs.len()) + " contacts"@,
            ..m
        },
        crate::types::EventModel::Messages(ms) => AppModel {
            messages: ms,
            status: crate::strutil::dec_digits(ms.len()) + " messages"@,
            ..m
        },
        crate::types::EventModel::NewMessage { sender, text } => if m.current_contact == Some(
            sender,
        ) {
            AppModel {
                messages: m.messages.push(
                    MsgModel {
                        sender: sender,
                        content: text,
                        time: t,
                        mine: false,
                        status: MessageStatus::Delivered,
                    },
                ),
                scroll: usize::MAX as int,
                status: "New message from "@ + sender,
                ..m
            }
        } else {
            AppModel {
                contacts: inc_unread(m.contacts, sender),
                status: "New message from "@ + sender,
                ..m
            }
        },
        crate::types::EventModel::MessageUpdate { status } => AppModel {
            messages: apply_update(m.messages, status),
            ..m
        },
        crate::types::EventModel::InviteLink(l) => AppModel {
            invite_link: Some(l),
            status: "Address ready"@,
            ..m
        },
        crate::types::EventModel::AddressDeleted => if m.pending_new_address {
            AppModel { pending_new_address: false, outbox: m.outbox.push("/ad"@), ..m }
        } else {
            m
        },
        crate::types::EventModel::AddressCreated => AppModel {
            outbox: m.outbox.push("/sa"@),
            status: "Loading address..."@,
            ..m
        },
        crate::types::EventModel::ContactRequest(n) => AppModel {
            outbox: m.outbox.push("/contacts"@),
            status: n + " connected"@,
            ..m
        },
        crate::types::EventModel::Error(e_) => if e_ == "No address"@ && m.pending_new_address {
            AppModel { pending_new_address: false, outbox: m.outbox.push("/ad"@), ..m }
        } else if e_ == "Address exists"@ && !m.pending_new_address {
            AppModel { outbox: m.outbox.push("/sa"@), status: "Loading address..."@, ..m }
        } else {
            AppModel { status: e_, ..m }
        },
        crate::types::EventModel::Status(s) => AppModel { status: s, ..m },
        crate::types::EventModel::ContactInfo(d) => AppModel {
            contact_info: Some(d),
            mode: Mode::ContactInfo,
            ..m
        },
        crate::types::EventModel::ContactDeleted(n) => {
            let cs = remove_name(m.contacts, n);
            AppModel {
                contacts: cs,
                selected: if m.selected >= cs.len() && cs.len() > 0 {
                    cs.len() - 1
                } else {
                    m.selected
                },
                status: "Deleted: "@ + n,
                ..m
            }
        },
        crate::types::EventModel::ChatCleared(n) => AppModel {
            status: "Chat cleared: "@ + n,
            ..m
        },
    }
}

impl App {
    /// Consuming one domain event.  For an inbound message appended to the
    /// open conversation the clock is read; the recorded time is five
    /// characters, and everything else is decided by the event alone.
    #[verifier::rlimit(60)]
    pub fn apply_event(&mut self, ev: crate::types::SimplexEvent)
        ensures
            final(self)@ == step_event(
                old(self)@,
                ev@,
                event_time(old(self)@, ev@, final(self)@),
            ),
            appends_msg(old(self)@, ev@) ==> final(self)@.messages.len() == old(
                self,
            )@.messages.len() + 1 && final(self)@.messages.last().time.len() == 5,
    {
        match ev {
            crate::types::SimplexEvent::Connected => {
                self.connected = true;
                self.status = String::from_str("Connected");
                proof {
                    assert(final(self)@ =~= step_event(old(self)@, ev@, Seq::empty()));
                }
            },
            crate::types::SimplexEvent::Disconnected => {
                self.connected = false;
                self.status = String::from_str("Disconnected");
                proof {
                    assert(final(self)@ =~= step_event(old(self)@, ev@, Seq::empty()));
                }
            },
            crate::types::SimplexEvent::Contacts(cs) => {
                let count = cs.len();
                self.set_contacts(cs);
                let mut st = crate::strutil::u64_to_string(count as u64);
                st.append(" contacts");
                self.status = st;
                proof {
                    assert(final(self)@ =~= step_event(old(self)@, ev@, Seq::empty()));
                }
            },
            crate::types::SimplexEvent::Messages(ms) => {
                let count = ms.len();
                self.messages = ms;
                let mut st = crate::strutil::u64_to_string(count as u64);
                st.append(" messages");
                self.status = st;
                proof {
                    assert(final(self)@ =~= step_event(old(self)@, ev@, Seq::empty()));
                }
            },
            crate::types::SimplexEvent::NewMessage { sender, text } => {
                if self.current_is(sender.as_str()) {
                    let sname = sender.clone();
                    let time = crate::clock::now_hhmm();
                    self.messages.push(
                        ChatMessage {
                            sender: sender,
                            content: text,
                            time: time,
                            mine: false,
                            status: MessageStatus::Delivered,
                        },
                    );
                    self.scroll = usize::MAX;
                    let mut st = String::from_str("New message from ");
                    st.append(sname.as_str());
                    self.status = st;
                    proof {
                        let m = old(self)@;
                        let t = final(self)@.messages.last().time;
                        assert(final(self)@.messages =~= m.messages.push(
                            MsgModel {
                                sender: sname@,
                                content: text@,
                                time: t,
                                mine: false,
                                status: MessageStatus::Delivered,
                            },
                        ));
                        assert(final(self)@ =~= step_event(m, ev@, t));
                    }
                } else {
                    match self.find_contact(sender.as_str()) {
                        Some(k) => {
                            let u = self.contacts[k].unread;
                            let c = Contact {
                                name: self.contacts[k].name.clone(),
                                unread: if u == usize::MAX {
                                    u
                                } else {
                                    u + 1
                                },
                                online: self.contacts[k].online,
                            };
                            self.contacts.set(k, c);
                            proof {
                                assert(self@.contacts =~= inc_unread(
                                    old(self)@.contacts,
                                    sender@,
                                ));
                            }
                        },
                        None => {
                            proof {
                                assert(self@.contacts =~= inc_unread(
                                    old(self)@.contacts,
                                    sender@,
                                ));
                            }
                        },
                    }
                    let mut st = String::from_str("New message from ");
                    st.append(sender.as_str());
                    self.status = st;
                    proof {
                        assert(final(self)@ =~= step_event(old(self)@, ev@, Seq::empty()));
                    }
                }
            },
            crate::types::SimplexEvent::MessageUpdate { status } => {
                self.apply_message_update(status);
                proof {
                    assert(final(self)@ =~= step_event(old(self)@, ev@, Seq::empty()));
                }
            },
            crate::types::SimplexEvent::InviteLink(l) => {
                self.invite_link = Some(l);
                self.status = String::from_str("Address ready");
                proof {
                    assert(final(self)@ =~= step_event(old(self)@, ev@, Seq::empty()));
                }
            },
            crate::types::SimplexEvent::AddressDeleted => {
                self.finish_create_address();
                proof {
                    assert(final(self)@ =~= step_event(old(self)@, ev@, Seq::empty()));
                }
            },
            crate::types::SimplexEvent::AddressCreated => {
                self.request_address();
                proof {
                    assert(final(self)@ =~= step_event(old(self)@, ev@, Seq::empty()));
                }
            },
            crate::types::SimplexEvent::ContactRequest(n) => {
                self.outbox.push(String::from_str("/contacts"));
                let mut st = n;
                st.append(" connected");
                self.status = st;
                proof {
                    assert(final(self)@.outbox =~= old(self)@.outbox.push("/contacts"@));
                    assert(final(self)@ =~= step_event(old(self)@, ev@, Seq::empty()));
                }
            },
            crate::types::SimplexEvent::Error(e) => {
                if crate::strutil::str_eq(e.as_str(), "No address") && self.pending_new_address {
                    self.finish_create_address();
                    proof {
                        assert(final(self)@ =~= step_event(old(self)@, ev@, Seq::empty()));
                    }
                } else if crate::strutil::str_eq(e.as_str(), "Address exists")
                    && !self.pending_new_address {
                    self.request_address();
                    proof {
                        assert(final(self)@ =~= step_event(old(self)@, ev@, Seq::empty()));
                    }
                } else {
                    self.status = e;
                    proof {
                        assert(final(self)@ =~= step_event(old(self)@, ev@, Seq::empty()));
                    }
                }
            },
            crate::types::SimplexEvent::Status(s) => {
                self.status = s;
                proof {
                    assert(final(self)@ =~= step_event(old(self)@, ev@, Seq::empty()));
                }
            },
            crate::types::SimplexEvent::ContactInfo(d) => {
                self.contact_info_data = Some(d);
                self.mode = Mode::ContactInfo;
                proof {
                    assert(final(self)@ =~= step_event(old(self)@, ev@, Seq::empty()));
                }
            },
            crate::types::SimplexEvent::ContactDeleted(n) => {
                self.on_contact_deleted(n.as_str());
                proof {
                    assert(final(self)@ =~= step_event(old(self)@, ev@, Seq::empty()));
                }
            },
            crate::types::SimplexEvent::ChatCleared(n) => {
                self.on_chat_cleared(n.as_str());
                proof {
                    assert(final(self)@ =~= step_event(old(self)@, ev@, Seq::empty()));
                }
            },
        }
    }
}

/// The state after the focus cycles to the next panel.
pub open spec fn step_cycle(m: AppModel) -> AppModel {
    AppModel {
        panel: match m.panel {
            Panel::Contacts => Panel::Chat,
            Panel::Chat => Panel::Input,
            Panel::Input => Panel::Contacts,
        },
        mode: if m.panel == Panel::Chat {
            Mode::Input
        } else {
            Mode::Normal
        },
        ..m
    }
}

/// How Panic mode reacts to a key: each emergency action only reports
/// itself in the status line, except closing, which ends the run.
pub open spec fn step_panic(m: AppModel, k: Key) -> AppModel {
    match k {
        Key::Esc => AppModel { mode: Mode::Normal, ..m },
        Key::Char(c) => if c == '1' {
            AppModel { status: "Screen locked"@, ..m }
        } else if c == '2' {
            AppModel { running: false, ..m }
        } else if c == '3' {
            AppModel { status: "NUKE initiated..."@, ..m }
        } else if c == '4' {
            AppModel { status: "SSH stealth mode"@, ..m }
        } else {
            m
        },
        _ => m,
    }
}

/// How the add-contact dialog reacts to a key: `g` fetches the existing
/// address, `c` creates a new one (both only on empty input), Enter
/// submits the typed link, and printable characters join the input.
pub open spec fn step_add_contact(m: AppModel, k: Key) -> AppModel {
    match k {
        Key::Esc => AppModel { mode: Mode::Normal, connect_input: Seq::empty(), ..m },
        Key::Enter => if m.connect_input.len() > 0 {
            step_connect(m)
        } else {
            m
        },
        Key::Backspace => AppModel {
            connect_input: if m.connect_input.len() > 0 {
                m.connect_input.drop_last()
            } else {
                m.connect_input
            },
            ..m
        },
        Key::Char(c) => if m.connect_input.len() == 0 && c == 'g' {
            AppModel { outbox: m.outbox.push("/sa"@), status: "Loading address..."@, ..m }
        } else if m.connect_input.len() == 0 && c == 'c' {
            AppModel {
                invite_link: None,
                pending_new_address: true,
                outbox: m.outbox.push("/da"@),
                status: "Creating new address..."@,
                ..m
            }
        } else if !crate::strutil::is_ctrl(c) {
            if m.connect_input.len() < usize::MAX {
                AppModel { connect_input: m.connect_input.push(c), ..m }
            } else {
                m
            }
        } else {
            m
        },
        _ => m,
    }
}

/// How the contact-options view reacts to a key: navigation disarms the
/// confirmation latch, Escape cancels an armed confirmation before it
/// closes the view, and the shortcut keys jump to their action.
pub open spec fn step_contact_options(m: AppModel, k: Key) -> AppModel {
    match k {
        Key::Esc => if m.confirm_action is Some {
            AppModel { confirm_action: None, status: "Action cancelled"@, ..m }
        } else {
            step_close_options(m)
        },
        Key::Up => step_options_prev(m),
        Key::Down => step_options_next(m),
        Key::Enter => step_execute_selected(m),
        Key::Char(c) => if c == 'k' {
            step_options_prev(m)
        } else if c == 'j' {
            step_options_next(m)
        } else if c == 'd' {
            step_execute_selected(AppModel { option_selection: 0, ..m })
        } else if c == 'c' {
            if m.confirm_action is None {
                step_execute_selected(AppModel { option_selection: 1, ..m })
            } else {
                m
            }
        } else if c == 'i' {
            step_execute_selected(AppModel { option_selection: 2, ..m })
        } else if c == 'x' {
            step_close_options(m)
        } else {
            m
        },
        _ => m,
    }
}

/// Moving the action selection up disarms the latch.
pub open spec fn step_options_prev(m: AppModel) -> AppModel {
    AppModel {
        confirm_action: None,
        option_selection: if m.option_selection == 0 {
            option_list().len() - 1
        } else {
            m.option_selection - 1
        },
        ..m
    }
}

/// Moving the action selection down disarms the latch.
pub open spec fn step_options_next(m: AppModel) -> AppModel {
    AppModel {
        confirm_action: None,
        option_selection: if m.option_selection + 1 >= option_list().len() {
            0
        } else {
            m.option_selection + 1
        },
        ..m
    }
}

/// How the contact-details view reacts to a key: any of Escape, Enter or
/// `q` closes it.
pub open spec fn step_contact_info_mode(m: AppModel, k: Key) -> AppModel {
    match k {
        Key::Esc | Key::Enter => AppModel { contact_info: None, mode: Mode::Normal, ..m },
        Key::Char(c) => if c == 'q' {
            AppModel { contact_info: None, mode: Mode::Normal, ..m }
        } else {
            m
        },
        _ => m,
    }
}

/// How Normal mode reacts to a key.
pub open spec fn step_normal(m: AppModel, k: Key) -> AppModel {
    match k {
        Key::Esc => if m.show_help {
            AppModel { show_help: false, ..m }
        } else {
            m
        },
        Key::Tab => step_cycle(m),
        Key::Up => step_nav_up(m),
        Key::Down => step_nav_down(m),
        Key::Enter => if m.panel == Panel::Contacts {
            step_select(m)
        } else {
            AppModel { panel: Panel::Input, mode: Mode::Input, ..m }
        },
        Key::Char(c) => if c == 'q' {
            AppModel { running: false, ..m }
        } else if c == '?' {
            AppModel { show_help: !m.show_help, ..m }
        } else if c == 'i' {
            AppModel {
                mode: Mode::AddContact,
                outbox: m.outbox.push("/sa"@),
                status: "Loading address..."@,
                ..m
            }
        } else if c == 'r' {
            AppModel {
                outbox: (match m.current_contact {
                    Some(n) => m.outbox.push("/tail @"@ + n + " 50"@),
                    None => m.outbox,
                }).push("/contacts"@),
                ..m
            }
        } else if c == 'o' {
            if 0 <= m.selected < m.contacts.len() {
                AppModel {
                    contact_for_options: Some(m.contacts[m.selected].name),
                    option_selection: 0,
                    confirm_action: None,
                    mode: Mode::ContactOptions,
                    ..m
                }
            } else {
                m
            }
        } else if c == 'f' {
            if m.current_contact is Some {
                AppModel { mode: Mode::FileBrowser, ..m }
            } else {
                m
            }
        } else if c == 'j' {
            step_nav_down(m)
        } else if c == 'k' {
            step_nav_up(m)
        } else {
            m
        },
        _ => m,
    }
}

/// Moving down: the contact selection in the contacts panel, the scroll
/// position in the chat panel.
pub open spec fn step_nav_down(m: AppModel) -> AppModel {
    match m.panel {
        Panel::Contacts => AppModel {
            selected: if m.contacts.len() == 0 {
                m.selected
            } else if m.selected + 1 >= m.contacts.len() {
                0
            } else {
                m.selected + 1
            },
            ..m
        },
        Panel::Chat => AppModel {
            scroll: if m.scroll == usize::MAX as int {
                m.scroll
            } else {
                m.scroll + 1
            },
            ..m
        },
        Panel::Input => m,
    }
}

/// Moving up: the contact selection in the contacts panel, the scroll
/// position in the chat panel.
pub open spec fn step_nav_up(m: AppModel) -> AppModel {
    match m.panel {
        Panel::Contacts => AppModel {
            selected: if m.contacts.len() == 0 {
                m.selected
            } else if m.selected == 0 {
                m.contacts.len() - 1
            } else {
                m.selected - 1
            },
            ..m
        },
        Panel::Chat => AppModel {
            scroll: if m.scroll == 0 {
                0
            } else {
                m.scroll - 1
            },
            ..m
        },
        Panel::Input => m,
    }
}

/// How Input mode reacts to a key, with `t` the clock reading used when a
/// message is sent.
pub open spec fn step_input_mode(m: AppModel, k: Key, t: Seq<char>) -> AppModel {
    match k {
        Key::Esc => AppModel { mode: Mode::Normal, panel: Panel::Chat, ..m },
        Key::Tab => step_cycle(m),
        Key::Enter => if m.input.len() == 0 {
            m
        } else if 0 <= m.selected < m.contacts.len() {
            step_send(m, t)
        } else {
            m
        },
        Key::Backspace => if 0 < m.cursor <= m.input.len() {
            AppModel { input: m.input.remove(m.cursor - 1), cursor: m.cursor - 1, ..m }
        } else {
            m
        },
        Key::Delete => AppModel {
            input: if m.cursor < m.input.len() {
                m.input.remove(m.cursor)
            } else {
                m.input
            },
            ..m
        },
        Key::Left => AppModel {
            cursor: if m.cursor == 0 {
                0
            } else {
                m.cursor - 1
            },
            ..m
        },
        Key::Right => AppModel {
            cursor: if m.cursor < m.input.len() {
                m.cursor + 1
            } else {
                m.cursor
            },
            ..m
        },
        Key::Home => AppModel { cursor: 0, ..m },
        Key::End => AppModel { cursor: m.input.len() as int, ..m },
        Key::Char(c) => if m.cursor <= m.input.len() && m.input.len() < usize::MAX {
            AppModel { input: m.input.insert(m.cursor, c), cursor: m.cursor + 1, ..m }
        } else {
            m
        },
        _ => m,
    }
}

/// Whether this key stroke sends the typed message.
pub open spec fn sends_msg(m: AppModel, k: Key, ctrl: bool) -> bool {
    &&& !ctrl
    &&& k == Key::Enter
    &&& m.mode == Mode::Input
    &&& m.input.len() > 0
    &&& 0 <= m.selected < m.contacts.len()
}

/// The timestamp witness for `step_key`.
pub open spec fn key_time(m: AppModel, k: Key, ctrl: bool, f: AppModel) -> Seq<char> {
    if sends_msg(m, k, ctrl) {
        f.messages.last().time
    } else {
        Seq::empty()
    }
}

/// How the whole interface reacts to one key stroke: F12 always opens
/// Panic mode, Ctrl chords quit or refresh, and everything else is routed
/// to the active mode's handler.
pub open spec fn step_key(m: AppModel, k: Key, ctrl: bool, t: Seq<char>) -> AppModel {
    if k == Key::F(12) {
        AppModel { mode: Mode::Panic, ..m }
    } else if ctrl {
        match k {
            Key::Char(c) => if c == 'c' || c == 'q' {
                AppModel { running: false, ..m }
            } else if c == 'l' {
                AppModel { outbox: m.outbox.push("/contacts"@), ..m }
            } else {
                m
            },
            _ => m,
        }
    } else {
        match m.mode {
            Mode::Panic => step_panic(m, k),
            Mode::AddContact => step_add_contact(m, k),
            Mode::ContactOptions => step_contact_options(m, k),
            Mode::ContactInfo => step_contact_info_mode(m, k),
            Mode::FileBrowser => m,
            Mode::Normal => step_normal(m, k),
            Mode::Input => step_input_mode(m, k, t),
        }
    }
}

impl App {
    /// Panic-mode key handling.
    fn handle_panic(&mut self, key: Key)
        ensures
            final(self)@ == step_panic(old(self)@, key),
    {
        match key {
            Key::Esc => {
                self.mode = Mode::Normal;
            },
            Key::Char(c) => {
                if c == '1' {
                    self.status = String::from_str("Screen locked");
                } else if c == '2' {
                    self.running = false;
                } else if c == '3' {
                    self.status = String::from_str("NUKE initiated...");
                } else if c == '4' {
                    self.status = String::from_str("SSH stealth mode");
                }
            },
            _ => {},
        }
        proof {
            assert(final(self)@ =~= step_panic(old(self)@, key));
        }
    }

    /// Add-contact dialog key handling.
    fn handle_add_contact(&mut self, key: Key)
        ensures
            final(self)@ == step_add_contact(old(self)@, key),
    {
        match key {
            Key::Esc => {
                self.mode = Mode::Normal;
                self.connect_input = Vec::new();
                proof {
                    assert(final(self)@ =~= step_add_contact(old(self)@, key));
                }
            },
            Key::Enter => {
                if self.connect_input.len() > 0 {
                    self.connect_to_invite();
                }
            },
            Key::Backspace => {
                self.connect_pop();
            },
            Key::Char(c) => {
                if self.connect_input.len() == 0 && c == 'g' {
                    self.request_address();
                } else if self.connect_input.len() == 0 && c == 'c' {
                    self.create_address();
                } else if !(c < '\u{20}' || ('\u{7f}' <= c && c <= '\u{9f}')) {
                    self.connect_push(c);
                }
            },
            _ => {},
        }
        proof {
            assert(final(self)@ =~= step_add_contact(old(self)@, key));
        }
    }

    /// Contact-options view key handling.
    fn handle_contact_options(&mut self, key: Key)
        ensures
            final(self)@ == step_contact_options(old(self)@, key),
    {
        match key {
            Key::Esc => {
                if self.confirm_action.is_some() {
                    self.confirm_action = None;
                    self.status = String::from_str("Action cancelled");
                    proof {
                        assert(final(self)@ =~= step_contact_options(old(self)@, key));
                    }
                } else {
                    self.close_contact_options();
                }
            },
            Key::Up => {
                self.confirm_action = None;
                self.prev_option();
            },
            Key::Down => {
                self.confirm_action = None;
                self.next_option();
            },
            Key::Enter => {
                self.execute_selected_option();
            },
            Key::Char(c) => {
                if c == 'k' {
                    self.confirm_action = None;
                    self.prev_option();
                } else if c == 'j' {
                    self.confirm_action = None;
                    self.next_option();
                } else if c == 'd' {
                    self.option_selection = 0;
                    self.execute_selected_option();
                } else if c == 'c' {
                    if self.confirm_action.is_none() {
                        self.option_selection = 1;
                        self.execute_selected_option();
                    }
                } else if c == 'i' {
                    self.option_selection = 2;
                    self.execute_selected_option();
                } else if c == 'x' {
                    self.close_contact_options();
                }
            },
            _ => {},
        }
        proof {
            assert(final(self)@ =~= step_contact_options(old(self)@, key));
        }
    }

    /// Contact-details view key handling.
    fn handle_contact_info(&mut self, key: Key)
        ensures
            final(self)@ == step_contact_info_mode(old(self)@, key),
    {
        match key {
            Key::Esc | Key::Enter => {
                self.contact_info_data = None;
                self.mode = Mode::Normal;
            },
            Key::Char(c) => {
                if c == 'q' {
                    self.contact_info_data = None;
                    self.mode = Mode::Normal;
                }
            },
            _ => {},
        }
        proof {
            assert(final(self)@ =~= step_contact_info_mode(old(self)@, key));
        }
    }

    /// Normal-mode key handling.
    fn handle_normal(&mut self, key: Key)
        ensures
            final(self)@ == step_normal(old(self)@, key),
    {
        match key {
            Key::Esc => {
                if self.show_help {
                    self.show_help = false;
                }
            },
            Key::Tab => {
                self.cycle_panel();
            },
            Key::Up => {
                match self.panel {
                    Panel::Contacts => self.prev_contact(),
                    Panel::Chat => self.scroll_up(),
                    Panel::Input => {},
                }
            },
            Key::Down => {
                match self.panel {
                    Panel::Contacts => self.next_contact(),
                    Panel::Chat => self.scroll_down(),
                    Panel::Input => {},
                }
            },
            Key::Enter => {
                if matches!(self.panel, Panel::Contacts) {
                    self.select_contact();
                } else {
                    self.panel = Panel::Input;
                    self.mode = Mode::Input;
                }
            },
            Key::Char(c) => {
                if c == 'q' {
                    self.running = false;
                } else if c == '?' {
                    self.show_help = !self.show_help;
                } else if c == 'i' {
                    self.mode = Mode::AddContact;
                    self.request_address();
                } else if c == 'r' {
                    self.refresh_chat();
                    self.outbox.push(String::from_str("/contacts"));
                    proof {
                        assert(final(self)@.outbox =~= (match old(self)@.current_contact {
                            Some(n) => old(self)@.outbox.push("/tail @"@ + n + " 50"@),
                            None => old(self)@.outbox,
                        }).push("/contacts"@));
                    }
                } else if c == 'o' {
                    if self.selected < self.contacts.len() {
                        let name = self.contacts[self.selected].name.clone();
                        self.open_contact_options(name);
                    }
                } else if c == 'f' {
                    if self.current_contact.is_some() {
                        self.mode = Mode::FileBrowser;
                    }
                } else if c == 'j' {
                    match self.panel {
                        Panel::Contacts => self.next_contact(),
                        Panel::Chat => self.scroll_down(),
                        Panel::Input => {},
                    }
                } else if c == 'k' {
                    match self.panel {
                        Panel::Contacts => self.prev_contact(),
                        Panel::Chat => self.scroll_up(),
                        Panel::Input => {},
                    }
                }
            },
            _ => {},
        }
        proof {
            assert(final(self)@ =~= step_normal(old(self)@, key));
        }
    }

    /// Input-mode key handling.  Sending reads the clock; see
    /// `send_message`.
    fn handle_input(&mut self, key: Key)
        requires
            old(self)@.mode == Mode::Input,
        ensures
            final(self)@ == step_input_mode(
                old(self)@,
                key,
                key_time(old(self)@, key, false, final(self)@),
            ),
            sends_msg(old(self)@, key, false) ==> final(self)@.messages.len() == old(
                self,
            )@.messages.len() + 1 && final(self)@.messages.last().time.len() == 5,
    {
        match key {
            Key::Esc => {
                self.mode = Mode::Normal;
                self.panel = Panel::Chat;
            },
            Key::Tab => {
                self.cycle_panel();
            },
            Key::Enter => {
                self.send_message();
            },
            Key::Backspace => {
                self.input_backspace();
            },
            Key::Delete => {
                self.input_delete();
            },
            Key::Left => {
                self.cursor_left();
            },
            Key::Right => {
                self.cursor_right();
            },
            Key::Home => {
                self.cursor_home();
            },
            Key::End => {
                self.cursor_end();
            },
            Key::Char(c) => {
                self.input_char(c);
            },
            _ => {},
        }
        proof {
            assert(final(self)@ =~= step_input_mode(
                old(self)@,
                key,
                key_time(old(self)@, key, false, final(self)@),
            ));
        }
    }

    /// One key stroke: F12 always opens Panic mode, Ctrl chords quit or
    /// refresh the contact list, and everything else goes to the active
    /// mode's handler.  The file browser's own input is routed outside the
    /// library.
    pub fn handle_key(&mut self, key: Key, ctrl: bool)
        ensures
            final(self)@ == step_key(
                old(self)@,
                key,
                ctrl,
                key_time(old(self)@, key, ctrl, final(self)@),
            ),
            sends_msg(old(self)@, key, ctrl) ==> final(self)@.messages.len() == old(
                self,
            )@.messages.len() + 1 && final(self)@.messages.last().time.len() == 5,
    {
        if matches!(key, Key::F(12)) {
            self.mode = Mode::Panic;
            proof {
                assert(final(self)@ =~= step_key(
                    old(self)@,
                    key,
                    ctrl,
                    key_time(old(self)@, key, ctrl, final(self)@),
                ));
            }
            return;
        }
        if ctrl {
            match key {
                Key::Char(c) => {
                    if c == 'c' || c == 'q' {
                        self.running = false;
                    } else if c == 'l' {
                        self.outbox.push(String::from_str("/contacts"));
                        proof {
                            assert(final(self)@.outbox =~= old(self)@.outbox.push(
                                "/contacts"@,
                            ));
                        }
                    }
                },
                _ => {},
            }
            proof {
                assert(final(self)@ =~= step_key(
                    old(self)@,
                    key,
                    ctrl,
                    key_time(old(self)@, key, ctrl, final(self)@),
                ));
            }
            return;
        }
        match self.mode {
            Mode::Panic => self.handle_panic(key),
            Mode::AddContact => self.handle_add_contact(key),
            Mode::ContactOptions => self.handle_contact_options(key),
            Mode::ContactInfo => self.handle_contact_info(key),
            Mode::FileBrowser => {},
            Mode::Normal => self.handle_normal(key),
            Mode::Input => self.handle_input(key),
        }
    }
}

} // verus!
