//! Domain model: contacts, chat messages, message status, interface modes,
//! domain events, and the request envelope sent to the daemon.

use vstd::prelude::*;

verus! {

/// A known peer.  `name` is the unique, stable identifier; `unread` counts
/// messages received while the conversation was not open.
#[derive(Clone, Debug)]
pub struct Contact {
    pub name: String,
    pub unread: usize,
    pub online: bool,
}

/// Mathematical model of a `Contact`.
pub struct ContactModel {
    pub name: Seq<char>,
    pub unread: int,
    pub online: bool,
}

impl View for Contact {
    type V = ContactModel;

    open spec fn view(&self) -> ContactModel {
        ContactModel { name: self.name@, unread: self.unread as int, online: self.online }
    }
}

impl Contact {
    /// A freshly seen contact: no unread messages, presumed offline.
    pub fn new(name: String) -> (c: Contact)
        ensures
            c@ == (ContactModel { name: name@, unread: 0, online: false }),
    {
        Contact { name, unread: 0, online: false }
    }
}

/// Delivery progress of a message; transitions only move forward, except
/// `Failed`, which is terminal and never overwritten.
#[derive(Clone, Copy, Debug, PartialEq, Eq, Structural)]
pub enum MessageStatus {
    Sending,
    Sent,
    Delivered,
    Read,
    Failed,
}

/// Delivery progress as a number: larger means further along.  `Failed`
/// is terminal and ranks above everything.
pub open spec fn status_rank(s: MessageStatus) -> int {
    match s {
        MessageStatus::Sending => 0,
        MessageStatus::Sent => 1,
        MessageStatus::Delivered => 2,
        MessageStatus::Read => 3,
        MessageStatus::Failed => 4,
    }
}

impl MessageStatus {
    /// Delivery progress as a number, executable form.
    pub fn rank(&self) -> (r: u8)
        ensures
            r as int == status_rank(*self),
    {
        match self {
            MessageStatus::Sending => 0,
            MessageStatus::Sent => 1,
            MessageStatus::Delivered => 2,
            MessageStatus::Read => 3,
            MessageStatus::Failed => 4,
        }
    }
}

/// One line of the currently open conversation.
#[derive(Clone, Debug)]
pub struct ChatMessage {
    pub sender: String,
    pub content: String,
    pub time: String,
    pub mine: bool,
    pub status: MessageStatus,
}

/// Mathematical model of a `ChatMessage`.
pub struct MsgModel {
    pub sender: Seq<char>,
    pub content: Seq<char>,
    pub time: Seq<char>,
    pub mine: bool,
    pub status: MessageStatus,
}

impl View for ChatMessage {
    type V = MsgModel;

    open spec fn view(&self) -> MsgModel {
        MsgModel {
            sender: self.sender@,
            content: self.content@,
            time: self.time@,
            mine: self.mine,
            status: self.status,
        }
    }
}

/// Which region of the interface has navigation focus.
#[derive(Clone, Copy, Debug, PartialEq, Eq, Structural)]
pub enum Panel {
    Contacts,
    Chat,
    Input,
}

/// The mutually exclusive interface modes; exactly one is active at a time.
#[derive(Clone, Copy, Debug, PartialEq, Eq, Structural)]
pub enum Mode {
    Normal,
    Input,
    Panic,
    AddContact,
    ContactOptions,
    ContactInfo,
    FileBrowser,
}

/// Detailed information about one contact, assembled from independently
/// optional fields of a `contactInfo` response; absent fields default to
/// empty strings or `false`.
#[derive(Clone, Debug)]
pub struct ContactInfoData {
    pub name: String,
    pub bio: String,
    pub address: String,
    pub receiving_server: String,
    pub sending_server: String,
    pub created_at: String,
    pub updated_at: String,
    pub pq_encryption: bool,
    pub connection_status: String,
    pub chat_version: String,
}

/// Mathematical model of `ContactInfoData`.
pub struct InfoModel {
    pub name: Seq<char>,
    pub bio: Seq<char>,
    pub address: Seq<char>,
    pub receiving_server: Seq<char>,
    pub sending_server: Seq<char>,
    pub created_at: Seq<char>,
    pub updated_at: Seq<char>,
    pub pq_encryption: bool,
    pub connection_status: Seq<char>,
    pub chat_version: Seq<char>,
}

impl View for ContactInfoData {
    type V = InfoModel;

    open spec fn view(&self) -> InfoModel {
        InfoModel {
            name: self.name@,
            bio: self.bio@,
            address: self.address@,
            receiving_server: self.receiving_server@,
            sending_server: self.sending_server@,
            created_at: self.created_at@,
            updated_at: self.updated_at@,
            pq_encryption: self.pq_encryption,
            connection_status: self.connection_status@,
            chat_version: self.chat_version@,
        }
    }
}

/// The models of a sequence of contacts, element-wise.
pub open spec fn contact_views(s: Seq<Contact>) -> Seq<ContactModel> {
    Seq::new(s.len(), |i: int| s[i]@)
}

/// The models of a sequence of messages, element-wise.
pub open spec fn msg_views(s: Seq<ChatMessage>) -> Seq<MsgModel> {
    Seq::new(s.len(), |i: int| s[i]@)
}

/// A domain event produced by the codec and consumed by the application
/// state machine.
#[derive(Debug)]
pub enum SimplexEvent {
    Connected,
    Disconnected,
    Contacts(Vec<Contact>),
    Messages(Vec<ChatMessage>),
    NewMessage { sender: String, text: String },
    MessageUpdate { status: MessageStatus },
    InviteLink(String),
    AddressDeleted,
    AddressCreated,
    ContactRequest(String),
    Error(String),
    Status(String),
    ContactInfo(ContactInfoData),
    ContactDeleted(String),
    ChatCleared(String),
}

/// Mathematical model of a `SimplexEvent`.
pub enum EventModel {
    Connected,
    Disconnected,
    Contacts(Seq<ContactModel>),
    Messages(Seq<MsgModel>),
    NewMessage { sender: Seq<char>, text: Seq<char> },
    MessageUpdate { status: MessageStatus },
    InviteLink(Seq<char>),
    AddressDeleted,
    AddressCreated,
    ContactRequest(Seq<char>),
    Error(Seq<char>),
    Status(Seq<char>),
    ContactInfo(InfoModel),
    ContactDeleted(Seq<char>),
    ChatCleared(Seq<char>),
}

impl View for SimplexEvent {
    type V = EventModel;

    open spec fn view(&self) -> EventModel {
        match self {
            SimplexEvent::Connected => EventModel::Connected,
            SimplexEvent::Disconnected => EventModel::Disconnected,
            SimplexEvent::Contacts(cs) => EventModel::Contacts(contact_views(cs@)),
            SimplexEvent::Messages(ms) => EventModel::Messages(msg_views(ms@)),
            SimplexEvent::NewMessage { sender, text } => EventModel::NewMessage {
                sender: sender@,
                text: text@,
            },
            SimplexEvent::MessageUpdate { status } => EventModel::MessageUpdate {
                status: *status,
            },
            SimplexEvent::InviteLink(l) => EventModel::InviteLink(l@),
            SimplexEvent::AddressDeleted => EventModel::AddressDeleted,
            SimplexEvent::AddressCreated => EventModel::AddressCreated,
            SimplexEvent::ContactRequest(n) => EventModel::ContactRequest(n@),
            SimplexEvent::Error(e) => EventModel::Error(e@),
            SimplexEvent::Status(s) => EventModel::Status(s@),
            SimplexEvent::ContactInfo(d) => EventModel::ContactInfo(d@),
            SimplexEvent::ContactDeleted(n) => EventModel::ContactDeleted(n@),
            SimplexEvent::ChatCleared(n) => EventModel::ChatCleared(n@),
        }
    }
}

/// The views of a sequence of strings, element-wise.
pub open spec fn str_views(s: Seq<String>) -> Seq<Seq<char>> {
    Seq::new(s.len(), |i: int| s[i]@)
}

/// The models of a sequence of events, element-wise.
pub open spec fn event_views(s: Seq<SimplexEvent>) -> Seq<EventModel> {
    Seq::new(s.len(), |i: int| s[i]@)
}

/// A keyboard key, as the interface routes it; what the terminal library
/// reports is mapped onto this closed set outside the library.
#[derive(Clone, Copy, Debug, PartialEq, Eq, Structural)]
pub enum Key {
    Char(char),
    Enter,
    Esc,
    Tab,
    Backspace,
    Delete,
    Up,
    Down,
    Left,
    Right,
    Home,
    End,
    F(u8),
    Other,
}

/// The request envelope the daemon expects: a correlation identifier paired
/// with a free-form command string.
pub struct ApiCommand {
    pub corr_id: String,
    pub cmd: String,
}

impl ApiCommand {
    /// Envelope with a fresh clock-based correlation identifier: the
    /// decimal rendering of the current time in milliseconds.
    pub fn new(cmd: &str) -> (r: ApiCommand)
        ensures
            r.cmd@ == cmd@,
            exists|n: u64| r.corr_id@ == crate::strutil::dec_digits(n as nat),
    {
        let ms = crate::clock::now_millis();
        let corr = crate::strutil::u64_to_string(ms);
        proof {
            assert(corr@ == crate::strutil::dec_digits(ms as nat));
        }
        ApiCommand { corr_id: corr, cmd: String::from_str(cmd) }
    }

    /// Envelope with an explicitly chosen correlation identifier, used for
    /// fire-and-forget bootstrap commands.
    pub fn with_id(corr_id: &str, cmd: &str) -> (r: ApiCommand)
        ensures
            r.corr_id@ == corr_id@,
            r.cmd@ == cmd@,
    {
        ApiCommand { corr_id: String::from_str(corr_id), cmd: String::from_str(cmd) }
    }
}

} // verus!
