//! From a message as the platform delivers it to the canonical message.

use crate::types::{make_key, message_key, Message, MessageView};
use vstd::prelude::*;
use vstd::string::*;

verus! {

/// What is read of a chat: the one a message was posted in, or the one it
/// was posted on behalf of.
#[derive(Debug)]
pub struct ChatInfo {
    pub id: i64,
    pub title: Option<String>,
    pub is_supergroup: bool,
}

/// A chat's record as a mathematical value.
pub struct ChatInfoView {
    pub id: i64,
    pub title: Option<Seq<char>>,
    pub is_supergroup: bool,
}

impl View for ChatInfo {
    type V = ChatInfoView;

    open spec fn view(&self) -> ChatInfoView {
        ChatInfoView {
            id: self.id,
            title: self.title.deep_view(),
            is_supergroup: self.is_supergroup,
        }
    }
}

/// What is read of the user who sent a message.
#[derive(Debug)]
pub struct Sender {
    pub id: u64,
    pub is_bot: bool,
    pub first_name: String,
    pub last_name: Option<String>,
}

/// A sender's record as a mathematical value.
pub struct SenderView {
    pub id: u64,
    pub is_bot: bool,
    pub first_name: Seq<char>,
    pub last_name: Option<Seq<char>>,
}

impl View for Sender {
    type V = SenderView;

    open spec fn view(&self) -> SenderView {
        SenderView {
            id: self.id,
            is_bot: self.is_bot,
            first_name: self.first_name@,
            last_name: self.last_name.deep_view(),
        }
    }
}

impl SenderView {
    /// First and last name with a space between, or the first name alone.
    pub open spec fn full_name(self) -> Seq<char> {
        match self.last_name {
            Some(last) => self.first_name + " "@ + last,
            None => self.first_name,
        }
    }
}

impl Sender {
    /// First and last name with a space between, or the first name alone.
    pub fn full_name(&self) -> (name: String)
        ensures
            name@ == self@.full_name(),
    {
        let mut name = self.first_name.clone();
        match &self.last_name {
            Some(last) => {
                name.append(" ");
                name.append(last.as_str());
            },
            None => {},
        }
        name
    }
}

/// A message as it arrives from the platform, reduced to what is read of it.
#[derive(Debug)]
pub struct LiveMessage {
    /// The message's number within its chat.
    pub id: i32,
    /// Seconds since 1970-01-01T00:00:00Z.
    pub date: i64,
    /// The chat it was posted in.
    pub chat: ChatInfo,
    /// The user who sent it, if the platform names one.
    pub from: Option<Sender>,
    /// The chat on whose behalf it was sent, if any.
    pub sender_chat: Option<ChatInfo>,
    /// The identifier of the bot through which it was sent, if any.
    pub via_bot: Option<u64>,
    /// The text of a text message.
    pub text: Option<String>,
    /// The caption of a media message.
    pub caption: Option<String>,
}

/// A live message as a mathematical value.
pub struct LiveMessageView {
    pub id: i32,
    pub date: i64,
    pub chat: ChatInfoView,
    pub from: Option<SenderView>,
    pub sender_chat: Option<ChatInfoView>,
    pub via_bot: Option<u64>,
    pub text: Option<Seq<char>>,
    pub caption: Option<Seq<char>>,
}

impl View for LiveMessage {
    type V = LiveMessageView;

    open spec fn view(&self) -> LiveMessageView {
        LiveMessageView {
            id: self.id,
            date: self.date,
            chat: self.chat@,
            from: match self.from {
                Some(u) => Some(u@),
                None => None,
            },
            sender_chat: match self.sender_chat {
                Some(c) => Some(c@),
                None => None,
            },
            via_bot: self.via_bot,
            text: self.text.deep_view(),
            caption: self.caption.deep_view(),
        }
    }
}

/// Who wrote a message, resolved once when the message is normalized.
#[derive(Debug)]
pub enum Author {
    /// Posted on behalf of a chat: the chat's title.
    Chat { title: String },
    /// Posted by a user in a chat.
    User { name: String, chat_title: String },
    /// Posted by an account that has since been deleted, of which an export
    /// keeps only the identifier.
    Deleted { from_id: String, source_name: String },
}

/// An author as a mathematical value.
pub enum AuthorView {
    Chat { title: Seq<char> },
    User { name: Seq<char>, chat_title: Seq<char> },
    Deleted { from_id: Seq<char>, source_name: Seq<char> },
}

impl View for Author {
    type V = AuthorView;

    open spec fn view(&self) -> AuthorView {
        match self {
            Author::Chat { title } => AuthorView::Chat { title: title@ },
            Author::User { name, chat_title } => AuthorView::User {
                name: name@,
                chat_title: chat_title@,
            },
            Author::Deleted { from_id, source_name } => AuthorView::Deleted {
                from_id: from_id@,
                source_name: source_name@,
            },
        }
    }
}

impl AuthorView {
    /// The author as shown to a reader.
    pub open spec fn display(self) -> Seq<char> {
        match self {
            AuthorView::Chat { title } => title,
            AuthorView::User { name, chat_title } => name + "@"@ + chat_title,
            AuthorView::Deleted { from_id, source_name } => "已销号"@ + from_id + "@"@
                + source_name,
        }
    }
}

impl Author {
    /// The author as shown to a reader.
    pub fn display(&self) -> (shown: String)
        ensures
            shown@ == self@.display(),
    {
        match self {
            Author::Chat { title } => title.clone(),
            Author::User { name, chat_title } => {
                let mut shown = name.clone();
                shown.append("@");
                shown.append(chat_title.as_str());
                shown
            },
            Author::Deleted { from_id, source_name } => {
                let mut shown = "已销号".to_owned();
                shown.append(from_id.as_str());
                shown.append("@");
                shown.append(source_name.as_str());
                shown
            },
        }
    }
}

/// The text of a live message: its text, or else its caption.
pub open spec fn live_text(m: LiveMessageView) -> Option<Seq<char>> {
    match m.text {
        Some(t) => Some(t),
        None => m.caption,
    }
}

/// The author of a live message. A chat on whose behalf it was posted comes
/// before the user who sent it; the titles that are needed must be there.
pub open spec fn live_author(m: LiveMessageView) -> Option<AuthorView> {
    match m.sender_chat {
        Some(c) => match c.title {
            Some(title) => Some(AuthorView::Chat { title }),
            None => None,
        },
        None => match (m.from, m.chat.title) {
            (Some(u), Some(chat_title)) => Some(
                AuthorView::User { name: u.full_name(), chat_title },
            ),
            _ => None,
        },
    }
}

/// The canonical message that a live message becomes, or `None` where it is
/// rejected: sent through the bot `bot_id` itself, without text or with empty
/// text, or without an author that can be resolved.
pub open spec fn normalize_live_spec(m: LiveMessageView, bot_id: u64) -> Option<MessageView> {
    if m.via_bot == Some(bot_id) {
        None
    } else {
        match (live_text(m), live_author(m)) {
            (Some(text), Some(author)) => if text.len() == 0 {
                None
            } else {
                Some(
                    MessageView {
                        key: message_key(m.chat.id as int, m.id as int),
                        text,
                        from: author.display(),
                        id: m.id,
                        chat_id: m.chat.id,
                        date: m.date,
                    },
                )
            },
            _ => None,
        }
    }
}

impl LiveMessage {
    /// The text of the message: its text, or else its caption.
    pub fn extract_text(&self) -> (text: Option<String>)
        ensures
            text.deep_view() == live_text(self@),
    {
        match &self.text {
            Some(t) => Some(t.clone()),
            None => match &self.caption {
                Some(c) => Some(c.clone()),
                None => None,
            },
        }
    }

    /// The author of the message, if one can be resolved.
    pub fn resolve_author(&self) -> (author: Option<Author>)
        ensures
            match author {
                Some(a) => live_author(self@) == Some(a@),
                None => live_author(self@) is None,
            },
    {
        match &self.sender_chat {
            Some(c) => match &c.title {
                Some(title) => Some(Author::Chat { title: title.clone() }),
                None => None,
            },
            None => match &self.from {
                Some(u) => match &self.chat.title {
                    Some(chat_title) => Some(
                        Author::User { name: u.full_name(), chat_title: chat_title.clone() },
                    ),
                    None => None,
                },
                None => None,
            },
        }
    }
}

/// Normalizes a live message. The bot's own identifier is `bot_id`.
///
/// Nothing comes out where the message was sent through the bot itself,
/// where its text is missing or empty, or where no author can be resolved.
/// What comes out has the key of its chat and number, and text.
pub fn normalize_live(msg: &LiveMessage, bot_id: u64) -> (out: Option<Message>)
    ensures
        match out {
            Some(m) => normalize_live_spec(msg@, bot_id) == Some(m@),
            None => normalize_live_spec(msg@, bot_id) is None,
        },
        msg@.via_bot == Some(bot_id) ==> out is None,
        live_text(msg@) is None || live_text(msg@) == Some(Seq::<char>::empty()) ==> out is None,
        out matches Some(m) ==> m@.wf(),
{
    match msg.via_bot {
        Some(via) => {
            if via == bot_id {
                return None;
            }
        },
        None => {},
    }
    let text = match msg.extract_text() {
        Some(t) => t,
        None => {
            return None;
        },
    };
    if text.as_str().is_empty() {
        assert(text@ =~= Seq::<char>::empty());
        return None;
    }
    let author = match msg.resolve_author() {
        Some(a) => a,
        None => {
            return None;
        },
    };
    Some(
        Message {
            key: make_key(msg.chat.id, msg.id),
            text,
            from: author.display(),
            id: msg.id,
            chat_id: msg.chat.id,
            date: msg.date,
        },
    )
}

} // verus!
