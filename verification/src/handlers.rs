//! What the bot decides on each event. The decisions are taken here; the
//! caller talks to the platform and to the store, and comes back with what
//! they answered.

use crate::auth::{authorized, lookup_spec, populate_spec, AuthCache, CACHE_TTL_SECS};
use crate::membership::Membership;
use crate::normalize::{normalize_live, normalize_live_spec, LiveMessage, LiveMessageView};
use crate::registry::EnabledChatSet;
use crate::search::{
    allowed_hits, hit_chat, render_all, render_results, renderable, Article, Hit,
};
use crate::types::{offset_supported, Chat, Message};
use vstd::prelude::*;

verus! {

/// The commands that the bot understands.
#[derive(Clone, Copy, Debug, PartialEq, Eq, Structural)]
pub enum Command {
    /// Show the list of commands.
    Help,
    /// Start to log the chat. Only for privileged members.
    Start,
    /// Stop logging the chat. Only for privileged members.
    Stop,
}

/// What happened around a command.
#[derive(Clone, Copy, Debug)]
pub enum CommandEvent {
    /// The command arrived in `chat`, from `sender` if the platform names
    /// one.
    Received { command: Command, chat: Chat, sender: Option<u64> },
    /// The membership service has answered for the sender of the command.
    Answered { command: Command, chat: Chat, membership: Membership },
}

/// What is to be done about a command.
#[derive(Clone, Copy, Debug, PartialEq, Eq, Structural)]
pub enum CommandAction {
    /// Nothing, and nothing is said.
    Nothing,
    /// Reply with the list of commands.
    SendHelp,
    /// Ask the membership service about `user` in `chat`, and come back
    /// with the answer.
    CheckMembership { chat: Chat, user: u64 },
    /// Put `chat` into the registry.
    EnableChat { chat: Chat },
    /// Take `chat` out of the registry.
    DisableChat { chat: Chat },
}

/// The action that follows a command event. `help` is answered at once;
/// `start` and `stop` first need the sender's membership, and change the
/// registry only for a privileged sender.
pub open spec fn command_spec(event: CommandEvent) -> CommandAction {
    match event {
        CommandEvent::Received { command, chat, sender } => match command {
            Command::Help => CommandAction::SendHelp,
            _ => match sender {
                Some(user) => CommandAction::CheckMembership { chat, user },
                None => CommandAction::Nothing,
            },
        },
        CommandEvent::Answered { command, chat, membership } => if !membership.privileged() {
            CommandAction::Nothing
        } else {
            match command {
                Command::Help => CommandAction::Nothing,
                Command::Start => CommandAction::EnableChat { chat },
                Command::Stop => CommandAction::DisableChat { chat },
            }
        },
    }
}

/// Decides what to do about a command event.
pub fn command_handler(event: CommandEvent) -> (action: CommandAction)
    ensures
        action == command_spec(event),
{
    match event {
        CommandEvent::Received { command, chat, sender } => match command {
            Command::Help => CommandAction::SendHelp,
            _ => match sender {
                Some(user) => CommandAction::CheckMembership { chat, user },
                None => CommandAction::Nothing,
            },
        },
        CommandEvent::Answered { command, chat, membership } => {
            if !membership.is_privileged() {
                return CommandAction::Nothing;
            }
            match command {
                Command::Help => CommandAction::Nothing,
                Command::Start => CommandAction::EnableChat { chat },
                Command::Stop => CommandAction::DisableChat { chat },
            }
        },
    }
}

/// A live message is a candidate for the store: it comes from a
/// supergroup, was not sent through the bot `bot_id` itself nor by a bot,
/// has text or a caption, and its text is no command.
pub open spec fn should_store(m: LiveMessageView, bot_id: u64, text_is_command: bool) -> bool {
    &&& m.chat.is_supergroup
    &&& m.via_bot != Some(bot_id)
    &&& !(m.from matches Some(u) && u.is_bot)
    &&& (m.text is Some || m.caption is Some)
    &&& !(m.text is Some && text_is_command)
}

/// Decides whether a live message goes on to be stored. `text_is_command`
/// says whether its text, if it has one, reads as a command to the bot.
pub fn message_handler(msg: &LiveMessage, bot_id: u64, text_is_command: bool) -> (store: bool)
    ensures
        store == should_store(msg@, bot_id, text_is_command),
{
    if !msg.chat.is_supergroup {
        return false;
    }
    match msg.via_bot {
        Some(via) => {
            if via == bot_id {
                return false;
            }
        },
        None => {},
    }
    match &msg.from {
        Some(user) => {
            if user.is_bot {
                return false;
            }
        },
        None => {},
    }
    if msg.text.is_none() && msg.caption.is_none() {
        return false;
    }
    match &msg.text {
        Some(_) => !text_is_command,
        None => true,
    }
}

/// The write that a live message leads to: the normalized message, where
/// its chat is in the registry and the message is not rejected; else none.
pub open spec fn live_write_spec(m: LiveMessageView, bot_id: u64, enabled: Set<Chat>) -> Option<
    crate::types::MessageView,
> {
    if enabled.contains(Chat { id: m.chat.id }) {
        normalize_live_spec(m, bot_id)
    } else {
        None
    }
}

/// Decides what a live message writes to the store: one message, or
/// nothing. A message from a chat that is not in the registry writes
/// nothing.
pub fn normal_message_handler(msg: &LiveMessage, bot_id: u64, registry: &EnabledChatSet) -> (write:
    Option<Message>)
    ensures
        match write {
            Some(m) => live_write_spec(msg@, bot_id, registry@) == Some(m@),
            None => live_write_spec(msg@, bot_id, registry@) is None,
        },
        !registry@.contains(Chat { id: msg@.chat.id }) ==> write is None,
        write matches Some(m) ==> m@.wf(),
{
    if !registry.is_enabled(Chat { id: msg.chat.id }) {
        return None;
    }
    normalize_live(msg, bot_id)
}

/// What happened around a search.
#[derive(Debug)]
pub enum InlineEvent {
    /// `user` has asked, at the time `now`.
    Query { user: u64, now: u64 },
    /// The membership service has answered for `user` in every chat of the
    /// registry, at the time `now`.
    Scanned { user: u64, now: u64, scan: Vec<(Chat, Membership)> },
    /// The store has answered the search that was filtered by `allowed`.
    /// The local clock is `utc_offset_secs` east of UTC.
    Found { allowed: Vec<Chat>, hits: Vec<Hit>, utc_offset_secs: i32 },
    /// The time of the answer kept for `user` is up.
    Expired { user: u64 },
}

/// What is to be done about a search.
#[derive(Debug)]
pub enum InlineAction {
    /// Nothing.
    Nothing,
    /// Ask the membership service about `user` in every chat of the
    /// registry, and come back with `Scanned`.
    Scan { user: u64 },
    /// Search the store for messages of the chats `allowed` only, and come
    /// back with `Found`. Where `expire_after_secs` is set, also come back
    /// with `Expired` after that many seconds.
    Search { allowed: Vec<Chat>, expire_after_secs: Option<u64> },
    /// Answer the user with these results.
    Answer { articles: Vec<Article> },
}

/// Decides what to do about a search event, and keeps the cache.
///
/// A query is answered from the cache while the user's entry is live, and
/// else leads to a scan. A scan is stored, searched with, and set to expire.
/// What the store found is shown, but for hits outside the allowed chats.
/// An expiry drops the user's entry, whenever it was made.
pub fn inline_handler(cache: &mut AuthCache, event: InlineEvent) -> (action: InlineAction)
    requires
        event matches InlineEvent::Found { allowed, hits, utc_offset_secs } ==> {
            &&& offset_supported(utc_offset_secs)
            &&& forall|i: int|
                0 <= i < hits.len() && allowed@.contains(hit_chat((#[trigger] hits[i])@))
                    ==> renderable(hits[i]@.message)
        },
    ensures
        match event {
            InlineEvent::Query { user, now } => {
                &&& final(cache)@ == old(cache)@
                &&& match lookup_spec(old(cache)@, user, now) {
                    Some(chats) => action matches InlineAction::Search {
                        allowed,
                        expire_after_secs,
                    } && allowed@ == chats && expire_after_secs is None,
                    None => action matches InlineAction::Scan { user: asked } && asked == user,
                }
            },
            InlineEvent::Scanned { user, now, scan } => {
                &&& final(cache)@ == populate_spec(old(cache)@, user, scan@, now)
                &&& action matches InlineAction::Search { allowed, expire_after_secs }
                &&& allowed@ == authorized(scan@)
                &&& expire_after_secs == Some(CACHE_TTL_SECS)
            },
            InlineEvent::Found { allowed, hits, utc_offset_secs } => {
                &&& final(cache)@ == old(cache)@
                &&& action matches InlineAction::Answer { articles }
                &&& articles.deep_view() == render_all(
                    allowed_hits(hits.deep_view(), allowed@),
                    utc_offset_secs,
                )
            },
            InlineEvent::Expired { user } => {
                &&& final(cache)@ == old(cache)@.remove(user)
                &&& action is Nothing
            },
        },
{
    match event {
        InlineEvent::Query { user, now } => match cache.lookup(user, now) {
            Some(allowed) => InlineAction::Search { allowed, expire_after_secs: None },
            None => InlineAction::Scan { user },
        },
        InlineEvent::Scanned { user, now, scan } => {
            let allowed = cache.populate(user, &scan, now);
            InlineAction::Search { allowed, expire_after_secs: Some(CACHE_TTL_SECS) }
        },
        InlineEvent::Found { allowed, hits, utc_offset_secs } => {
            let articles = render_results(&hits, &allowed, utc_offset_secs);
            InlineAction::Answer { articles }
        },
        InlineEvent::Expired { user } => {
            cache.expire(user);
            InlineAction::Nothing
        },
    }
}

} // verus!
