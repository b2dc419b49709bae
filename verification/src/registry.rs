//! The chats that have opted into logging.

use crate::types::Chat;
use vstd::prelude::*;

verus! {

/// The set of chats whose messages are logged. A chat is in it from the
/// moment it is enabled until it is disabled; doing either twice changes
/// nothing.
pub struct EnabledChatSet {
    chats: Vec<Chat>,
}

impl View for EnabledChatSet {
    type V = Set<Chat>;

    closed spec fn view(&self) -> Set<Chat> {
        self.chats@.to_set()
    }
}

impl EnabledChatSet {
    /// No chat is held twice.
    pub closed spec fn wf(&self) -> bool {
        self.chats@.no_duplicates()
    }

    /// The registry with no chat in it.
    pub fn new() -> (registry: Self)
        ensures
            registry.wf(),
            registry@ == Set::<Chat>::empty(),
    {
        let registry = EnabledChatSet { chats: Vec::new() };
        assert(registry@ =~= Set::<Chat>::empty());
        registry
    }

    fn position(&self, chat: Chat) -> (at: Option<usize>)
        ensures
            match at {
                Some(i) => i < self.chats.len() && self.chats@[i as int] == chat,
                None => !self.chats@.contains(chat),
            },
    {
        let mut i: usize = 0;
        while i < self.chats.len()
            invariant
                i <= self.chats.len(),
                forall|j: int| 0 <= j < i ==> self.chats@[j] != chat,
            decreases self.chats.len() - i,
        {
            if self.chats[i].id == chat.id {
                return Some(i);
            }
            i += 1;
        }
        None
    }

    /// Whether `chat` is logged.
    pub fn is_enabled(&self, chat: Chat) -> (enabled: bool)
        ensures
            enabled == self@.contains(chat),
    {
        self.position(chat).is_some()
    }

    /// Starts logging `chat`.
    pub fn enable(&mut self, chat: Chat)
        requires
            old(self).wf(),
        ensures
            final(self).wf(),
            final(self)@ == old(self)@.insert(chat),
    {
        if self.position(chat).is_none() {
            let ghost before = self.chats@;
            self.chats.push(chat);
            assert(self.chats@.to_set() =~= before.to_set().insert(chat)) by {
                assert forall|c: Chat| #[trigger]
                    self.chats@.contains(c) <==> before.contains(c) || c == chat by {
                    if before.contains(c) {
                        let j = choose|j: int| 0 <= j < before.len() && before[j] == c;
                        assert(self.chats@[j] == c);
                    }
                    if c == chat {
                        assert(self.chats@[before.len() as int] == c);
                    }
                }
            }
        } else {
            assert(self@ =~= self@.insert(chat));
        }
    }

    /// Stops logging `chat`.
    pub fn disable(&mut self, chat: Chat)
        requires
            old(self).wf(),
        ensures
            final(self).wf(),
            final(self)@ == old(self)@.remove(chat),
    {
        match self.position(chat) {
            Some(i) => {
                let ghost before = self.chats@;
                self.chats.remove(i);
                assert(self.chats@.no_duplicates());
                assert(self.chats@.to_set() =~= before.to_set().remove(chat)) by {
                    assert forall|c: Chat| #[trigger]
                        self.chats@.contains(c) <==> before.contains(c) && c != chat by {
                        if self.chats@.contains(c) {
                            let j = choose|j: int| 0 <= j < self.chats@.len() && self.chats@[j] == c;
                            if j < i {
                                assert(before[j] == c);
                            } else {
                                assert(before[j + 1] == c);
                            }
                        }
                        if before.contains(c) && c != chat {
                            let j = choose|j: int| 0 <= j < before.len() && before[j] == c;
                            if j < i {
                                assert(self.chats@[j] == c);
                            } else {
                                assert(self.chats@[j - 1] == c);
                            }
                        }
                    }
                }
            },
            None => {
                assert(self@ =~= self@.remove(chat));
            },
        }
    }

    /// The chats that are logged, each once.
    pub fn list_enabled(&self) -> (chats: Vec<Chat>)
        requires
            self.wf(),
        ensures
            chats@.no_duplicates(),
            chats@.to_set() == self@,
    {
        let mut chats: Vec<Chat> = Vec::new();
        let mut i: usize = 0;
        while i < self.chats.len()
            invariant
                i <= self.chats.len(),
                chats@ == self.chats@.take(i as int),
            decreases self.chats.len() - i,
        {
            chats.push(self.chats[i]);
            assert(self.chats@.take(i + 1) =~= self.chats@.take(i as int).push(self.chats@[i as int]));
            i += 1;
        }
        assert(self.chats@.take(i as int) =~= self.chats@);
        chats
    }
}

} // verus!
