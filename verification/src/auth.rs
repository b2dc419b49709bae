//! Which chats a user may search: a per-user answer that is computed from
//! live membership and kept for a fixed time.

use crate::membership::Membership;
use crate::types::Chat;
use std::collections::HashMap;
use vstd::prelude::*;

verus! {

broadcast use vstd::std_specs::hash::group_hash_axioms;

/// Seconds for which an answer is kept.
pub const CACHE_TTL_SECS: u64 = 120;

/// One user's answer: the chats the user was found in, and when.
pub struct CacheEntry {
    chats: Vec<Chat>,
    created_at: u64,
}

/// An entry as a mathematical value.
pub struct EntryView {
    pub chats: Seq<Chat>,
    pub created_at: u64,
}

impl View for CacheEntry {
    type V = EntryView;

    closed spec fn view(&self) -> EntryView {
        EntryView { chats: self.chats@, created_at: self.created_at }
    }
}

/// The answers in hand, by user.
pub struct AuthCache {
    entries: HashMap<u64, CacheEntry>,
}

impl View for AuthCache {
    type V = Map<u64, EntryView>;

    closed spec fn view(&self) -> Map<u64, EntryView> {
        self.entries@.map_values(|e: CacheEntry| e@)
    }
}

/// An entry is live until `CACHE_TTL_SECS` seconds after it was made.
pub open spec fn entry_live(entry: EntryView, now: u64) -> bool {
    now < entry.created_at + CACHE_TTL_SECS
}

/// The chats of a scan in which the user is present, in the scan's order.
pub open spec fn authorized(scan: Seq<(Chat, Membership)>) -> Seq<Chat>
    decreases scan.len(),
{
    if scan.len() == 0 {
        Seq::empty()
    } else if scan.last().1.present() {
        authorized(scan.drop_last()).push(scan.last().0)
    } else {
        authorized(scan.drop_last())
    }
}

/// What a lookup for `user` at the time `now` finds: the chats of the
/// user's entry, if there is one and it is live.
pub open spec fn lookup_spec(cache: Map<u64, EntryView>, user: u64, now: u64) -> Option<
    Seq<Chat>,
> {
    if cache.contains_key(user) && entry_live(cache[user], now) {
        Some(cache[user].chats)
    } else {
        None
    }
}

/// The cache after the scan `scan`, made at `now`, was stored for `user`.
pub open spec fn populate_spec(
    cache: Map<u64, EntryView>,
    user: u64,
    scan: Seq<(Chat, Membership)>,
    now: u64,
) -> Map<u64, EntryView> {
    cache.insert(user, EntryView { chats: authorized(scan), created_at: now })
}

/// A chat is authorized by a scan exactly if the scan holds it with an
/// answer that counts as presence.
pub proof fn law_authorized_iff_present(scan: Seq<(Chat, Membership)>, chat: Chat)
    ensures
        authorized(scan).contains(chat) <==> exists|i: int|
            0 <= i < scan.len() && (#[trigger] scan[i]).0 == chat && scan[i].1.present(),
    decreases scan.len(),
{
    if scan.len() > 0 {
        let rest = scan.drop_last();
        law_authorized_iff_present(rest, chat);
        let got = authorized(scan);
        if authorized(rest).contains(chat) {
            let i = choose|i: int| 0 <= i < rest.len() && (#[trigger] rest[i]).0 == chat && rest[i].1.present();
            assert(scan[i] == rest[i]);
            let j = choose|j: int| 0 <= j < authorized(rest).len() && authorized(rest)[j] == chat;
            assert(got[j] == chat);
        }
        if scan.last().1.present() && scan.last().0 == chat {
            assert(got[got.len() - 1] == chat);
            assert(scan[scan.len() - 1].0 == chat);
        }
        if got.contains(chat) && !authorized(rest).contains(chat) {
            let j = choose|j: int| 0 <= j < got.len() && got[j] == chat;
            if j < authorized(rest).len() {
                assert(authorized(rest)[j] == chat);
            }
            assert(scan[scan.len() - 1].0 == chat);
        }
        if exists|i: int| 0 <= i < scan.len() && (#[trigger] scan[i]).0 == chat && scan[i].1.present() {
            let i = choose|i: int| 0 <= i < scan.len() && (#[trigger] scan[i]).0 == chat && scan[i].1.present();
            if i < rest.len() {
                assert(rest[i] == scan[i]);
            }
        }
    }
}

/// An answer is served for `CACHE_TTL_SECS` seconds and not longer: a
/// lookup for the user before that time has passed finds the scan's chats,
/// a lookup at or after it finds nothing, so that a new scan is due. The
/// answers of other users are not touched.
pub proof fn law_cache_ttl(
    cache: Map<u64, EntryView>,
    user: u64,
    scan: Seq<(Chat, Membership)>,
    stored_at: u64,
    now: u64,
    other: u64,
)
    ensures
        now < stored_at + CACHE_TTL_SECS ==> lookup_spec(
            populate_spec(cache, user, scan, stored_at),
            user,
            now,
        ) == Some(authorized(scan)),
        now >= stored_at + CACHE_TTL_SECS ==> lookup_spec(
            populate_spec(cache, user, scan, stored_at),
            user,
            now,
        ) is None,
        other != user ==> lookup_spec(populate_spec(cache, user, scan, stored_at), other, now)
            == lookup_spec(cache, other, now),
        lookup_spec(cache.remove(user), user, now) is None,
{
}

fn copy_chats(chats: &Vec<Chat>) -> (copy: Vec<Chat>)
    ensures
        copy@ == chats@,
{
    let mut copy: Vec<Chat> = Vec::new();
    let mut i: usize = 0;
    while i < chats.len()
        invariant
            i <= chats.len(),
            copy@ == chats@.take(i as int),
        decreases chats.len() - i,
    {
        copy.push(chats[i]);
        assert(chats@.take(i + 1) =~= chats@.take(i as int).push(chats@[i as int]));
        i += 1;
    }
    assert(chats@.take(i as int) =~= chats@);
    copy
}

/// The chats of a membership scan in which the user is present. An answer
/// that reports an error counts as absence.
pub fn authorized_chats(scan: &Vec<(Chat, Membership)>) -> (chats: Vec<Chat>)
    ensures
        chats@ == authorized(scan@),
{
    let mut chats: Vec<Chat> = Vec::new();
    let mut i: usize = 0;
    while i < scan.len()
        invariant
            i <= scan.len(),
            chats@ == authorized(scan@.take(i as int)),
        decreases scan.len() - i,
    {
        assert(scan@.take(i + 1).drop_last() =~= scan@.take(i as int));
        assert(scan@.take(i + 1).last() == scan@[i as int]);
        if scan[i].1.is_present() {
            chats.push(scan[i].0);
        }
        i += 1;
    }
    assert(scan@.take(i as int) =~= scan@);
    chats
}

impl AuthCache {
    /// The cache with no answer in it.
    pub fn new() -> (cache: Self)
        ensures
            cache@ == Map::<u64, EntryView>::empty(),
    {
        let cache = AuthCache { entries: HashMap::new() };
        assert(cache@ =~= Map::<u64, EntryView>::empty());
        cache
    }

    /// The chats that `user` may search, if an answer made less than
    /// `CACHE_TTL_SECS` seconds before `now` is in hand. Nothing is asked
    /// of anyone, and nothing changes.
    pub fn lookup(&self, user: u64, now: u64) -> (chats: Option<Vec<Chat>>)
        ensures
            match chats {
                Some(found) => lookup_spec(self@, user, now) == Some(found@),
                None => lookup_spec(self@, user, now) is None,
            },
    {
        match self.entries.get(&user) {
            Some(entry) => {
                let live = now < entry.created_at || now - entry.created_at < CACHE_TTL_SECS;
                if live {
                    Some(copy_chats(&entry.chats))
                } else {
                    None
                }
            },
            None => None,
        }
    }

    /// Stores the answer for `user` that the scan `scan`, made at `now`,
    /// gives, in place of any earlier one, and returns its chats.
    pub fn populate(&mut self, user: u64, scan: &Vec<(Chat, Membership)>, now: u64) -> (chats: Vec<
        Chat,
    >)
        ensures
            final(self)@ == populate_spec(old(self)@, user, scan@, now),
            chats@ == authorized(scan@),
    {
        let chats = authorized_chats(scan);
        let entry = CacheEntry { chats: copy_chats(&chats), created_at: now };
        self.entries.insert(user, entry);
        assert(self@ =~= populate_spec(old(self)@, user, scan@, now));
        chats
    }

    /// Drops the answer for `user`, whenever it was made. Nothing happens
    /// where there is none.
    pub fn expire(&mut self, user: u64)
        ensures
            final(self)@ == old(self)@.remove(user),
    {
        self.entries.remove(&user);
        assert(self@ =~= old(self)@.remove(user));
    }
}

} // verus!
