//! Bulk import: from the export of one chat's history to batches of
//! canonical messages.

use crate::decimal::{
    append_decimal, digit_value, int_decimal, is_digits, lemma_digits_canonical, parse_i64,
    parse_i64_text,
};
use crate::normalize::{normalize_live_spec, Author, AuthorView, LiveMessageView};
use crate::text::{contains_text, occurs_in, same_text};
use crate::types::{date_supported, Message, MessageView, DATE_MAX, DATE_MIN};
use vstd::prelude::*;
use vstd::string::*;

verus! {

/// The number of messages that one write to the store holds at most.
pub const INSERT_BATCH_LIMIT: usize = 2000;

/// One fragment of a message's text.
#[derive(Debug)]
pub struct TextEntity {
    pub text: String,
}

/// One entry of an export.
#[derive(Debug)]
pub struct ExportRecord {
    pub id: i32,
    /// The entry's type; only `message` is imported.
    pub kind: String,
    /// Seconds since 1970-01-01T00:00:00Z, in decimal.
    pub date_unixtime: String,
    /// The author's name, missing where the account was deleted.
    pub from: Option<String>,
    /// The author's stable identifier.
    pub from_id: Option<String>,
    /// The name, with its `@`, of the bot through which the entry was sent.
    pub via_bot: Option<String>,
    pub text_entities: Vec<TextEntity>,
}

/// An exported record as a mathematical value.
pub struct ExportRecordView {
    pub id: i32,
    pub kind: Seq<char>,
    pub date_unixtime: Seq<char>,
    pub from: Option<Seq<char>>,
    pub from_id: Option<Seq<char>>,
    pub via_bot: Option<Seq<char>>,
    pub text_entities: Seq<Seq<char>>,
}

impl View for ExportRecord {
    type V = ExportRecordView;

    open spec fn view(&self) -> ExportRecordView {
        ExportRecordView {
            id: self.id,
            kind: self.kind@,
            date_unixtime: self.date_unixtime@,
            from: self.from.deep_view(),
            from_id: self.from_id.deep_view(),
            via_bot: self.via_bot.deep_view(),
            text_entities: self.text_entities@.map_values(|e: TextEntity| e.text@),
        }
    }
}

/// The export of one chat's history.
#[derive(Debug)]
pub struct ExportChat {
    pub name: String,
    /// The chat's type; it must name a supergroup.
    pub kind: String,
    /// The chat's identifier as the export writes it, without the prefix
    /// that marks a supergroup.
    pub id: i64,
    pub messages: Vec<ExportRecord>,
}

/// An export as a mathematical value.
pub struct ExportChatView {
    pub name: Seq<char>,
    pub kind: Seq<char>,
    pub id: i64,
    pub messages: Seq<ExportRecordView>,
}

impl View for ExportChat {
    type V = ExportChatView;

    open spec fn view(&self) -> ExportChatView {
        ExportChatView {
            name: self.name@,
            kind: self.kind@,
            id: self.id,
            messages: self.messages@.map_values(|r: ExportRecord| r@),
        }
    }
}

/// Why an export cannot be imported.
#[derive(Clone, Copy, Debug, PartialEq, Eq, Structural)]
pub enum ImportError {
    /// The export's type does not name a supergroup.
    NotSupergroup,
    /// The export's identifier is negative, or too large to carry the
    /// supergroup prefix.
    ChatId,
    /// A record's date is no number, or lies outside the calendar.
    Date,
}

/// What becomes of one record of an export.
#[derive(Debug)]
pub enum Normalized {
    /// The record is left out.
    Skip,
    /// The record becomes this message.
    Keep(Message),
    /// The record should become a message and cannot.
    Malformed(ImportError),
}

/// The outcome for one record as a mathematical value.
pub enum NormalizedView {
    Skip,
    Keep(MessageView),
    Malformed(ImportError),
}

impl View for Normalized {
    type V = NormalizedView;

    open spec fn view(&self) -> NormalizedView {
        match self {
            Normalized::Skip => NormalizedView::Skip,
            Normalized::Keep(m) => NormalizedView::Keep(m@),
            Normalized::Malformed(e) => NormalizedView::Malformed(*e),
        }
    }
}

/// The fragments of a text, one after the other.
pub open spec fn concat_all(parts: Seq<Seq<char>>) -> Seq<char>
    decreases parts.len(),
{
    if parts.len() == 0 {
        Seq::empty()
    } else {
        concat_all(parts.drop_last()) + parts.last()
    }
}

/// A supergroup's identifier in decimal: the prefix `-100`, then the
/// identifier as the export writes it.
pub open spec fn supergroup_text(export_id: i64) -> Seq<char> {
    "-100"@ + int_decimal(export_id as int)
}

/// A supergroup's identifier: the number that `supergroup_text` writes.
/// There is none where the export's identifier is negative, or where the
/// number does not fit.
pub open spec fn supergroup_chat_id(export_id: i64) -> Option<i64> {
    parse_i64(supergroup_text(export_id))
}

/// The name under which records name the bot: an `@`, then its username.
pub open spec fn bot_mention(username: Seq<char>) -> Seq<char> {
    "@"@ + username
}

/// The author of an exported record: its name where it has one, else the
/// placeholder for a deleted account; either way with the export's name.
pub open spec fn export_author(
    from: Option<Seq<char>>,
    from_id: Seq<char>,
    source_name: Seq<char>,
) -> AuthorView {
    match from {
        Some(name) => AuthorView::User { name, chat_title: source_name },
        None => AuthorView::Deleted { from_id, source_name },
    }
}

/// The date of a record: the number its text writes, within the calendar.
pub open spec fn export_date(date_unixtime: Seq<char>) -> Option<i64> {
    match parse_i64(date_unixtime) {
        Some(secs) => if date_supported(secs) {
            Some(secs)
        } else {
            None
        },
        None => None,
    }
}

/// What becomes of the record `rec` of the export named `name` with the
/// identifier `export_id`, when the bot is named `mention` in records.
///
/// Left out: a record that is no message, one sent through the bot itself,
/// one without an author's identifier, one without text. Any other becomes
/// a message, unless the chat's identifier or the record's date stands in
/// the way.
pub open spec fn normalize_export_spec(
    name: Seq<char>,
    export_id: i64,
    rec: ExportRecordView,
    mention: Seq<char>,
) -> NormalizedView {
    if rec.kind != "message"@ {
        NormalizedView::Skip
    } else if rec.via_bot == Some(mention) {
        NormalizedView::Skip
    } else if rec.from_id is None {
        NormalizedView::Skip
    } else if concat_all(rec.text_entities).len() == 0 {
        NormalizedView::Skip
    } else if supergroup_chat_id(export_id) is None {
        NormalizedView::Malformed(ImportError::ChatId)
    } else if export_date(rec.date_unixtime) is None {
        NormalizedView::Malformed(ImportError::Date)
    } else {
        NormalizedView::Keep(
            MessageView {
                key: supergroup_text(export_id) + "_"@ + int_decimal(rec.id as int),
                text: concat_all(rec.text_entities),
                from: export_author(rec.from, rec.from_id->0, name).display(),
                id: rec.id,
                chat_id: supergroup_chat_id(export_id)->0,
                date: export_date(rec.date_unixtime)->0,
            },
        )
    }
}

/// The messages that the records `recs` become, in order; or the error of
/// the first record that should become a message and cannot.
pub open spec fn accepted(
    name: Seq<char>,
    export_id: i64,
    recs: Seq<ExportRecordView>,
    mention: Seq<char>,
) -> Result<Seq<MessageView>, ImportError>
    decreases recs.len(),
{
    if recs.len() == 0 {
        Ok(Seq::empty())
    } else {
        match accepted(name, export_id, recs.drop_last(), mention) {
            Err(e) => Err(e),
            Ok(done) => match normalize_export_spec(name, export_id, recs.last(), mention) {
                NormalizedView::Skip => Ok(done),
                NormalizedView::Keep(m) => Ok(done.push(m)),
                NormalizedView::Malformed(e) => Err(e),
            },
        }
    }
}

/// The messages that an export becomes when the bot's username is
/// `username`, or why it cannot be imported.
pub open spec fn import_spec(doc: ExportChatView, username: Seq<char>) -> Result<
    Seq<MessageView>,
    ImportError,
> {
    if !occurs_in("supergroup"@, doc.kind) {
        Err(ImportError::NotSupergroup)
    } else {
        accepted(doc.name, doc.id, doc.messages, bot_mention(username))
    }
}

/// The number of batches that `len` items fill, `size` to a batch.
pub open spec fn chunk_count(len: int, size: int) -> int {
    (len + size - 1) / size
}

/// `s` cut into batches of `size` items, in order; the last one holds what
/// is left, at least one item.
pub open spec fn chunks<T>(s: Seq<T>, size: int) -> Seq<Seq<T>> {
    Seq::new(
        chunk_count(s.len() as int, size) as nat,
        |i: int|
            s.subrange(
                i * size,
                if (i + 1) * size <= s.len() {
                    (i + 1) * size
                } else {
                    s.len() as int
                },
            ),
    )
}

impl DeepView for Message {
    type V = MessageView;

    open spec fn deep_view(&self) -> MessageView {
        self@
    }
}

/// Where the supergroup's identifier exists, its decimal text is the
/// prefixed text itself: a key built from the text is the key of the chat.
pub proof fn lemma_supergroup_text(export_id: i64)
    ensures
        supergroup_chat_id(export_id) matches Some(c) ==> {
            &&& export_id >= 0
            &&& c < 0
            &&& int_decimal(c as int) == supergroup_text(export_id)
        },
{
    reveal_strlit("-100");
    let t = supergroup_text(export_id);
    let body = t.skip(1);
    let rest = int_decimal(export_id as int);
    assert(t[0] == '-');
    assert(body[0] == '1');
    if export_id < 0 {
        assert(rest[0] == '-');
        assert(body[3] == '-');
        assert(digit_value('-') is None);
        assert(!is_digits(body));
    } else if is_digits(body) {
        lemma_digits_canonical(body);
        assert(seq!['-'] + body =~= t);
    }
}

/// A message has one key, however it comes in: the live message and the
/// exported record of the same number in the same supergroup become messages
/// with the same key, the same chat and the same number.
pub proof fn law_live_and_export_agree(
    live: LiveMessageView,
    bot_id: u64,
    name: Seq<char>,
    export_id: i64,
    rec: ExportRecordView,
    mention: Seq<char>,
)
    requires
        supergroup_chat_id(export_id) == Some(live.chat.id),
        rec.id == live.id,
        normalize_live_spec(live, bot_id) is Some,
        normalize_export_spec(name, export_id, rec, mention) is Keep,
    ensures
        ({
            let a = normalize_live_spec(live, bot_id)->0;
            let b = normalize_export_spec(name, export_id, rec, mention)->Keep_0;
            a.key == b.key && a.chat_id == b.chat_id && a.id == b.id
        }),
{
    lemma_supergroup_text(export_id);
}

/// The key, the chat and the number of a normalized message depend on the
/// chat and the number of what came in, and on nothing else: normalizing the
/// same message again, or another copy of it, gives them again.
pub proof fn law_key_is_stable(a: LiveMessageView, bot_a: u64, b: LiveMessageView, bot_b: u64)
    requires
        a.chat.id == b.chat.id,
        a.id == b.id,
        normalize_live_spec(a, bot_a) is Some,
        normalize_live_spec(b, bot_b) is Some,
    ensures
        ({
            let x = normalize_live_spec(a, bot_a)->0;
            let y = normalize_live_spec(b, bot_b)->0;
            x.key == y.key && x.chat_id == y.chat_id && x.id == y.id
        }),
{
}

impl ExportRecord {
    /// The record's text: its fragments, one after the other.
    pub fn text(&self) -> (text: String)
        ensures
            text@ == concat_all(self@.text_entities),
    {
        let mut text = String::new();
        let mut i: usize = 0;
        let ghost parts = self@.text_entities;
        while i < self.text_entities.len()
            invariant
                i <= self.text_entities.len(),
                parts == self@.text_entities,
                parts.len() == self.text_entities.len(),
                text@ == concat_all(parts.take(i as int)),
            decreases self.text_entities.len() - i,
        {
            text.append(self.text_entities[i].text.as_str());
            assert(parts.take(i + 1).drop_last() =~= parts.take(i as int));
            assert(parts.take(i + 1).last() == self.text_entities[i as int].text@);
            i += 1;
        }
        assert(parts.take(i as int) =~= parts);
        text
    }
}

/// The identifier of the supergroup whose export carries `export_id`.
pub fn supergroup_id(export_id: i64) -> (id: Option<i64>)
    ensures
        id == supergroup_chat_id(export_id),
{
    let mut text = "-100".to_owned();
    append_decimal(&mut text, export_id);
    parse_i64_text(text.as_str())
}

fn read_date(date_unixtime: &str) -> (date: Option<i64>)
    ensures
        date == export_date(date_unixtime@),
{
    match parse_i64_text(date_unixtime) {
        Some(secs) => if DATE_MIN <= secs && secs <= DATE_MAX {
            Some(secs)
        } else {
            None
        },
        None => None,
    }
}

fn resolve_export_author(from: &Option<String>, from_id: &str, source_name: &str) -> (author:
    Author)
    ensures
        author@ == export_author(from.deep_view(), from_id@, source_name@),
{
    match from {
        Some(name) => Author::User { name: name.clone(), chat_title: source_name.to_owned() },
        None => Author::Deleted { from_id: from_id.to_owned(), source_name: source_name.to_owned() },
    }
}

/// Normalizes one record of the export `doc`. The bot is named `mention` in
/// records.
///
/// A record sent through the bot itself is left out whatever else it holds,
/// and so is one without text. A record without an author's name is
/// attributed to a deleted account, by its identifier. What is kept has the
/// same key as the live message of the same chat and number.
pub fn normalize_export(doc: &ExportChat, rec: &ExportRecord, mention: &str) -> (out: Normalized)
    ensures
        out@ == normalize_export_spec(doc@.name, doc@.id, rec@, mention@),
        rec@.via_bot == Some(mention@) ==> out is Skip,
        concat_all(rec@.text_entities).len() == 0 ==> out is Skip,
        out matches Normalized::Keep(m) ==> m@.wf() && date_supported(m.date),
        out matches Normalized::Keep(m) ==> (rec@.from is None && rec@.from_id is Some ==> m@.from
            == "已销号"@ + rec@.from_id->0 + "@"@ + doc@.name),
{
    if !same_text(rec.kind.as_str(), "message") {
        return Normalized::Skip;
    }
    match &rec.via_bot {
        Some(via) => {
            if same_text(via.as_str(), mention) {
                return Normalized::Skip;
            }
        },
        None => {},
    }
    let from_id = match &rec.from_id {
        Some(from_id) => from_id,
        None => {
            return Normalized::Skip;
        },
    };
    let text = rec.text();
    if text.as_str().is_empty() {
        return Normalized::Skip;
    }
    let mut key = "-100".to_owned();
    append_decimal(&mut key, doc.id);
    key.append("_");
    append_decimal(&mut key, rec.id as i64);
    let from = resolve_export_author(&rec.from, from_id.as_str(), doc.name.as_str()).display();
    let chat_id = match supergroup_id(doc.id) {
        Some(chat_id) => chat_id,
        None => {
            return Normalized::Malformed(ImportError::ChatId);
        },
    };
    let date = match read_date(rec.date_unixtime.as_str()) {
        Some(date) => date,
        None => {
            return Normalized::Malformed(ImportError::Date);
        },
    };
    proof {
        lemma_supergroup_text(doc.id);
    }
    Normalized::Keep(Message { key, text, from, id: rec.id, chat_id, date })
}

/// Turns an export into the batches to write to the store. The bot's
/// username, without `@`, is `bot_username`.
///
/// An export that does not name a supergroup is refused. Otherwise the
/// records are normalized in order; the first that should become a message
/// and cannot ends the import with its error, and no batch comes out. The
/// messages are cut, in order, into batches of `INSERT_BATCH_LIMIT`; the
/// last batch holds what is left.
pub fn import_batches(doc: &ExportChat, bot_username: &str) -> (out: Result<
    Vec<Vec<Message>>,
    ImportError,
>)
    ensures
        match out {
            Ok(batches) => import_spec(doc@, bot_username@) matches Ok(msgs)
                && batches.deep_view() == chunks(msgs, INSERT_BATCH_LIMIT as int),
            Err(e) => import_spec(doc@, bot_username@) == Err::<Seq<MessageView>, ImportError>(e),
        },
{
    if !contains_text(doc.kind.as_str(), "supergroup") {
        return Err(ImportError::NotSupergroup);
    }
    let mut mention = "@".to_owned();
    mention.append(bot_username);
    let mut batches: Vec<Vec<Message>> = Vec::new();
    let mut current: Vec<Message> = Vec::new();
    let ghost mut msgs: Seq<MessageView> = Seq::empty();
    let ghost recs = doc@.messages;
    let mut i: usize = 0;
    while i < doc.messages.len()
        invariant
            i <= doc.messages.len(),
            recs == doc@.messages,
            recs.len() == doc.messages.len(),
            occurs_in("supergroup"@, doc@.kind),
            mention@ == bot_mention(bot_username@),
            accepted(doc@.name, doc@.id, recs.take(i as int), mention@) == Ok::<
                Seq<MessageView>,
                ImportError,
            >(msgs),
            current.len() < INSERT_BATCH_LIMIT,
            msgs.len() == batches.len() * INSERT_BATCH_LIMIT + current.len(),
            forall|b: int|
                0 <= b < batches.len() ==> (#[trigger] batches[b]).deep_view() == msgs.subrange(
                    b * INSERT_BATCH_LIMIT,
                    (b + 1) * INSERT_BATCH_LIMIT,
                ),
            current.deep_view() == msgs.subrange(
                batches.len() * INSERT_BATCH_LIMIT,
                msgs.len() as int,
            ),
        decreases doc.messages.len() - i,
    {
        assert(recs.take(i + 1).drop_last() =~= recs.take(i as int));
        assert(recs.take(i + 1).last() == doc.messages[i as int]@);
        match normalize_export(doc, &doc.messages[i], mention.as_str()) {
            Normalized::Skip => {},
            Normalized::Malformed(e) => {
                proof {
                    lemma_accepted_error(doc@.name, doc@.id, recs, mention@, i + 1);
                }
                return Err(e);
            },
            Normalized::Keep(m) => {
                let ghost before = msgs;
                let ghost filled = current.deep_view();
                proof {
                    msgs = msgs.push(m@);
                }
                current.push(m);
                assert(current.deep_view() =~= filled.push(m@));
                assert(current.deep_view() =~= msgs.subrange(
                    batches.len() * INSERT_BATCH_LIMIT,
                    msgs.len() as int,
                ));
                assert forall|b: int| 0 <= b < batches.len() implies (#[trigger] batches[b]).deep_view()
                    == msgs.subrange(b * INSERT_BATCH_LIMIT, (b + 1) * INSERT_BATCH_LIMIT) by {
                    assert(before.subrange(b * INSERT_BATCH_LIMIT, (b + 1) * INSERT_BATCH_LIMIT)
                        =~= msgs.subrange(b * INSERT_BATCH_LIMIT, (b + 1) * INSERT_BATCH_LIMIT));
                }
                if current.len() >= INSERT_BATCH_LIMIT {
                    let ghost full = current.deep_view();
                    let ghost sealed = batches@;
                    batches.push(current);
                    current = Vec::new();
                    assert(current.deep_view() =~= msgs.subrange(
                        batches.len() * INSERT_BATCH_LIMIT,
                        msgs.len() as int,
                    ));
                    assert forall|b: int| 0 <= b < batches.len() implies (
                    #[trigger] batches[b]).deep_view() == msgs.subrange(
                        b * INSERT_BATCH_LIMIT,
                        (b + 1) * INSERT_BATCH_LIMIT,
                    ) by {
                        if b < sealed.len() {
                            assert(batches[b] == sealed[b]);
                        }
                    }
                }
            },
        }
        i += 1;
    }
    assert(recs.take(i as int) =~= recs);
    let ghost sealed = batches@;
    let ghost left = current.deep_view();
    if current.len() > 0 {
        batches.push(current);
    }
    assert(batches.deep_view() =~= chunks(msgs, INSERT_BATCH_LIMIT as int)) by {
        assert(batches.deep_view().len() == chunk_count(msgs.len() as int, INSERT_BATCH_LIMIT as int));
        assert forall|b: int| 0 <= b < batches.len() implies #[trigger] batches.deep_view()[b]
            == chunks(msgs, INSERT_BATCH_LIMIT as int)[b] by {
            if b < sealed.len() {
                assert(batches[b] == sealed[b]);
            } else {
                assert(batches[b].deep_view() == left);
            }
        }
    }
    Ok(batches)
}

/// Every batch is full but the last, which holds at least one message: the
/// messages fill as few batches as can hold them.
pub proof fn law_batches_are_full(msgs: Seq<MessageView>, b: int)
    requires
        0 <= b < chunks(msgs, INSERT_BATCH_LIMIT as int).len(),
    ensures
        chunks(msgs, INSERT_BATCH_LIMIT as int).len() == chunk_count(
            msgs.len() as int,
            INSERT_BATCH_LIMIT as int,
        ),
        b + 1 < chunks(msgs, INSERT_BATCH_LIMIT as int).len() ==> chunks(
            msgs,
            INSERT_BATCH_LIMIT as int,
        )[b].len() == INSERT_BATCH_LIMIT,
        b + 1 == chunks(msgs, INSERT_BATCH_LIMIT as int).len() ==> 1 <= chunks(
            msgs,
            INSERT_BATCH_LIMIT as int,
        )[b].len() <= INSERT_BATCH_LIMIT,
        chunks(msgs, INSERT_BATCH_LIMIT as int)[b] == msgs.subrange(
            b * INSERT_BATCH_LIMIT,
            b * INSERT_BATCH_LIMIT + chunks(msgs, INSERT_BATCH_LIMIT as int)[b].len(),
        ),
{
}

/// Once a prefix of the records ends in an error, so does the whole.
pub proof fn lemma_accepted_error(
    name: Seq<char>,
    export_id: i64,
    recs: Seq<ExportRecordView>,
    mention: Seq<char>,
    k: int,
)
    requires
        0 <= k <= recs.len(),
        accepted(name, export_id, recs.take(k), mention) is Err,
    ensures
        accepted(name, export_id, recs, mention) == accepted(name, export_id, recs.take(k), mention),
    decreases recs.len() - k,
{
    if k == recs.len() {
        assert(recs.take(k) =~= recs);
    } else {
        assert(recs.drop_last().take(k) =~= recs.take(k));
        lemma_accepted_error(name, export_id, recs.drop_last(), mention, k);
    }
}

} // verus!
