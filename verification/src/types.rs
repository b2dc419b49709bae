//! The canonical message, the chat it belongs to, and what is derived from
//! them for display.

use crate::decimal::{
    append_decimal, decimal_string, digit_value, int_decimal, lemma_decimal_injective,
    lemma_decimal_roundtrip,
};
use vstd::prelude::*;
use vstd::std_specs::convert::FromSpecImpl;
use vstd::string::*;

verus! {

/// A group that can be logged and searched, known by its identifier.
#[derive(Clone, Copy, Debug, PartialEq, Eq, Hash, Structural)]
pub struct Chat {
    pub id: i64,
}

impl From<i64> for Chat {
    fn from(id: i64) -> (chat: Chat) {
        Chat { id }
    }
}

impl FromSpecImpl<i64> for Chat {
    open spec fn obeys_from_spec() -> bool {
        true
    }

    open spec fn from_spec(id: i64) -> Chat {
        Chat { id }
    }
}

/// A message as it is stored and indexed, whatever its origin.
#[derive(Debug)]
pub struct Message {
    /// The identity under which the store keeps the message.
    pub key: String,
    /// The text that is searched.
    pub text: String,
    /// Who wrote it, as shown to a reader.
    pub from: String,
    /// The message's number within its chat.
    pub id: i32,
    /// The chat that holds it.
    pub chat_id: i64,
    /// When it was written: seconds since 1970-01-01T00:00:00Z.
    pub date: i64,
}

/// A message as a mathematical value.
pub struct MessageView {
    pub key: Seq<char>,
    pub text: Seq<char>,
    pub from: Seq<char>,
    pub id: i32,
    pub chat_id: i64,
    pub date: i64,
}

impl View for Message {
    type V = MessageView;

    open spec fn view(&self) -> MessageView {
        MessageView {
            key: self.key@,
            text: self.text@,
            from: self.from@,
            id: self.id,
            chat_id: self.chat_id,
            date: self.date,
        }
    }
}

/// The key of the message `id` of the chat `chat_id`: both numbers in
/// decimal, joined by an underscore.
pub open spec fn message_key(chat_id: int, id: int) -> Seq<char> {
    int_decimal(chat_id) + "_"@ + int_decimal(id)
}

impl MessageView {
    /// What holds of every message that goes into the store: its key is the
    /// one derived from its chat and number, and it has text.
    pub open spec fn wf(self) -> bool {
        &&& self.key == message_key(self.chat_id as int, self.id as int)
        &&& self.text.len() > 0
    }
}

/// Keys do not collide: two messages with the same key are the same
/// message of the same chat.
pub proof fn law_key_identifies(chat_a: int, id_a: int, chat_b: int, id_b: int)
    requires
        message_key(chat_a, id_a) == message_key(chat_b, id_b),
    ensures
        chat_a == chat_b,
        id_a == id_b,
{
    reveal_strlit("_");
    let a = int_decimal(chat_a);
    let b = int_decimal(chat_b);
    let x = int_decimal(id_a);
    let y = int_decimal(id_b);
    let key = message_key(chat_a, id_a);
    lemma_decimal_roundtrip(chat_a);
    lemma_decimal_roundtrip(chat_b);
    assert(digit_value('_') is None);
    if a.len() < b.len() {
        assert(key[a.len() as int] == '_');
        assert(message_key(chat_b, id_b)[a.len() as int] == b[a.len() as int]);
        assert(digit_value(b[a.len() as int]) is Some || b[a.len() as int] == '-');
        assert(false);
    }
    if b.len() < a.len() {
        assert(message_key(chat_b, id_b)[b.len() as int] == '_');
        assert(key[b.len() as int] == a[b.len() as int]);
        assert(digit_value(a[b.len() as int]) is Some || a[b.len() as int] == '-');
        assert(false);
    }
    assert(a =~= b) by {
        assert forall|i: int| 0 <= i < a.len() implies a[i] == b[i] by {
            assert(key[i] == a[i]);
            assert(message_key(chat_b, id_b)[i] == b[i]);
        }
    }
    assert(x =~= y) by {
        assert(a.len() == b.len());
        assert("_"@.len() == 1);
        assert(key.len() == a.len() + 1 + x.len());
        assert(message_key(chat_b, id_b).len() == b.len() + 1 + y.len());
        assert forall|i: int| 0 <= i < x.len() implies x[i] == y[i] by {
            assert(key[a.len() + 1 + i] == x[i]);
            assert(message_key(chat_b, id_b)[b.len() + 1 + i] == y[i]);
        }
    }
    lemma_decimal_injective(chat_a, chat_b);
    lemma_decimal_injective(id_a, id_b);
}

/// A permalink can be made for a chat whose identifier has four characters
/// or more in decimal: the first four are cut off.
pub open spec fn link_defined(chat_id: int) -> bool {
    int_decimal(chat_id).len() >= 4
}

/// The permalink of the message `id` of the chat `chat_id`.
pub open spec fn link_text(chat_id: int, id: int) -> Seq<char> {
    "https://t.me/c/"@ + int_decimal(chat_id).skip(4) + "/"@ + int_decimal(id)
}

/// The first and the last second that the calendar behind `format_time` can
/// hold: the start of the year -262143 and the end of the year 262142.
pub const DATE_MIN: i64 = -8_334_601_228_800;

/// See `DATE_MIN`.
pub const DATE_MAX: i64 = 8_210_266_876_799;

/// The instant `secs` lies within the calendar's range.
pub open spec fn date_supported(secs: i64) -> bool {
    DATE_MIN <= secs <= DATE_MAX
}

/// A distance from UTC of less than one day, in seconds, east positive.
pub open spec fn offset_supported(utc_offset_secs: i32) -> bool {
    -86_400 < utc_offset_secs < 86_400
}

/// The calendar date, written as year, month and day with hyphens between,
/// that a clock `utc_offset_secs` east of UTC shows at the instant `secs`.
pub uninterp spec fn local_date_text(secs: i64, utc_offset_secs: i32) -> Seq<char>;

/// Calls chrono's `DateTime::format` with the pattern `%Y-%m-%d`, on the
/// instant that `DateTime::from_timestamp` makes of `secs`, moved by
/// `DateTime::with_timezone` to the offset that `FixedOffset::east_opt`
/// makes of `utc_offset_secs`. Trusted: that the text depends on these two
/// numbers alone, and that the two conditions are those under which
/// `from_timestamp` and `east_opt` return a value.
#[verifier::external_body]
fn format_local_date(secs: i64, utc_offset_secs: i32) -> (s: String)
    requires
        date_supported(secs),
        offset_supported(utc_offset_secs),
    ensures
        s@ == local_date_text(secs, utc_offset_secs),
{
    let utc = chrono::DateTime::from_timestamp(secs, 0).unwrap();
    let zone = chrono::FixedOffset::east_opt(utc_offset_secs).unwrap();
    utc.with_timezone(&zone).format("%Y-%m-%d").to_string()
}

/// Builds the key of the message `id` of the chat `chat_id`.
pub fn make_key(chat_id: i64, id: i32) -> (key: String)
    ensures
        key@ == message_key(chat_id as int, id as int),
{
    let mut key = decimal_string(chat_id);
    key.append("_");
    append_decimal(&mut key, id as i64);
    key
}

impl Message {
    /// Whether the date can be shown.
    pub fn has_date(&self) -> (b: bool)
        ensures
            b == date_supported(self.date),
    {
        DATE_MIN <= self.date && self.date <= DATE_MAX
    }

    /// The day on which the message was written, as a clock
    /// `utc_offset_secs` east of UTC showed it.
    pub fn format_time(&self, utc_offset_secs: i32) -> (s: String)
        requires
            date_supported(self.date),
            offset_supported(utc_offset_secs),
        ensures
            s@ == local_date_text(self.date, utc_offset_secs),
    {
        format_local_date(self.date, utc_offset_secs)
    }

    /// Whether a permalink can be made for the message.
    pub fn has_link(&self) -> (b: bool)
        ensures
            b == link_defined(self.chat_id as int),
    {
        decimal_string(self.chat_id).as_str().unicode_len() >= 4
    }

    /// The address under which the message can be opened: the chat's
    /// identifier without its first four characters, then the message's
    /// number.
    pub fn link(&self) -> (s: String)
        requires
            link_defined(self.chat_id as int),
        ensures
            s@ == link_text(self.chat_id as int, self.id as int),
    {
        let chat = decimal_string(self.chat_id);
        let n = chat.as_str().unicode_len();
        let short = chat.as_str().substring_char(4, n);
        assert(short@ =~= int_decimal(self.chat_id as int).skip(4));
        let mut s = "https://t.me/c/".to_owned();
        s.append(short);
        s.append("/");
        append_decimal(&mut s, self.id as i64);
        s
    }
}

} // verus!
