//! Search results: which of them a user may see, and how each is shown.

use crate::decimal::{append_decimal, int_decimal};
use crate::html::{encode_text, escape_text};
use crate::types::{
    date_supported, link_defined, link_text, local_date_text, offset_supported, Chat, Message,
    MessageView,
};
use vstd::prelude::*;
use vstd::string::*;

verus! {

/// One result of a search: a stored message, and the text in which the
/// engine has marked what matched.
#[derive(Debug)]
pub struct Hit {
    pub message: Message,
    pub formatted_text: String,
}

/// A hit as a mathematical value.
pub struct HitView {
    pub message: MessageView,
    pub formatted_text: Seq<char>,
}

impl View for Hit {
    type V = HitView;

    open spec fn view(&self) -> HitView {
        HitView { message: self.message@, formatted_text: self.formatted_text@ }
    }
}

impl DeepView for Hit {
    type V = HitView;

    open spec fn deep_view(&self) -> HitView {
        self@
    }
}

/// One result as it is presented to the user.
#[derive(Debug)]
pub struct Article {
    /// The identity of the result: the message's key.
    pub id: String,
    /// The engine's marked text.
    pub title: String,
    /// Author and day.
    pub description: String,
    /// What is sent when the user picks the result, as HTML.
    pub html: String,
}

/// A shown result as a mathematical value.
pub struct ArticleView {
    pub id: Seq<char>,
    pub title: Seq<char>,
    pub description: Seq<char>,
    pub html: Seq<char>,
}

impl View for Article {
    type V = ArticleView;

    open spec fn view(&self) -> ArticleView {
        ArticleView {
            id: self.id@,
            title: self.title@,
            description: self.description@,
            html: self.html@,
        }
    }
}

impl DeepView for Article {
    type V = ArticleView;

    open spec fn deep_view(&self) -> ArticleView {
        self@
    }
}

/// The chat that a hit belongs to.
pub open spec fn hit_chat(hit: HitView) -> Chat {
    Chat { id: hit.message.chat_id }
}

/// The hits that lie in one of the chats `allowed`, in their order.
pub open spec fn allowed_hits(hits: Seq<HitView>, allowed: Seq<Chat>) -> Seq<HitView>
    decreases hits.len(),
{
    if hits.len() == 0 {
        Seq::empty()
    } else if allowed.contains(hit_chat(hits.last())) {
        allowed_hits(hits.drop_last(), allowed).push(hits.last())
    } else {
        allowed_hits(hits.drop_last(), allowed)
    }
}

/// A message can be shown: it has a permalink, and its date lies within
/// the calendar.
pub open spec fn renderable(m: MessageView) -> bool {
    link_defined(m.chat_id as int) && date_supported(m.date)
}

/// How a hit is shown when its day is written `day`: the key as identity,
/// the marked text as title, author and day as byline, and as body the
/// escaped text with the escaped author as a link to the message.
pub open spec fn article_of(hit: HitView, day: Seq<char>) -> ArticleView {
    ArticleView {
        id: hit.message.key,
        title: hit.formatted_text,
        description: hit.message.from + "@"@ + day,
        html: "「 "@ + escape_text(hit.message.text) + " 」 from <a href=\""@ + link_text(
            hit.message.chat_id as int,
            hit.message.id as int,
        ) + "\">"@ + escape_text(hit.message.from) + "</a>"@,
    }
}

/// How a hit is shown where the local clock is `utc_offset_secs` east of
/// UTC: with the day that this clock showed when the message was written.
pub open spec fn render_spec(hit: HitView, utc_offset_secs: i32) -> ArticleView {
    article_of(hit, local_date_text(hit.message.date, utc_offset_secs))
}

/// The hits `hits`, each as it is shown.
pub open spec fn render_all(hits: Seq<HitView>, utc_offset_secs: i32) -> Seq<ArticleView> {
    hits.map_values(|h: HitView| render_spec(h, utc_offset_secs))
}

/// No hit from a chat outside `allowed` is among the allowed hits, and no
/// hit from a chat in `allowed` is missing: a hit is among them exactly if
/// it is one of the hits and its chat is allowed.
pub proof fn law_only_allowed_hits(hits: Seq<HitView>, allowed: Seq<Chat>, hit: HitView)
    ensures
        allowed_hits(hits, allowed).contains(hit) <==> hits.contains(hit) && allowed.contains(
            hit_chat(hit),
        ),
        allowed.len() == 0 ==> allowed_hits(hits, allowed).len() == 0,
    decreases hits.len(),
{
    if hits.len() > 0 {
        let rest = hits.drop_last();
        let kept = allowed_hits(rest, allowed);
        let got = allowed_hits(hits, allowed);
        law_only_allowed_hits(rest, allowed, hit);
        if kept.contains(hit) {
            let j = choose|j: int| 0 <= j < kept.len() && kept[j] == hit;
            assert(got[j] == hit);
            let i = choose|i: int| 0 <= i < rest.len() && rest[i] == hit;
            assert(hits[i] == hit);
        }
        if got.contains(hit) && !kept.contains(hit) {
            let j = choose|j: int| 0 <= j < got.len() && got[j] == hit;
            if j < kept.len() {
                assert(kept[j] == hit);
            }
            assert(hits[hits.len() - 1] == hit);
        }
        if hits.contains(hit) && allowed.contains(hit_chat(hit)) {
            let i = choose|i: int| 0 <= i < hits.len() && hits[i] == hit;
            if i < rest.len() {
                assert(rest[i] == hit);
            } else {
                assert(got[got.len() - 1] == hit);
            }
        }
    }
}

/// The identifiers of `chats` in decimal, in order, with a comma and a
/// space between each two.
pub open spec fn id_list(chats: Seq<Chat>) -> Seq<char>
    decreases chats.len(),
{
    if chats.len() == 0 {
        Seq::empty()
    } else if chats.len() == 1 {
        int_decimal(chats[0].id as int)
    } else {
        id_list(chats.drop_last()) + ", "@ + int_decimal(chats.last().id as int)
    }
}

/// The condition that a stored message lies in one of the chats `allowed`,
/// as the search engine reads it.
pub open spec fn chat_filter_spec(allowed: Seq<Chat>) -> Seq<char> {
    "chat_id IN ["@ + id_list(allowed) + "]"@
}

/// The filter to search with on behalf of a user who may read the chats
/// `allowed`. There is always a filter: with no chat allowed it names no
/// chat, and so admits no message.
pub fn chat_filter(allowed: &Vec<Chat>) -> (filter: String)
    ensures
        filter@ == chat_filter_spec(allowed@),
{
    let mut filter = "chat_id IN [".to_owned();
    let ghost head = filter@;
    let mut i: usize = 0;
    while i < allowed.len()
        invariant
            i <= allowed.len(),
            head == "chat_id IN ["@,
            filter@ == head + id_list(allowed@.take(i as int)),
        decreases allowed.len() - i,
    {
        let ghost done = allowed@.take(i as int);
        let ghost next = allowed@.take(i + 1);
        assert(next.drop_last() =~= done);
        assert(next.last() == allowed@[i as int]);
        if i > 0 {
            filter.append(", ");
        }
        append_decimal(&mut filter, allowed[i].id);
        assert(filter@ =~= head + id_list(next));
        i += 1;
    }
    assert(allowed@.take(i as int) =~= allowed@);
    filter.append("]");
    filter
}

fn chat_allowed(allowed: &Vec<Chat>, chat_id: i64) -> (found: bool)
    ensures
        found == allowed@.contains(Chat { id: chat_id }),
{
    let mut i: usize = 0;
    while i < allowed.len()
        invariant
            i <= allowed.len(),
            forall|j: int| 0 <= j < i ==> allowed@[j] != (Chat { id: chat_id }),
        decreases allowed.len() - i,
    {
        if allowed[i].id == chat_id {
            return true;
        }
        i += 1;
    }
    false
}

impl Hit {
    /// Whether the hit can be shown.
    pub fn is_renderable(&self) -> (b: bool)
        ensures
            b == renderable(self@.message),
    {
        self.message.has_link() && self.message.has_date()
    }
}

/// Keeps the hits that lie in one of the chats `allowed`, in their order.
/// With no chat allowed, no hit is kept.
pub fn retain_allowed(hits: Vec<Hit>, allowed: &Vec<Chat>) -> (kept: Vec<Hit>)
    ensures
        kept.deep_view() == allowed_hits(hits.deep_view(), allowed@),
{
    let ghost all = hits.deep_view();
    let ghost items = hits@;
    let mut kept: Vec<Hit> = Vec::new();
    for hit in it: hits
        invariant
            it.seq() == items,
            all.len() == items.len(),
            forall|i: int| 0 <= i < items.len() ==> (#[trigger] items[i])@ == all[i],
            kept.deep_view() == allowed_hits(all.take(it.index()), allowed@),
    {
        let ghost before = kept.deep_view();
        assert(all.take(it.index() + 1).drop_last() =~= all.take(it.index()));
        assert(all.take(it.index() + 1).last() == hit@);
        if chat_allowed(allowed, hit.message.chat_id) {
            kept.push(hit);
            assert(kept.deep_view() =~= before.push(hit@));
        }
    }
    assert(all.take(items.len() as int) =~= all);
    kept
}

/// Shows one hit whose day is written `day`.
pub fn render_with_day(hit: &Hit, day: &str) -> (article: Article)
    requires
        link_defined(hit@.message.chat_id as int),
    ensures
        article@ == article_of(hit@, day@),
{
    let message = &hit.message;
    let mut description = message.from.clone();
    description.append("@");
    description.append(day);
    let mut html = "「 ".to_owned();
    html.append(encode_text(message.text.as_str()).as_str());
    html.append(" 」 from <a href=\"");
    html.append(message.link().as_str());
    html.append("\">");
    html.append(encode_text(message.from.as_str()).as_str());
    html.append("</a>");
    Article { id: message.key.clone(), title: hit.formatted_text.clone(), description, html }
}

/// Shows one hit where the local clock is `utc_offset_secs` east of UTC.
pub fn render_hit(hit: &Hit, utc_offset_secs: i32) -> (article: Article)
    requires
        renderable(hit@.message),
        offset_supported(utc_offset_secs),
    ensures
        article@ == render_spec(hit@, utc_offset_secs),
{
    let day = hit.message.format_time(utc_offset_secs);
    render_with_day(hit, day.as_str())
}

/// Shows the hits that lie in one of the chats `allowed`, in their order,
/// and no other.
pub fn render_results(hits: &Vec<Hit>, allowed: &Vec<Chat>, utc_offset_secs: i32) -> (articles:
    Vec<Article>)
    requires
        offset_supported(utc_offset_secs),
        forall|i: int|
            0 <= i < hits.len() && allowed@.contains(hit_chat((#[trigger] hits[i])@))
                ==> renderable(hits[i]@.message),
    ensures
        articles.deep_view() == render_all(
            allowed_hits(hits.deep_view(), allowed@),
            utc_offset_secs,
        ),
{
    let ghost all = hits.deep_view();
    let mut articles: Vec<Article> = Vec::new();
    let mut i: usize = 0;
    while i < hits.len()
        invariant
            i <= hits.len(),
            all == hits.deep_view(),
            offset_supported(utc_offset_secs),
            forall|i: int|
                0 <= i < hits.len() && allowed@.contains(hit_chat((#[trigger] hits[i])@))
                    ==> renderable(hits[i]@.message),
            articles.deep_view() == render_all(
                allowed_hits(all.take(i as int), allowed@),
                utc_offset_secs,
            ),
        decreases hits.len() - i,
    {
        let ghost before = articles.deep_view();
        assert(all.take(i + 1).drop_last() =~= all.take(i as int));
        assert(all.take(i + 1).last() == hits[i as int]@);
        if chat_allowed(allowed, hits[i].message.chat_id) {
            let article = render_hit(&hits[i], utc_offset_secs);
            articles.push(article);
            assert(articles.deep_view() =~= before.push(render_spec(hits[i as int]@, utc_offset_secs)));
            assert(articles.deep_view() =~= render_all(
                allowed_hits(all.take(i + 1), allowed@),
                utc_offset_secs,
            ));
        }
        i += 1;
    }
    assert(all.take(i as int) =~= all);
    articles
}

} // verus!
