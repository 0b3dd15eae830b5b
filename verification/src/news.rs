//! The news monitor: headlines read from RSS feeds, and when a change of the
//! top headline is announced.
use vstd::prelude::*;
use crate::text::concat_text;

verus! {

/// What rss's `Channel::read_from` reads from the document `bytes`: `None`
/// where it is refused, else the title of each item, in order.
pub uninterp spec fn rss_item_titles(bytes: Seq<u8>) -> Option<Seq<Option<Seq<char>>>>;

/// rss's `Channel::read_from` on `bytes`, giving the title (`Item::title`) of
/// each of its items (`Channel::items`), or `None` where parsing fails.
#[verifier::external_body]
fn read_item_titles(bytes: &[u8]) -> (titles: Option<Vec<Option<String>>>)
    ensures
        titles.deep_view() == rss_item_titles(bytes@),
{
    match rss::Channel::read_from(bytes) {
        Ok(channel) => Some(channel.items().iter().map(|i| i.title().map(|t| t.to_string())).collect()),
        Err(_) => None,
    }
}

/// The titles that are present, in order.
pub open spec fn present_titles(titles: Seq<Option<Seq<char>>>) -> Seq<Seq<char>>
    decreases titles.len(),
{
    if titles.len() == 0 {
        Seq::empty()
    } else {
        let rest = present_titles(titles.drop_last());
        match titles.last() {
            Some(t) => rest.push(t),
            None => rest,
        }
    }
}

/// The headlines of one feed: the present item titles, or none where the
/// document is not RSS.
pub open spec fn feed_headlines_of(bytes: Seq<u8>) -> Seq<Seq<char>> {
    match rss_item_titles(bytes) {
        Some(titles) => present_titles(titles),
        None => Seq::empty(),
    }
}

/// The headlines of several feeds, feed after feed.
pub open spec fn all_headlines(feeds: Seq<Seq<u8>>) -> Seq<Seq<char>>
    decreases feeds.len(),
{
    if feeds.len() == 0 {
        Seq::empty()
    } else {
        all_headlines(feeds.drop_last()) + feed_headlines_of(feeds.last())
    }
}

/// The titles that are present, in order.
pub fn keep_present(titles: &Vec<Option<String>>) -> (kept: Vec<String>)
    ensures
        kept.deep_view() == present_titles(titles.deep_view()),
{
    let mut kept: Vec<String> = Vec::new();
    let n = titles.len();
    for i in 0..n
        invariant
            n == titles@.len(),
            kept.deep_view() == present_titles(titles.deep_view().take(i as int)),
    {
        let ghost pre = titles.deep_view().take(i as int);
        assert(titles.deep_view().take(i + 1).drop_last() =~= pre);
        assert(titles.deep_view().take(i + 1).last() == titles@[i as int].deep_view());
        match &titles[i] {
            Some(t) => {
                let ghost before = kept.deep_view();
                kept.push(t.clone());
                assert(kept.deep_view() =~= before.push(t@));
            },
            None => {},
        }
    }
    assert(titles.deep_view().take(n as int) =~= titles.deep_view());
    kept
}

/// The headlines of the RSS document `feed`.
pub fn feed_headlines(feed: &[u8]) -> (headlines: Vec<String>)
    ensures
        headlines.deep_view() == feed_headlines_of(feed@),
{
    match read_item_titles(feed) {
        Some(titles) => keep_present(&titles),
        None => Vec::new(),
    }
}

/// The headlines of the fetched feeds, feed after feed.
pub fn collect_headlines(feeds: &Vec<Vec<u8>>) -> (headlines: Vec<String>)
    ensures
        headlines.deep_view() == all_headlines(feeds.deep_view()),
{
    let mut all: Vec<String> = Vec::new();
    let n = feeds.len();
    for i in 0..n
        invariant
            n == feeds@.len(),
            all.deep_view() == all_headlines(feeds.deep_view().take(i as int)),
    {
        assert(feeds.deep_view().take(i + 1).drop_last() =~= feeds.deep_view().take(i as int));
        assert(feeds.deep_view().take(i + 1).last() == feeds@[i as int]@);
        let mut more = feed_headlines(feeds[i].as_slice());
        let ghost before = all.deep_view();
        let ghost added = more.deep_view();
        all.append(&mut more);
        assert(all.deep_view() =~= before + added);
    }
    assert(feeds.deep_view().take(n as int) =~= feeds.deep_view());
    all
}

/// What the monitor remembers between two reads of the feeds: the top
/// headline last seen.
pub struct NewsMonitor {
    last_alert: String,
}

impl View for NewsMonitor {
    type V = Seq<char>;

    closed spec fn view(&self) -> Seq<char> {
        self.last_alert@
    }
}

/// What to do after a read of the feeds.
#[derive(Debug, PartialEq, Eq)]
pub struct NewsUpdate {
    /// A breaking-news announcement to speak, if any.
    pub alert: Option<String>,
    /// Whether the headlines replace the stored ones.
    pub store: bool,
}

/// The announcement of a new top headline: `ニュース速報です。<headline>`.
pub open spec fn alert_text(headline: Seq<char>) -> Seq<char> {
    "ニュース速報です。"@ + headline
}

/// One read of the feeds, from the top headline last seen: the new one, the
/// announcement to make, and whether the headlines are stored. A change of
/// the top headline is announced, except for the first one seen.
pub open spec fn news_step(last: Seq<char>, current: Seq<Seq<char>>) -> (
    Seq<char>,
    Option<Seq<char>>,
    bool,
) {
    if current.len() == 0 {
        (last, None, false)
    } else if current[0] != last && last.len() > 0 {
        (current[0], Some(alert_text(current[0])), true)
    } else {
        (current[0], None, true)
    }
}

/// The headlines of feeds read one after the other are those of the first
/// feeds followed by those of the later ones, and one feed's are its own: the
/// first headlines come from the first feed.
pub proof fn lemma_headlines_feed_by_feed(a: Seq<Seq<u8>>, b: Seq<Seq<u8>>, f: Seq<u8>)
    ensures
        all_headlines(a + b) == all_headlines(a) + all_headlines(b),
        all_headlines(seq![f]) == feed_headlines_of(f),
    decreases b.len(),
{
    assert(seq![f].drop_last() =~= Seq::<Seq<u8>>::empty());
    assert(seq![f].last() == f);
    assert(all_headlines(Seq::<Seq<u8>>::empty()) == Seq::<Seq<char>>::empty());
    assert(Seq::<Seq<char>>::empty() + feed_headlines_of(f) =~= feed_headlines_of(f));
    assert(all_headlines(seq![f]) == all_headlines(seq![f].drop_last()) + feed_headlines_of(
        seq![f].last(),
    ));
    if b.len() == 0 {
        assert(a + b =~= a);
        assert(all_headlines(a) + Seq::<Seq<char>>::empty() =~= all_headlines(a));
    } else {
        assert((a + b).drop_last() =~= a + b.drop_last());
        assert((a + b).last() == b.last());
        lemma_headlines_feed_by_feed(a, b.drop_last(), f);
        assert(all_headlines(a) + all_headlines(b.drop_last()) + feed_headlines_of(b.last())
            =~= all_headlines(a) + (all_headlines(b.drop_last()) + feed_headlines_of(b.last())));
    }
}

/// A change of the top headline, after one has been seen, is announced by
/// naming the new top headline, whatever follows it; it becomes the headline
/// last seen.
pub proof fn lemma_alert_names_new_top(last: Seq<char>, current: Seq<Seq<char>>)
    requires
        current.len() > 0,
        last.len() > 0,
        current[0] != last,
    ensures
        news_step(last, current).1 == Some("ニュース速報です。"@ + current[0]),
        news_step(last, current).0 == current[0],
        news_step(last, current).2,
{
}

/// What a read leads to depends on the top headline alone: two reads with the
/// same top headline give the same announcement and the same headline last
/// seen, and a read whose top headline is the one last seen announces nothing.
pub proof fn lemma_alert_depends_on_top(last: Seq<char>, c1: Seq<Seq<char>>, c2: Seq<Seq<char>>)
    requires
        c1.len() > 0,
        c2.len() > 0,
        c1[0] == c2[0],
    ensures
        news_step(last, c1) == news_step(last, c2),
        c1[0] == last ==> news_step(last, c1).1 is None,
{
}

/// Headlines are stored exactly when a read brought some; a read that
/// brought none changes nothing and announces nothing.
pub proof fn lemma_store_only_with_headlines(last: Seq<char>, current: Seq<Seq<char>>)
    ensures
        news_step(last, current).2 == (current.len() > 0),
        current.len() == 0 ==> news_step(last, current).0 == last && news_step(last, current).1 is None,
        current.len() > 0 ==> news_step(last, current).0 == current[0],
{
}

/// The present titles of two lists of titles one after the other are those of
/// the first followed by those of the second; a present title is kept and a
/// missing one is skipped.
pub proof fn lemma_present_titles_in_order(a: Seq<Option<Seq<char>>>, b: Seq<Option<Seq<char>>>, t: Seq<char>)
    ensures
        present_titles(a + b) == present_titles(a) + present_titles(b),
        present_titles(seq![Some(t)]) == seq![t],
        present_titles(seq![None::<Seq<char>>]) == Seq::<Seq<char>>::empty(),
    decreases b.len(),
{
    assert(seq![Some(t)].drop_last() =~= Seq::<Option<Seq<char>>>::empty());
    assert(seq![None::<Seq<char>>].drop_last() =~= Seq::<Option<Seq<char>>>::empty());
    assert(present_titles(Seq::<Option<Seq<char>>>::empty()) == Seq::<Seq<char>>::empty());
    assert(Seq::<Seq<char>>::empty().push(t) =~= seq![t]);
    if b.len() == 0 {
        assert(a + b =~= a);
        assert(present_titles(a) + Seq::<Seq<char>>::empty() =~= present_titles(a));
    } else {
        assert((a + b).drop_last() =~= a + b.drop_last());
        assert((a + b).last() == b.last());
        lemma_present_titles_in_order(a, b.drop_last(), t);
        match b.last() {
            Some(x) => {
                assert(present_titles(a) + present_titles(b.drop_last()).push(x) =~= (
                present_titles(a) + present_titles(b.drop_last())).push(x));
            },
            None => {},
        }
    }
}

/// The first read after start-up never announces anything.
pub proof fn lemma_first_read_is_silent(current: Seq<Seq<char>>)
    ensures
        news_step(Seq::empty(), current).1 is None,
{
}

/// Reading the same headlines twice in a row announces nothing the second time.
pub proof fn lemma_repeat_read_is_silent(last: Seq<char>, current: Seq<Seq<char>>)
    ensures
        news_step(news_step(last, current).0, current).1 is None,
        news_step(news_step(last, current).0, current).0 == news_step(last, current).0,
{
}

impl NewsMonitor {
    /// A monitor that has not seen any headline.
    pub fn new() -> (m: NewsMonitor)
        ensures
            m@.len() == 0,
    {
        NewsMonitor { last_alert: String::new() }
    }

    /// Takes in the headlines of one read of the feeds.
    pub fn observe(&mut self, current: &Vec<String>) -> (update: NewsUpdate)
        ensures
            final(self)@ == news_step(old(self)@, current.deep_view()).0,
            update.alert.deep_view() == news_step(old(self)@, current.deep_view()).1,
            update.store == news_step(old(self)@, current.deep_view()).2,
            current@.len() > 0 && old(self)@.len() > 0 && current@[0]@ != old(self)@ ==> (
            update.alert matches Some(a) && a@ == "ニュース速報です。"@ + current@[0]@),
    {
        proof {
            if current@.len() > 0 && old(self)@.len() > 0 && current@[0]@ != old(self)@ {
                assert(current.deep_view()[0] == current@[0]@);
                lemma_alert_names_new_top(old(self)@, current.deep_view());
            }
        }
        if current.len() == 0 {
            return NewsUpdate { alert: None, store: false };
        }
        assert(current.deep_view()[0] == current@[0]@);
        let top = &current[0];
        let changed = !crate::text::same_text(top.as_str(), self.last_alert.as_str());
        let mut alert: Option<String> = None;
        if changed {
            if !self.last_alert.as_str().is_empty() {
                alert = Some(concat_text("ニュース速報です。", top.as_str()));
            }
            self.last_alert = top.clone();
        }
        NewsUpdate { alert, store: true }
    }
}

} // verus!
