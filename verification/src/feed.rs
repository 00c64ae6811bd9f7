//! Reading a feed and drawing the newest stories from it.
use vstd::prelude::*;
use vstd::string::*;

use crate::story::{story_of, Story, StoryView};

verus! {

/// The feed that stands in while the configured one cannot be reached.
pub const FALLBACK_FEED: &'static str = r#"<?xml version="1.0" encoding="UTF-8" ?>
<rss version="2.0">
  <channel>
    <title>Daily Pulse Sandbox</title>
    <link>https://example.com</link>
    <description>Offline sample news items used when the RSS fetch fails.</description>
    <item>
      <title>AI powered newsletters explode in popularity</title>
      <link>https://example.com/ai-newsletters</link>
      <description>More creators are building themed news channels driven by AI summaries. They want fully automated pipelines, elegant formatting, and multi-vertical coverage.</description>
    </item>
    <item>
      <title>Telegram bots evolve into newsroom assistants</title>
      <link>https://example.com/tg-bots</link>
      <description>Developers now mix RSS feeds, Codex style summarizers, and Telegram APIs to ship curated digests for auto, sports, tech, and local news audiences.</description>
    </item>
  </channel>
</rss>"#;

/// One item of a feed, with the fields that a story is made of.
#[derive(Debug)]
pub struct FeedItem {
    pub guid: Option<String>,
    pub title: Option<String>,
    pub link: Option<String>,
    pub description: Option<String>,
    pub content: Option<String>,
}

/// What a [`FeedItem`] holds.
pub struct FeedItemView {
    pub guid: Option<Seq<char>>,
    pub title: Option<Seq<char>>,
    pub link: Option<Seq<char>>,
    pub description: Option<Seq<char>>,
    pub content: Option<Seq<char>>,
}

impl DeepView for FeedItem {
    type V = FeedItemView;

    open spec fn deep_view(&self) -> FeedItemView {
        FeedItemView {
            guid: self.guid.deep_view(),
            title: self.title.deep_view(),
            link: self.link.deep_view(),
            description: self.description.deep_view(),
            content: self.content.deep_view(),
        }
    }
}

/// The error of the `rss` crate, of which nothing is known but its text, where
/// that is handed out beside it.
#[verifier::external_type_specification]
#[verifier::external_body]
pub struct ExRssError(rss::Error);

/// Why a text could not be read as a feed: the error, and what it says.
#[derive(Debug)]
pub struct FeedFault {
    pub error: rss::Error,
    pub text: String,
}

/// The items of the channel that `rss::Channel::read_from` reads from the
/// UTF-8 bytes of `xml`, in the order of `rss::Channel::items`, or the text of
/// the error that it reports.
pub uninterp spec fn feed_items(xml: Seq<char>) -> Result<Seq<FeedItemView>, Seq<char>>;

/// Reads a feed with `rss::Channel::read_from` and takes from each item of
/// `rss::Channel::items` the value of its guid, its title, link, description
/// and content; an error is handed out with the text that it displays. The
/// contract claims that the items, or the text of the error, depend on the text
/// of the feed alone, and names them [`feed_items`]; nothing is claimed of what
/// they hold. Elements of other namespaces are read recursively, so how deeply
/// they may nest is bounded by the stack.
#[verifier::external_body]
fn read_channel(xml: &str) -> (outcome: Result<Vec<FeedItem>, FeedFault>)
    ensures
        match outcome {
            Ok(items) => feed_items(xml@) == Ok::<Seq<FeedItemView>, Seq<char>>(items.deep_view()),
            Err(fault) => feed_items(xml@) == Err::<Seq<FeedItemView>, Seq<char>>(fault.text@),
        },
{
    let channel = rss::Channel::read_from(std::io::Cursor::new(xml.as_bytes()))
        .map_err(|error| FeedFault { text: error.to_string(), error })?;
    Ok(channel.items().iter().map(|item| FeedItem {
        guid: item.guid().map(|guid| guid.value().to_string()),
        title: item.title().map(str::to_string),
        link: item.link().map(str::to_string),
        description: item.description().map(str::to_string),
        content: item.content().map(str::to_string),
    }).collect())
}

/// What became of the request for the feed.
#[derive(Debug)]
pub enum Fetched {
    /// The feed was answered with this text.
    Body(String),
    /// The server refused the request, or its answer broke off.
    Rejected,
    /// No answer came.
    Unreachable,
}

/// Why there are no headlines.
#[derive(Debug)]
pub enum FeedError {
    /// The server refused the request, or its answer broke off.
    Rejected,
    /// The answer is not a feed.
    Malformed(FeedFault),
    /// The stand-in feed is not a feed.
    FallbackMalformed(FeedFault),
}

impl FeedError {
    /// What is said in front of the error itself: which feed could not be
    /// read. A refused request speaks for itself.
    pub fn context(&self) -> (text: Option<&'static str>)
        ensures
            text.deep_view() == (match self {
                FeedError::Rejected => None,
                FeedError::Malformed(_) => Some("could not parse feed"@),
                FeedError::FallbackMalformed(_) => Some("fallback feed parsing failed"@),
            }),
    {
        match self {
            FeedError::Rejected => None,
            FeedError::Malformed(_) => Some("could not parse feed"),
            FeedError::FallbackMalformed(_) => Some("fallback feed parsing failed"),
        }
    }
}

/// The stories of the first `max_posts` items.
pub open spec fn headlines(items: Seq<FeedItemView>, max_posts: nat) -> Seq<StoryView> {
    Seq::new(
        if items.len() < max_posts {
            items.len()
        } else {
            max_posts
        },
        |i: int| story_of(items[i]),
    )
}

/// Looks for the newest stories of one feed.
#[derive(Debug)]
pub struct NewsService {
    pub feed_url: String,
    pub max_posts: usize,
}

impl NewsService {
    pub fn new(feed_url: String, max_posts: usize) -> (service: NewsService)
        ensures
            service.feed_url@ == feed_url@,
            service.max_posts == max_posts,
    {
        NewsService { feed_url, max_posts }
    }

    /// The feed that stands in while the configured one cannot be reached.
    pub fn fallback_feed() -> (xml: &'static str)
        ensures
            xml@ == FALLBACK_FEED@,
    {
        FALLBACK_FEED
    }

    /// Draws the stories from the first items of a feed.
    pub fn select_headlines(&self, items: &Vec<FeedItem>) -> (stories: Vec<Story>)
        ensures
            stories.deep_view() == headlines(items.deep_view(), self.max_posts as nat),
    {
        let mut stories: Vec<Story> = Vec::new();
        let mut i: usize = 0;
        while i < items.len() && i < self.max_posts
            invariant
                i <= items.len(),
                i <= self.max_posts,
                stories.len() == i,
                forall|k: int|
                    0 <= k < i ==> (#[trigger] stories@[k]).deep_view() == story_of(
                        items@[k].deep_view(),
                    ),
            decreases items.len() - i,
        {
            stories.push(Story::from_item(&items[i]));
            i += 1;
        }
        stories
    }

    /// The newest stories, given what became of the request for the feed. The
    /// stand-in feed is used only where no answer came.
    pub fn fetch_fresh_headlines(&self, fetched: Fetched) -> (result: Result<
        Vec<Story>,
        FeedError,
    >)
        ensures
            match fetched {
                Fetched::Body(xml) => match feed_items(xml@) {
                    Ok(items) => result matches Ok(stories) && stories.deep_view() == headlines(
                        items,
                        self.max_posts as nat,
                    ),
                    Err(text) => result matches Err(FeedError::Malformed(fault)) && fault.text@
                        == text,
                },
                Fetched::Rejected => result matches Err(FeedError::Rejected),
                Fetched::Unreachable => match feed_items(FALLBACK_FEED@) {
                    Ok(items) => result matches Ok(stories) && stories.deep_view() == headlines(
                        items,
                        self.max_posts as nat,
                    ),
                    Err(text) => result matches Err(FeedError::FallbackMalformed(fault))
                        && fault.text@ == text,
                },
            },
    {
        match fetched {
            Fetched::Body(xml) => match read_channel(xml.as_str()) {
                Ok(items) => Ok(self.select_headlines(&items)),
                Err(fault) => Err(FeedError::Malformed(fault)),
            },
            Fetched::Rejected => Err(FeedError::Rejected),
            Fetched::Unreachable => match read_channel(Self::fallback_feed()) {
                Ok(items) => Ok(self.select_headlines(&items)),
                Err(fault) => Err(FeedError::FallbackMalformed(fault)),
            },
        }
    }
}

/// As many stories come out as the service is set to, or as the feed has items
/// where those are fewer; the first items are the ones that are kept, in order.
pub proof fn law_headlines_are_the_first_items(items: Seq<FeedItemView>, max_posts: nat)
    ensures
        headlines(items, max_posts).len() <= max_posts,
        headlines(items, max_posts).len() <= items.len(),
        items.len() <= max_posts ==> headlines(items, max_posts).len() == items.len(),
        items.len() >= max_posts ==> headlines(items, max_posts).len() == max_posts,
        forall|i: int|
            0 <= i < headlines(items, max_posts).len() ==> #[trigger] headlines(
                items,
                max_posts,
            )[i] == story_of(items[i]),
{
}

/// One story more is one item further: a larger limit keeps every story of a
/// smaller one.
pub proof fn law_larger_limits_only_add_headlines(
    items: Seq<FeedItemView>,
    fewer: nat,
    more: nat,
)
    requires
        fewer <= more,
    ensures
        headlines(items, fewer) == headlines(items, more).take(
            if items.len() < fewer {
                items.len() as int
            } else {
                fewer as int
            },
        ),
{
}

/// What is stated of an item is stated of its fields.
pub proof fn law_item_view(item: FeedItem)
    ensures
        item.deep_view().guid is Some == item.guid is Some,
        item.guid matches Some(guid) ==> item.deep_view().guid == Some(guid@),
        item.deep_view().title is Some == item.title is Some,
        item.title matches Some(title) ==> item.deep_view().title == Some(title@),
        item.deep_view().link is Some == item.link is Some,
        item.link matches Some(link) ==> item.deep_view().link == Some(link@),
        item.deep_view().description is Some == item.description is Some,
        item.description matches Some(text) ==> item.deep_view().description == Some(text@),
        item.deep_view().content is Some == item.content is Some,
        item.content matches Some(text) ==> item.deep_view().content == Some(text@),
{
}

/// The headlines of a service are the stories of the first items, as many as it
/// is set to or as there are.
pub proof fn law_selected_headlines(
    feed_url: String,
    max_posts: usize,
    service: NewsService,
    items: Vec<FeedItem>,
    stories: Vec<Story>,
    i: int,
    story: Story,
)
    requires
        call_ensures(NewsService::new, (feed_url, max_posts), service),
        call_ensures(NewsService::select_headlines, (&service, &items), stories),
        call_ensures(Story::from_item, (&items@[i],), story),
    ensures
        service.feed_url@ == feed_url@,
        items@.len() >= max_posts ==> stories@.len() == max_posts,
        items@.len() <= max_posts ==> stories@.len() == items@.len(),
        0 <= i < stories@.len() ==> stories@[i].deep_view() == story.deep_view(),
{
    let views = headlines(items.deep_view(), max_posts as nat);
    assert(stories.deep_view() == views);
    assert(stories.deep_view().len() == views.len());
    if 0 <= i < stories@.len() {
        assert(stories.deep_view()[i] == stories@[i].deep_view());
        assert(items.deep_view()[i] == items@[i].deep_view());
    }
}

/// A refused request gives no headlines. An answer gives those that are read
/// from it, and no answer those of the stand-in feed, as if that had been the
/// answer; what cannot be read gives the error of the reader.
pub proof fn law_stand_in_is_read_like_an_answer(
    service: NewsService,
    body: String,
    answered: Result<Vec<Story>, FeedError>,
    unreachable: Result<Vec<Story>, FeedError>,
    rejected: Result<Vec<Story>, FeedError>,
)
    requires
        body@ == FALLBACK_FEED@,
        call_ensures(
            NewsService::fetch_fresh_headlines,
            (&service, Fetched::Body(body)),
            answered,
        ),
        call_ensures(
            NewsService::fetch_fresh_headlines,
            (&service, Fetched::Unreachable),
            unreachable,
        ),
        call_ensures(NewsService::fetch_fresh_headlines, (&service, Fetched::Rejected), rejected),
    ensures
        rejected matches Err(FeedError::Rejected),
        answered matches Ok(stories) ==> (unreachable matches Ok(same) && same.deep_view()
            == stories.deep_view()),
        answered matches Err(error) ==> (error matches FeedError::Malformed(fault)
            && (unreachable matches Err(FeedError::FallbackMalformed(other)) && other.text@
            == fault.text@)),
{
}

/// Whatever was answered, the headlines are those of the items that are read
/// from it: there are none exactly where it cannot be read.
pub proof fn law_answers_are_read(
    service: NewsService,
    body: String,
    result: Result<Vec<Story>, FeedError>,
)
    requires
        call_ensures(NewsService::fetch_fresh_headlines, (&service, Fetched::Body(body)), result),
    ensures
        result is Ok <==> feed_items(body@) is Ok,
        result matches Ok(stories) ==> (feed_items(body@) matches Ok(items) && {
            &&& items.len() >= service.max_posts ==> stories@.len() == service.max_posts
            &&& items.len() <= service.max_posts ==> stories@.len() == items.len()
            &&& forall|i: int|
                0 <= i < stories@.len() ==> (#[trigger] stories@[i]).deep_view() == story_of(
                    items[i],
                )
        }),
        result matches Err(error) ==> (error matches FeedError::Malformed(fault) && (feed_items(
            body@,
        ) matches Err(text) && fault.text@ == text)),
{
    if let Ok(stories) = result {
        let items = feed_items(body@)->Ok_0;
        assert(stories.deep_view().len() == headlines(items, service.max_posts as nat).len());
        assert forall|i: int| 0 <= i < stories@.len() implies (
        #[trigger] stories@[i]).deep_view() == story_of(items[i]) by {
            assert(stories.deep_view()[i] == stories@[i].deep_view());
        }
    }
}

/// What is said in front of an error tells which feed could not be read.
pub proof fn law_error_contexts(error: FeedError, text: Option<&'static str>)
    requires
        call_ensures(FeedError::context, (&error,), text),
    ensures
        error is Rejected <==> text is None,
        error is Malformed ==> (text matches Some(said) && said@ == "could not parse feed"@),
        error is FallbackMalformed ==> (text matches Some(said) && said@
            == "fallback feed parsing failed"@),
{
}

} // verus!
