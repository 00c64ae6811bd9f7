//! The stories that the bot announces.
use vstd::prelude::*;
use vstd::string::*;

use crate::feed::{FeedItem, FeedItemView};
use crate::summary::{summary, AISummarizer};

verus! {

/// A story drawn from a feed item.
#[derive(Debug)]
pub struct Story {
    pub id: String,
    pub title: String,
    pub summary: String,
    pub link: String,
}

/// What a [`Story`] holds.
pub struct StoryView {
    pub id: Seq<char>,
    pub title: Seq<char>,
    pub summary: Seq<char>,
    pub link: Seq<char>,
}

impl DeepView for Story {
    type V = StoryView;

    open spec fn deep_view(&self) -> StoryView {
        StoryView {
            id: self.id@,
            title: self.title@,
            summary: self.summary@,
            link: self.link@,
        }
    }
}

impl Clone for Story {
    fn clone(&self) -> (copy: Self)
        ensures
            copy == *self,
    {
        Story {
            id: self.id.clone(),
            title: self.title.clone(),
            summary: self.summary.clone(),
            link: self.link.clone(),
        }
    }
}

/// What tells a story apart from others: the item's guid, else its link, else
/// its title.
pub open spec fn story_id(item: FeedItemView) -> Seq<char> {
    match (item.guid, item.link, item.title) {
        (Some(guid), _, _) => guid,
        (None, Some(link), _) => link,
        (None, None, Some(title)) => title,
        (None, None, None) => "no-id"@,
    }
}

/// The story that an item tells.
pub open spec fn story_of(item: FeedItemView) -> StoryView {
    StoryView {
        id: story_id(item),
        title: match item.title {
            Some(title) => title,
            None => "Untitled Dispatch"@,
        },
        summary: summary(item),
        link: match item.link {
            Some(link) => link,
            None => "https://example.com/news"@,
        },
    }
}

fn text_or(text: &Option<String>, default: &str) -> (result: String)
    ensures
        result@ == (match text.deep_view() {
            Some(t) => t,
            None => default@,
        }),
{
    match text {
        Some(text) => text.clone(),
        None => default.to_string(),
    }
}

impl Story {
    /// Draws a story from a feed item.
    pub fn from_item(item: &FeedItem) -> (story: Story)
        ensures
            story.deep_view() == story_of(item.deep_view()),
    {
        let id = match (&item.guid, &item.link) {
            (Some(guid), _) => guid.clone(),
            (None, Some(link)) => link.clone(),
            (None, None) => text_or(&item.title, "no-id"),
        };
        Story {
            id,
            title: text_or(&item.title, "Untitled Dispatch"),
            summary: AISummarizer::summarize(item),
            link: text_or(&item.link, "https://example.com/news"),
        }
    }
}

/// A story goes by its item's guid; without one by the link, and without both
/// by the title.
pub proof fn law_story_goes_by_guid_then_link_then_title(item: FeedItemView)
    ensures
        item.guid matches Some(guid) ==> story_of(item).id == guid,
        item.guid is None ==> (item.link matches Some(link) ==> story_of(item).id == link),
        item.guid is None && item.link is None ==> (item.title matches Some(title)
            ==> story_of(item).id == title),
        item.guid is None && item.link is None && item.title is None ==> story_of(item).id
            == "no-id"@,
{
}

/// A story keeps the title and the link of its item, and has a stand-in for
/// each that the item lacks; its summary is that of the item.
pub proof fn law_story_keeps_title_and_link(item: FeedItemView)
    ensures
        item.title matches Some(title) ==> story_of(item).title == title,
        item.title is None ==> story_of(item).title == "Untitled Dispatch"@,
        item.link matches Some(link) ==> story_of(item).link == link,
        item.link is None ==> story_of(item).link == "https://example.com/news"@,
        story_of(item).summary == summary(item),
{
}

/// What is stated of a story is stated of its fields.
pub proof fn law_story_view(story: Story)
    ensures
        story.deep_view().id == story.id@,
        story.deep_view().title == story.title@,
        story.deep_view().summary == story.summary@,
        story.deep_view().link == story.link@,
{
}

/// A story as it is drawn from an item.
pub proof fn law_drawn_story(item: FeedItem, story: Story, text: String, copy: Story)
    requires
        call_ensures(Story::from_item, (&item,), story),
        call_ensures(AISummarizer::summarize, (&item,), text),
        call_ensures(Story::clone, (&story,), copy),
    ensures
        item.guid matches Some(guid) ==> story.id@ == guid@,
        item.guid is None ==> (item.link matches Some(link) ==> story.id@ == link@),
        item.guid is None && item.link is None ==> (item.title matches Some(title) ==> story.id@
            == title@),
        item.guid is None && item.link is None && item.title is None ==> story.id@ == "no-id"@,
        item.title matches Some(title) ==> story.title@ == title@,
        item.title is None ==> story.title@ == "Untitled Dispatch"@,
        item.link matches Some(link) ==> story.link@ == link@,
        item.link is None ==> story.link@ == "https://example.com/news"@,
        story.summary@ == text@,
        copy == story,
{
}

} // verus!
