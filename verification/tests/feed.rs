use daily_pulse::feed::{FeedError, FeedFault, FeedItem, Fetched, NewsService};
use daily_pulse::story::Story;

const FEED: &str = r#"<?xml version="1.0"?>
<rss version="2.0" xmlns:content="http://purl.org/rss/1.0/modules/content/">
  <channel>
    <title>t</title><link>l</link><description>d</description>
    <item>
      <guid isPermaLink="false">id-1</guid>
      <title>First</title>
      <link>https://feed/1</link>
      <description>Alpha. Beta! Gamma.</description>
    </item>
    <item>
      <title>Second &amp; last</title>
      <link>https://feed/2</link>
      <content:encoded>Delta?</content:encoded>
    </item>
    <item>
      <description><![CDATA[Only text]]></description>
    </item>
  </channel>
</rss>"#;

fn service(max_posts: usize) -> NewsService {
    NewsService::new("https://feed".to_string(), max_posts)
}

fn bare_item() -> FeedItem {
    FeedItem { guid: None, title: None, link: None, description: None, content: None }
}

#[test]
fn a_service_keeps_its_settings() {
    let news = service(4);
    assert_eq!(news.feed_url, "https://feed");
    assert_eq!(news.max_posts, 4);
}

#[test]
fn stories_are_drawn_from_a_feed() {
    let stories = service(5).fetch_fresh_headlines(Fetched::Body(FEED.to_string())).unwrap();
    assert_eq!(stories.len(), 3);

    assert_eq!(stories[0].id, "id-1");
    assert_eq!(stories[0].title, "First");
    assert_eq!(stories[0].summary, "Alpha. Beta.");
    assert_eq!(stories[0].link, "https://feed/1");

    assert_eq!(stories[1].id, "https://feed/2");
    assert_eq!(stories[1].title, "Second & last");
    assert_eq!(stories[1].summary, "Delta.");
    assert_eq!(stories[1].link, "https://feed/2");

    assert_eq!(stories[2].id, "no-id");
    assert_eq!(stories[2].title, "Untitled Dispatch");
    assert_eq!(stories[2].summary, "Only text.");
    assert_eq!(stories[2].link, "https://example.com/news");
}

#[test]
fn only_the_first_items_are_kept() {
    let news = service(2);
    let stories = news.fetch_fresh_headlines(Fetched::Body(FEED.to_string())).unwrap();
    let ids: Vec<&str> = stories.iter().map(|story| story.id.as_str()).collect();
    assert_eq!(ids, vec!["id-1", "https://feed/2"]);
    assert!(news.select_headlines(&vec![]).is_empty());
    let items = vec![bare_item(), bare_item(), bare_item()];
    assert_eq!(news.select_headlines(&items).len(), 2);
    assert!(service(0).select_headlines(&items).is_empty());
}

#[test]
fn the_fallback_stands_in_for_an_unreachable_feed() {
    let stories = service(3).fetch_fresh_headlines(Fetched::Unreachable).unwrap();
    assert_eq!(stories.len(), 2);
    assert_eq!(stories[0].title, "AI powered newsletters explode in popularity");
    assert_eq!(stories[0].id, "https://example.com/ai-newsletters");
    assert_eq!(
        stories[0].summary,
        "More creators are building themed news channels driven by AI summaries. They want fully \
         automated pipelines, elegant formatting, and multi-vertical coverage."
    );
    assert_eq!(stories[1].link, "https://example.com/tg-bots");
    assert!(NewsService::fallback_feed().starts_with("<?xml version=\"1.0\" encoding=\"UTF-8\" ?>"));
    assert!(NewsService::fallback_feed().ends_with("</rss>"));
}

#[test]
fn a_rejected_request_is_not_covered_up() {
    let error = service(3).fetch_fresh_headlines(Fetched::Rejected).unwrap_err();
    assert!(matches!(error, FeedError::Rejected));
    assert_eq!(error.context(), None);
}

#[test]
fn what_is_not_a_feed_is_an_error() {
    for text in ["", "not xml", "<html></html>", "<rss>", "<rss></rss>"] {
        let error = service(3).fetch_fresh_headlines(Fetched::Body(text.to_string())).unwrap_err();
        assert!(matches!(error, FeedError::Malformed(_)), "{text}");
        assert_eq!(error.context(), Some("could not parse feed"));
    }
    let fault = FeedFault { error: rss::Error::Eof, text: rss::Error::Eof.to_string() };
    let error = FeedError::FallbackMalformed(fault);
    assert_eq!(error.context(), Some("fallback feed parsing failed"));
}

#[test]
fn an_error_says_what_is_wrong_with_its_own_text() {
    for (text, said) in [
        ("<html></html>", "the input did not begin with an rss tag"),
        ("<rss></rss>", "reached end of input without finding a complete channel"),
    ] {
        match service(3).fetch_fresh_headlines(Fetched::Body(text.to_string())) {
            Err(FeedError::Malformed(fault)) => {
                assert_eq!(fault.text, said);
                assert_eq!(fault.error.to_string(), said);
            }
            other => panic!("{other:?}"),
        }
    }
}

#[test]
fn an_empty_channel_has_no_stories() {
    let empty = "<rss><channel></channel></rss>".to_string();
    assert!(service(3).fetch_fresh_headlines(Fetched::Body(empty)).unwrap().is_empty());
}

#[test]
fn the_id_is_guid_then_link_then_title() {
    let mut item = bare_item();
    assert_eq!(Story::from_item(&item).id, "no-id");
    item.title = Some("T".to_string());
    assert_eq!(Story::from_item(&item).id, "T");
    item.link = Some("L".to_string());
    assert_eq!(Story::from_item(&item).id, "L");
    item.guid = Some("G".to_string());
    let story = Story::from_item(&item);
    assert_eq!(story.id, "G");
    assert_eq!(story.title, "T");
    assert_eq!(story.link, "L");
    assert_eq!(story.summary, "T.");
}
