use daily_pulse::feed::FeedItem;
use daily_pulse::summary::{split_sentences, AISummarizer};

fn item(
    title: Option<&str>,
    description: Option<&str>,
    content: Option<&str>,
) -> FeedItem {
    FeedItem {
        guid: None,
        title: title.map(str::to_string),
        link: None,
        description: description.map(str::to_string),
        content: content.map(str::to_string),
    }
}

fn described(text: &str) -> String {
    AISummarizer::summarize(&item(None, Some(text), None))
}

/// The summary as iterators over string slices compute it.
fn expected(text: &str) -> String {
    let sentences: Vec<&str> = text
        .split(|ch| matches!(ch, '.' | '!' | '?'))
        .map(str::trim)
        .filter(|sentence| !sentence.is_empty())
        .collect();
    let summary = sentences
        .iter()
        .take(2)
        .map(|sentence| format!("{}.", sentence.trim_end_matches('.')))
        .collect::<Vec<_>>()
        .join(" ");
    let summary = summary.trim();
    if summary.is_empty() {
        return "Источник лаконичен — подробности скоро.".to_string();
    }
    let cut: String = summary.chars().take(320).collect();
    if cut.len() < summary.len() {
        format!("{cut}...")
    } else {
        cut
    }
}

#[test]
fn two_sentences_are_kept() {
    assert_eq!(described("One. Two! Three?"), "One. Two.");
    assert_eq!(described("  Only one "), "Only one.");
    assert_eq!(described("Wait... what?! Yes."), "Wait. what.");
}

#[test]
fn summaries_agree_with_string_slices() {
    for text in [
        "",
        " ",
        "...",
        "a",
        ".a",
        "a.",
        " a . b . c ",
        "\u{2003}край\u{3000}! \n слово? и ещё",
        "a\u{0}b. c",
        "!?.!?. x ?!",
        "Wait... what?! Yes.",
    ] {
        assert_eq!(described(text), expected(text), "{text:?}");
    }
    let long = "слово ".repeat(200);
    assert_eq!(described(&long), expected(&long));
    let two = format!("{}. {}.", "я".repeat(200), "ю".repeat(200));
    assert_eq!(described(&two), expected(&two));
}

#[test]
fn sentences_are_trimmed_and_not_empty() {
    assert_eq!(split_sentences(" a. .b !\n?c"), vec!["a", "b", "c"]);
    assert!(split_sentences(" . ! ? ").is_empty());
    for sentence in split_sentences("One. Two ... three? four!") {
        assert!(!sentence.is_empty());
        assert_eq!(sentence.trim(), sentence);
        assert!(!sentence.contains(['.', '!', '?']));
    }
}

#[test]
fn description_goes_before_content_and_title() {
    let all = item(Some("title"), Some("description"), Some("content"));
    assert_eq!(AISummarizer::summarize(&all), "description.");
    let no_description = item(Some("title"), None, Some("content"));
    assert_eq!(AISummarizer::summarize(&no_description), "content.");
    let title_only = item(Some("title"), None, None);
    assert_eq!(AISummarizer::summarize(&title_only), "title.");
    let nothing = item(None, None, None);
    assert_eq!(AISummarizer::summarize(&nothing), "Источник не прислал деталей.");
}

#[test]
fn an_empty_description_is_not_replaced_by_the_content() {
    let blank = item(Some("title"), Some(""), Some("content"));
    assert_eq!(AISummarizer::summarize(&blank), "Источник лаконичен — подробности скоро.");
}

#[test]
fn truncation_counts_characters() {
    assert_eq!(AISummarizer::truncate("", 5), "Источник лаконичен — подробности скоро.");
    assert_eq!(AISummarizer::truncate("абвгд", 5), "абвгд");
    assert_eq!(AISummarizer::truncate("абвгде", 5), "абвгд...");
    assert_eq!(AISummarizer::truncate("abc", 0), "...");
    assert_eq!(AISummarizer::truncate("abc", 320), "abc");
}

#[test]
fn summaries_stay_within_their_length() {
    let long = "x".repeat(1000);
    let summary = described(&long);
    assert_eq!(summary.chars().count(), 323);
    assert!(summary.ends_with("xxx..."));
    let exact = "x".repeat(319);
    assert_eq!(described(&exact), format!("{exact}."));
    assert!(!described(" ").is_empty());
}

#[test]
fn condensed_text_has_no_white_space_around_it() {
    let summary = described("  first !  second ? ");
    assert_eq!(summary, "first. second.");
    assert_eq!(summary.trim(), summary);
}
