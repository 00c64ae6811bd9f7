use std::path::Path;

use daily_pulse::config::Config;

fn config_with(
    feed_url: Option<&str>,
    max_posts: Option<&str>,
    check_interval: Option<&str>,
    state_dir: Option<&str>,
) -> Config {
    Config::from_env(
        "token".to_string(),
        feed_url.map(str::to_string),
        max_posts.map(str::to_string),
        check_interval.map(str::to_string),
        state_dir.map(str::to_string),
    )
}

#[test]
fn defaults_fill_what_is_not_set() {
    let config = config_with(None, None, None, None);
    assert_eq!(config.bot_token, "token");
    assert_eq!(config.feed_url, "https://feeds.bbci.co.uk/news/technology/rss.xml");
    assert_eq!(config.max_posts, 3);
    assert_eq!(config.check_interval, 300);
    assert_eq!(config.state_dir, "state");
}

#[test]
fn settings_are_taken_as_they_are_set() {
    let config = config_with(Some("https://feed"), Some("7"), Some("+60"), Some("/var/bot"));
    assert_eq!(config.feed_url, "https://feed");
    assert_eq!(config.max_posts, 7);
    assert_eq!(config.check_interval, 60);
    assert_eq!(config.state_dir, "/var/bot");
    assert_eq!(config_with(Some(""), None, None, None).feed_url, "");
}

#[test]
fn counts_that_are_not_positive_numbers_are_replaced() {
    for text in ["0", "-1", "", "many", " 5", "3.5", "99999999999999999999999"] {
        let config = config_with(None, Some(text), Some(text), None);
        assert_eq!(config.max_posts, 3, "{text}");
        assert_eq!(config.check_interval, 300, "{text}");
    }
}

#[test]
fn state_files_lie_in_the_state_directory() {
    for dir in ["state", "state/", "/", "", "a/b", "./x//", "C:", "a:b", "a\\", "\\\\?\\C:\\x", "день"] {
        let config = config_with(None, None, None, Some(dir));
        let tracker = Path::new(dir).join("last_seen.json");
        let subscribers = Path::new(dir).join("subscribers.json");
        assert_eq!(Some(config.tracker_path().as_str()), tracker.to_str(), "{dir}");
        assert_eq!(Some(config.subscriber_path().as_str()), subscribers.to_str(), "{dir}");
    }
    let config = config_with(None, None, None, None);
    let separator = std::path::MAIN_SEPARATOR;
    assert_eq!(config.tracker_path(), format!("state{separator}last_seen.json"));
    assert_eq!(config.subscriber_path(), format!("state{separator}subscribers.json"));
}

#[test]
fn the_two_state_files_differ() {
    let config = config_with(None, None, None, Some(""));
    assert_eq!(config.tracker_path(), "last_seen.json");
    assert_ne!(config.tracker_path(), config.subscriber_path());
}

#[test]
fn a_copied_config_holds_the_same() {
    let config = config_with(Some("f"), Some("2"), Some("9"), Some("d"));
    let copy = config.clone();
    assert_eq!(copy.bot_token, "token");
    assert_eq!(copy.feed_url, "f");
    assert_eq!(copy.max_posts, 2);
    assert_eq!(copy.check_interval, 9);
    assert_eq!(copy.state_dir, "d");
}
