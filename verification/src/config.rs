//! What the bot is set up with.
use vstd::prelude::*;
use vstd::string::*;

use crate::text::{
    decimal, law_decimal_round_trip, law_numbers_above_the_bound_are_refused, parse_decimal,
    parsed_decimal,
};

verus! {

pub const DEFAULT_FEED: &'static str = "https://feeds.bbci.co.uk/news/technology/rss.xml";

pub const DEFAULT_MAX_POSTS: usize = 3;

pub const DEFAULT_CHECK_INTERVAL_SECS: u64 = 300;

/// The file that keeps the id of the newest announced story.
pub const TRACKER_FILE: &'static str = "last_seen.json";

/// The file that keeps the subscribed chats.
pub const SUBSCRIBER_FILE: &'static str = "subscribers.json";

pub const DEFAULT_STATE_DIR: &'static str = "state";

/// The settings of a running bot.
#[derive(Debug)]
pub struct Config {
    pub bot_token: String,
    pub feed_url: String,
    /// How many stories of the feed are looked at; at least one.
    pub max_posts: usize,
    /// The seconds between two looks at the feed; at least one.
    pub check_interval: u64,
    pub state_dir: String,
}

/// What a [`Config`] holds.
pub struct ConfigView {
    pub bot_token: Seq<char>,
    pub feed_url: Seq<char>,
    pub max_posts: usize,
    pub check_interval: u64,
    pub state_dir: Seq<char>,
}

impl DeepView for Config {
    type V = ConfigView;

    open spec fn deep_view(&self) -> ConfigView {
        ConfigView {
            bot_token: self.bot_token@,
            feed_url: self.feed_url@,
            max_posts: self.max_posts,
            check_interval: self.check_interval,
            state_dir: self.state_dir@,
        }
    }
}

impl Clone for Config {
    fn clone(&self) -> (copy: Self)
        ensures
            copy == *self,
    {
        Config {
            bot_token: self.bot_token.clone(),
            feed_url: self.feed_url.clone(),
            max_posts: self.max_posts,
            check_interval: self.check_interval,
            state_dir: self.state_dir.clone(),
        }
    }
}

/// The text of a setting, or the default where it is not set.
pub open spec fn text_setting(value: Option<Seq<char>>, default: Seq<char>) -> Seq<char> {
    match value {
        Some(text) => text,
        None => default,
    }
}

/// The number that a setting writes, where it is set and writes a positive
/// number of at most `max`; the default in every other case.
pub open spec fn count_setting(value: Option<Seq<char>>, max: nat, default: nat) -> nat {
    match value {
        Some(text) => match parsed_decimal(text, max) {
            Some(n) => if n > 0 {
                n
            } else {
                default
            },
            None => default,
        },
        None => default,
    }
}

/// Whether `file` is a bare file name: letters, digits, `_` and `.`, with no
/// `.` in front.
pub open spec fn is_file_name(file: Seq<char>) -> bool {
    &&& file.len() > 0
    &&& file[0] != '.'
    &&& forall|i: int| 0 <= i < file.len() ==> is_name_char(#[trigger] file[i])
}

pub open spec fn is_name_char(c: char) -> bool {
    ||| 'a' <= c <= 'z'
    ||| 'A' <= c <= 'Z'
    ||| '0' <= c <= '9'
    ||| c == '_'
    ||| c == '.'
}

/// Whether `dir` is a drive without a directory, such as `C:`, to a platform
/// that has drives.
pub open spec fn is_bare_drive(dir: Seq<char>) -> bool {
    dir.len() == 2 && dir[1] == ':'
}

/// Whether `dir` begins like a path that Windows takes word for word.
pub open spec fn is_verbatim(dir: Seq<char>) -> bool {
    dir.len() >= 4 && dir[0] == '\\' && dir[1] == '\\' && dir[2] == '?' && dir[3] == '\\'
}

/// Whether `path` leads to `file` in the directory `dir`. The file's name ends
/// the path, and the directory stands in front of it as it is, unless it is a
/// verbatim one. Between the two the platform puts its separator, `/` or `\`,
/// where `dir` does not end in one; a directory that is empty or a bare drive
/// needs none.
pub open spec fn leads_to(path: Seq<char>, dir: Seq<char>, file: Seq<char>) -> bool {
    &&& file.is_suffix_of(path)
    &&& dir.len() == 0 ==> path == file
    &&& dir.len() > 0 && !is_verbatim(dir) ==> if dir.last() == '/' {
        path == dir + file
    } else if dir.last() == '\\' {
        path == dir + file || path == dir + "/"@ + file
    } else {
        ||| path == dir + "/"@ + file
        ||| path == dir + "\\"@ + file
        ||| is_bare_drive(dir) && path == dir + file
    }
}

fn read_text_setting(value: Option<String>, default: &str) -> (text: String)
    ensures
        text@ == text_setting(value.deep_view(), default@),
{
    match value {
        Some(text) => text,
        None => default.to_string(),
    }
}

fn read_count_setting(value: Option<String>, max: u64, default: u64) -> (n: u64)
    requires
        0 < default <= max,
    ensures
        n == count_setting(value.deep_view(), max as nat, default as nat),
        0 < n <= max,
{
    if let Some(text) = value {
        if let Some(n) = parse_decimal(text.as_str(), max) {
            if n > 0 {
                return n;
            }
        }
    }
    default
}

/// Adjoins a file name to a directory with `std::path::Path::join`, by the rule
/// of the platform. The contract claims what Unix and Windows have in common,
/// [`leads_to`]; which separator is put in is left to the platform, and so is
/// what Windows makes of a verbatim directory, which it brings into normal form.
#[verifier::external_body]
fn join_path(dir: &str, file: &str) -> (path: String)
    requires
        is_file_name(file@),
    ensures
        leads_to(path@, dir@, file@),
{
    std::path::Path::new(dir).join(file).to_string_lossy().into_owned()
}

impl Config {
    /// The counts that a bot works with are positive.
    pub open spec fn well_formed(&self) -> bool {
        self.max_posts > 0 && self.check_interval > 0
    }

    /// Settles the settings, given what the environment sets: the token, and
    /// the values of `FEED_URL`, `MAX_POSTS`, `CHECK_INTERVAL_SECS` and
    /// `STATE_DIR` where they are set.
    pub fn from_env(
        bot_token: String,
        feed_url: Option<String>,
        max_posts: Option<String>,
        check_interval: Option<String>,
        state_dir: Option<String>,
    ) -> (config: Config)
        ensures
            config.well_formed(),
            config.deep_view() == (ConfigView {
                bot_token: bot_token@,
                feed_url: text_setting(feed_url.deep_view(), DEFAULT_FEED@),
                max_posts: count_setting(
                    max_posts.deep_view(),
                    usize::MAX as nat,
                    DEFAULT_MAX_POSTS as nat,
                ) as usize,
                check_interval: count_setting(
                    check_interval.deep_view(),
                    u64::MAX as nat,
                    DEFAULT_CHECK_INTERVAL_SECS as nat,
                ) as u64,
                state_dir: text_setting(state_dir.deep_view(), DEFAULT_STATE_DIR@),
            }),
    {
        let max_posts: u64 = read_count_setting(
            max_posts,
            usize::MAX as u64,
            DEFAULT_MAX_POSTS as u64,
        );
        let check_interval: u64 = read_count_setting(
            check_interval,
            u64::MAX,
            DEFAULT_CHECK_INTERVAL_SECS,
        );
        Config {
            bot_token,
            feed_url: read_text_setting(feed_url, DEFAULT_FEED),
            max_posts: max_posts as usize,
            check_interval,
            state_dir: read_text_setting(state_dir, DEFAULT_STATE_DIR),
        }
    }

    /// Where the id of the newest announced story is kept.
    pub fn tracker_path(&self) -> (path: String)
        ensures
            leads_to(path@, self.state_dir@, TRACKER_FILE@),
    {
        proof {
            lemma_state_files_are_file_names();
        }
        join_path(self.state_dir.as_str(), TRACKER_FILE)
    }

    /// Where the subscribed chats are kept.
    pub fn subscriber_path(&self) -> (path: String)
        ensures
            leads_to(path@, self.state_dir@, SUBSCRIBER_FILE@),
    {
        proof {
            lemma_state_files_are_file_names();
        }
        join_path(self.state_dir.as_str(), SUBSCRIBER_FILE)
    }
}

proof fn lemma_state_files_are_file_names()
    ensures
        is_file_name(TRACKER_FILE@),
        is_file_name(SUBSCRIBER_FILE@),
{
    reveal_strlit("last_seen.json");
    reveal_strlit("subscribers.json");
}

/// The two state files of a configuration are different files.
pub proof fn law_state_files_differ(tracker: Seq<char>, subscribers: Seq<char>, dir: Seq<char>)
    requires
        leads_to(tracker, dir, TRACKER_FILE@),
        leads_to(subscribers, dir, SUBSCRIBER_FILE@),
    ensures
        tracker != subscribers,
{
    reveal_strlit("last_seen.json");
    reveal_strlit("subscribers.json");
    assert(tracker[tracker.len() - 6] == TRACKER_FILE@[8]);
    assert(subscribers[subscribers.len() - 6] == SUBSCRIBER_FILE@[10]);
}

/// A text that is set is taken as it is, and only one that is not set gives way
/// to the default.
pub proof fn law_set_texts_are_taken(text: Seq<char>, default: Seq<char>)
    ensures
        text_setting(Some(text), default) == text,
        text_setting(None, default) == default,
{
}

/// A count that is set to a positive number within the bound is that number;
/// zero, a number above the bound, and no setting give the default.
pub proof fn law_set_counts_are_taken(n: nat, max: nat, default: nat)
    ensures
        0 < n <= max ==> count_setting(Some(decimal(n)), max, default) == n,
        n == 0 || n > max ==> count_setting(Some(decimal(n)), max, default) == default,
        count_setting(None, max, default) == default,
{
    if n <= max {
        law_decimal_round_trip(n, max);
    } else {
        law_numbers_above_the_bound_are_refused(n, max);
    }
}

/// Whatever a count is set to, it comes out as the number that the setting
/// writes or, where it writes none or zero, as the default.
pub proof fn law_counts_follow_the_text(text: Seq<char>, max: nat, default: nat)
    ensures
        match parsed_decimal(text, max) {
            Some(n) => count_setting(Some(text), max, default) == if n == 0 {
                default
            } else {
                n
            },
            None => count_setting(Some(text), max, default) == default,
        },
{
}

/// In a directory that is not empty, does not end in a separator and is no path
/// of its own kind to Windows, the path of a state file is the directory, one
/// separator and the file's name.
pub proof fn law_state_files_lie_in_the_directory(path: Seq<char>, dir: Seq<char>, file: Seq<char>)
    requires
        leads_to(path, dir, file),
        dir.len() > 0,
        dir.last() != '/',
        dir.last() != '\\',
        dir[0] != '\\',
        dir.len() != 2 || dir[1] != ':',
    ensures
        path.len() == dir.len() + 1 + file.len(),
        path.take(dir.len() as int) == dir,
        path[dir.len() as int] == '/' || path[dir.len() as int] == '\\',
        path.skip(dir.len() + 1int) == file,
{
    reveal_strlit("/");
    reveal_strlit("\\");
    assert(path.take(dir.len() as int) =~= dir);
    assert(path.skip(dir.len() + 1int) =~= file);
}

/// What is stated of a configuration is stated of its fields.
pub proof fn law_config_view(config: Config)
    ensures
        config.deep_view().bot_token == config.bot_token@,
        config.deep_view().feed_url == config.feed_url@,
        config.deep_view().max_posts == config.max_posts,
        config.deep_view().check_interval == config.check_interval,
        config.deep_view().state_dir == config.state_dir@,
        config.well_formed() <==> config.max_posts != 0 && config.check_interval != 0,
{
}

/// A configuration is what the environment sets, setting by setting: none
/// changes another, and where one is not set its default stands.
pub proof fn law_settings_are_independent(
    bot_token: String,
    feed_url: Option<String>,
    max_posts: Option<String>,
    check_interval: Option<String>,
    state_dir: Option<String>,
    config: Config,
)
    requires
        call_ensures(
            Config::from_env,
            (bot_token, feed_url, max_posts, check_interval, state_dir),
            config,
        ),
    ensures
        config.bot_token@ == bot_token@,
        feed_url matches Some(text) ==> config.feed_url@ == text@,
        feed_url is None ==> config.feed_url@
            == "https://feeds.bbci.co.uk/news/technology/rss.xml"@,
        state_dir matches Some(text) ==> config.state_dir@ == text@,
        state_dir is None ==> config.state_dir@ == "state"@,
        max_posts is None ==> config.max_posts == 3,
        max_posts matches Some(text) ==> config.max_posts == (match parsed_decimal(
            text@,
            usize::MAX as nat,
        ) {
            Some(n) => if n == 0 {
                3
            } else {
                n
            },
            None => 3,
        }),
        check_interval is None ==> config.check_interval == 300,
        check_interval matches Some(text) ==> config.check_interval == (match parsed_decimal(
            text@,
            u64::MAX as nat,
        ) {
            Some(n) => if n == 0 {
                300
            } else {
                n
            },
            None => 300,
        }),
{
}

/// A copy of a configuration is the same configuration.
pub proof fn law_config_copy(config: Config, copy: Config)
    requires
        call_ensures(Config::clone, (&config,), copy),
    ensures
        copy == config,
{
}

/// The path of each state file ends in its name. In a directory that is empty
/// it is the name alone, and behind a closing slash no other one is put, unless
/// the directory begins as one does that Windows takes word for word.
pub proof fn law_state_paths(config: Config, tracker: String, subscribers: String)
    requires
        call_ensures(Config::tracker_path, (&config,), tracker),
        call_ensures(Config::subscriber_path, (&config,), subscribers),
    ensures
        tracker@ != subscribers@,
        tracker@.len() >= 14,
        tracker@.skip(tracker@.len() - 14) == "last_seen.json"@,
        subscribers@.len() >= 16,
        subscribers@.skip(subscribers@.len() - 16) == "subscribers.json"@,
        config.state_dir@.len() == 0 ==> tracker@ == "last_seen.json"@ && subscribers@
            == "subscribers.json"@,
        config.state_dir@.len() > 0 && config.state_dir@.last() == '/' && config.state_dir@[0]
            != '\\' ==> tracker@ == config.state_dir@ + "last_seen.json"@ && subscribers@ == config.state_dir@
            + "subscribers.json"@,
{
    reveal_strlit("last_seen.json");
    reveal_strlit("subscribers.json");
    law_state_files_differ(tracker@, subscribers@, config.state_dir@);
}

} // verus!
