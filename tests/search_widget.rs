use twitch_tui::action::{TerminalAction, TwitchAction};
use twitch_tui::channels::{
    followed_url, FollowingChannelList, FollowingUser, LiveChannelList, StreamingUser,
};
use twitch_tui::config::ChannelConfig;
use twitch_tui::following::{incorrect_scopes_error_message, FollowingWidget};
use twitch_tui::mods::{moderators_url, ModQuery};
use twitch_tui::search::{Key, SearchWidget};

fn names(v: &[&str]) -> Vec<String> {
    v.iter().map(|s| s.to_string()).collect()
}

/// A source that counts how often it is asked for items.
struct CountingSource {
    calls: usize,
    items: Vec<String>,
}

impl CountingSource {
    fn fetch(&mut self) -> Result<Vec<String>, String> {
        self.calls += 1;
        Ok(self.items.clone())
    }
}

fn loaded(items: &[&str]) -> SearchWidget {
    let mut w = SearchWidget::new(names(&["failed"]));
    let t = w.toggle_focus().expect("first focus fetches");
    w.finish_fetch(t, Ok(names(items)));
    w
}

#[test]
fn new_widget_is_empty_and_unfocused() {
    let w = SearchWidget::new(names(&["oops"]));
    assert!(!w.is_focused());
    assert!(!w.is_loading());
    assert!(w.candidates().is_empty());
    assert!(w.query().is_empty());
    assert_eq!(w.selected(), None);
    assert_eq!(w.error(), &None);
    assert_eq!(w.error_message(), &names(&["oops"]));
}

#[test]
fn toggling_while_loading_starts_no_second_fetch() {
    let mut source = CountingSource { calls: 0, items: names(&["a", "b"]) };
    let mut w = SearchWidget::new(vec![]);
    let mut pending = Vec::new();
    for _ in 0..5 {
        if let Some(t) = w.toggle_focus() {
            pending.push(t);
        }
    }
    for t in &pending {
        let r = source.fetch();
        w.finish_fetch(*t, r);
    }
    assert_eq!(source.calls, 1);
    assert_eq!(w.candidates(), &names(&["a", "b"]));
    assert!(!w.is_loading());
}

#[test]
fn focus_with_candidates_does_not_fetch() {
    let mut w = loaded(&["a"]);
    w.event(Key::Esc);
    assert_eq!(w.toggle_focus(), None);
    assert!(w.is_focused());
}

#[test]
fn selection_follows_its_key_after_refresh() {
    let mut w = loaded(&["a", "b", "c"]);
    w.event(Key::Down);
    w.event(Key::Down);
    assert_eq!(w.selected(), Some(1));
    let t = w.event(Key::Refresh).fetch.expect("refresh fetches");
    w.finish_fetch(t, Ok(names(&["x", "b", "a"])));
    assert_eq!(w.selected(), Some(1));
    let t = w.event(Key::Refresh).fetch.expect("refresh fetches");
    w.finish_fetch(t, Ok(names(&["z", "y", "x", "b"])));
    assert_eq!(w.selected(), Some(3));
}

#[test]
fn selection_is_cleared_when_its_key_is_gone() {
    let mut w = loaded(&["a", "b"]);
    w.event(Key::Down);
    assert_eq!(w.selected(), Some(0));
    let t = w.event(Key::Refresh).fetch.unwrap();
    w.finish_fetch(t, Ok(names(&["c"])));
    assert_eq!(w.selected(), None);
    assert_eq!(w.candidates(), &names(&["c"]));
}

#[test]
fn failure_keeps_candidates_and_success_clears_error() {
    let mut w = loaded(&["a", "b"]);
    w.event(Key::Down);
    let t = w.event(Key::Refresh).fetch.unwrap();
    w.finish_fetch(t, Err("network down".to_string()));
    assert_eq!(w.candidates(), &names(&["a", "b"]));
    assert_eq!(w.error(), &Some("network down".to_string()));
    assert_eq!(w.selected(), Some(0));
    let t = w.event(Key::Refresh).fetch.unwrap();
    w.finish_fetch(t, Ok(names(&["c", "d", "e"])));
    assert_eq!(w.error(), &None);
    assert_eq!(w.candidates(), &names(&["c", "d", "e"]));
}

#[test]
fn stale_result_is_discarded() {
    let mut w = loaded(&["a"]);
    let old = w.event(Key::Refresh).fetch.unwrap();
    let new = w.event(Key::Refresh).fetch.unwrap();
    assert_ne!(old, new);
    w.finish_fetch(old, Ok(names(&["stale"])));
    assert!(w.is_loading());
    assert_eq!(w.candidates(), &names(&["a"]));
    w.finish_fetch(new, Ok(names(&["fresh"])));
    assert_eq!(w.candidates(), &names(&["fresh"]));
    w.finish_fetch(new, Ok(names(&["again"])));
    assert_eq!(w.candidates(), &names(&["fresh"]));
}

#[test]
fn navigation_clamps_without_wrapping() {
    let mut w = loaded(&["a", "b", "c"]);
    w.event(Key::Up);
    assert_eq!(w.selected(), Some(0));
    w.event(Key::Up);
    assert_eq!(w.selected(), Some(0));
    for _ in 0..10 {
        w.event(Key::Down);
        assert!(w.selected().unwrap() < w.candidates().len());
    }
    assert_eq!(w.selected(), Some(2));
}

#[test]
fn navigation_on_empty_list_selects_nothing() {
    let mut w = loaded(&[]);
    w.event(Key::Down);
    w.event(Key::Up);
    assert_eq!(w.selected(), None);
}

#[test]
fn typing_edits_the_query() {
    let mut w = loaded(&[]);
    w.event(Key::Char('a'));
    w.event(Key::Char('b'));
    w.event(Key::Backspace);
    w.event(Key::Char('c'));
    assert_eq!(w.query(), &vec!['a', 'c']);
    w.event(Key::Backspace);
    w.event(Key::Backspace);
    w.event(Key::Backspace);
    assert!(w.query().is_empty());
}

#[test]
fn confirm_emits_join_and_unfocuses() {
    let mut w = loaded(&["a", "b"]);
    let none = w.event(Key::Enter);
    assert_eq!(none.action, None);
    assert!(w.is_focused());
    w.event(Key::Down);
    w.event(Key::Down);
    let out = w.event(Key::Enter);
    assert_eq!(
        out.action,
        Some(TerminalAction::Enter(TwitchAction::Join("b".to_string())))
    );
    assert!(!w.is_focused());
}

#[test]
fn unfocused_widget_ignores_events() {
    let mut w = SearchWidget::new(vec![]);
    let out = w.event(Key::Char('x'));
    assert_eq!(out.action, None);
    assert_eq!(out.fetch, None);
    assert!(w.query().is_empty());
}

#[test]
fn escape_dismisses_error_and_keeps_state() {
    let mut w = SearchWidget::new(vec![]);
    let t = w.toggle_focus().unwrap();
    w.finish_fetch(t, Err("bad scopes".to_string()));
    w.event(Key::Char('q'));
    w.event(Key::Esc);
    assert!(!w.is_focused());
    assert_eq!(w.error(), &None);
    assert_eq!(w.query(), &vec!['q']);
}

#[test]
fn following_widget_reports_picked_channel() {
    let config = ChannelConfig::new("home".to_string(), false);
    let mut w = FollowingWidget::new(config);
    assert!(!w.is_focused());
    let t = w.toggle_focus().expect("fetch on first focus");
    assert!(w.is_focused());
    w.finish_fetch(t, Ok(names(&["one", "two"])));
    w.event(Key::Down);
    let out = w.event(Key::Enter);
    assert_eq!(out.action, Some(TerminalAction::Enter(TwitchAction::Join("one".to_string()))));
    assert_eq!(w.settings().channel, "home");
    let mut host = ChannelConfig::new("home".to_string(), true);
    host.apply(out.action.as_ref().unwrap());
    assert_eq!(host.channel, "one");
    assert!(host.only_get_live_followed_channels);
    assert!(!w.settings().only_get_live_followed_channels);
    assert_eq!(w.search_widget().error_message(), &incorrect_scopes_error_message());
}

#[test]
fn scopes_message_has_six_lines() {
    let m = incorrect_scopes_error_message();
    assert_eq!(m.len(), 6);
    assert_eq!(m[5], "Hit ESC to dismiss this error.");
    assert_eq!(m[4], "");
}

#[test]
fn streaming_user_line_is_padded_and_cut() {
    let u = StreamingUser {
        user_login: "abc".to_string(),
        game_name: "Chess".to_string(),
        title: "hello".to_string(),
    };
    assert_eq!(u.display(), "abc             : [Chess]                  hello");
    let long = StreamingUser {
        user_login: "a_very_long_login_name".to_string(),
        game_name: "An Extremely Long Game Name Here".to_string(),
        title: "t".to_string(),
    };
    assert_eq!(
        long.display(),
        format!("{:<16.16}: {:<24} {}", "a_very_long_login_name", format!("[{:.22}]", "An Extremely Long Game Name Here"), "t")
    );
    assert_eq!(long.display(), "a_very_long_logi: [An Extremely Long Game] t");
}

#[test]
fn live_list_becomes_following_list() {
    let live = LiveChannelList::new(
        vec![
            StreamingUser {
                user_login: "x".to_string(),
                game_name: "g".to_string(),
                title: "t".to_string(),
            },
            StreamingUser {
                user_login: "y".to_string(),
                game_name: "".to_string(),
                title: "".to_string(),
            },
        ],
        Some("next".to_string()),
    );
    let list = FollowingChannelList::from_live(live);
    assert_eq!(list.total, 2);
    assert_eq!(list.pagination.cursor, Some("next".to_string()));
    assert_eq!(list.data[0].broadcaster_login, format!("{:<16}: {:<24} {}", "x", "[g]", "t"));
    assert_eq!(list.data[1].broadcaster_login, format!("{:<16}: {:<24} ", "y", "[]"));
    let from = FollowingUser::from_streaming(StreamingUser {
        user_login: "x".to_string(),
        game_name: "g".to_string(),
        title: "t".to_string(),
    });
    assert_eq!(from.broadcaster_login, list.data[0].broadcaster_login);
}

#[test]
fn following_items_are_logins() {
    let list = FollowingChannelList::new(
        2,
        vec![
            FollowingUser { broadcaster_login: "ab".to_string() },
            FollowingUser { broadcaster_login: "cd".to_string() },
        ],
        None,
    );
    assert_eq!(twitch_tui::channels::Following::items(&list), names(&["ab", "cd"]));
    assert_eq!(list.data[1].display(), "cd");
    assert!(FollowingChannelList::empty().data.is_empty());
}

#[test]
fn following_reads_live_setting() {
    let f = twitch_tui::channels::Following::new(ChannelConfig::new("c".to_string(), true));
    assert!(f.only_live());
}

#[test]
fn followed_urls() {
    assert_eq!(
        followed_url("42", true),
        "https://api.twitch.tv/helix/streams/followed?user_id=42&first=100"
    );
    assert_eq!(
        followed_url("42", false),
        "https://api.twitch.tv/helix/channels/followed?user_id=42&first=100"
    );
}

#[test]
fn mod_query_parameters() {
    let q = ModQuery::new("u1".to_string(), "b2".to_string());
    assert_eq!(
        q.query_pairs(),
        vec![
            ("user_id".to_string(), "u1".to_string()),
            ("broadcaster_id".to_string(), "b2".to_string())
        ]
    );
    assert_eq!(
        moderators_url("https://api.twitch.tv/helix"),
        "https://api.twitch.tv/helix/moderation/moderators"
    );
}
