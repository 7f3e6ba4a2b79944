use vstd::prelude::*;

use crate::action::joined;
use crate::channels::Following;
use crate::config::ChannelConfig;
use crate::search::{
    event_fetches, event_joins, event_spec, fetch_view, finish_spec, toggle_fetches, toggle_spec,
    well_formed, EventOutcome, Key, SearchView, SearchWidget,
};
use crate::text::views;

verus! {

/// The lines shown when the followed channels could not be fetched.
pub open spec fn scopes_message() -> Seq<Seq<char>> {
    seq![
        "Failed to get the list of streamers you currently follow."@,
        "Either you have incorrect scopes in your token, or the API is down."@,
        "To get the correct scopes, see the default config at the link below:"@,
        "https://github.com/Xithrius/twitch-tui/blob/main/default-config.toml#L8-L13"@,
        ""@,
        "Hit ESC to dismiss this error."@,
    ]
}

/// The lines shown when the followed channels could not be fetched.
pub fn incorrect_scopes_error_message() -> (r: Vec<String>)
    ensures
        views(r@) == scopes_message(),
{
    broadcast use vstd::string::group_string_axioms;

    let mut r: Vec<String> = Vec::new();
    r.push("Failed to get the list of streamers you currently follow.".to_string());
    r.push("Either you have incorrect scopes in your token, or the API is down.".to_string());
    r.push("To get the correct scopes, see the default config at the link below:".to_string());
    r.push("https://github.com/Xithrius/twitch-tui/blob/main/default-config.toml#L8-L13".to_string());
    r.push("".to_string());
    r.push("Hit ESC to dismiss this error.".to_string());
    assert(views(r@) =~= scopes_message());
    r
}

/// The list of followed channels: a search widget over them, and the settings whose
/// channel it changes when one is picked.
pub struct FollowingWidget {
    config: ChannelConfig,
    following: Following,
    search_widget: SearchWidget,
}

impl View for FollowingWidget {
    type V = SearchView;

    closed spec fn view(&self) -> SearchView {
        self.search_widget@
    }
}

impl FollowingWidget {
    pub fn new(config: ChannelConfig) -> (r: Self)
        ensures
            r.config() == config,
            r.following_spec().config().channel@ == config.channel@,
            r.following_spec().config().only_get_live_followed_channels
                == config.only_get_live_followed_channels,
            r.following_spec().list().total == 0,
            r.following_spec().list().data@.len() == 0,
            r@ == (SearchView {
                query: seq![],
                candidates: seq![],
                selected: None,
                focused: false,
                loading: false,
                ticket: 0,
                error: None,
                error_message: scopes_message(),
            }),
            well_formed(r@),
    {
        let item_getter = Following::new(config.duplicate());
        let search_widget = SearchWidget::new(incorrect_scopes_error_message());
        FollowingWidget { config, following: item_getter, search_widget }
    }

    pub closed spec fn config(&self) -> ChannelConfig {
        self.config
    }

    /// The source of the listed channels.
    pub closed spec fn following_spec(&self) -> Following {
        self.following
    }

    /// The settings, with the channel last picked.
    pub fn settings(&self) -> (r: &ChannelConfig)
        ensures
            *r == self.config(),
    {
        &self.config
    }

    /// The search widget that lists the channels.
    pub fn search_widget(&self) -> (r: &SearchWidget)
        ensures
            r@ == self@,
    {
        &self.search_widget
    }

    /// Where the candidates come from.
    pub fn following(&self) -> (r: &Following)
        ensures
            *r == self.following_spec(),
    {
        &self.following
    }

    pub fn is_focused(&self) -> (r: bool)
        ensures
            r == self@.focused,
    {
        self.search_widget.is_focused()
    }

    /// Turns focus on or off; see `SearchWidget::toggle_focus`.
    pub fn toggle_focus(&mut self) -> (t: Option<u64>)
        requires
            well_formed(old(self)@),
        ensures
            final(self)@ == toggle_spec(old(self)@),
            t == (if toggle_fetches(old(self)@) {
                Some(final(self)@.ticket)
            } else {
                None
            }),
            final(self).config() == old(self).config(),
            final(self).following_spec() == old(self).following_spec(),
            well_formed(final(self)@),
    {
        self.search_widget.toggle_focus()
    }

    /// Handles one event. A picked channel comes back in the action, for the host to
    /// apply; the widget's own settings stay as they were.
    pub fn event(&mut self, key: Key) -> (r: EventOutcome)
        requires
            well_formed(old(self)@),
        ensures
            final(self)@ == event_spec(old(self)@, key),
            joined(r.action) == event_joins(old(self)@, key),
            r.fetch == (if event_fetches(old(self)@, key) {
                Some(final(self)@.ticket)
            } else {
                None
            }),
            final(self).config() == old(self).config(),
            final(self).following_spec() == old(self).following_spec(),
            well_formed(final(self)@),
    {
        self.search_widget.event(key)
    }

    /// Applies the outcome of a fetch; see `SearchWidget::finish_fetch`.
    pub fn finish_fetch(&mut self, ticket: u64, result: Result<Vec<String>, String>)
        requires
            well_formed(old(self)@),
        ensures
            final(self)@ == finish_spec(
                old(self)@,
                ticket,
                fetch_view(result),
            ),
            final(self).config() == old(self).config(),
            final(self).following_spec() == old(self).following_spec(),
            well_formed(final(self)@),
    {
        self.search_widget.finish_fetch(ticket, result)
    }
}

} // verus!
