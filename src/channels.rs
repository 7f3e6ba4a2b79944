use vstd::prelude::*;

use crate::config::ChannelConfig;

verus! {

/// A channel that the user follows.
#[derive(Debug, Clone)]
pub struct FollowingUser {
    pub broadcaster_login: String,
}

/// A followed channel that is live right now.
#[derive(Debug, Clone)]
pub struct StreamingUser {
    pub user_login: String,
    pub game_name: String,
    pub title: String,
}

/// Where the next page of a listing starts.
#[derive(Debug, Clone)]
pub struct Pagination {
    pub cursor: Option<String>,
}

/// One page of followed channels.
#[derive(Debug, Clone)]
pub struct FollowingChannelList {
    pub total: u64,
    pub data: Vec<FollowingUser>,
    pub pagination: Pagination,
}

/// One page of followed channels that are live.
#[derive(Debug, Clone)]
pub struct LiveChannelList {
    pub data: Vec<StreamingUser>,
    pub pagination: Pagination,
}

/// The source of the followed channels that a search widget lists.
#[derive(Debug)]
pub struct Following {
    config: ChannelConfig,
    list: FollowingChannelList,
}

/// At most the first `n` characters of `s`.
pub open spec fn truncate(s: Seq<char>, n: nat) -> Seq<char> {
    if s.len() <= n {
        s
    } else {
        s.take(n as int)
    }
}

/// `s` followed by as many spaces as make it `w` characters long.
pub open spec fn pad_right(s: Seq<char>, w: nat) -> Seq<char> {
    if s.len() >= w {
        s
    } else {
        s + Seq::new((w - s.len()) as nat, |i: int| ' ')
    }
}

/// The line that lists a live channel: the login in a column of sixteen characters, the
/// bracketed game (cut at twenty-two characters) in a column of twenty-four, then the title.
pub open spec fn streaming_line(login: Seq<char>, game: Seq<char>, title: Seq<char>) -> Seq<
    char,
> {
    pad_right(truncate(login, 16), 16) + seq![':', ' '] + pad_right(
        seq!['['] + truncate(game, 22) + seq![']'],
        24,
    ) + seq![' '] + title
}

pub open spec fn logins(data: Seq<FollowingUser>) -> Seq<Seq<char>> {
    data.map_values(|u: FollowingUser| u.broadcaster_login@)
}

pub open spec fn streaming_lines(data: Seq<StreamingUser>) -> Seq<Seq<char>> {
    data.map_values(|u: StreamingUser| streaming_line(u.user_login@, u.game_name@, u.title@))
}

pub open spec fn followed_url_spec(user_id: Seq<char>, live: bool) -> Seq<char> {
    (if live {
        "https://api.twitch.tv/helix/streams/followed?user_id="@
    } else {
        "https://api.twitch.tv/helix/channels/followed?user_id="@
    }) + user_id + "&first=100"@
}

fn truncated(s: &str, n: usize) -> (r: String)
    ensures
        r@ == truncate(s@, n as nat),
{
    broadcast use vstd::string::group_string_axioms;

    let len = s.unicode_len();
    if len <= n {
        s.to_string()
    } else {
        s.substring_char(0, n).to_string()
    }
}

fn pad_to(r: &mut String, len: usize, w: usize)
    requires
        old(r)@.len() == len,
    ensures
        final(r)@ == pad_right(old(r)@, w as nat),
{
    let mut k = len;
    while k < w
        invariant
            k >= len,
            k == len || k <= w,
            r@.len() == k,
            r@ =~= old(r)@ + Seq::new((k - len) as nat, |i: int| ' '),
        decreases w - k,
    {
        proof {
            reveal_strlit(" ");
        }
        r.append(" ");
        k = k + 1;
        assert(r@ =~= old(r)@ + Seq::new((k - len) as nat, |i: int| ' '));
    }
    if len >= w {
        assert(Seq::new((k - len) as nat, |i: int| ' ') =~= Seq::<char>::empty());
        assert(r@ =~= old(r)@);
    }
}

impl FollowingUser {
    /// The text that lists this channel: its login.
    pub fn display(&self) -> (r: String)
        ensures
            r@ == self.broadcaster_login@,
    {
        self.broadcaster_login.clone()
    }

    /// A followed channel listed by the line of a live one.
    pub fn from_streaming(value: StreamingUser) -> (r: Self)
        ensures
            r.broadcaster_login@ == streaming_line(
                value.user_login@,
                value.game_name@,
                value.title@,
            ),
    {
        FollowingUser { broadcaster_login: value.display() }
    }
}

impl StreamingUser {
    /// The line that lists this live channel.
    pub fn display(&self) -> (r: String)
        ensures
            r@ == streaming_line(self.user_login@, self.game_name@, self.title@),
    {
        broadcast use vstd::string::group_string_axioms;

        proof {
            reveal_strlit(": ");
            reveal_strlit(" ");
            reveal_strlit("[");
            reveal_strlit("]");
        }
        let login = truncated(self.user_login.as_str(), 16);
        let mut r = login;
        let n = if self.user_login.as_str().unicode_len() <= 16 {
            self.user_login.as_str().unicode_len()
        } else {
            16
        };
        pad_to(&mut r, n, 16);
        let mut game = "[".to_string();
        let g = truncated(self.game_name.as_str(), 22);
        let gn = if self.game_name.as_str().unicode_len() <= 22 {
            self.game_name.as_str().unicode_len()
        } else {
            22
        };
        game.append(g.as_str());
        game.append("]");
        pad_to(&mut game, gn + 2, 24);
        r.append(": ");
        r.append(game.as_str());
        r.append(" ");
        r.append(self.title.as_str());
        proof {
            assert(": "@ =~= seq![':', ' ']);
        }
        r
    }
}

impl FollowingChannelList {
    /// A page with the given total, channels and continuation cursor.
    pub fn new(total: u64, data: Vec<FollowingUser>, cursor: Option<String>) -> (r: Self)
        ensures
            r.total == total,
            r.data@ == data@,
            r.pagination.cursor == cursor,
    {
        FollowingChannelList { total, data, pagination: Pagination { cursor } }
    }

    /// An empty page.
    pub fn empty() -> (r: Self)
        ensures
            r.total == 0,
            r.data@.len() == 0,
            r.pagination.cursor is None,
    {
        FollowingChannelList { total: 0, data: Vec::new(), pagination: Pagination { cursor: None } }
    }

    /// The page of followed channels that a page of live ones lists: each channel by its
    /// live line, with the count of them as the total.
    pub fn from_live(val: LiveChannelList) -> (r: Self)
        ensures
            r.total as int == val.data@.len(),
            logins(r.data@) == streaming_lines(val.data@),
            r.pagination == val.pagination,
    {
        let n = val.data.len();
        let mut data: Vec<FollowingUser> = Vec::new();
        let mut i: usize = 0;
        while i < n
            invariant
                n == val.data@.len(),
                i <= n,
                logins(data@) =~= streaming_lines(val.data@.take(i as int)),
            decreases n - i,
        {
            let u = FollowingUser { broadcaster_login: val.data[i].display() };
            let ghost prev = data@;
            data.push(u);
            proof {
                let t = val.data@.take(i + 1);
                assert(t =~= val.data@.take(i as int).push(val.data@[i as int]));
                assert(streaming_lines(t) =~= streaming_lines(val.data@.take(i as int)).push(
                    u.broadcaster_login@,
                ));
                assert(logins(data@) =~= logins(prev).push(u.broadcaster_login@));
            }
            i = i + 1;
        }
        assert(val.data@.take(n as int) =~= val.data@);
        FollowingChannelList { total: n as u64, data, pagination: val.pagination }
    }
}

impl LiveChannelList {
    /// A page with the given live channels and continuation cursor.
    pub fn new(data: Vec<StreamingUser>, cursor: Option<String>) -> (r: Self)
        ensures
            r.data@ == data@,
            r.pagination.cursor == cursor,
    {
        LiveChannelList { data, pagination: Pagination { cursor } }
    }
}

/// The address that lists the channels `user_id` follows (only the live ones when `live`),
/// a hundred to a page.
pub fn followed_url(user_id: &str, live: bool) -> (r: String)
    ensures
        r@ == followed_url_spec(user_id@, live),
{
    let mut r = if live {
        "https://api.twitch.tv/helix/streams/followed?user_id=".to_string()
    } else {
        "https://api.twitch.tv/helix/channels/followed?user_id=".to_string()
    };
    proof {
        broadcast use vstd::string::group_string_axioms;
    }
    r.append(user_id);
    r.append("&first=100");
    r
}

impl Following {
    pub fn new(config: ChannelConfig) -> (r: Self)
        ensures
            r.config() == config,
            r.list().total == 0,
            r.list().data@.len() == 0,
            r.list().pagination.cursor is None,
    {
        Following { config, list: FollowingChannelList::empty() }
    }

    pub closed spec fn config(&self) -> ChannelConfig {
        self.config
    }

    pub closed spec fn list(&self) -> FollowingChannelList {
        self.list
    }

    /// Whether only the channels that are live are to be fetched.
    pub fn only_live(&self) -> (r: bool)
        ensures
            r == self.config().only_get_live_followed_channels,
    {
        self.config.only_get_live_followed_channels
    }

    /// The candidates that a fetched page gives: the listed text of each channel, in order.
    pub fn items(list: &FollowingChannelList) -> (r: Vec<String>)
        ensures
            crate::text::views(r@) == logins(list.data@),
    {
        let n = list.data.len();
        let mut r: Vec<String> = Vec::new();
        let mut i: usize = 0;
        while i < n
            invariant
                n == list.data@.len(),
                i <= n,
                crate::text::views(r@) =~= logins(list.data@.take(i as int)),
            decreases n - i,
        {
            let d = list.data[i].display();
            let ghost prev = r@;
            r.push(d);
            proof {
                let t = list.data@.take(i + 1);
                assert(t =~= list.data@.take(i as int).push(list.data@[i as int]));
                assert(logins(t) =~= logins(list.data@.take(i as int)).push(d@));
                assert(crate::text::views(r@) =~= crate::text::views(prev).push(d@));
            }
            i = i + 1;
        }
        assert(list.data@.take(n as int) =~= list.data@);
        r
    }
}

} // verus!
