use std::str::FromStr;

use vstd::prelude::*;

use crate::text::{
    is_word, join_sp, join_words, parse_decimal, parse_usize, split_whitespace, split_ws, views,
};

verus! {

/// A moderation or channel command, with its arguments already checked.
#[derive(Debug, Clone, PartialEq, Eq)]
pub enum TwitchCommand {
    /// Clear the chat
    Clear,
    /// Ban username with an optional reason
    Ban(String, Option<String>),
    /// Timeout for username, duration in seconds, and optional reason
    Timeout(String, usize, Option<String>),
    /// Unban username
    Unban(String),
    /// Raid a username
    Raid(String),
    /// Cancel a raid
    Unraid,
    /// Followers-only chat, with an optional minimum follow time in seconds
    Followers(Option<usize>),
    FollowersOff,
    /// Slow mode, with the delay between messages in seconds
    Slow(usize),
    SlowOff,
    Subscribers,
    SubscribersOff,
    EmoteOnly,
    EmoteOnlyOff,
    Title(String),
    Category(String),
}

/// Why a command line was refused.
#[derive(Debug, Clone, PartialEq, Eq)]
pub enum ParseError {
    /// The command name (lower-cased; empty for a blank line) is unknown, or takes no
    /// arguments and was given some.
    Unsupported(String),
    /// The named command got a number of arguments that it does not take.
    InvalidArguments(String),
    /// The argument that should have been a non-negative integer.
    InvalidNumber(String),
}

/// What a command is, with its text fields as character sequences.
pub ghost enum CommandView {
    Clear,
    Ban(Seq<char>, Option<Seq<char>>),
    Timeout(Seq<char>, usize, Option<Seq<char>>),
    Unban(Seq<char>),
    Raid(Seq<char>),
    Unraid,
    Followers(Option<usize>),
    FollowersOff,
    Slow(usize),
    SlowOff,
    Subscribers,
    SubscribersOff,
    EmoteOnly,
    EmoteOnlyOff,
    Title(Seq<char>),
    Category(Seq<char>),
}

pub ghost enum ParseErrorView {
    Unsupported(Seq<char>),
    InvalidArguments(Seq<char>),
    InvalidNumber(Seq<char>),
}

pub open spec fn opt_view(o: Option<String>) -> Option<Seq<char>> {
    match o {
        Some(s) => Some(s@),
        None => None,
    }
}

/// The text that tells the user why a line was refused.
pub open spec fn message_spec(e: ParseErrorView) -> Seq<char> {
    match e {
        ParseErrorView::Unsupported(n) => "Twitch command "@ + n + " is not supported"@,
        ParseErrorView::InvalidArguments(n) => "Invalid "@ + n + " command arguments"@,
        ParseErrorView::InvalidNumber(t) => "Could not read "@ + t
            + " as a non-negative integer"@,
    }
}

impl ParseError {
    /// The text that tells the user why the line was refused.
    pub fn message(&self) -> (r: String)
        ensures
            r@ == message_spec(self@),
    {
        broadcast use vstd::string::group_string_axioms;

        let (mut r, arg, tail) = match self {
            ParseError::Unsupported(n) => ("Twitch command ".to_string(), n, " is not supported"),
            ParseError::InvalidArguments(n) => ("Invalid ".to_string(), n, " command arguments"),
            ParseError::InvalidNumber(t) => (
                "Could not read ".to_string(),
                t,
                " as a non-negative integer",
            ),
        };
        r.append(arg.as_str());
        r.append(tail);
        r
    }
}

impl View for TwitchCommand {
    type V = CommandView;

    open spec fn view(&self) -> CommandView {
        match self {
            TwitchCommand::Clear => CommandView::Clear,
            TwitchCommand::Ban(u, r) => CommandView::Ban(u@, opt_view(*r)),
            TwitchCommand::Timeout(u, d, r) => CommandView::Timeout(u@, *d, opt_view(*r)),
            TwitchCommand::Unban(u) => CommandView::Unban(u@),
            TwitchCommand::Raid(u) => CommandView::Raid(u@),
            TwitchCommand::Unraid => CommandView::Unraid,
            TwitchCommand::Followers(d) => CommandView::Followers(*d),
            TwitchCommand::FollowersOff => CommandView::FollowersOff,
            TwitchCommand::Slow(d) => CommandView::Slow(*d),
            TwitchCommand::SlowOff => CommandView::SlowOff,
            TwitchCommand::Subscribers => CommandView::Subscribers,
            TwitchCommand::SubscribersOff => CommandView::SubscribersOff,
            TwitchCommand::EmoteOnly => CommandView::EmoteOnly,
            TwitchCommand::EmoteOnlyOff => CommandView::EmoteOnlyOff,
            TwitchCommand::Title(t) => CommandView::Title(t@),
            TwitchCommand::Category(t) => CommandView::Category(t@),
        }
    }
}

impl View for ParseError {
    type V = ParseErrorView;

    open spec fn view(&self) -> ParseErrorView {
        match self {
            ParseError::Unsupported(s) => ParseErrorView::Unsupported(s@),
            ParseError::InvalidArguments(s) => ParseErrorView::InvalidArguments(s@),
            ParseError::InvalidNumber(s) => ParseErrorView::InvalidNumber(s@),
        }
    }
}

pub open spec fn parsed(r: Result<TwitchCommand, ParseError>) -> Result<
    CommandView,
    ParseErrorView,
> {
    match r {
        Ok(c) => Ok(c@),
        Err(e) => Err(e@),
    }
}

pub open spec fn bad_args(name: Seq<char>) -> Result<CommandView, ParseErrorView> {
    Err(ParseErrorView::InvalidArguments(name))
}

pub open spec fn ban_spec(args: Seq<Seq<char>>) -> Result<CommandView, ParseErrorView> {
    if args.len() == 1 {
        Ok(CommandView::Ban(args[0], None))
    } else if args.len() >= 2 {
        Ok(CommandView::Ban(args[0], Some(join_sp(args.drop_first()))))
    } else {
        bad_args("ban"@)
    }
}

pub open spec fn timeout_spec(args: Seq<Seq<char>>) -> Result<CommandView, ParseErrorView> {
    if args.len() >= 2 {
        match parse_usize(args[1]) {
            None => Err(ParseErrorView::InvalidNumber(args[1])),
            Some(d) => if args.len() == 2 {
                Ok(CommandView::Timeout(args[0], d, None))
            } else {
                Ok(CommandView::Timeout(args[0], d, Some(join_sp(args.skip(2)))))
            },
        }
    } else {
        bad_args("timeout"@)
    }
}

pub open spec fn unban_spec(args: Seq<Seq<char>>) -> Result<CommandView, ParseErrorView> {
    if args.len() == 1 {
        Ok(CommandView::Unban(args[0]))
    } else {
        bad_args("unban"@)
    }
}

pub open spec fn raid_spec(args: Seq<Seq<char>>) -> Result<CommandView, ParseErrorView> {
    if args.len() == 1 {
        Ok(CommandView::Raid(args[0]))
    } else {
        bad_args("raid"@)
    }
}

pub open spec fn followers_spec(args: Seq<Seq<char>>) -> Result<CommandView, ParseErrorView> {
    if args.len() == 0 {
        Ok(CommandView::Followers(None))
    } else if args.len() == 1 {
        match parse_usize(args[0]) {
            Some(d) => Ok(CommandView::Followers(Some(d))),
            None => Err(ParseErrorView::InvalidNumber(args[0])),
        }
    } else {
        bad_args("followers"@)
    }
}

pub open spec fn slow_spec(args: Seq<Seq<char>>) -> Result<CommandView, ParseErrorView> {
    if args.len() == 1 {
        match parse_usize(args[0]) {
            Some(d) => Ok(CommandView::Slow(d)),
            None => Err(ParseErrorView::InvalidNumber(args[0])),
        }
    } else {
        bad_args("slow"@)
    }
}

/// A command that takes no arguments: itself when there are none, else refused.
pub open spec fn bare(
    c: CommandView,
    name: Seq<char>,
    args: Seq<Seq<char>>,
) -> Result<CommandView, ParseErrorView> {
    if args.len() == 0 {
        Ok(c)
    } else {
        Err(ParseErrorView::Unsupported(name))
    }
}

/// The command that a line of words stands for: the first word names it, the rest are
/// its arguments.
pub open spec fn parse_words(ws: Seq<Seq<char>>) -> Result<CommandView, ParseErrorView> {
    if ws.len() == 0 {
        Err(ParseErrorView::Unsupported(seq![]))
    } else {
        let name = ws[0];
        let args = ws.drop_first();
        if name == "clear"@ {
            bare(CommandView::Clear, name, args)
        } else if name == "ban"@ {
            ban_spec(args)
        } else if name == "unban"@ {
            unban_spec(args)
        } else if name == "timeout"@ {
            timeout_spec(args)
        } else if name == "raid"@ {
            raid_spec(args)
        } else if name == "unraid"@ {
            bare(CommandView::Unraid, name, args)
        } else if name == "followers"@ {
            followers_spec(args)
        } else if name == "followersoff"@ {
            bare(CommandView::FollowersOff, name, args)
        } else if name == "slow"@ {
            slow_spec(args)
        } else if name == "slowoff"@ {
            bare(CommandView::SlowOff, name, args)
        } else if name == "subscribers"@ {
            bare(CommandView::Subscribers, name, args)
        } else if name == "subscribersoff"@ {
            bare(CommandView::SubscribersOff, name, args)
        } else if name == "emoteonly"@ {
            bare(CommandView::EmoteOnly, name, args)
        } else if name == "emoteonlyoff"@ {
            bare(CommandView::EmoteOnlyOff, name, args)
        } else if name == "title"@ {
            Ok(CommandView::Title(join_sp(args)))
        } else if name == "category"@ {
            Ok(CommandView::Category(join_sp(args)))
        } else {
            Err(ParseErrorView::Unsupported(name))
        }
    }
}

/// What a line that is already in lower case parses to.
pub open spec fn parse_lowered_spec(line: Seq<char>) -> Result<CommandView, ParseErrorView> {
    parse_words(split_ws(line))
}

/// The lower-case form of a text, as `str::to_lowercase` gives it.
pub uninterp spec fn lower_of(s: Seq<char>) -> Seq<char>;

/// What any line parses to: its lower-case form, read as above.
pub open spec fn parse_spec(line: Seq<char>) -> Result<CommandView, ParseErrorView> {
    parse_lowered_spec(lower_of(line))
}

/// Relies on `str::to_lowercase`: the result depends on the characters alone, and
/// an empty text stays empty.
#[verifier::external_body]
fn lowercase(s: &str) -> (r: String)
    ensures
        r@ == lower_of(s@),
        s@.len() == 0 ==> r@.len() == 0,
{
    s.to_lowercase()
}

fn invalid_arguments(name: &str) -> (r: ParseError)
    ensures
        r@ == ParseErrorView::InvalidArguments(name@),
{
    ParseError::InvalidArguments(name.to_string())
}

impl TwitchCommand {
    fn handle_ban_command(args: Vec<String>) -> (r: Result<Self, ParseError>)
        ensures
            parsed(r) == ban_spec(views(args@)),
    {
        let mut args = args;
        if args.len() == 0 {
            return Err(invalid_arguments("ban"));
        }
        let ghost all = views(args@);
        let username = args.remove(0);
        assert(views(args@) =~= all.drop_first());
        if args.len() == 0 {
            Ok(Self::Ban(username, None))
        } else {
            let reason = join_words(args.as_slice());
            Ok(Self::Ban(username, Some(reason)))
        }
    }

    fn handle_timeout_command(args: Vec<String>) -> (r: Result<Self, ParseError>)
        ensures
            parsed(r) == timeout_spec(views(args@)),
    {
        let mut args = args;
        if args.len() < 2 {
            return Err(invalid_arguments("timeout"));
        }
        let ghost all = views(args@);
        let username = args.remove(0);
        let timeout_duration = args.remove(0);
        assert(views(args@) =~= all.skip(2));
        match parse_decimal(&timeout_duration) {
            None => Err(ParseError::InvalidNumber(timeout_duration)),
            Some(duration) => {
                if args.len() == 0 {
                    Ok(Self::Timeout(username, duration, None))
                } else {
                    let reason = join_words(args.as_slice());
                    Ok(Self::Timeout(username, duration, Some(reason)))
                }
            },
        }
    }

    fn handle_unban_command(args: Vec<String>) -> (r: Result<Self, ParseError>)
        ensures
            parsed(r) == unban_spec(views(args@)),
    {
        let mut args = args;
        if args.len() != 1 {
            return Err(invalid_arguments("unban"));
        }
        let username = args.remove(0);
        Ok(Self::Unban(username))
    }

    fn handle_raid_command(args: Vec<String>) -> (r: Result<Self, ParseError>)
        ensures
            parsed(r) == raid_spec(views(args@)),
    {
        let mut args = args;
        if args.len() != 1 {
            return Err(invalid_arguments("raid"));
        }
        let username = args.remove(0);
        Ok(Self::Raid(username))
    }

    fn handle_followers_command(args: Vec<String>) -> (r: Result<Self, ParseError>)
        ensures
            parsed(r) == followers_spec(views(args@)),
    {
        let mut args = args;
        if args.len() == 0 {
            return Ok(Self::Followers(None));
        }
        if args.len() != 1 {
            return Err(invalid_arguments("followers"));
        }
        let followed_duration = args.remove(0);
        match parse_decimal(&followed_duration) {
            Some(duration) => Ok(Self::Followers(Some(duration))),
            None => Err(ParseError::InvalidNumber(followed_duration)),
        }
    }

    fn handle_slow_command(args: Vec<String>) -> (r: Result<Self, ParseError>)
        ensures
            parsed(r) == slow_spec(views(args@)),
    {
        let mut args = args;
        if args.len() != 1 {
            return Err(invalid_arguments("slow"));
        }
        let slow_duration = args.remove(0);
        match parse_decimal(&slow_duration) {
            Some(duration) => Ok(Self::Slow(duration)),
            None => Err(ParseError::InvalidNumber(slow_duration)),
        }
    }

    pub fn handle_title_command(args: &[String]) -> (r: Self)
        ensures
            r@ == CommandView::Title(join_sp(views(args@))),
    {
        let title = join_words(args);
        Self::Title(title)
    }

    pub fn handle_category_command(args: &[String]) -> (r: Self)
        ensures
            r@ == CommandView::Category(join_sp(views(args@))),
    {
        let game_name = join_words(args);
        Self::Category(game_name)
    }

    fn bare_command(c: Self, name: String, args: &Vec<String>) -> (r: Result<Self, ParseError>)
        ensures
            parsed(r) == bare(c@, name@, views(args@)),
    {
        if args.len() == 0 {
            Ok(c)
        } else {
            Err(ParseError::Unsupported(name))
        }
    }

    /// Parses a line that is already in lower case.
    pub fn parse_lowered(line: &str) -> (r: Result<Self, ParseError>)
        ensures
            parsed(r) == parse_lowered_spec(line@),
    {
        let mut args = split_whitespace(line);
        let ghost ws = views(args@);
        if args.len() == 0 {
            proof {
                reveal_strlit("");
            }
            return Err(ParseError::Unsupported(String::new()));
        }
        let name = args.remove(0);
        assert(views(args@) =~= ws.drop_first());
        if is_word(&name, "clear") {
            Self::bare_command(Self::Clear, name, &args)
        } else if is_word(&name, "ban") {
            Self::handle_ban_command(args)
        } else if is_word(&name, "unban") {
            Self::handle_unban_command(args)
        } else if is_word(&name, "timeout") {
            Self::handle_timeout_command(args)
        } else if is_word(&name, "raid") {
            Self::handle_raid_command(args)
        } else if is_word(&name, "unraid") {
            Self::bare_command(Self::Unraid, name, &args)
        } else if is_word(&name, "followers") {
            Self::handle_followers_command(args)
        } else if is_word(&name, "followersoff") {
            Self::bare_command(Self::FollowersOff, name, &args)
        } else if is_word(&name, "slow") {
            Self::handle_slow_command(args)
        } else if is_word(&name, "slowoff") {
            Self::bare_command(Self::SlowOff, name, &args)
        } else if is_word(&name, "subscribers") {
            Self::bare_command(Self::Subscribers, name, &args)
        } else if is_word(&name, "subscribersoff") {
            Self::bare_command(Self::SubscribersOff, name, &args)
        } else if is_word(&name, "emoteonly") {
            Self::bare_command(Self::EmoteOnly, name, &args)
        } else if is_word(&name, "emoteonlyoff") {
            Self::bare_command(Self::EmoteOnlyOff, name, &args)
        } else if is_word(&name, "title") {
            Ok(Self::handle_title_command(args.as_slice()))
        } else if is_word(&name, "category") {
            Ok(Self::handle_category_command(args.as_slice()))
        } else {
            Err(ParseError::Unsupported(name))
        }
    }

    /// Parses a command line. Names and arguments are read case-insensitively.
    pub fn parse(s: &str) -> (r: Result<Self, ParseError>)
        ensures
            parsed(r) == parse_spec(s@),
    {
        let lowered = lowercase(s);
        Self::parse_lowered(lowered.as_str())
    }
}

/// A command that needs a user name is refused when the line holds only its name: a ban,
/// unban, raid or timeout is never made up without its arguments.
pub proof fn lemma_missing_argument_rejected(s: Seq<char>)
    requires
        split_ws(lower_of(s)).len() == 1,
        split_ws(lower_of(s))[0] == "ban"@ || split_ws(lower_of(s))[0] == "unban"@
            || split_ws(lower_of(s))[0] == "raid"@ || split_ws(lower_of(s))[0] == "timeout"@,
    ensures
        parse_spec(s) == Err::<CommandView, ParseErrorView>(
            ParseErrorView::InvalidArguments(split_ws(lower_of(s))[0]),
        ),
{
    reveal_strlit("clear");
    reveal_strlit("ban");
    reveal_strlit("unban");
    reveal_strlit("timeout");
    reveal_strlit("raid");
    let name = split_ws(lower_of(s))[0];
    assert(split_ws(lower_of(s)).drop_first().len() == 0);
    // Each of the four names differs from "clear" in its length or its first letter.
    assert(name.len() != "clear"@.len() || name[0] != "clear"@[0]);
}

/// Case does not matter: two lines with the same lower-case form parse alike.
pub proof fn lemma_case_insensitive(a: Seq<char>, b: Seq<char>)
    requires
        lower_of(a) == lower_of(b),
    ensures
        parse_spec(a) == parse_spec(b),
{
}

/// Parsing has no hidden state: two parses of one line give the same command, or the
/// same error.
pub proof fn lemma_parse_deterministic(
    s: Seq<char>,
    r1: Result<TwitchCommand, ParseError>,
    r2: Result<TwitchCommand, ParseError>,
)
    requires
        parsed(r1) == parse_spec(s),
        parsed(r2) == parse_spec(s),
    ensures
        parsed(r1) == parsed(r2),
{
}

impl FromStr for TwitchCommand {
    type Err = ParseError;

    /// Parses a command line; see `TwitchCommand::parse`.
    fn from_str(s: &str) -> (r: Result<Self, Self::Err>)
        ensures
            parsed(r) == parse_spec(s@),
    {
        Self::parse(s)
    }
}

} // verus!
