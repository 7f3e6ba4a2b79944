use vstd::prelude::*;

verus! {

/// A change of the chat session that a component asks its host for.
#[derive(Debug, Clone, PartialEq, Eq)]
pub enum TwitchAction {
    /// Join the named channel.
    Join(String),
}

/// What a component hands back to the terminal host after an event.
#[derive(Debug, Clone, PartialEq, Eq)]
pub enum TerminalAction {
    Enter(TwitchAction),
}

/// The channel that an action asks to join, if it is one.
pub open spec fn joined(a: Option<TerminalAction>) -> Option<Seq<char>> {
    match a {
        Some(TerminalAction::Enter(TwitchAction::Join(c))) => Some(c@),
        None => None,
    }
}

} // verus!
