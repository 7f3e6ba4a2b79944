use vstd::prelude::*;

use crate::action::{joined, TerminalAction, TwitchAction};
use crate::text::views;

verus! {

/// One input event, as the widget tells them apart.
#[derive(Debug, Clone, Copy, PartialEq, Eq)]
pub enum Key {
    /// A character typed into the query.
    Char(char),
    /// Deletes the last character of the query.
    Backspace,
    Up,
    Down,
    /// Confirms the selected candidate.
    Enter,
    /// Leaves the widget, dismissing an error.
    Esc,
    /// Fetches the candidates again, even while a fetch is running.
    Refresh,
    /// Any other event; the widget ignores it.
    Other,
}

/// The state of a search widget, as the contracts speak of it.
pub ghost struct SearchView {
    pub query: Seq<char>,
    pub candidates: Seq<Seq<char>>,
    pub selected: Option<usize>,
    pub focused: bool,
    pub loading: bool,
    pub ticket: u64,
    pub error: Option<Seq<char>>,
    pub error_message: Seq<Seq<char>>,
}

/// What the widget asks of its host after one event.
#[derive(Debug, Clone, PartialEq, Eq)]
pub struct EventOutcome {
    /// The action to perform, if the event produced one.
    pub action: Option<TerminalAction>,
    /// When present, a fetch is to be started; its result goes back to `finish_fetch`
    /// with this ticket.
    pub fetch: Option<u64>,
}

/// A list of candidates fetched from elsewhere, with a query, a cursor and focus.
///
/// At most one fetch is awaited at a time: a fetch is started by the methods that
/// return a ticket, and only the result handed back with the newest ticket is applied.
pub struct SearchWidget {
    query: Vec<char>,
    candidates: Vec<String>,
    selected: Option<usize>,
    focused: bool,
    loading: bool,
    ticket: u64,
    error: Option<String>,
    error_message: Vec<String>,
}

pub open spec fn opt_str_view(o: Option<String>) -> Option<Seq<char>> {
    match o {
        Some(s) => Some(s@),
        None => None,
    }
}

pub open spec fn fetch_view(r: Result<Vec<String>, String>) -> Result<
    Seq<Seq<char>>,
    Seq<char>,
> {
    match r {
        Ok(items) => Ok(views(items@)),
        Err(m) => Err(m@),
    }
}

/// A selection, if any, points into the candidates.
pub open spec fn well_formed(s: SearchView) -> bool {
    match s.selected {
        Some(i) => i < s.candidates.len(),
        None => true,
    }
}

pub open spec fn next_ticket(t: u64) -> u64 {
    if t == u64::MAX {
        0
    } else {
        (t + 1) as u64
    }
}

/// The state once a new fetch has started.
pub open spec fn start_fetch(s: SearchView) -> SearchView {
    SearchView { loading: true, ticket: next_ticket(s.ticket), ..s }
}

/// Whether turning focus on from `s` starts a fetch.
pub open spec fn toggle_fetches(s: SearchView) -> bool {
    !s.focused && s.candidates.len() == 0 && !s.loading
}

pub open spec fn toggle_spec(s: SearchView) -> SearchView {
    let f = SearchView { focused: !s.focused, ..s };
    if toggle_fetches(s) {
        start_fetch(f)
    } else {
        f
    }
}

pub open spec fn move_up(sel: Option<usize>, n: nat) -> Option<usize> {
    match sel {
        None => if n > 0 {
            Some(0)
        } else {
            None
        },
        Some(i) => if i > 0 {
            Some((i - 1) as usize)
        } else {
            Some(0)
        },
    }
}

pub open spec fn move_down(sel: Option<usize>, n: nat) -> Option<usize> {
    match sel {
        None => if n > 0 {
            Some(0)
        } else {
            None
        },
        Some(i) => if i + 1 < n {
            Some((i + 1) as usize)
        } else {
            Some(i)
        },
    }
}

/// The state after one event.
pub open spec fn event_spec(s: SearchView, k: Key) -> SearchView {
    if !s.focused {
        s
    } else {
        match k {
            Key::Char(c) => SearchView { query: s.query.push(c), ..s },
            Key::Backspace => if s.query.len() > 0 {
                SearchView { query: s.query.drop_last(), ..s }
            } else {
                s
            },
            Key::Up => SearchView { selected: move_up(s.selected, s.candidates.len()), ..s },
            Key::Down => SearchView { selected: move_down(s.selected, s.candidates.len()), ..s },
            Key::Enter => if s.selected is Some {
                SearchView { focused: false, ..s }
            } else {
                s
            },
            Key::Esc => SearchView { focused: false, error: None, ..s },
            Key::Refresh => start_fetch(s),
            Key::Other => s,
        }
    }
}

/// The channel that an event confirms: the selected candidate, on `Enter`.
pub open spec fn event_joins(s: SearchView, k: Key) -> Option<Seq<char>> {
    if s.focused && k == Key::Enter && s.selected is Some {
        Some(s.candidates[s.selected->0 as int])
    } else {
        None
    }
}

pub open spec fn event_fetches(s: SearchView, k: Key) -> bool {
    s.focused && k == Key::Refresh
}

/// The position of the first `k` in `items`.
pub open spec fn first_index_of(items: Seq<Seq<char>>, k: Seq<char>) -> Option<usize>
    decreases items.len(),
{
    if items.len() == 0 {
        None
    } else if items.last() == k && first_index_of(items.drop_last(), k) is None {
        Some((items.len() - 1) as usize)
    } else {
        first_index_of(items.drop_last(), k)
    }
}

/// Where the selection lands in a new list: on the same key, else nowhere.
pub open spec fn reselect(
    old: Seq<Seq<char>>,
    sel: Option<usize>,
    items: Seq<Seq<char>>,
) -> Option<usize> {
    match sel {
        Some(i) => first_index_of(items, old[i as int]),
        None => None,
    }
}

/// The state after a fetch with ticket `t` came back with `r`.
pub open spec fn finish_spec(
    s: SearchView,
    t: u64,
    r: Result<Seq<Seq<char>>, Seq<char>>,
) -> SearchView {
    if !s.loading || t != s.ticket {
        s
    } else {
        match r {
            Ok(items) => SearchView {
                candidates: items,
                selected: reselect(s.candidates, s.selected, items),
                loading: false,
                error: None,
                ..s
            },
            Err(m) => SearchView { loading: false, error: Some(m), ..s },
        }
    }
}

proof fn lemma_first_index_of(items: Seq<Seq<char>>, k: Seq<char>, i: int)
    requires
        0 <= i <= items.len(),
        forall|j: int| 0 <= j < i ==> items[j] != k,
        i == items.len() || items[i] == k,
        items.len() <= usize::MAX,
    ensures
        i == items.len() ==> first_index_of(items, k) is None,
        i < items.len() ==> first_index_of(items, k) == Some(i as usize),
    decreases items.len(),
{
    if items.len() > 0 {
        let p = items.drop_last();
        if i == items.len() {
            lemma_first_index_of(p, k, i - 1);
        } else {
            lemma_first_index_of(p, k, i);
        }
    }
}

proof fn lemma_first_index_in_bounds(items: Seq<Seq<char>>, k: Seq<char>)
    requires
        items.len() <= usize::MAX,
    ensures
        match first_index_of(items, k) {
            Some(j) => j < items.len() && items[j as int] == k,
            None => forall|j: int| 0 <= j < items.len() ==> items[j] != k,
        },
    decreases items.len(),
{
    if items.len() > 0 {
        lemma_first_index_in_bounds(items.drop_last(), k);
        let p = items.drop_last();
        assert forall|j: int| 0 <= j < p.len() implies p[j] == items[j] by {}
    }
}

/// While a fetch is running, turning focus on or off starts no other one, and no event
/// but an explicit refresh does.
pub proof fn lemma_no_second_fetch_while_loading(s: SearchView, k: Key)
    requires
        s.loading,
    ensures
        !toggle_fetches(s),
        toggle_spec(s).loading,
        toggle_spec(s).ticket == s.ticket,
        k != Key::Refresh ==> !event_fetches(s, k) && event_spec(s, k).ticket == s.ticket,
{
}

/// After a successful fetch the selection stays on the key that was selected when the
/// new list still holds it, and is cleared when it does not.
pub proof fn lemma_selection_follows_key(s: SearchView, items: Seq<Seq<char>>)
    requires
        well_formed(s),
        s.loading,
        s.selected is Some,
        items.len() <= usize::MAX,
    ensures
        ({
            let key = s.candidates[s.selected->0 as int];
            let n = finish_spec(s, s.ticket, Ok(items));
            &&& n.candidates == items
            &&& !items.contains(key) ==> n.selected is None
            &&& items.contains(key) ==> n.selected is Some && n.selected->0 < items.len()
                && items[n.selected->0 as int] == key
        }),
{
    let key = s.candidates[s.selected->0 as int];
    lemma_first_index_in_bounds(items, key);
}

/// A failed fetch keeps the last good list and records the error; the next fetch that
/// succeeds clears the error and replaces the list.
pub proof fn lemma_failure_keeps_candidates(
    s: SearchView,
    m: Seq<char>,
    items: Seq<Seq<char>>,
)
    requires
        well_formed(s),
        s.loading,
    ensures
        ({
            let f = finish_spec(s, s.ticket, Err(m));
            let g = start_fetch(f);
            let h = finish_spec(g, g.ticket, Ok(items));
            &&& f.candidates == s.candidates
            &&& f.selected == s.selected
            &&& f.error == Some(m)
            &&& !f.loading
            &&& h.error is None
            &&& h.candidates == items
        }),
{
}

/// No event moves the selection outside the candidates.
pub proof fn lemma_selection_in_bounds(s: SearchView, k: Key)
    requires
        well_formed(s),
    ensures
        well_formed(event_spec(s, k)),
        well_formed(toggle_spec(s)),
        event_spec(s, k).selected is Some ==> event_spec(s, k).selected->0
            < event_spec(s, k).candidates.len(),
{
}

impl View for SearchWidget {
    type V = SearchView;

    closed spec fn view(&self) -> SearchView {
        SearchView {
            query: self.query@,
            candidates: views(self.candidates@),
            selected: self.selected,
            focused: self.focused,
            loading: self.loading,
            ticket: self.ticket,
            error: opt_str_view(self.error),
            error_message: views(self.error_message@),
        }
    }
}

fn find_key(items: &Vec<String>, k: &String) -> (r: Option<usize>)
    ensures
        r == first_index_of(views(items@), k@),
{
    let ghost v = views(items@);
    let mut i: usize = 0;
    while i < items.len()
        invariant
            v == views(items@),
            i <= items.len(),
            forall|j: int| 0 <= j < i ==> v[j] != k@,
        decreases items.len() - i,
    {
        if items[i] == *k {
            proof {
                lemma_first_index_of(v, k@, i as int);
            }
            return Some(i);
        }
        i = i + 1;
    }
    proof {
        lemma_first_index_of(v, k@, i as int);
    }
    None
}

impl SearchWidget {
    /// An unfocused widget with no query and no candidates; `error_message` is shown
    /// in place of the list after a failed fetch.
    pub fn new(error_message: Vec<String>) -> (r: Self)
        ensures
            r@ == (SearchView {
                query: seq![],
                candidates: seq![],
                selected: None,
                focused: false,
                loading: false,
                ticket: 0,
                error: None,
                error_message: views(error_message@),
            }),
            well_formed(r@),
    {
        let r = SearchWidget {
            query: Vec::new(),
            candidates: Vec::new(),
            selected: None,
            focused: false,
            loading: false,
            ticket: 0,
            error: None,
            error_message,
        };
        assert(r@.candidates =~= seq![]);
        r
    }

    pub fn is_focused(&self) -> (r: bool)
        ensures
            r == self@.focused,
    {
        self.focused
    }

    pub fn is_loading(&self) -> (r: bool)
        ensures
            r == self@.loading,
    {
        self.loading
    }

    pub fn query(&self) -> (r: &Vec<char>)
        ensures
            r@ == self@.query,
    {
        &self.query
    }

    pub fn candidates(&self) -> (r: &Vec<String>)
        ensures
            views(r@) == self@.candidates,
    {
        &self.candidates
    }

    pub fn selected(&self) -> (r: Option<usize>)
        ensures
            r == self@.selected,
    {
        self.selected
    }

    pub fn error(&self) -> (r: &Option<String>)
        ensures
            opt_str_view(*r) == self@.error,
    {
        &self.error
    }

    pub fn error_message(&self) -> (r: &Vec<String>)
        ensures
            views(r@) == self@.error_message,
    {
        &self.error_message
    }

    fn begin_fetch(&mut self) -> (t: u64)
        ensures
            final(self)@ == start_fetch(old(self)@),
            t == final(self)@.ticket,
    {
        self.ticket = if self.ticket == u64::MAX {
            0
        } else {
            self.ticket + 1
        };
        self.loading = true;
        self.ticket
    }

    /// Turns focus on or off. Turning it on with no candidates and no fetch running
    /// starts a fetch, whose ticket is returned.
    pub fn toggle_focus(&mut self) -> (t: Option<u64>)
        requires
            well_formed(old(self)@),
        ensures
            final(self)@ == toggle_spec(old(self)@),
            t == (if toggle_fetches(old(self)@) {
                Some(final(self)@.ticket)
            } else {
                None
            }),
            well_formed(final(self)@),
    {
        let fetch = !self.focused && self.candidates.len() == 0 && !self.loading;
        self.focused = !self.focused;
        if fetch {
            Some(self.begin_fetch())
        } else {
            None
        }
    }

    /// Handles one event while focused; an unfocused widget leaves it alone.
    pub fn event(&mut self, key: Key) -> (r: EventOutcome)
        requires
            well_formed(old(self)@),
        ensures
            final(self)@ == event_spec(old(self)@, key),
            joined(r.action) == event_joins(old(self)@, key),
            r.fetch == (if event_fetches(old(self)@, key) {
                Some(final(self)@.ticket)
            } else {
                None
            }),
            well_formed(final(self)@),
    {
        let none = EventOutcome { action: None, fetch: None };
        if !self.focused {
            return none;
        }
        let n = self.candidates.len();
        match key {
            Key::Char(c) => {
                self.query.push(c);
                none
            },
            Key::Backspace => {
                if self.query.len() > 0 {
                    self.query.pop();
                }
                none
            },
            Key::Up => {
                self.selected = match self.selected {
                    None => if n > 0 {
                        Some(0)
                    } else {
                        None
                    },
                    Some(i) => if i > 0 {
                        Some(i - 1)
                    } else {
                        Some(0)
                    },
                };
                none
            },
            Key::Down => {
                self.selected = match self.selected {
                    None => if n > 0 {
                        Some(0)
                    } else {
                        None
                    },
                    Some(i) => if i + 1 < n {
                        Some(i + 1)
                    } else {
                        Some(i)
                    },
                };
                none
            },
            Key::Enter => match self.selected {
                Some(i) => {
                    let channel = self.candidates[i].clone();
                    self.focused = false;
                    EventOutcome {
                        action: Some(TerminalAction::Enter(TwitchAction::Join(channel))),
                        fetch: None,
                    }
                },
                None => none,
            },
            Key::Esc => {
                self.focused = false;
                self.error = None;
                none
            },
            Key::Refresh => {
                let t = self.begin_fetch();
                EventOutcome { action: None, fetch: Some(t) }
            },
            Key::Other => none,
        }
    }

    /// Applies the outcome of the fetch with ticket `ticket`. Success replaces the
    /// candidates and keeps the selection on the same key where it is still listed;
    /// failure keeps the candidates and records the error. An outcome of any fetch
    /// but the newest, or one that arrives when no fetch is awaited, changes nothing.
    pub fn finish_fetch(&mut self, ticket: u64, result: Result<Vec<String>, String>)
        requires
            well_formed(old(self)@),
        ensures
            final(self)@ == finish_spec(old(self)@, ticket, fetch_view(result)),
            well_formed(final(self)@),
    {
        if !self.loading || ticket != self.ticket {
            return ;
        }
        self.loading = false;
        match result {
            Ok(items) => {
                let sel = match self.selected {
                    Some(i) => find_key(&items, &self.candidates[i]),
                    None => None,
                };
                proof {
                    assert(views(items@).len() == items.len());
                    if self.selected is Some {
                        let k = views(self.candidates@)[self.selected->0 as int];
                        lemma_first_index_in_bounds(views(items@), k);
                    }
                }
                self.candidates = items;
                self.selected = sel;
                self.error = None;
            },
            Err(m) => {
                self.error = Some(m);
            },
        }
    }
}

} // verus!
