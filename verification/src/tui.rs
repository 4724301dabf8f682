//! The state and the decisions of the terminal roleplay client: the right
//! panel tabs, the game and session finder, the transcript while a reply
//! streams, and what each key does.

use vstd::prelude::*;

use crate::client::{
    normalize_optional_model, opt_string_view, opt_view, or_else, present_value, resolve_addr,
    spec_normalize_addr, ClientConfig, CliError, DEFAULT_ADDR,
};
use crate::pb::{self, PbMessageRole};
use crate::text::{
    chars_of, contains_seq, is_blank, is_blank_str, join_strings, join_with, lowercase,
    string_from_chars, string_views, to_lowercase_str, trim, trim_str, vec_contains,
};

verus! {

/// The tabs of the right context panel.
#[derive(Clone, Copy, Debug, PartialEq, Eq, Structural)]
pub enum RightTab {
    Cast,
    Lore,
    WorldMap,
    Events,
    Context,
}

/// The tabs in the order the panel cycles through them.
pub open spec fn tab_order() -> Seq<RightTab> {
    seq![RightTab::Cast, RightTab::Lore, RightTab::WorldMap, RightTab::Events, RightTab::Context]
}

/// The position of `tab` in the cycle.
pub open spec fn tab_index(tab: RightTab) -> int {
    match tab {
        RightTab::Cast => 0,
        RightTab::Lore => 1,
        RightTab::WorldMap => 2,
        RightTab::Events => 3,
        RightTab::Context => 4,
    }
}

impl RightTab {
    /// The title shown on the tab.
    pub open spec fn spec_title(self) -> Seq<char> {
        match self {
            RightTab::Cast => "Cast"@,
            RightTab::Lore => "Lore"@,
            RightTab::WorldMap => "Map"@,
            RightTab::Events => "Events"@,
            RightTab::Context => "Context"@,
        }
    }

    /// The title shown on the tab.
    pub fn title(self) -> (r: &'static str)
        ensures
            r@ == self.spec_title(),
    {
        match self {
            RightTab::Cast => "Cast",
            RightTab::Lore => "Lore",
            RightTab::WorldMap => "Map",
            RightTab::Events => "Events",
            RightTab::Context => "Context",
        }
    }

    /// The tab after this one, wrapping from the last to the first.
    pub fn next(self) -> (r: RightTab)
        ensures
            r == tab_order()[(tab_index(self) + 1) % 5],
    {
        match self {
            RightTab::Cast => RightTab::Lore,
            RightTab::Lore => RightTab::WorldMap,
            RightTab::WorldMap => RightTab::Events,
            RightTab::Events => RightTab::Context,
            RightTab::Context => RightTab::Cast,
        }
    }
}

/// Stepping through the tabs visits every tab once and comes back after five steps.
pub proof fn tabs_cycle_through_all(tab: RightTab)
    ensures
        tab_order()[tab_index(tab)] == tab,
        tab_order()[(tab_index(tab) + 5) % 5] == tab,
        forall|t: RightTab| #[trigger] tab_index(t) == tab_index(tab) ==> t == tab,
{
}

/// The panel's tabs come in the order Cast, Lore, Map, Events, Context, and
/// the last one leads back to the first.
pub proof fn right_tabs_follow_their_order()
    ensures
        tab_order()[(tab_index(RightTab::Cast) + 1) % 5] == RightTab::Lore,
        tab_order()[(tab_index(RightTab::Lore) + 1) % 5] == RightTab::WorldMap,
        tab_order()[(tab_index(RightTab::WorldMap) + 1) % 5] == RightTab::Events,
        tab_order()[(tab_index(RightTab::Events) + 1) % 5] == RightTab::Context,
        tab_order()[(tab_index(RightTab::Context) + 1) % 5] == RightTab::Cast,
        RightTab::Cast.spec_title() == "Cast"@,
        RightTab::Lore.spec_title() == "Lore"@,
        RightTab::WorldMap.spec_title() == "Map"@,
        RightTab::Events.spec_title() == "Events"@,
        RightTab::Context.spec_title() == "Context"@,
{
}

/// What the finder lists.
#[derive(Clone, Debug, PartialEq, Eq)]
pub enum FinderMode {
    Game,
    Session { game_id: String },
}

/// Whether `title` matches the finder query `query`: the query is empty
/// once lowercased, or the lowercase title contains the lowercase query.
pub open spec fn title_matches(title: Seq<char>, query: Seq<char>) -> bool {
    lowercase(query).len() == 0 || contains_seq(lowercase(title), lowercase(query))
}

/// The games whose titles match `query`, in order.
pub open spec fn matching_games(games: Seq<pb::Game>, query: Seq<char>) -> Seq<pb::Game> {
    games.filter(|g: pb::Game| title_matches(g.title@, query))
}

/// The sessions whose titles match `query`, in order.
pub open spec fn matching_sessions(sessions: Seq<pb::Session>, query: Seq<char>) -> Seq<
    pb::Session,
> {
    sessions.filter(|s: pb::Session| title_matches(s.title@, query))
}

/// The overlay that picks a game or a session by typing part of its title.
pub struct FinderState {
    mode: FinderMode,
    query: String,
    selected: usize,
    games: Vec<pb::Game>,
    sessions: Vec<pb::Session>,
}

impl FinderState {
    /// What the finder lists.
    pub closed spec fn spec_mode(&self) -> FinderMode {
        self.mode
    }

    /// The text typed so far.
    pub closed spec fn spec_query(&self) -> Seq<char> {
        self.query@
    }

    /// The position of the highlighted entry among the matching ones.
    pub closed spec fn spec_selected(&self) -> nat {
        self.selected as nat
    }

    /// The games offered.
    pub closed spec fn spec_games(&self) -> Seq<pb::Game> {
        self.games@
    }

    /// The sessions offered.
    pub closed spec fn spec_sessions(&self) -> Seq<pb::Session> {
        self.sessions@
    }

    /// The number of entries that match the query.
    pub open spec fn spec_filtered_len(&self) -> nat {
        match self.spec_mode() {
            FinderMode::Game => matching_games(self.spec_games(), self.spec_query()).len(),
            FinderMode::Session { .. } => matching_sessions(
                self.spec_sessions(),
                self.spec_query(),
            ).len(),
        }
    }

    /// The highlighted entry is one of the matching entries whenever there are any.
    pub open spec fn selection_in_range(&self) -> bool {
        self.spec_filtered_len() == 0 || self.spec_selected() < self.spec_filtered_len()
    }

    /// A finder over `games` with an empty query.
    pub fn game(games: Vec<pb::Game>) -> (r: FinderState)
        ensures
            r.spec_mode() == FinderMode::Game,
            r.spec_query() == Seq::<char>::empty(),
            r.spec_selected() == 0,
            r.spec_games() == games@,
            r.spec_sessions() == Seq::<pb::Session>::empty(),
            r.selection_in_range(),
    {
        FinderState {
            mode: FinderMode::Game,
            query: String::new(),
            selected: 0,
            games,
            sessions: Vec::new(),
        }
    }

    /// A finder over the `sessions` of game `game_id` with an empty query.
    pub fn session(game_id: String, sessions: Vec<pb::Session>) -> (r: FinderState)
        ensures
            r.spec_mode() == (FinderMode::Session { game_id }),
            r.spec_query() == Seq::<char>::empty(),
            r.spec_selected() == 0,
            r.spec_games() == Seq::<pb::Game>::empty(),
            r.spec_sessions() == sessions@,
            r.selection_in_range(),
    {
        FinderState {
            mode: FinderMode::Session { game_id },
            query: String::new(),
            selected: 0,
            games: Vec::new(),
            sessions,
        }
    }

    /// What the finder lists.
    pub fn mode(&self) -> (r: &FinderMode)
        ensures
            *r == self.spec_mode(),
    {
        &self.mode
    }

    /// The text typed so far.
    pub fn query(&self) -> (r: &String)
        ensures
            r@ == self.spec_query(),
    {
        &self.query
    }

    /// The position of the highlighted entry.
    pub fn selected(&self) -> (r: usize)
        ensures
            r == self.spec_selected(),
    {
        self.selected
    }

    /// The title of the overlay.
    pub fn title(&self) -> (r: &'static str)
        ensures
            self.spec_mode() is Game ==> r@ == "Find Game"@,
            self.spec_mode() is Session ==> r@ == "Find Session"@,
    {
        match self.mode {
            FinderMode::Game => "Find Game",
            FinderMode::Session { .. } => "Find Session",
        }
    }

    /// Whether `title` matches the lowercase query `q`.
    fn matches(title: &str, q: &Vec<char>, ghost_query: Ghost<Seq<char>>) -> (r: bool)
        requires
            q@ == lowercase(ghost_query@),
        ensures
            r == title_matches(title@, ghost_query@),
    {
        if q.len() == 0 {
            return true;
        }
        let t = to_lowercase_str(title);
        let tv = chars_of(t.as_str());
        vec_contains(&tv, q)
    }

    /// The games whose titles match the query, in order.
    pub fn filtered_games(&self) -> (r: Vec<&pb::Game>)
        ensures
            r@.map_values(|g: &pb::Game| *g) == matching_games(self.spec_games(), self.spec_query()),
    {
        let lowered = to_lowercase_str(self.query.as_str());
        let q = chars_of(lowered.as_str());
        let ghost query = self.query@;
        let ghost p = |g: pb::Game| title_matches(g.title@, query);
        let mut out: Vec<&pb::Game> = Vec::new();
        let mut i: usize = 0;
        while i < self.games.len()
            invariant
                i <= self.games@.len(),
                q@ == lowercase(query),
                query == self.query@,
                p == (|g: pb::Game| title_matches(g.title@, query)),
                out@.map_values(|g: &pb::Game| *g) == self.games@.take(i as int).filter(p),
            decreases self.games.len() - i,
        {
            assert(self.games@.take(i + 1).drop_last() =~= self.games@.take(i as int));
            reveal_with_fuel(Seq::filter, 1);
            let g = &self.games[i];
            let ghost before = out@;
            if Self::matches(g.title.as_str(), &q, Ghost(query)) {
                out.push(g);
                assert(out@.map_values(|g: &pb::Game| *g) =~= before.map_values(|g: &pb::Game| *g).push(*g));
            }
            i = i + 1;
        }
        assert(self.games@.take(self.games@.len() as int) =~= self.games@);
        out
    }

    /// The sessions whose titles match the query, in order.
    pub fn filtered_sessions(&self) -> (r: Vec<&pb::Session>)
        ensures
            r@.map_values(|s: &pb::Session| *s) == matching_sessions(self.spec_sessions(), self.spec_query()),
    {
        let lowered = to_lowercase_str(self.query.as_str());
        let q = chars_of(lowered.as_str());
        let ghost query = self.query@;
        let ghost p = |s: pb::Session| title_matches(s.title@, query);
        let mut out: Vec<&pb::Session> = Vec::new();
        let mut i: usize = 0;
        while i < self.sessions.len()
            invariant
                i <= self.sessions@.len(),
                q@ == lowercase(query),
                query == self.query@,
                p == (|s: pb::Session| title_matches(s.title@, query)),
                out@.map_values(|s: &pb::Session| *s) == self.sessions@.take(i as int).filter(p),
            decreases self.sessions.len() - i,
        {
            assert(self.sessions@.take(i + 1).drop_last() =~= self.sessions@.take(i as int));
            reveal_with_fuel(Seq::filter, 1);
            let s = &self.sessions[i];
            let ghost before = out@;
            if Self::matches(s.title.as_str(), &q, Ghost(query)) {
                out.push(s);
                assert(out@.map_values(|s: &pb::Session| *s) =~= before.map_values(|s: &pb::Session| *s).push(*s));
            }
            i = i + 1;
        }
        assert(self.sessions@.take(self.sessions@.len() as int) =~= self.sessions@);
        out
    }

    /// The number of entries that match the query.
    pub fn filtered_len(&self) -> (r: usize)
        ensures
            r == self.spec_filtered_len(),
    {
        match self.mode {
            FinderMode::Game => self.filtered_games().len(),
            FinderMode::Session { .. } => self.filtered_sessions().len(),
        }
    }

    /// Highlights the next matching entry, wrapping from the last to the first.
    pub fn move_down(&mut self)
        requires
            old(self).selection_in_range(),
        ensures
            final(self).spec_mode() == old(self).spec_mode(),
            final(self).spec_query() == old(self).spec_query(),
            final(self).spec_games() == old(self).spec_games(),
            final(self).spec_sessions() == old(self).spec_sessions(),
            old(self).spec_filtered_len() > 0 ==> final(self).spec_selected() == (old(self).spec_selected() + 1) % old(self).spec_filtered_len(),
            old(self).spec_filtered_len() == 0 ==> final(self).spec_selected() == old(self).spec_selected(),
            final(self).selection_in_range(),
    {
        let len = self.filtered_len();
        if len > 0 {
            self.selected = (self.selected + 1) % len;
        }
    }

    /// Highlights the previous matching entry, wrapping from the first to the last.
    pub fn move_up(&mut self)
        requires
            old(self).selection_in_range(),
        ensures
            final(self).spec_mode() == old(self).spec_mode(),
            final(self).spec_query() == old(self).spec_query(),
            final(self).spec_games() == old(self).spec_games(),
            final(self).spec_sessions() == old(self).spec_sessions(),
            old(self).spec_filtered_len() > 0 && old(self).spec_selected() == 0 ==> final(self).spec_selected() == old(self).spec_filtered_len() - 1,
            old(self).spec_filtered_len() > 0 && old(self).spec_selected() > 0 ==> final(self).spec_selected() == old(self).spec_selected() - 1,
            old(self).spec_filtered_len() == 0 ==> final(self).spec_selected() == old(self).spec_selected(),
            final(self).selection_in_range(),
    {
        let len = self.filtered_len();
        if len > 0 {
            self.selected = if self.selected == 0 {
                len - 1
            } else {
                self.selected - 1
            };
        }
    }

    /// Types `c` into the query and highlights the first match.
    pub fn push_query(&mut self, c: char)
        ensures
            final(self).spec_mode() == old(self).spec_mode(),
            final(self).spec_query() == old(self).spec_query().push(c),
            final(self).spec_selected() == 0,
            final(self).spec_games() == old(self).spec_games(),
            final(self).spec_sessions() == old(self).spec_sessions(),
            final(self).selection_in_range(),
    {
        crate::text::push_char(&mut self.query, c);
        self.selected = 0;
    }

    /// Deletes the last character of the query and keeps the highlight
    /// within the entries that now match.
    pub fn pop_query(&mut self)
        ensures
            final(self).spec_mode() == old(self).spec_mode(),
            final(self).spec_query() == if old(self).spec_query().len() > 0 {
                old(self).spec_query().drop_last()
            } else {
                old(self).spec_query()
            },
            final(self).spec_games() == old(self).spec_games(),
            final(self).spec_sessions() == old(self).spec_sessions(),
            final(self).spec_selected() == if old(self).spec_selected() < final(self).spec_filtered_len() {
                old(self).spec_selected()
            } else if final(self).spec_filtered_len() > 0 {
                (final(self).spec_filtered_len() - 1) as nat
            } else {
                0
            },
            final(self).selection_in_range(),
    {
        let mut v = chars_of(self.query.as_str());
        if v.len() > 0 {
            let _ = v.pop();
            self.query = string_from_chars(v.as_slice());
        }
        let len = self.filtered_len();
        let cap = if len > 0 {
            len - 1
        } else {
            0
        };
        if self.selected > cap {
            self.selected = cap;
        }
    }

    /// The highlighted game, if the finder lists games and one matches.
    pub fn selected_game(&self) -> (r: Option<&pb::Game>)
        ensures
            r matches Some(g) ==> self.spec_mode() is Game && self.spec_selected() < matching_games(
                self.spec_games(),
                self.spec_query(),
            ).len() && *g == matching_games(self.spec_games(), self.spec_query())[self.spec_selected() as int],
            r is None ==> !(self.spec_mode() is Game) || self.spec_selected() >= matching_games(
                self.spec_games(),
                self.spec_query(),
            ).len(),
    {
        match self.mode {
            FinderMode::Game => {
                let games = self.filtered_games();
                if self.selected < games.len() {
                    Some(games[self.selected])
                } else {
                    None
                }
            },
            FinderMode::Session { .. } => None,
        }
    }

    /// The highlighted session, if the finder lists sessions and one matches.
    pub fn selected_session(&self) -> (r: Option<&pb::Session>)
        ensures
            r matches Some(s) ==> self.spec_mode() is Session && self.spec_selected()
                < matching_sessions(self.spec_sessions(), self.spec_query()).len() && *s
                == matching_sessions(self.spec_sessions(), self.spec_query())[self.spec_selected() as int],
            r is None ==> !(self.spec_mode() is Session) || self.spec_selected()
                >= matching_sessions(self.spec_sessions(), self.spec_query()).len(),
    {
        match self.mode {
            FinderMode::Session { .. } => {
                let sessions = self.filtered_sessions();
                if self.selected < sessions.len() {
                    Some(sessions[self.selected])
                } else {
                    None
                }
            },
            FinderMode::Game => None,
        }
    }
}


/// Whether `c` ends a sentence.
pub open spec fn is_terminator(c: char) -> bool {
    c == '.' || c == '!' || c == '?'
}

/// The position of the first sentence end in `s`, or -1 when there is none.
pub open spec fn terminator_index(s: Seq<char>) -> int
    decreases s.len(),
{
    if s.len() == 0 {
        -1
    } else if is_terminator(s[0]) {
        0
    } else {
        let r = terminator_index(s.drop_first());
        if r < 0 {
            -1
        } else {
            r + 1
        }
    }
}

/// The first sentence end of `s` is at `k` when `s[k]` ends a sentence and
/// nothing before it does.
proof fn terminator_index_at(s: Seq<char>, k: int)
    requires
        0 <= k < s.len(),
        is_terminator(s[k]),
        forall|j: int| 0 <= j < k ==> !is_terminator(#[trigger] s[j]),
    ensures
        terminator_index(s) == k,
    decreases k,
{
    if k > 0 {
        assert(!is_terminator(s[0]));
        assert forall|j: int| 0 <= j < k - 1 implies !is_terminator(#[trigger] s.drop_first()[j]) by {
            assert(s.drop_first()[j] == s[j + 1]);
        }
        terminator_index_at(s.drop_first(), k - 1);
    }
}

/// `s` has no sentence end when no character of it ends a sentence.
proof fn terminator_index_none(s: Seq<char>)
    requires
        forall|j: int| 0 <= j < s.len() ==> !is_terminator(#[trigger] s[j]),
    ensures
        terminator_index(s) == -1,
    decreases s.len(),
{
    if s.len() > 0 {
        assert(!is_terminator(s[0]));
        assert forall|j: int| 0 <= j < s.len() - 1 implies !is_terminator(#[trigger] s.drop_first()[j]) by {
            assert(s.drop_first()[j] == s[j + 1]);
        }
        terminator_index_none(s.drop_first());
    }
}

/// The sentences of `s` after those in `acc`: each piece up to and including
/// a sentence end, trimmed, empty pieces skipped, stopping once `count` are
/// gathered (and after the first piece when `count` is zero).
pub open spec fn collect_sentences(s: Seq<char>, count: nat, acc: Seq<Seq<char>>) -> Seq<Seq<char>>
    decreases s.len(),
{
    let k = terminator_index(s);
    if k < 0 || k >= s.len() {
        acc
    } else {
        let piece = trim(s.take(k + 1));
        let acc2 = if piece.len() > 0 {
            acc.push(piece)
        } else {
            acc
        };
        if acc2.len() >= count {
            acc2
        } else {
            collect_sentences(s.skip(k + 1), count, acc2)
        }
    }
}

/// `content` trimmed and cut to `limit` characters, the cut marked by `...`.
pub open spec fn spec_truncate(content: Seq<char>, limit: nat) -> Seq<char> {
    let t = trim(content);
    if t.len() <= limit {
        t
    } else {
        t.take(if limit >= 3 {
            limit - 3
        } else {
            0
        }) + "..."@
    }
}

/// The first `count` sentences of `content` joined by spaces, or the trimmed
/// content cut to 220 characters when it has no complete sentence.
pub open spec fn spec_first_sentences(content: Seq<char>, count: nat) -> Seq<char> {
    let ss = collect_sentences(content, count, Seq::empty());
    if ss.len() == 0 {
        spec_truncate(content, 220)
    } else {
        join_with(ss, " "@)
    }
}

/// `content` trimmed and cut to `limit` characters, the cut marked by `...`.
pub fn truncate(content: &str, limit: usize) -> (r: String)
    ensures
        r@ == spec_truncate(content@, limit as nat),
{
    let trimmed = trim_str(content);
    let v = chars_of(trimmed.as_str());
    if v.len() <= limit {
        return trimmed;
    }
    let keep = if limit >= 3 {
        limit - 3
    } else {
        0
    };
    let mut out: Vec<char> = Vec::new();
    let mut i: usize = 0;
    while i < keep
        invariant
            keep < v@.len(),
            i <= keep,
            out@ == v@.take(i as int),
        decreases keep - i,
    {
        out.push(v[i]);
        assert(v@.take(i + 1) =~= v@.take(i as int).push(v@[i as int]));
        i = i + 1;
    }
    out.push('.');
    out.push('.');
    out.push('.');
    proof {
        reveal_strlit("...");
        assert(out@ =~= v@.take(keep as int) + "..."@);
    }
    string_from_chars(out.as_slice())
}

/// The first `count` sentences of `content`, for summaries in narrow panels.
pub fn first_sentences(content: &str, count: usize) -> (r: String)
    ensures
        r@ == spec_first_sentences(content@, count as nat),
{
    let v = chars_of(content);
    let n = v.len();
    let mut sentences: Vec<String> = Vec::new();
    let mut start: usize = 0;
    let mut i: usize = 0;
    let mut stop = false;
    let ghost empty = Seq::<Seq<char>>::empty();
    assert(v@.skip(0) =~= v@);
    assert(string_views(sentences@) =~= empty);
    while i < n && !stop
        invariant
            v@ == content@,
            n == v@.len(),
            start <= i <= n,
            !stop ==> collect_sentences(v@, count as nat, empty) == collect_sentences(
                v@.skip(start as int),
                count as nat,
                string_views(sentences@),
            ),
            stop ==> collect_sentences(v@, count as nat, empty) == string_views(sentences@),
            !stop ==> forall|j: int| start <= j < i ==> !is_terminator(#[trigger] v@[j]),
            empty == Seq::<Seq<char>>::empty(),
        decreases n - i,
    {
        let c = v[i];
        if c == '.' || c == '!' || c == '?' {
            let ghost s = v@.skip(start as int);
            proof {
                assert forall|j: int| 0 <= j < i - start implies !is_terminator(#[trigger] s[j]) by {
                    assert(s[j] == v@[start + j]);
                }
                terminator_index_at(s, i - start);
            }
            let mut piece_chars: Vec<char> = Vec::new();
            let mut j: usize = start;
            while j <= i
                invariant
                    start <= j <= i + 1,
                    i < n,
                    n == v@.len(),
                    piece_chars@ == v@.subrange(start as int, j as int),
                decreases i + 1 - j,
            {
                piece_chars.push(v[j]);
                assert(v@.subrange(start as int, j + 1) =~= v@.subrange(start as int, j as int).push(
                    v@[j as int],
                ));
                j = j + 1;
            }
            assert(s.take(i - start + 1) =~= piece_chars@);
            let piece_text = string_from_chars(piece_chars.as_slice());
            let piece = trim_str(piece_text.as_str());
            let ghost before = string_views(sentences@);
            if !piece.as_str().is_empty() {
                sentences.push(piece);
                assert(string_views(sentences@) =~= before.push(trim(s.take(i - start + 1))));
            }
            assert(s.skip(i - start + 1) =~= v@.skip(i + 1));
            start = i + 1;
            if sentences.len() >= count {
                stop = true;
            }
        }
        i = i + 1;
    }
    proof {
        if !stop {
            let s = v@.skip(start as int);
            assert forall|j: int| 0 <= j < s.len() implies !is_terminator(#[trigger] s[j]) by {
                assert(s[j] == v@[start + j]);
            }
            terminator_index_none(s);
        }
    }
    if sentences.len() == 0 {
        truncate(content, 220)
    } else {
        join_strings(&sentences, " ")
    }
}

/// `value`, or `fallback` when `value` is blank.
pub fn blank_as<'a>(value: &'a str, fallback: &'a str) -> (r: &'a str)
    ensures
        r@ == if is_blank(value@) {
            fallback@
        } else {
            value@
        },
{
    if is_blank_str(value) {
        fallback
    } else {
        value
    }
}

/// The label of a transcript message's author.
pub open spec fn spec_role_label(role: i32) -> Seq<char> {
    if role == PbMessageRole::System.code() {
        "system"@
    } else if role == PbMessageRole::User.code() {
        "you"@
    } else if role == PbMessageRole::Assistant.code() {
        "narrator"@
    } else {
        "unknown"@
    }
}

/// The label of a transcript message's author: the player is "you" and the
/// model is the narrator.
pub fn role_name(role: i32) -> (r: &'static str)
    ensures
        r@ == spec_role_label(role),
{
    match PbMessageRole::from_i32(role) {
        Some(PbMessageRole::System) => "system",
        Some(PbMessageRole::User) => "you",
        Some(PbMessageRole::Assistant) => "narrator",
        Some(PbMessageRole::Unspecified) => "unknown",
        None => "unknown",
    }
}

/// The lines of `content` wrapped at `width` columns, as textwrap's `wrap` gives them.
pub uninterp spec fn wrapped_lines(content: Seq<char>, width: nat) -> Seq<Seq<char>>;

/// The lines of `content` wrapped at `width` columns (textwrap's `wrap`).
#[verifier::external_body]
fn textwrap_wrap(content: &str, width: usize) -> (r: Vec<String>)
    ensures
        string_views(r@) == wrapped_lines(content@, width as nat),
{
    textwrap::wrap(content, width).into_iter().map(|line| line.into_owned()).collect()
}

/// The lines of `content` wrapped for a transcript column of `width`
/// characters, never narrower than twelve.
pub fn wrap_owned(content: &str, width: usize) -> (r: Vec<String>)
    ensures
        string_views(r@) == wrapped_lines(content@, if width >= 12 {
            width as nat
        } else {
            12
        }),
{
    let width = if width >= 12 {
        width
    } else {
        12
    };
    textwrap_wrap(content, width)
}


/// The keys the client tells apart.
#[derive(Clone, Copy, Debug, PartialEq, Eq, Structural)]
pub enum KeyCode {
    Char(char),
    Esc,
    Enter,
    Up,
    Down,
    Backspace,
    PageUp,
    PageDown,
    Other,
}

/// No modifier key held.
pub const MOD_NONE: u8 = 0u8;

/// The Shift modifier bit.
pub const MOD_SHIFT: u8 = 1u8;

/// The Control modifier bit.
pub const MOD_CONTROL: u8 = 2u8;

/// The Alt modifier bit.
pub const MOD_ALT: u8 = 4u8;

/// The Super modifier bit.
pub const MOD_SUPER: u8 = 8u8;

/// The Hyper modifier bit.
pub const MOD_HYPER: u8 = 16u8;

/// The Meta modifier bit.
pub const MOD_META: u8 = 32u8;

/// A key press: the key and the bits of the modifiers held with it.
#[derive(Clone, Copy, Debug, PartialEq, Eq, Structural)]
pub struct KeyEvent {
    pub code: KeyCode,
    pub modifiers: u8,
}

/// Ctrl-C and Ctrl-Q quit.
pub open spec fn spec_is_quit_key(key: KeyEvent) -> bool {
    (key.code == KeyCode::Char('c') || key.code == KeyCode::Char('q')) && key.modifiers == MOD_CONTROL
}

/// Whether the key quits the client.
pub fn is_quit_key(key: KeyEvent) -> (r: bool)
    ensures
        r == spec_is_quit_key(key),
{
    match key.code {
        KeyCode::Char(c) => (c == 'c' || c == 'q') && key.modifiers == MOD_CONTROL,
        _ => false,
    }
}

/// Esc, Enter, and any plain character dismiss the error popup.
pub open spec fn spec_dismisses_error(key: KeyEvent) -> bool {
    key.code == KeyCode::Esc || key.code == KeyCode::Enter || (key.code is Char && key.modifiers
        == MOD_NONE)
}

/// Whether the key dismisses the error popup.
pub fn dismisses_error(key: KeyEvent) -> (r: bool)
    ensures
        r == spec_dismisses_error(key),
{
    match key.code {
        KeyCode::Esc => true,
        KeyCode::Enter => true,
        KeyCode::Char(_) => key.modifiers == MOD_NONE,
        _ => false,
    }
}

/// Ctrl-F searches memory.
pub open spec fn spec_is_memory_search_key(key: KeyEvent) -> bool {
    key.code == KeyCode::Char('f') && key.modifiers == MOD_CONTROL
}

/// Whether the key searches memory with the composer text.
pub fn is_memory_search_key(key: KeyEvent) -> (r: bool)
    ensures
        r == spec_is_memory_search_key(key),
{
    match key.code {
        KeyCode::Char(c) => c == 'f' && key.modifiers == MOD_CONTROL,
        _ => false,
    }
}

/// What a key does while the finder is open.
#[derive(Clone, Copy, Debug, PartialEq, Eq, Structural)]
pub enum FinderAction {
    Close,
    MoveUp,
    MoveDown,
    Pop,
    Select,
    Push(char),
    Ignore,
}

/// What a key does.
#[derive(Clone, Copy, Debug, PartialEq, Eq, Structural)]
pub enum KeyAction {
    Quit,
    CloseHelp,
    Ignore,
    DismissError,
    Finder(FinderAction),
    OpenHelp,
    OpenGameFinder,
    OpenSessionFinder,
    Refresh,
    NextTab,
    PreviewContext,
    SearchMemory,
    ScrollUp,
    ScrollDown,
    InsertNewline,
    Send,
    ComposerInput,
}

/// Whether `key` is `c` with exactly Control held.
pub open spec fn is_ctrl(key: KeyEvent, c: char) -> bool {
    key.code == KeyCode::Char(c) && key.modifiers == MOD_CONTROL
}

/// What a key does in the finder.
pub open spec fn spec_finder_action(key: KeyEvent) -> FinderAction {
    match key.code {
        KeyCode::Esc => FinderAction::Close,
        KeyCode::Up => FinderAction::MoveUp,
        KeyCode::Down => FinderAction::MoveDown,
        KeyCode::Backspace => FinderAction::Pop,
        KeyCode::Enter => FinderAction::Select,
        KeyCode::Char(c) => if key.modifiers == MOD_NONE {
            FinderAction::Push(c)
        } else {
            FinderAction::Ignore
        },
        _ => FinderAction::Ignore,
    }
}

/// What a key does: quitting first, then the help overlay, the error popup
/// and the finder each take the key while shown; otherwise the key
/// bindings of the main screen apply and other keys go to the composer.
pub open spec fn spec_key_action(key: KeyEvent, help_open: bool, error_shown: bool, finder_open: bool) -> KeyAction {
    if spec_is_quit_key(key) {
        KeyAction::Quit
    } else if help_open {
        if key.code == KeyCode::Esc || key.code == KeyCode::Char('?') {
            KeyAction::CloseHelp
        } else {
            KeyAction::Ignore
        }
    } else if error_shown && spec_dismisses_error(key) {
        KeyAction::DismissError
    } else if finder_open {
        KeyAction::Finder(spec_finder_action(key))
    } else if key.code == KeyCode::Char('?') && key.modifiers == MOD_NONE {
        KeyAction::OpenHelp
    } else if is_ctrl(key, 'g') {
        KeyAction::OpenGameFinder
    } else if is_ctrl(key, 'l') {
        KeyAction::OpenSessionFinder
    } else if is_ctrl(key, 'r') {
        KeyAction::Refresh
    } else if is_ctrl(key, 't') {
        KeyAction::NextTab
    } else if is_ctrl(key, 'p') {
        KeyAction::PreviewContext
    } else if spec_is_memory_search_key(key) {
        KeyAction::SearchMemory
    } else if key.code == KeyCode::PageUp {
        KeyAction::ScrollUp
    } else if key.code == KeyCode::PageDown {
        KeyAction::ScrollDown
    } else if (key.code == KeyCode::Enter && key.modifiers == MOD_ALT) || is_ctrl(key, 'j') {
        KeyAction::InsertNewline
    } else if key.code == KeyCode::Enter {
        KeyAction::Send
    } else {
        KeyAction::ComposerInput
    }
}

/// What a key does in the finder.
pub fn finder_action(key: KeyEvent) -> (r: FinderAction)
    ensures
        r == spec_finder_action(key),
{
    match key.code {
        KeyCode::Esc => FinderAction::Close,
        KeyCode::Up => FinderAction::MoveUp,
        KeyCode::Down => FinderAction::MoveDown,
        KeyCode::Backspace => FinderAction::Pop,
        KeyCode::Enter => FinderAction::Select,
        KeyCode::Char(c) => if key.modifiers == MOD_NONE {
            FinderAction::Push(c)
        } else {
            FinderAction::Ignore
        },
        _ => FinderAction::Ignore,
    }
}

/// What a key does, given which overlays are shown.
pub fn key_action(key: KeyEvent, help_open: bool, error_shown: bool, finder_open: bool) -> (r:
    KeyAction)
    ensures
        r == spec_key_action(key, help_open, error_shown, finder_open),
{
    if is_quit_key(key) {
        return KeyAction::Quit;
    }
    if help_open {
        return match key.code {
            KeyCode::Esc => KeyAction::CloseHelp,
            KeyCode::Char(c) => if c == '?' {
                KeyAction::CloseHelp
            } else {
                KeyAction::Ignore
            },
            _ => KeyAction::Ignore,
        };
    }
    if error_shown && dismisses_error(key) {
        return KeyAction::DismissError;
    }
    if finder_open {
        return KeyAction::Finder(finder_action(key));
    }
    let ctrl = key.modifiers == MOD_CONTROL;
    match key.code {
        KeyCode::Char(c) => {
            if c == '?' && key.modifiers == MOD_NONE {
                KeyAction::OpenHelp
            } else if ctrl && c == 'g' {
                KeyAction::OpenGameFinder
            } else if ctrl && c == 'l' {
                KeyAction::OpenSessionFinder
            } else if ctrl && c == 'r' {
                KeyAction::Refresh
            } else if ctrl && c == 't' {
                KeyAction::NextTab
            } else if ctrl && c == 'p' {
                KeyAction::PreviewContext
            } else if ctrl && c == 'f' {
                KeyAction::SearchMemory
            } else if ctrl && c == 'j' {
                KeyAction::InsertNewline
            } else {
                KeyAction::ComposerInput
            }
        },
        KeyCode::PageUp => KeyAction::ScrollUp,
        KeyCode::PageDown => KeyAction::ScrollDown,
        KeyCode::Enter => if key.modifiers == MOD_ALT {
            KeyAction::InsertNewline
        } else {
            KeyAction::Send
        },
        _ => KeyAction::ComposerInput,
    }
}

/// Quitting always wins: a quit key quits whatever is shown.
pub proof fn quit_key_always_quits(key: KeyEvent, help_open: bool, error_shown: bool, finder_open: bool)
    requires
        spec_is_quit_key(key),
    ensures
        spec_key_action(key, help_open, error_shown, finder_open) == KeyAction::Quit,
{
}

/// The key bindings of the main screen, with neither help nor the finder
/// shown (an error popup lets Control keys through): Control-G opens the
/// game finder, Control-L the session finder, Control-R refreshes, Control-T
/// moves to the next tab, Control-P previews the context, Control-F searches
/// memory, `?` opens help, Page Up and Page Down scroll, Enter sends and
/// Alt-Enter or Control-J starts a new line.
pub proof fn main_screen_key_bindings(error_shown: bool)
    ensures
        spec_key_action(KeyEvent { code: KeyCode::Char('g'), modifiers: MOD_CONTROL }, false, error_shown, false)
            == KeyAction::OpenGameFinder,
        spec_key_action(KeyEvent { code: KeyCode::Char('l'), modifiers: MOD_CONTROL }, false, error_shown, false)
            == KeyAction::OpenSessionFinder,
        spec_key_action(KeyEvent { code: KeyCode::Char('r'), modifiers: MOD_CONTROL }, false, error_shown, false)
            == KeyAction::Refresh,
        spec_key_action(KeyEvent { code: KeyCode::Char('t'), modifiers: MOD_CONTROL }, false, error_shown, false)
            == KeyAction::NextTab,
        spec_key_action(KeyEvent { code: KeyCode::Char('p'), modifiers: MOD_CONTROL }, false, error_shown, false)
            == KeyAction::PreviewContext,
        spec_key_action(KeyEvent { code: KeyCode::Char('f'), modifiers: MOD_CONTROL }, false, error_shown, false)
            == KeyAction::SearchMemory,
        spec_key_action(KeyEvent { code: KeyCode::Char('j'), modifiers: MOD_CONTROL }, false, error_shown, false)
            == KeyAction::InsertNewline,
        spec_key_action(KeyEvent { code: KeyCode::Enter, modifiers: MOD_ALT }, false, false, false)
            == KeyAction::InsertNewline,
        spec_key_action(KeyEvent { code: KeyCode::Enter, modifiers: MOD_NONE }, false, false, false)
            == KeyAction::Send,
        spec_key_action(KeyEvent { code: KeyCode::Char('?'), modifiers: MOD_NONE }, false, false, false)
            == KeyAction::OpenHelp,
        spec_key_action(KeyEvent { code: KeyCode::PageUp, modifiers: MOD_NONE }, false, false, false)
            == KeyAction::ScrollUp,
        spec_key_action(KeyEvent { code: KeyCode::PageDown, modifiers: MOD_NONE }, false, false, false)
            == KeyAction::ScrollDown,
        spec_key_action(KeyEvent { code: KeyCode::Char('x'), modifiers: MOD_NONE }, false, false, false)
            == KeyAction::ComposerInput,
{
}

/// With the finder open and no other overlay: Escape closes it, the arrows
/// move the selection, Backspace deletes from the query, Enter chooses, and
/// a plain character is typed into the query.
pub proof fn finder_key_bindings(c: char)
    ensures
        spec_key_action(KeyEvent { code: KeyCode::Esc, modifiers: MOD_NONE }, false, false, true)
            == KeyAction::Finder(FinderAction::Close),
        spec_key_action(KeyEvent { code: KeyCode::Up, modifiers: MOD_NONE }, false, false, true)
            == KeyAction::Finder(FinderAction::MoveUp),
        spec_key_action(KeyEvent { code: KeyCode::Down, modifiers: MOD_NONE }, false, false, true)
            == KeyAction::Finder(FinderAction::MoveDown),
        spec_key_action(KeyEvent { code: KeyCode::Backspace, modifiers: MOD_NONE }, false, false, true)
            == KeyAction::Finder(FinderAction::Pop),
        spec_key_action(KeyEvent { code: KeyCode::Enter, modifiers: MOD_NONE }, false, false, true)
            == KeyAction::Finder(FinderAction::Select),
        spec_key_action(KeyEvent { code: KeyCode::Char(c), modifiers: MOD_NONE }, false, false, true)
            == KeyAction::Finder(FinderAction::Push(c)),
{
}

/// While help is shown, Escape and `?` close it and every other key but a
/// quit key is ignored.
pub proof fn help_overlay_takes_every_key(key: KeyEvent, error_shown: bool, finder_open: bool)
    ensures
        !spec_is_quit_key(key) ==> (spec_key_action(key, true, error_shown, finder_open)
            == KeyAction::CloseHelp <==> (key.code == KeyCode::Esc || key.code == KeyCode::Char('?'))),
        !spec_is_quit_key(key) && !(key.code == KeyCode::Esc || key.code == KeyCode::Char('?'))
            ==> spec_key_action(key, true, error_shown, finder_open) == KeyAction::Ignore,
{
}

/// An event from the task that streams a reply.
#[derive(Clone, Debug, PartialEq, Eq)]
pub enum AppEvent {
    AssistantDelta(String),
    SendComplete,
    SendFailed(String),
}

/// The position of the last assistant message of `msgs`, or -1 when there is none.
pub open spec fn last_assistant_index(msgs: Seq<pb::Message>) -> int
    decreases msgs.len(),
{
    if msgs.len() == 0 {
        -1
    } else if msgs.last().role == PbMessageRole::Assistant.code() {
        msgs.len() - 1
    } else {
        last_assistant_index(msgs.drop_last())
    }
}

/// `msgs` with `delta` appended to the content of its last assistant
/// message; unchanged when there is none.
pub open spec fn with_assistant_delta(msgs: Seq<pb::Message>, delta: Seq<char>) -> Seq<Seq<char>> {
    let k = last_assistant_index(msgs);
    Seq::new(
        msgs.len(),
        |i: int|
            if i == k {
                msgs[i].content@ + delta
            } else {
                msgs[i].content@
            },
    )
}

/// The contents of `msgs`, in order.
pub open spec fn contents_of(msgs: Seq<pb::Message>) -> Seq<Seq<char>> {
    msgs.map_values(|m: pb::Message| m.content@)
}

/// The last assistant message is a message with the assistant role, and no
/// later message has it.
proof fn last_assistant_index_facts(msgs: Seq<pb::Message>)
    ensures
        -1 <= last_assistant_index(msgs) < msgs.len(),
        last_assistant_index(msgs) >= 0 ==> msgs[last_assistant_index(msgs)].role
            == PbMessageRole::Assistant.code(),
        forall|j: int|
            last_assistant_index(msgs) < j < msgs.len() ==> (#[trigger] msgs[j]).role
                != PbMessageRole::Assistant.code(),
    decreases msgs.len(),
{
    if msgs.len() > 0 && msgs.last().role != PbMessageRole::Assistant.code() {
        last_assistant_index_facts(msgs.drop_last());
        assert forall|j: int|
            last_assistant_index(msgs) < j < msgs.len() implies (#[trigger] msgs[j]).role
            != PbMessageRole::Assistant.code() by {
            if j < msgs.len() - 1 {
                assert(msgs[j] == msgs.drop_last()[j]);
            }
        }
    }
}

/// The client's state: where it is connected, what is selected, the
/// transcript, and what the screen shows.
pub struct App {
    pub addr: String,
    pub user_id: String,
    pub model: Option<String>,
    pub game: Option<pb::Game>,
    pub session: Option<pb::Session>,
    pub messages: Vec<pb::Message>,
    pub summary: Option<pb::StorySummary>,
    pub right_tab: RightTab,
    pub finder: Option<FinderState>,
    pub help_open: bool,
    pub search_results: Vec<String>,
    pub transcript_scroll: u16,
    pub status: String,
    pub error: Option<String>,
    pub streaming: bool,
    pub quit: bool,
}

/// The transcript scrolled up by five lines, stopping at the top.
pub open spec fn scrolled_up(scroll: u16) -> u16 {
    if scroll >= 5 {
        (scroll - 5) as u16
    } else {
        0
    }
}

/// The transcript scrolled down by five lines, stopping at the largest offset.
pub open spec fn scrolled_down(scroll: u16) -> u16 {
    if scroll <= u16::MAX - 5 {
        (scroll + 5) as u16
    } else {
        u16::MAX
    }
}

/// Whether `after` is what the finder key `action` makes of `before`: the
/// highlight moves up or down with wrapping, a character is added to or
/// removed from the query as `push_query` and `pop_query` do, and any other
/// key leaves the finder as it was. Only the highlight and the query change.
pub open spec fn finder_stepped(before: FinderState, action: FinderAction, after: FinderState) -> bool {
    let n = before.spec_filtered_len();
    let kept = after.spec_mode() == before.spec_mode() && after.spec_games() == before.spec_games()
        && after.spec_sessions() == before.spec_sessions();
    match action {
        FinderAction::MoveUp => kept && after.spec_query() == before.spec_query() && after.spec_selected() == (
        if n == 0 {
            before.spec_selected()
        } else if before.spec_selected() == 0 {
            (n - 1) as nat
        } else {
            (before.spec_selected() - 1) as nat
        }),
        FinderAction::MoveDown => kept && after.spec_query() == before.spec_query() && after.spec_selected() == (
        if n == 0 {
            before.spec_selected()
        } else {
            (before.spec_selected() + 1) % n
        }),
        FinderAction::Push(c) => kept && after.spec_query() == before.spec_query().push(c)
            && after.spec_selected() == 0,
        FinderAction::Pop => {
            &&& kept
            &&& after.spec_query() == (if before.spec_query().len() > 0 {
                before.spec_query().drop_last()
            } else {
                before.spec_query()
            })
            &&& after.spec_selected() == (if before.spec_selected() < after.spec_filtered_len() {
                before.spec_selected()
            } else if after.spec_filtered_len() > 0 {
                (after.spec_filtered_len() - 1) as nat
            } else {
                0
            })
        },
        _ => after == before,
    }
}

/// The finder's highlight is within its matches, when the finder is open.
pub open spec fn finder_ok(finder: Option<FinderState>) -> bool {
    match finder {
        Some(f) => f.selection_in_range(),
        None => true,
    }
}

impl App {
    /// A client connected to `addr` as `user_id`, with nothing selected.
    pub fn new(addr: String, user_id: String, model: Option<String>) -> (r: App)
        ensures
            r.addr == addr,
            r.user_id == user_id,
            r.model == model,
            r.game is None,
            r.session is None,
            r.messages@.len() == 0,
            r.summary is None,
            r.right_tab == RightTab::Cast,
            r.finder is None,
            !r.help_open,
            r.search_results@.len() == 0,
            r.transcript_scroll == 0,
            r.status@ == "ready"@,
            r.error is None,
            !r.streaming,
            !r.quit,
    {
        App {
            addr,
            user_id,
            model,
            game: None,
            session: None,
            messages: Vec::new(),
            summary: None,
            right_tab: RightTab::Cast,
            finder: None,
            help_open: false,
            search_results: Vec::new(),
            transcript_scroll: 0,
            status: "ready".to_owned(),
            error: None,
            streaming: false,
            quit: false,
        }
    }

    /// Shows `error` in the error popup.
    pub fn set_error(&mut self, error: String)
        ensures
            *final(self) == (App { error: Some(error), ..*old(self) }),
            final(self).error == Some(error),
            final(self).status == old(self).status,
            final(self).messages == old(self).messages,
            final(self).streaming == old(self).streaming,
            final(self).session == old(self).session,
            final(self).finder == old(self).finder,
    {
        self.error = Some(error);
    }

    /// Shows `status` in the header and clears any error.
    pub fn set_status(&mut self, status: String)
        ensures
            *final(self) == (App { status: status, error: None, ..*old(self) }),
            final(self).status == status,
            final(self).error is None,
            final(self).messages == old(self).messages,
            final(self).streaming == old(self).streaming,
            final(self).session == old(self).session,
            final(self).finder == old(self).finder,
    {
        self.status = status;
        self.error = None;
    }

    /// The session id new messages belong to: the selected session's, or empty.
    pub open spec fn spec_session_id(&self) -> Seq<char> {
        match self.session {
            Some(s) => s.id@,
            None => Seq::empty(),
        }
    }

    /// The session id new messages belong to.
    fn session_id(&self) -> (r: String)
        ensures
            r@ == self.spec_session_id(),
    {
        match &self.session {
            Some(s) => s.id.clone(),
            None => String::new(),
        }
    }

    /// Shows the player's message in the transcript while it is being sent.
    pub fn push_user_message(&mut self, content: String)
        ensures
            final(self).messages@.len() == old(self).messages@.len() + 1,
            final(self).messages@.drop_last() == old(self).messages@,
            final(self).messages@.last().id@ == Seq::<char>::empty(),
            final(self).messages@.last().session_id@ == old(self).spec_session_id(),
            final(self).messages@.last().role == PbMessageRole::User.code(),
            final(self).messages@.last().content == content,
            final(self).messages@.last().created_at@ == "pending"@,
            final(self).session == old(self).session,
            final(self).streaming == old(self).streaming,
            final(self).finder == old(self).finder,
            final(self).model == old(self).model,
    {
        let session_id = self.session_id();
        self.messages.push(
            pb::Message {
                id: String::new(),
                session_id,
                role: PbMessageRole::User.as_i32(),
                content,
                created_at: "pending".to_owned(),
            },
        );
        assert(self.messages@.drop_last() =~= old(self).messages@);
    }

    /// Adds the empty assistant message that the streamed reply fills.
    pub fn start_assistant_message(&mut self)
        ensures
            final(self).messages@.len() == old(self).messages@.len() + 1,
            final(self).messages@.drop_last() == old(self).messages@,
            final(self).messages@.last().id@ == Seq::<char>::empty(),
            final(self).messages@.last().session_id@ == old(self).spec_session_id(),
            final(self).messages@.last().role == PbMessageRole::Assistant.code(),
            final(self).messages@.last().content@ == Seq::<char>::empty(),
            final(self).messages@.last().created_at@ == "streaming"@,
            final(self).session == old(self).session,
            final(self).streaming == old(self).streaming,
            final(self).finder == old(self).finder,
            final(self).model == old(self).model,
    {
        let session_id = self.session_id();
        self.messages.push(
            pb::Message {
                id: String::new(),
                session_id,
                role: PbMessageRole::Assistant.as_i32(),
                content: String::new(),
                created_at: "streaming".to_owned(),
            },
        );
        assert(self.messages@.drop_last() =~= old(self).messages@);
    }

    /// Appends a streamed delta to the last assistant message.
    pub fn append_assistant_delta(&mut self, delta: &str)
        ensures
            final(self).messages@.len() == old(self).messages@.len(),
            contents_of(final(self).messages@) == with_assistant_delta(old(self).messages@, delta@),
            forall|i: int|
                0 <= i < final(self).messages@.len() ==> (#[trigger] final(self).messages@[i]).role
                    == old(self).messages@[i].role && final(self).messages@[i].id == old(
                    self).messages@[i].id && final(self).messages@[i].session_id == old(
                    self).messages@[i].session_id && final(self).messages@[i].created_at == old(
                    self).messages@[i].created_at,
            *final(self) == (App { messages: final(self).messages, ..*old(self) }),
            final(self).session == old(self).session,
            final(self).streaming == old(self).streaming,
            final(self).status == old(self).status,
            final(self).error == old(self).error,
    {
        proof {
            last_assistant_index_facts(self.messages@);
        }
        let mut k = self.messages.len();
        while k > 0
            invariant
                k <= self.messages@.len(),
                self.messages@ == old(self).messages@,
                forall|j: int|
                    k <= j < self.messages@.len() ==> (#[trigger] self.messages@[j]).role
                        != PbMessageRole::Assistant.code(),
            ensures
                k <= self.messages@.len(),
                self.messages@ == old(self).messages@,
                forall|j: int|
                    k <= j < self.messages@.len() ==> (#[trigger] self.messages@[j]).role
                        != PbMessageRole::Assistant.code(),
                k > 0 ==> self.messages@[k - 1].role == PbMessageRole::Assistant.code(),
            decreases k,
        {
            if self.messages[k - 1].role == PbMessageRole::Assistant.as_i32() {
                break;
            }
            k = k - 1;
        }
        let ghost msgs = self.messages@;
        if k > 0 {
            let idx = k - 1;
            assert(msgs[idx as int].role == PbMessageRole::Assistant.code());
            proof {
                if last_assistant_index(msgs) != idx {
                    if last_assistant_index(msgs) > idx {
                        assert(msgs[last_assistant_index(msgs)].role != PbMessageRole::Assistant.code());
                    }
                }
            }
            assert(last_assistant_index(msgs) == idx);
            let mut m = self.messages.remove(idx);
            m.content.append(delta);
            self.messages.insert(idx, m);
            assert(contents_of(self.messages@) =~= with_assistant_delta(msgs, delta@));
        } else {
            assert(last_assistant_index(msgs) < 0);
            assert(contents_of(self.messages@) =~= with_assistant_delta(msgs, delta@));
        }
    }

    /// Applies an event of the streaming task: a delta extends the reply, a
    /// completed reply ends streaming with a status, a failure ends
    /// streaming with an error.
    pub fn handle_app_event(&mut self, event: AppEvent)
        ensures
            event matches AppEvent::AssistantDelta(d) ==> contents_of(final(self).messages@)
                == with_assistant_delta(old(self).messages@, d@) && final(self).streaming == old(
                self).streaming && final(self).status == old(self).status && final(self).error
                == old(self).error,
            event is AssistantDelta ==> {
                &&& *final(self) == (App { messages: final(self).messages, ..*old(self) })
                &&& final(self).messages@.len() == old(self).messages@.len()
                &&& forall|i: int|
                    0 <= i < final(self).messages@.len() ==> (#[trigger] final(self).messages@[i]).role
                        == old(self).messages@[i].role && final(self).messages@[i].id == old(
                        self).messages@[i].id && final(self).messages@[i].session_id == old(
                        self).messages@[i].session_id && final(self).messages@[i].created_at
                        == old(self).messages@[i].created_at
            },
            event is SendComplete ==> *final(self) == (App {
                streaming: false,
                status: final(self).status,
                error: None,
                ..*old(self)
            }),
            event matches AppEvent::SendFailed(e) ==> *final(self) == (App {
                streaming: false,
                error: Some(e),
                ..*old(self)
            }),
            event is SendComplete ==> !final(self).streaming && final(self).error is None
                && final(self).status@ == "assistant complete; memory update queued"@
                && final(self).messages == old(self).messages,
            event matches AppEvent::SendFailed(e) ==> !final(self).streaming && final(self).error
                == Some(e) && final(self).status == old(self).status && final(self).messages == old(
                self).messages,
    {
        match event {
            AppEvent::AssistantDelta(delta) => self.append_assistant_delta(delta.as_str()),
            AppEvent::SendComplete => {
                self.streaming = false;
                self.set_status("assistant complete; memory update queued".to_owned());
            },
            AppEvent::SendFailed(error) => {
                self.streaming = false;
                self.set_error(error);
            },
        }
    }

    /// Applies the effect of a key that needs no server call; keys that need
    /// one are left to the caller and change nothing here. Each action
    /// changes the one part of the state it names and nothing else: quitting
    /// sets `quit`, the help keys open or close help, dismissing clears the
    /// error, the tab key moves to the next tab, the scroll keys move the
    /// transcript by five lines, and a finder key closes the finder or does
    /// to it what the matching `FinderState` method does.
    pub fn apply_local_action(&mut self, action: KeyAction)
        requires
            finder_ok(old(self).finder),
        ensures
            finder_ok(final(self).finder),
            match action {
                KeyAction::Quit => *final(self) == (App { quit: true, ..*old(self) }),
                KeyAction::CloseHelp => *final(self) == (App { help_open: false, ..*old(self) }),
                KeyAction::OpenHelp => *final(self) == (App { help_open: true, ..*old(self) }),
                KeyAction::DismissError => *final(self) == (App { error: None, ..*old(self) }),
                KeyAction::NextTab => *final(self) == (App {
                    right_tab: old(self).right_tab.next_spec(),
                    ..*old(self)
                }),
                KeyAction::ScrollUp => *final(self) == (App {
                    transcript_scroll: scrolled_up(old(self).transcript_scroll),
                    ..*old(self)
                }),
                KeyAction::ScrollDown => *final(self) == (App {
                    transcript_scroll: scrolled_down(old(self).transcript_scroll),
                    ..*old(self)
                }),
                KeyAction::Finder(FinderAction::Close) => *final(self) == (App { finder: None, ..*old(self) }),
                KeyAction::Finder(f) => match old(self).finder {
                    Some(f0) => {
                        &&& final(self).finder matches Some(f1) && finder_stepped(f0, f, f1)
                        &&& *final(self) == (App { finder: final(self).finder, ..*old(self) })
                    },
                    None => *final(self) == *old(self),
                },
                _ => *final(self) == *old(self),
            },
    {
        match action {
            KeyAction::Quit => self.quit = true,
            KeyAction::CloseHelp => self.help_open = false,
            KeyAction::OpenHelp => self.help_open = true,
            KeyAction::DismissError => self.error = None,
            KeyAction::NextTab => self.right_tab = self.right_tab.next(),
            KeyAction::ScrollUp => {
                self.transcript_scroll = if self.transcript_scroll >= 5 {
                    self.transcript_scroll - 5
                } else {
                    0
                };
            },
            KeyAction::ScrollDown => {
                self.transcript_scroll = if self.transcript_scroll <= u16::MAX - 5 {
                    self.transcript_scroll + 5
                } else {
                    u16::MAX
                };
            },
            KeyAction::Finder(FinderAction::Close) => self.finder = None,
            KeyAction::Finder(f) => {
                let taken = self.finder.take();
                match taken {
                    Some(mut finder) => {
                        match f {
                            FinderAction::MoveUp => finder.move_up(),
                            FinderAction::MoveDown => finder.move_down(),
                            FinderAction::Pop => finder.pop_query(),
                            FinderAction::Push(c) => finder.push_query(c),
                            _ => {},
                        }
                        self.finder = Some(finder);
                    },
                    None => {},
                }
            },
            _ => {},
        }
    }
}

impl RightTab {
    /// The tab after this one, wrapping from the last to the first.
    pub open spec fn next_spec(self) -> RightTab {
        tab_order()[(tab_index(self) + 1) % 5]
    }
}


/// The composer's text: its lines joined by newlines, trimmed.
pub fn composer_content(lines: &Vec<String>) -> (r: String)
    ensures
        r@ == trim(join_with(string_views(lines@), "\n"@)),
{
    let joined = join_strings(lines, "\n");
    trim_str(joined.as_str())
}

/// A turn to send: the session, the player's text and the model override.
#[derive(Clone, Debug, PartialEq, Eq)]
pub struct SendRequest {
    pub session_id: String,
    pub content: String,
    pub model: Option<String>,
}

/// The id of the selected session, if any.
pub open spec fn selected_session_id(session: Option<pb::Session>) -> Option<Seq<char>> {
    match session {
        Some(s) => Some(s.id@),
        None => None,
    }
}

impl App {
    /// Starts sending the composer text `content`: refused while a reply
    /// streams or when no session is selected, skipped when the text is
    /// empty; otherwise the player's message and an empty reply are shown and
    /// streaming begins.
    pub fn begin_send(&mut self, content: String) -> (r: Option<SendRequest>)
        ensures
            old(self).streaming ==> r is None && final(self).status@
                == "assistant is still responding"@ && final(self).error is None
                && final(self).messages == old(self).messages,
            !old(self).streaming && old(self).session is None ==> r is None && final(self).status@
                == "select a session first"@ && final(self).error is None && final(self).messages
                == old(self).messages,
            !old(self).streaming && old(self).session is Some && content@.len() == 0 ==> r is None
                && final(self).messages == old(self).messages && final(self).status == old(
                self).status,
            r matches Some(req) ==> {
                &&& !old(self).streaming
                &&& selected_session_id(old(self).session) == Some(req.session_id@)
                &&& req.content == content
                &&& req.model == old(self).model
                &&& content@.len() > 0
                &&& final(self).streaming
                &&& final(self).status@ == "streaming assistant response"@
                &&& final(self).error is None
                &&& final(self).messages@.len() == old(self).messages@.len() + 2
                &&& final(self).messages@.take(old(self).messages@.len() as int) == old(self).messages@
                &&& final(self).messages@[old(self).messages@.len() as int].role == PbMessageRole::User.code()
                &&& final(self).messages@[old(self).messages@.len() as int].content == content
                &&& final(self).messages@.last().role == PbMessageRole::Assistant.code()
                &&& final(self).messages@.last().content@ == Seq::<char>::empty()
            },
            !old(self).streaming && old(self).session is Some && content@.len() > 0 ==> r is Some,
            final(self).session == old(self).session,
            final(self).finder == old(self).finder,
    {
        if self.streaming {
            self.set_status("assistant is still responding".to_owned());
            return None;
        }
        let session_id = match &self.session {
            Some(s) => s.id.clone(),
            None => {
                self.set_status("select a session first".to_owned());
                return None;
            },
        };
        if content.as_str().is_empty() {
            return None;
        }
        let model = match &self.model {
            Some(m) => Some(m.clone()),
            None => None,
        };
        let ghost before = self.messages@;
        let copy = content.clone();
        self.push_user_message(copy);
        let ghost mid = self.messages@;
        assert(mid[before.len() as int].content == copy);
        self.start_assistant_message();
        assert(self.messages@[before.len() as int] == self.messages@.drop_last()[before.len() as int]);
        self.streaming = true;
        self.set_status("streaming assistant response".to_owned());
        assert(self.messages@.take(before.len() as int) =~= before);
        assert(selected_session_id(old(self).session) == Some(session_id@));
        assert(model == old(self).model);
        assert(self.messages@.len() == before.len() + 2);
        assert(self.messages@[before.len() as int].role == PbMessageRole::User.code());
        assert(self.messages@[before.len() as int].content == content);
        Some(SendRequest { session_id, content, model })
    }

    /// The context preview to ask for: the selected session and the composer
    /// text, or a request to continue the scene when the text is empty;
    /// nothing without a selected session.
    pub fn preview_request(&mut self, content: String) -> (r: Option<(String, String)>)
        ensures
            old(self).session is None ==> r is None && final(self).status@
                == "select a session first"@ && final(self).error is None,
            old(self).session is Some ==> final(self).status == old(self).status && final(
                self).error == old(self).error,
            r matches Some((sid, text)) ==> selected_session_id(old(self).session) == Some(sid@) && (
            if content@.len() == 0 {
                text@ == "Continue the scene."@
            } else {
                text == content
            }),
            old(self).session is Some ==> r is Some,
            final(self).messages == old(self).messages,
            final(self).session == old(self).session,
            final(self).streaming == old(self).streaming,
            final(self).finder == old(self).finder,
    {
        let session_id = match &self.session {
            Some(s) => s.id.clone(),
            None => {
                self.set_status("select a session first".to_owned());
                return None;
            },
        };
        let text = if content.as_str().is_empty() {
            "Continue the scene.".to_owned()
        } else {
            content
        };
        Some((session_id, text))
    }

    /// The memory search to run: the selected session and the composer text;
    /// nothing without a selected session or with an empty text.
    pub fn search_request(&mut self, query: String) -> (r: Option<(String, String)>)
        ensures
            old(self).session is None ==> r is None && final(self).status@
                == "select a session first"@ && final(self).error is None,
            old(self).session is Some && query@.len() == 0 ==> r is None && final(self).status@
                == "type a query in the composer before Ctrl-F"@ && final(self).error is None,
            r matches Some((sid, q)) ==> selected_session_id(old(self).session) == Some(sid@) && q
                == query,
            old(self).session is Some && query@.len() > 0 ==> r is Some && final(self).status
                == old(self).status && final(self).error == old(self).error,
            final(self).messages == old(self).messages,
            final(self).session == old(self).session,
            final(self).streaming == old(self).streaming,
            final(self).finder == old(self).finder,
    {
        let session_id = match &self.session {
            Some(s) => s.id.clone(),
            None => {
                self.set_status("select a session first".to_owned());
                return None;
            },
        };
        if query.as_str().is_empty() {
            self.set_status("type a query in the composer before Ctrl-F".to_owned());
            return None;
        }
        Some((session_id, query))
    }

    /// The situation shown in the scene panel: the first two sentences of
    /// the summary, else the session title, else an invitation to pick a session.
    pub fn scene_summary(&self) -> (r: String)
        ensures
            r@ == match self.summary {
                Some(s) if spec_first_sentences(s.content@, 2).len() > 0 => spec_first_sentences(
                    s.content@,
                    2,
                ),
                _ => match self.session {
                    Some(s) => s.title@,
                    None => "Select a session to begin."@,
                },
            },
    {
        if let Some(summary) = &self.summary {
            let text = first_sentences(summary.content.as_str(), 2);
            if !text.as_str().is_empty() {
                return text;
            }
        }
        match &self.session {
            Some(s) => s.title.clone(),
            None => "Select a session to begin.".to_owned(),
        }
    }
}

/// The game highlighted in the finder `finder`, when it lists games and one matches.
pub open spec fn chosen_game(finder: Option<FinderState>) -> Option<pb::Game> {
    match finder {
        Some(f) => if f.spec_mode() is Game && f.spec_selected() < matching_games(
            f.spec_games(),
            f.spec_query(),
        ).len() {
            Some(matching_games(f.spec_games(), f.spec_query())[f.spec_selected() as int])
        } else {
            None
        },
        None => None,
    }
}

/// The session highlighted in the finder `finder`, when it lists sessions and one matches.
pub open spec fn chosen_session(finder: Option<FinderState>) -> Option<pb::Session> {
    match finder {
        Some(f) => if f.spec_mode() is Session && f.spec_selected() < matching_sessions(
            f.spec_sessions(),
            f.spec_query(),
        ).len() {
            Some(matching_sessions(f.spec_sessions(), f.spec_query())[f.spec_selected() as int])
        } else {
            None
        },
        None => None,
    }
}

/// What choosing the highlighted entry of the finder leaves to the caller.
#[derive(Clone, Debug, PartialEq, Eq)]
pub enum FinderChoice {
    /// Nothing is highlighted.
    Nothing,
    /// A game was chosen: save the configuration, list its sessions and
    /// open their finder.
    Game(String),
    /// A session was chosen: load it.
    Session(String),
}

/// A copy of `g`.
fn copy_game(g: &pb::Game) -> (r: pb::Game)
    ensures
        r == *g,
{
    pb::Game {
        id: g.id.clone(),
        title: g.title.clone(),
        system_prompt: g.system_prompt.clone(),
        created_at: g.created_at.clone(),
        owner_user_id: g.owner_user_id.clone(),
    }
}

impl App {
    /// Chooses the highlighted entry of the finder (its Enter key). A game
    /// becomes the selected game and the saved game, and the saved session
    /// is forgotten; a session closes the finder. Nothing else changes.
    pub fn choose_in_finder(&mut self, config: &mut ClientConfig) -> (r: FinderChoice)
        ensures
            match chosen_game(old(self).finder) {
                Some(g) => {
                    &&& r == FinderChoice::Game(g.id)
                    &&& *final(self) == (App { game: Some(g), ..*old(self) })
                    &&& *final(config) == (ClientConfig {
                        game_id: Some(g.id),
                        session_id: None,
                        ..*old(config)
                    })
                },
                None => match chosen_session(old(self).finder) {
                    Some(s) => {
                        &&& r == FinderChoice::Session(s.id)
                        &&& *final(self) == (App { finder: None, ..*old(self) })
                        &&& *final(config) == *old(config)
                    },
                    None => r == FinderChoice::Nothing && *final(self) == *old(self) && *final(config)
                        == *old(config),
                },
            },
    {
        let picked_game: Option<pb::Game> = match &self.finder {
            Some(f) => match f.selected_game() {
                Some(g) => Some(copy_game(g)),
                None => None,
            },
            None => None,
        };
        match picked_game {
            Some(game) => {
                let id = game.id.clone();
                self.game = Some(game);
                config.game_id = Some(id.clone());
                config.session_id = None;
                return FinderChoice::Game(id);
            },
            None => {},
        }
        let picked_session: Option<String> = match &self.finder {
            Some(f) => match f.selected_session() {
                Some(s) => Some(s.id.clone()),
                None => None,
            },
            None => None,
        };
        match picked_session {
            Some(id) => {
                self.finder = None;
                FinderChoice::Session(id)
            },
            None => FinderChoice::Nothing,
        }
    }

    /// Opens the finder over the `sessions` of the game `game_id`, with an
    /// empty query; nothing else changes.
    pub fn show_session_finder(&mut self, game_id: String, sessions: Vec<pb::Session>)
        ensures
            final(self).finder matches Some(f) && f.spec_mode() == (FinderMode::Session { game_id })
                && f.spec_query() == Seq::<char>::empty() && f.spec_selected() == 0
                && f.spec_games() == Seq::<pb::Game>::empty() && f.spec_sessions() == sessions@,
            finder_ok(final(self).finder),
            *final(self) == (App { finder: final(self).finder, ..*old(self) }),
    {
        self.finder = Some(FinderState::session(game_id, sessions));
    }
}

/// The client's choices at start: the command line wins over the saved configuration.
#[derive(Clone, Debug, PartialEq, Eq)]
pub enum StartupPlan {
    /// Load the session, and open the game finder if that fails.
    LoadSession(String),
    /// Load the game and open its session finder, or the game finder if that fails.
    LoadGame(String),
    /// Open the game finder.
    FindGame,
}

/// What the client opens at start: a selected session, else a selected
/// game, else the game finder.
pub fn startup_plan(
    arg_game_id: Option<String>,
    arg_session_id: Option<String>,
    config_game_id: Option<String>,
    config_session_id: Option<String>,
) -> (r: StartupPlan)
    ensures
        arg_session_id matches Some(s) ==> r == StartupPlan::LoadSession(s),
        arg_session_id is None && config_session_id is Some ==> r == StartupPlan::LoadSession(
            config_session_id->0,
        ),
        arg_session_id is None && config_session_id is None && arg_game_id is Some ==> r
            == StartupPlan::LoadGame(arg_game_id->0),
        arg_session_id is None && config_session_id is None && arg_game_id is None
            && config_game_id is Some ==> r == StartupPlan::LoadGame(config_game_id->0),
        arg_session_id is None && config_session_id is None && arg_game_id is None
            && config_game_id is None ==> r == StartupPlan::FindGame,
{
    let session = match arg_session_id {
        Some(s) => Some(s),
        None => config_session_id,
    };
    let game = match arg_game_id {
        Some(g) => Some(g),
        None => config_game_id,
    };
    match session {
        Some(s) => StartupPlan::LoadSession(s),
        None => match game {
            Some(g) => StartupPlan::LoadGame(g),
            None => StartupPlan::FindGame,
        },
    }
}

/// What the client opens once the load its start plan asked for is done.
#[derive(Clone, Copy, Debug, PartialEq, Eq, Structural)]
pub enum StartupNext {
    /// The session is shown; nothing more to open.
    Ready,
    /// Open the finder over the user's games.
    OpenGameFinder,
    /// Open the finder over the loaded game's sessions.
    OpenSessionFinder,
}

/// The error shown when the start plan's load fails: which load failed,
/// then the failure.
pub open spec fn startup_error(plan: StartupPlan, failure: Seq<char>) -> Seq<char> {
    match plan {
        StartupPlan::LoadSession(_) => "failed to load session: "@ + failure,
        _ => "failed to load game: "@ + failure,
    }
}

impl App {
    /// Settles the start once the load of `plan` has given `loaded` (the
    /// failure's text when it failed). A loaded session is ready and a
    /// loaded game opens its session finder; a failed load shows which load
    /// failed and falls back to the game finder, as does a plan that loads
    /// nothing. Only the error changes, and only on a failure.
    pub fn after_startup_load(&mut self, plan: &StartupPlan, loaded: Result<(), String>) -> (r:
        StartupNext)
        ensures
            match (*plan, loaded) {
                (StartupPlan::FindGame, _) => r == StartupNext::OpenGameFinder && *final(self)
                    == *old(self),
                (StartupPlan::LoadSession(_), Ok(_)) => r == StartupNext::Ready && *final(self)
                    == *old(self),
                (StartupPlan::LoadGame(_), Ok(_)) => r == StartupNext::OpenSessionFinder
                    && *final(self) == *old(self),
                (_, Err(e)) => {
                    &&& r == StartupNext::OpenGameFinder
                    &&& final(self).error matches Some(m) && m@ == startup_error(*plan, e@)
                    &&& *final(self) == (App { error: final(self).error, ..*old(self) })
                },
            },
    {
        match plan {
            StartupPlan::FindGame => StartupNext::OpenGameFinder,
            StartupPlan::LoadSession(_) => match loaded {
                Ok(_) => StartupNext::Ready,
                Err(e) => {
                    let mut m = "failed to load session: ".to_owned();
                    m.append(e.as_str());
                    self.set_error(m);
                    StartupNext::OpenGameFinder
                },
            },
            StartupPlan::LoadGame(_) => match loaded {
                Ok(_) => StartupNext::OpenSessionFinder,
                Err(e) => {
                    let mut m = "failed to load game: ".to_owned();
                    m.append(e.as_str());
                    self.set_error(m);
                    StartupNext::OpenGameFinder
                },
            },
        }
    }
}

/// A request for the first page of `page_size` entries.
pub fn page(page_size: u32) -> (r: pb::PageRequest)
    ensures
        r.page_size == page_size,
        r.page_token@ == Seq::<char>::empty(),
{
    pb::PageRequest { page_size, page_token: String::new() }
}

/// The server the cockpit connects to: the address given on its command
/// line, else the saved one, else the default, normalized.
pub fn resolve_tui_addr(cli_addr: Option<&str>, config: &ClientConfig) -> (r: Result<String, CliError>)
    ensures
        crate::client::matches_spec(
            r,
            spec_normalize_addr(
                match or_else(opt_view(cli_addr), opt_string_view(config.addr)) {
                    Some(a) => a,
                    None => DEFAULT_ADDR@,
                },
            ),
        ),
{
    resolve_addr(cli_addr, config)
}

/// The model the cockpit asks for: trimmed, empty for the server's default.
pub fn normalize_model(model: Option<String>) -> (r: String)
    ensures
        r@ == match present_value(opt_string_view(model)) {
            Some(m) => m,
            None => Seq::<char>::empty(),
        },
{
    normalize_optional_model(model)
}

} // verus!
