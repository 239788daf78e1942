//! Per-game profiles: a named set of button assignments that applies while a
//! matching window has focus, and the matcher that decides which one that is.
//!
//! Rules are tried strongest first — `WmClass`, then `SteamAppId`, then
//! `Title` — because `WM_CLASS` is stable across launchers and Proton versions
//! and a title is whatever the game feels like showing today. Two profiles
//! matching with the same strength resolve to the first id in table order, so
//! the answer is a function of the config alone.

use vstd::prelude::*;

use crate::action::Action;
use crate::app_model::FocusedWindow;
use crate::button::ButtonId;
use crate::maps::{AssocMap, MapKey};
use crate::text::{eq_ignore_ascii_case, equals, equals_ignore_ascii_case, less_than, lex_less};

verus! {

/// Whether `regex_lite` compiles `pattern` into a regex.
pub uninterp spec fn regex_compiles(pattern: Seq<char>) -> bool;

/// Whether the regex `regex_lite` compiles from `pattern` finds a match
/// anywhere in `haystack`.
pub uninterp spec fn regex_matches(pattern: Seq<char>, haystack: Seq<char>) -> bool;

/// Compiles `pattern` with `regex_lite::Regex::new` and asks the compiled
/// regex, with `Regex::is_match`, whether it matches anywhere in `title`.
/// `None` when the pattern does not compile: it is invalid, or it would exceed
/// the builder's default size limit.
#[verifier::external_body]
fn title_matches(pattern: &str, title: &str) -> (found: Option<bool>)
    ensures
        found is Some <==> regex_compiles(pattern@),
        found matches Some(b) ==> b == regex_matches(pattern@, title@),
{
    match regex_lite::Regex::new(pattern) {
        Ok(regex) => Some(regex.is_match(title)),
        Err(_) => None,
    }
}

/// The key of a profile in the config's profile table, and the value the
/// agent publishes as the applied profile.
#[derive(Clone, Debug, PartialEq, Eq, PartialOrd, Ord, Hash)]
pub struct ProfileId(pub String);

impl View for ProfileId {
    type V = Seq<char>;

    open spec fn view(&self) -> Seq<char> {
        self.0@
    }
}

impl MapKey for ProfileId {
    fn same(&self, other: &Self) -> (same: bool) {
        self.0 == other.0
    }
}

/// One way a window can be recognised as a game.
#[derive(Clone, Debug, PartialEq, Eq)]
pub enum MatchRule {
    /// The application identifier the focus source reports, compared ASCII
    /// case-insensitively, since Wine derives it from the executable name.
    WmClass(String),
    /// Steam's AppID, read from the client process's environment.
    SteamAppId(u32),
    /// A regular expression matched against the window title.
    Title(String),
}

/// How strongly a rule matched; the later variant is the stronger.
#[derive(Clone, Copy, Debug, PartialEq, Eq, Structural)]
pub enum Strength {
    /// A title regex matched.
    Title,
    /// The Steam AppID matched.
    SteamAppId,
    /// The application identifier matched.
    WmClass,
}

/// The priority of a strength.
pub open spec fn rank(s: Strength) -> int {
    match s {
        Strength::Title => 0,
        Strength::SteamAppId => 1,
        Strength::WmClass => 2,
    }
}

fn rank_of(s: Strength) -> (r: u8)
    ensures
        r == rank(s),
{
    match s {
        Strength::Title => 0,
        Strength::SteamAppId => 1,
        Strength::WmClass => 2,
    }
}

/// How strongly `rule` matches `window`, if at all.
pub open spec fn rule_strength(rule: MatchRule, window: FocusedWindow) -> Option<Strength> {
    match rule {
        MatchRule::WmClass(class) => if eq_ignore_ascii_case(class@, window.app.id@) {
            Some(Strength::WmClass)
        } else {
            None
        },
        MatchRule::SteamAppId(id) => if window.steam_app_id == Some(id) {
            Some(Strength::SteamAppId)
        } else {
            None
        },
        MatchRule::Title(pattern) => match window.title {
            Some(title) => if regex_compiles(pattern@) && regex_matches(pattern@, title@) {
                Some(Strength::Title)
            } else {
                None
            },
            None => None,
        },
    }
}

/// The stronger of two optional strengths.
pub open spec fn stronger(a: Option<Strength>, b: Option<Strength>) -> Option<Strength> {
    match (a, b) {
        (None, _) => b,
        (_, None) => a,
        (Some(x), Some(y)) => if rank(y) > rank(x) {
            b
        } else {
            a
        },
    }
}

/// The strongest match among `rules`.
pub open spec fn rules_strength(rules: Seq<MatchRule>, window: FocusedWindow) -> Option<Strength>
    decreases rules.len(),
{
    if rules.len() == 0 {
        None
    } else {
        stronger(
            rules_strength(rules.drop_last(), window),
            rule_strength(rules.last(), window),
        )
    }
}

impl MatchRule {
    /// How strongly this rule matches `window`. A title rule needs a title,
    /// and a pattern that does not compile never matches.
    pub fn strength_against(&self, window: &FocusedWindow) -> (strength: Option<Strength>)
        ensures
            strength == rule_strength(*self, *window),
    {
        match self {
            MatchRule::WmClass(class) => {
                if equals_ignore_ascii_case(class.as_str(), window.app.id.as_str()) {
                    Some(Strength::WmClass)
                } else {
                    None
                }
            },
            MatchRule::SteamAppId(id) => {
                let matched = match window.steam_app_id {
                    Some(seen) => seen == *id,
                    None => false,
                };
                if matched {
                    Some(Strength::SteamAppId)
                } else {
                    None
                }
            },
            MatchRule::Title(pattern) => {
                let title = match &window.title {
                    Some(title) => title,
                    None => return None,
                };
                match title_matches(pattern.as_str(), title.as_str()) {
                    Some(true) => Some(Strength::Title),
                    _ => None,
                }
            },
        }
    }
}

/// The two assignment layers of a profile. A button absent from a layer keeps
/// whatever it would do without the profile; `g_shift` lists only the buttons
/// that change while the trigger is held.
pub struct Assignments {
    /// Bindings that apply while the trigger is not held.
    pub normal: AssocMap<ButtonId, Action>,
    /// Bindings that replace the ones above while the trigger is held.
    pub g_shift: AssocMap<ButtonId, Action>,
}

impl Assignments {
    /// No assignments in either layer.
    pub fn new() -> (assignments: Assignments)
        ensures
            assignments.normal@ == Map::<ButtonId, Action>::empty(),
            assignments.g_shift@ == Map::<ButtonId, Action>::empty(),
    {
        Assignments { normal: AssocMap::new(), g_shift: AssocMap::new() }
    }
}

/// A per-game profile.
pub struct GameProfile {
    /// What the profile list shows.
    pub name: String,
    /// An icon for the profile list; a path, resolved by the GUI.
    pub icon: Option<String>,
    /// Any rule matching activates the profile; the strongest decides ties.
    pub matches: Vec<MatchRule>,
    /// The button assignments the profile applies while it is active.
    pub assignments: Assignments,
}

impl GameProfile {
    /// How strongly this profile matches `window`: its strongest rule.
    pub fn strength_against(&self, window: &FocusedWindow) -> (strength: Option<Strength>)
        ensures
            strength == rules_strength(self.matches@, *window),
    {
        let mut best: Option<Strength> = None;
        let mut i: usize = 0;
        while i < self.matches.len()
            invariant
                0 <= i <= self.matches@.len(),
                best == rules_strength(self.matches@.take(i as int), *window),
            decreases self.matches@.len() - i,
        {
            let ghost prefix = self.matches@.take(i as int + 1);
            assert(prefix.drop_last() =~= self.matches@.take(i as int));
            let found = self.matches[i].strength_against(window);
            best = match (best, found) {
                (None, _) => found,
                (_, None) => best,
                (Some(x), Some(y)) => if rank_of(y) > rank_of(x) {
                    found
                } else {
                    best
                },
            };
            i = i + 1;
        }
        assert(self.matches@.take(self.matches@.len() as int) =~= self.matches@);
        best
    }
}

/// Ids in strictly increasing text order.
pub open spec fn ids_sorted(entries: Seq<(ProfileId, GameProfile)>) -> bool {
    forall|i: int, j: int| 0 <= i < j < entries.len() ==> lex_less(entries[i].0@, entries[j].0@)
}

/// How strongly entry `i` of `table` matches `window`.
pub open spec fn strength_at(
    table: Seq<(ProfileId, GameProfile)>,
    window: FocusedWindow,
    i: int,
) -> Option<Strength> {
    rules_strength(table[i].1.matches@, window)
}

/// Whether entry `i` is the profile `window` activates: it matched, and every
/// other entry that matched did so less strongly, or as strongly under a
/// larger id.
pub open spec fn preferred(table: Seq<(ProfileId, GameProfile)>, window: FocusedWindow, i: int) -> bool {
    &&& 0 <= i < table.len()
    &&& strength_at(table, window, i) matches Some(s) && forall|j: int|
        0 <= j < table.len() && j != i ==> match #[trigger] strength_at(table, window, j) {
            None => true,
            Some(t) => rank(t) < rank(s) || (rank(t) == rank(s) && lex_less(
                table[i].0@,
                table[j].0@,
            )),
        }
}

/// At most one profile is the one a window activates, whatever order the
/// table lists its entries in: the answer is a function of the configuration
/// and the window alone.
pub proof fn lemma_preferred_is_unique(
    table: Seq<(ProfileId, GameProfile)>,
    window: FocusedWindow,
    i: int,
    k: int,
)
    requires
        preferred(table, window, i),
        preferred(table, window, k),
    ensures
        i == k,
{
    if i != k {
        assert(strength_at(table, window, k) is Some);
        assert(strength_at(table, window, i) is Some);
        crate::text::lemma_lex_less_total(table[i].0@, table[k].0@);
    }
}

/// The config's profile table, in id order.
pub struct ProfileTable {
    entries: Vec<(ProfileId, GameProfile)>,
}

/// Whether entry `i` of `strengths` wins: it matched, nothing matched more
/// strongly, and nothing before it matched as strongly.
pub open spec fn wins(strengths: Seq<Option<Strength>>, i: int) -> bool {
    &&& 0 <= i < strengths.len()
    &&& strengths[i] matches Some(s) && {
        &&& forall|j: int|
            0 <= j < strengths.len() ==> (#[trigger] strengths[j] matches Some(t) ==> rank(t)
                <= rank(s))
        &&& forall|j: int|
            0 <= j < i ==> (#[trigger] strengths[j] matches Some(t) ==> rank(t) < rank(s))
    }
}

/// The winner among per-profile strengths, in table order: the strongest
/// match, and of equally strong matches the first. `None` when nothing
/// matched.
pub fn pick_strongest(strengths: &[Option<Strength>]) -> (winner: Option<usize>)
    ensures
        winner is None <==> forall|j: int| 0 <= j < strengths@.len() ==> strengths@[j] is None,
        winner matches Some(i) ==> wins(strengths@, i as int),
{
    let mut best: Option<usize> = None;
    let mut i: usize = 0;
    while i < strengths.len()
        invariant
            0 <= i <= strengths@.len(),
            best is None <==> forall|j: int| 0 <= j < i ==> strengths@[j] is None,
            best matches Some(b) ==> wins(strengths@.take(i as int), b as int),
        decreases strengths@.len() - i,
    {
        let ghost before = strengths@.take(i as int);
        let ghost after = strengths@.take(i as int + 1);
        if let Some(s) = strengths[i] {
            let replace = match best {
                None => true,
                Some(b) => match strengths[b] {
                    Some(t) => rank_of(s) > rank_of(t),
                    None => true,
                },
            };
            if replace {
                best = Some(i);
            }
        }
        proof {
            assert forall|j: int| 0 <= j < i implies after[j] == before[j] && before[j]
                == strengths@[j] by {}
            assert(after[i as int] == strengths@[i as int]);
        }
        i = i + 1;
    }
    assert(strengths@.take(strengths@.len() as int) =~= strengths@);
    best
}

/// Stores `profile` under `id` in a table kept in strictly increasing id
/// order, replacing a profile already stored under the same id.
fn insert_sorted(
    entries: &mut Vec<(ProfileId, GameProfile)>,
    id: ProfileId,
    profile: GameProfile,
)
    requires
        ids_sorted(old(entries)@),
    ensures
        ids_sorted(final(entries)@),
        exists|k: int|
            0 <= k < final(entries)@.len() && final(entries)@[k].0 == id
                && final(entries)@[k].1 == profile,
        forall|k: int|
            0 <= k < old(entries)@.len() && old(entries)@[k].0@ != id@ ==> exists|
                m: int,
            |
                0 <= m < final(entries)@.len() && final(entries)@[m]
                    == old(entries)@[k],
        forall|m: int|
            0 <= m < final(entries)@.len() && final(entries)@[m].0@ != id@
                ==> exists|k: int|
                0 <= k < old(entries)@.len() && final(entries)@[m] == old(entries)@[k],
{
    let ghost before = entries@;
    let mut pos: usize = 0;
    while pos < entries.len() && less_than(entries[pos].0.0.as_str(), id.0.as_str())
        invariant
            0 <= pos <= entries@.len(),
            entries@ == before,
            ids_sorted(before),
            forall|k: int| 0 <= k < pos ==> lex_less(before[k].0@, id@),
        decreases entries@.len() - pos,
    {
        pos = pos + 1;
    }
    if pos < entries.len() && equals(entries[pos].0.0.as_str(), id.0.as_str()) {
        entries.set(pos, (id, profile));
        let ghost after = entries@;
        proof {
            assert(before[pos as int].0@ == id@);
            assert(after[pos as int].0@ == id@);
            assert forall|i: int, j: int| 0 <= i < j < after.len() implies lex_less(
                after[i].0@,
                after[j].0@,
            ) by {
                assert(lex_less(before[i].0@, before[j].0@));
                if i != pos && j != pos {
                    assert(after[i] == before[i] && after[j] == before[j]);
                } else if i == pos {
                    assert(after[j] == before[j]);
                } else {
                    assert(after[i] == before[i]);
                }
            }
            assert(after[pos as int].0 == id);
            assert forall|k: int|
                0 <= k < before.len() && before[k].0@ != id@ implies exists|m: int|
                0 <= m < after.len() && after[m] == before[k] by {
                assert(after[k] == before[k]);
            }
            assert forall|m: int|
                0 <= m < after.len() && after[m].0@ != id@ implies exists|k: int|
                0 <= k < before.len() && after[m] == before[k] by {
                assert(after[m] == before[m]);
            }
        }
    } else {
        proof {
            if pos < before.len() {
                crate::text::lemma_lex_less_total(before[pos as int].0@, id@);
            }
        }
        entries.insert(pos, (id, profile));
        let ghost after = entries@;
        proof {
            assert forall|i: int, j: int| 0 <= i < j < after.len() implies lex_less(
                after[i].0@,
                after[j].0@,
            ) by {
                if j < pos {
                    assert(after[i] == before[i] && after[j] == before[j]);
                } else if j == pos {
                    assert(after[i] == before[i]);
                } else if i < pos {
                    assert(after[i] == before[i] && after[j] == before[j - 1]);
                    assert(lex_less(before[i].0@, id@));
                    if j - 1 > pos {
                        assert(lex_less(before[pos as int].0@, before[j - 1].0@));
                        crate::text::lemma_lex_less_transitive(
                            before[i].0@,
                            id@,
                            before[pos as int].0@,
                        );
                        crate::text::lemma_lex_less_transitive(
                            before[i].0@,
                            before[pos as int].0@,
                            before[j - 1].0@,
                        );
                    } else {
                        crate::text::lemma_lex_less_transitive(
                            before[i].0@,
                            id@,
                            before[pos as int].0@,
                        );
                    }
                } else if i == pos {
                    assert(after[j] == before[j - 1]);
                    if j - 1 > pos {
                        crate::text::lemma_lex_less_transitive(
                            id@,
                            before[pos as int].0@,
                            before[j - 1].0@,
                        );
                    }
                } else {
                    assert(after[i] == before[i - 1] && after[j] == before[j - 1]);
                }
            }
            assert(after[pos as int].0 == id);
            assert forall|k: int|
                0 <= k < before.len() && before[k].0@ != id@ implies exists|m: int|
                0 <= m < after.len() && after[m] == before[k] by {
                if k < pos {
                    assert(after[k] == before[k]);
                } else {
                    assert(after[k + 1] == before[k]);
                }
            }
            assert forall|m: int|
                0 <= m < after.len() && after[m].0@ != id@ implies exists|k: int|
                0 <= k < before.len() && after[m] == before[k] by {
                if m < pos {
                    assert(after[m] == before[m]);
                } else if m > pos {
                    assert(after[m] == before[m - 1]);
                }
            }
        }
    }
}

impl ProfileTable {
    #[verifier::type_invariant]
    closed spec fn sorted(&self) -> bool {
        ids_sorted(self.entries@)
    }

    /// The entries, in strictly increasing id order.
    pub closed spec fn entries(&self) -> Seq<(ProfileId, GameProfile)> {
        self.entries@
    }

    /// An empty table.
    pub fn new() -> (table: ProfileTable)
        ensures
            table.entries() == Seq::<(ProfileId, GameProfile)>::empty(),
    {
        ProfileTable { entries: Vec::new() }
    }

    /// How many profiles the table holds.
    pub fn len(&self) -> (n: usize)
        ensures
            n == self.entries().len(),
    {
        self.entries.len()
    }

    /// Store `profile` under `id`, keeping the table in id order and replacing
    /// a profile already stored under the same id.
    pub fn insert(&mut self, id: ProfileId, profile: GameProfile)
        ensures
            ids_sorted(final(self).entries()),
            exists|k: int|
                0 <= k < final(self).entries().len() && final(self).entries()[k].0 == id
                    && final(self).entries()[k].1 == profile,
            forall|k: int|
                0 <= k < old(self).entries().len() && old(self).entries()[k].0@ != id@ ==> exists|
                    m: int,
                |
                    0 <= m < final(self).entries().len() && final(self).entries()[m]
                        == old(self).entries()[k],
            forall|m: int|
                0 <= m < final(self).entries().len() && final(self).entries()[m].0@ != id@
                    ==> exists|k: int|
                    0 <= k < old(self).entries().len() && final(self).entries()[m] == old(
                        self,
                    ).entries()[k],
    {
        proof {
            use_type_invariant(&*self);
        }
        let ghost start = self.entries();
        let mut entries: Vec<(ProfileId, GameProfile)> = Vec::new();
        std::mem::swap(&mut entries, &mut self.entries);
        assert(entries@ == start);
        insert_sorted(&mut entries, id, profile);
        let ghost result = entries@;
        self.entries = entries;
        assert(self.entries() == result);
    }

    /// The profile `window` should activate, or `None` when no rule matches.
    ///
    /// The strongest rule wins across all profiles; two profiles matching
    /// with the same strength resolve to the first id in table order.
    pub fn resolve(&self, window: &FocusedWindow) -> (id: Option<&ProfileId>)
        ensures
            (id is None) <==> (forall|j: int|
                0 <= j < self.entries().len() ==> rules_strength(
                    self.entries()[j].1.matches@,
                    *window,
                ) is None),
            id matches Some(found) ==> exists|i: int|
                preferred(self.entries(), *window, i) && *found == self.entries()[i].0,
    {
        let ghost spec_strengths = Seq::new(
            self.entries@.len(),
            |j: int| rules_strength(self.entries@[j].1.matches@, *window),
        );
        let mut strengths: Vec<Option<Strength>> = Vec::new();
        let mut i: usize = 0;
        while i < self.entries.len()
            invariant
                0 <= i <= self.entries@.len(),
                spec_strengths.len() == self.entries@.len(),
                forall|j: int|
                    0 <= j < self.entries@.len() ==> spec_strengths[j] == rules_strength(
                        self.entries@[j].1.matches@,
                        *window,
                    ),
                strengths@ == spec_strengths.take(i as int),
            decreases self.entries@.len() - i,
        {
            let s = self.entries[i].1.strength_against(window);
            strengths.push(s);
            assert(strengths@ =~= spec_strengths.take(i as int + 1));
            i = i + 1;
        }
        assert(strengths@ =~= spec_strengths);
        let winner = pick_strongest(strengths.as_slice());
        match winner {
            Some(w) => {
                proof {
                    use_type_invariant(self);
                    let i = w as int;
                    assert(rules_strength(self.entries()[i].1.matches@, *window) is Some);
                    let s = strength_at(self.entries(), *window, i)->0;
                    assert forall|j: int|
                        0 <= j < self.entries().len() && j != i implies match #[trigger] strength_at(
                        self.entries(),
                        *window,
                        j,
                    ) {
                        None => true,
                        Some(t) => rank(t) < rank(s) || (rank(t) == rank(s) && lex_less(
                            self.entries()[i].0@,
                            self.entries()[j].0@,
                        )),
                    } by {
                        assert(strengths@[j] == strength_at(self.entries(), *window, j));
                    }
                    assert(preferred(self.entries(), *window, i));
                }
                Some(&self.entries[w].0)
            },
            None => {
                assert forall|j: int| 0 <= j < self.entries@.len() implies rules_strength(
                    self.entries@[j].1.matches@,
                    *window,
                ) is None by {
                    assert(strengths@[j] is None);
                }
                None
            },
        }
    }
}

} // verus!
