//! Outstanding macro runs, and the paths that end them.
//!
//! The executor guarantees a run releases everything it pressed — but only
//! once something stops it. This registry is what decides when: every run is
//! owned either by the press that started it or, for a latched toggle, by the
//! control and device that latched it, and every way a run can end hands its
//! handle back to be stopped. A run nothing owns is a key held forever.

use vstd::prelude::*;

use crate::macro_model::{Macro, MacroId, RepeatMode};
use crate::maps::{entries_map, unique_keys, AssocMap, MapKey};
use crate::press::{PressControl, PressToken};

verus! {

/// The configured macro table, by identifier.
pub type MacroTable = AssocMap<MacroId, Macro>;

/// What a latched toggle run is owned by: the physical control and the device
/// it came from, which survive between the press that latched it and the
/// press that un-latches it.
#[derive(Clone, Debug, PartialEq, Eq, Hash)]
pub struct LatchKey {
    /// The device the control belongs to; `None` for the OS hook.
    pub device_key: Option<String>,
    /// The control.
    pub control: PressControl,
}

/// The text of an optional device key.
pub open spec fn device_view(device_key: Option<String>) -> Option<Seq<char>> {
    match device_key {
        Some(s) => Some(s@),
        None => None,
    }
}

/// The text of an optional borrowed device key.
pub open spec fn device_str_view(device_key: Option<&str>) -> Option<Seq<char>> {
    match device_key {
        Some(s) => Some(s@),
        None => None,
    }
}

impl View for LatchKey {
    type V = (Option<Seq<char>>, PressControl);

    open spec fn view(&self) -> (Option<Seq<char>>, PressControl) {
        (device_view(self.device_key), self.control)
    }
}

/// Whether two optional device keys name the same device.
fn same_device(a: &Option<String>, b: Option<&str>) -> (same: bool)
    ensures
        same == (device_view(*a) == device_str_view(b)),
{
    match (a, b) {
        (Some(x), Some(y)) => {
            let y_owned = y.to_owned();
            *x == y_owned
        },
        (None, None) => true,
        _ => false,
    }
}

impl MapKey for LatchKey {
    fn same(&self, other: &Self) -> (same: bool) {
        let devices = match (&self.device_key, &other.device_key) {
            (Some(x), Some(y)) => *x == *y,
            (None, None) => true,
            _ => false,
        };
        devices && self.control == other.control
    }
}

impl LatchKey {
    /// The key of `control` on `device_key`.
    pub fn new(device_key: Option<&str>, control: &PressControl) -> (key: LatchKey)
        ensures
            key@ == (device_str_view(device_key), *control),
    {
        let device = match device_key {
            Some(k) => Some(k.to_owned()),
            None => None,
        };
        LatchKey { device_key: device, control: *control }
    }
}

/// What a press asks of the run registry, decided before anything starts.
pub enum StartPlan<H> {
    /// The binding names a macro the config no longer holds: nothing runs.
    Unknown,
    /// The press un-latched its control's toggle run, which the registry no
    /// longer holds; stop this handle.
    Unlatch(H),
    /// Start this definition and latch its run on the key with
    /// [`MacroRuns::latch`].
    Latch(Macro, LatchKey),
    /// Start this definition and give its run to the press with
    /// [`MacroRuns::own`].
    Own(Macro),
}

/// Whether two definitions are the same macro: identifier, name, steps and
/// repeat mode.
pub open spec fn same_macro(a: Macro, b: Macro) -> bool {
    &&& a.id == b.id
    &&& a.name == b.name
    &&& a.steps@ == b.steps@
    &&& a.repeat == b.repeat
}

/// Every outstanding run, by owner.
pub struct MacroRuns<H> {
    by_press: AssocMap<PressToken, H>,
    latched: AssocMap<LatchKey, H>,
}

/// The latched keys that survive stopping `device`'s runs.
pub open spec fn survivors(
    keys: Set<(Option<Seq<char>>, PressControl)>,
    device: Option<Seq<char>>,
) -> Set<(Option<Seq<char>>, PressControl)> {
    keys.filter(|k: (Option<Seq<char>>, PressControl)| k.0 != device)
}

/// The runs of `entries` whose latch key names `device`, in table order.
pub open spec fn matching_runs<H>(entries: Seq<(LatchKey, H)>, device: Option<Seq<char>>) -> Seq<H>
    decreases entries.len(),
{
    if entries.len() == 0 {
        Seq::empty()
    } else {
        let rest = matching_runs(entries.drop_first(), device);
        if entries[0].0@.0 == device {
            seq![entries[0].1] + rest
        } else {
            rest
        }
    }
}

impl<H> MacroRuns<H> {
    /// The run each press owns.
    pub closed spec fn press_map(&self) -> Map<PressToken, H> {
        self.by_press@
    }

    /// The run each latched control owns.
    pub closed spec fn latch_map(&self) -> Map<(Option<Seq<char>>, PressControl), H> {
        self.latched@
    }

    /// The latched runs with their keys, in table order.
    pub closed spec fn latch_entries(&self) -> Seq<(LatchKey, H)> {
        self.latched.entry_seq()
    }

    /// The presses that own a run.
    pub closed spec fn pressing(&self) -> Set<PressToken> {
        self.by_press@.dom()
    }

    /// The controls whose toggle run is latched on.
    pub closed spec fn latched(&self) -> Set<(Option<Seq<char>>, PressControl)> {
        self.latched@.dom()
    }

    /// How many runs presses own.
    pub closed spec fn press_owned_count(&self) -> nat {
        self.by_press.entry_seq().len()
    }

    /// How many toggle runs are latched.
    pub closed spec fn latched_count(&self) -> nat {
        self.latched.entry_seq().len()
    }

    /// No runs.
    pub fn new() -> (runs: MacroRuns<H>)
        ensures
            runs.pressing() == Set::<PressToken>::empty(),
            runs.latched() == Set::<(Option<Seq<char>>, PressControl)>::empty(),
    {
        MacroRuns { by_press: AssocMap::new(), latched: AssocMap::new() }
    }

    /// How many runs are outstanding, press-owned and latched.
    pub fn counts(&self) -> (counts: (usize, usize))
        ensures
            counts.0 == self.press_owned_count(),
            counts.1 == self.latched_count(),
    {
        (self.by_press.len(), self.latched.len())
    }

    /// Whether the toggle of `control` on `device_key` is latched on.
    pub fn is_latched(&self, device_key: Option<&str>, control: &PressControl) -> (on: bool)
        ensures
            on == self.latched().contains((device_str_view(device_key), *control)),
    {
        let key = LatchKey::new(device_key, control);
        self.latched.contains_key(&key)
    }

    /// Decide what a press of macro `id` starts or stops.
    ///
    /// `Once` and `WhileHeld` runs are keyed by the press and end with it.
    /// `Toggle` latches instead: the first press starts the run and the next
    /// press of the same control on the same device un-latches it, which
    /// happens here. A run to start is handed back with the definition to
    /// start, to be recorded with [`MacroRuns::latch`] or [`MacroRuns::own`]
    /// once it runs.
    pub fn plan_start(
        &mut self,
        macros: &MacroTable,
        control: &PressControl,
        device_key: Option<&str>,
        id: &MacroId,
    ) -> (plan: StartPlan<H>)
        ensures
            !macros@.contains_key(id@) ==> plan is Unknown && final(self).press_map()
                == old(self).press_map() && final(self).latch_map() == old(self).latch_map(),
            macros@.contains_key(id@) && macros@[id@].repeat is Toggle ==> ({
                let key = (device_str_view(device_key), *control);
                &&& final(self).press_map() == old(self).press_map()
                &&& old(self).latch_map().contains_key(key) ==> plan == StartPlan::Unlatch(
                    old(self).latch_map()[key],
                ) && final(self).latch_map() == old(self).latch_map().remove(key)
                &&& !old(self).latch_map().contains_key(key) ==> final(self).latch_map()
                    == old(self).latch_map()
                &&& !old(self).latch_map().contains_key(key) ==> (plan matches StartPlan::Latch(
                    m,
                    k,
                ) && same_macro(m, macros@[id@]) && k@ == key)
            }),
            macros@.contains_key(id@) && !(macros@[id@].repeat is Toggle) ==> {
                &&& plan matches StartPlan::Own(m) && same_macro(m, macros@[id@])
                &&& final(self).press_map() == old(self).press_map()
                &&& final(self).latch_map() == old(self).latch_map()
            },
            final(self).pressing() == final(self).press_map().dom(),
            final(self).latched() == final(self).latch_map().dom(),
    {
        let definition = match macros.get(id) {
            Some(definition) => definition,
            None => return StartPlan::Unknown,
        };
        match definition.repeat {
            RepeatMode::Toggle { .. } => {
                let key = LatchKey::new(device_key, control);
                match self.latched.remove(&key) {
                    Some(running) => StartPlan::Unlatch(running),
                    None => StartPlan::Latch(definition.duplicate(), key),
                }
            },
            RepeatMode::Once | RepeatMode::WhileHeld { .. } => StartPlan::Own(
                definition.duplicate(),
            ),
        }
    }

    /// Latch a started toggle run on `key`. Hands back a run the key already
    /// latched, to be stopped: a control cannot latch two runs.
    pub fn latch(&mut self, key: LatchKey, run: H) -> (stale: Option<H>)
        ensures
            final(self).latch_map() == old(self).latch_map().insert(key@, run),
            final(self).press_map() == old(self).press_map(),
            stale == (if old(self).latch_map().contains_key(key@) {
                Some(old(self).latch_map()[key@])
            } else {
                None
            }),
            final(self).pressing() == final(self).press_map().dom(),
            final(self).latched() == final(self).latch_map().dom(),
    {
        self.latched.insert(key, run)
    }

    /// Give a started run to `press` for the press's lifetime. Hands back a
    /// run the press already owned, to be stopped: a press cannot own two
    /// runs, and replacing one would strand the first with nothing left to
    /// stop it.
    pub fn own(&mut self, press: &PressToken, run: H) -> (stale: Option<H>)
        ensures
            final(self).press_map() == old(self).press_map().insert(*press, run),
            final(self).latch_map() == old(self).latch_map(),
            stale == (if old(self).press_map().contains_key(*press) {
                Some(old(self).press_map()[*press])
            } else {
                None
            }),
            final(self).pressing() == final(self).press_map().dom(),
            final(self).latched() == final(self).latch_map().dom(),
    {
        self.by_press.insert(*press, run)
    }

    /// End the run owned by `press`, whatever ended the press itself: release,
    /// a lost release, a dead capture source, an invalidated generation and
    /// shutdown all arrive here. Hands back the run to stop.
    pub fn end_press(&mut self, press: &PressToken) -> (ended: Option<H>)
        ensures
            ended is Some <==> old(self).pressing().contains(*press),
            ended matches Some(h) ==> h == old(self).press_map()[*press],
            final(self).pressing() == old(self).pressing().remove(*press),
            final(self).press_map() == old(self).press_map().remove(*press),
            final(self).latched() == old(self).latched(),
            final(self).latch_map() == old(self).latch_map(),
    {
        self.by_press.remove(press)
    }

    /// Hand back every latched run that came from `device_key` — `None` for the
    /// OS hook, which attributes no device. A latched toggle is un-latched only
    /// by pressing its control again, so a control whose capture source went
    /// away would otherwise leave a run nobody can reach.
    pub fn stop_source(&mut self, device_key: Option<&str>) -> (stopped: Vec<H>)
        ensures
            final(self).pressing() == old(self).pressing(),
            final(self).press_map() == old(self).press_map(),
            final(self).latched() == survivors(old(self).latched(), device_str_view(device_key)),
            stopped@ == matching_runs(old(self).latch_entries(), device_str_view(device_key)).reverse(),
    {
        let ghost device = device_str_view(device_key);
        let ghost before = self.latched@;
        let mut entries = self.latched.take_all();
        let ghost all = entries@;
        let mut stopped: Vec<H> = Vec::new();
        let mut kept: AssocMap<LatchKey, H> = AssocMap::new();
        let n = entries.len();
        let mut i: usize = 0;
        while i < n
            invariant
                n == all.len(),
                device == device_str_view(device_key),
                unique_keys(all),
                before == entries_map(all),
                0 <= i <= n,
                entries@ == all.subrange(0, n - i as int),
                kept@.dom() == Set::new(
                    |k: (Option<Seq<char>>, PressControl)|
                        exists|j: int| n - i <= j < n && all[j].0@ == k && k.0 != device,
                ),
                stopped@ == matching_runs(all.subrange(n - i as int, n as int), device).reverse(),
            decreases n - i,
        {
            let ghost before_pop = entries@;
            let (key, handle) = entries.pop().unwrap();
            let ghost j = n - 1 - i;
            proof {
                let sub = all.subrange(j, n as int);
                assert(sub.drop_first() =~= all.subrange(n - i as int, n as int));
                assert(sub[0] == all[j]);
                assert(before_pop.last() == all[j]);
            }
            assert(key@ == all[j].0@);
            let ghost old_dom = kept@.dom();
            let ghost next = Set::new(
                |k: (Option<Seq<char>>, PressControl)|
                    exists|m: int| n - (i + 1) <= m < n && all[m].0@ == k && k.0 != device,
            );
            let same = same_device(&key.device_key, device_key);
            assert(key@.0 == device_view(key.device_key));
            assert(same == (key@.0 == device));
            if same {
                stopped.push(handle);
                assert(stopped@ =~= matching_runs(all.subrange(j, n as int), device).reverse());
                assert forall|k: (Option<Seq<char>>, PressControl)| old_dom.contains(k) <==> next.contains(
                    k,
                ) by {
                    if next.contains(k) {
                        let m = choose|m: int| n - (i + 1) <= m < n && all[m].0@ == k && k.0 != device;
                        if m == j {
                            assert(k.0 == device);
                        }
                        assert(n - i <= m < n && all[m].0@ == k && k.0 != device);
                    }
                    if old_dom.contains(k) {
                        let m = choose|m: int| n - i <= m < n && all[m].0@ == k && k.0 != device;
                        assert(n - (i + 1) <= m < n && all[m].0@ == k && k.0 != device);
                    }
                }
                assert(kept@.dom() =~= next);
            } else {
                assert(stopped@ =~= matching_runs(all.subrange(j, n as int), device).reverse());
                let ghost k0 = key@;
                kept.insert(key, handle);
                assert forall|k: (Option<Seq<char>>, PressControl)| old_dom.insert(k0).contains(k)
                    <==> next.contains(k) by {
                    if next.contains(k) {
                        let m = choose|m: int| n - (i + 1) <= m < n && all[m].0@ == k && k.0 != device;
                        if m != j {
                            assert(n - i <= m < n && all[m].0@ == k && k.0 != device);
                        }
                    }
                    if k == k0 {
                        assert(all[j].0@ == k && k.0 != device);
                    } else if old_dom.contains(k) {
                        let m = choose|m: int| n - i <= m < n && all[m].0@ == k && k.0 != device;
                        assert(n - (i + 1) <= m < n && all[m].0@ == k && k.0 != device);
                    }
                }
                assert(kept@.dom() =~= next);
            }
            i = i + 1;
        }
        self.latched = kept;
        assert(i == n);
        assert(all.subrange(0, n as int) =~= all);
        assert forall|k: (Option<Seq<char>>, PressControl)|
            survivors(before.dom(), device).contains(k) implies self.latched@.dom().contains(k) by {
            assert(before.dom().contains(k));
            assert(entries_map(all).contains_key(k));
            let m = choose|m: int| 0 <= m < all.len() && all[m].0@ == k;
            assert(n - i <= m < n && all[m].0@ == k && k.0 != device);
        }
        assert forall|k: (Option<Seq<char>>, PressControl)|
            self.latched@.dom().contains(k) implies survivors(before.dom(), device).contains(k) by {
            let m = choose|m: int| n - i <= m < n && all[m].0@ == k && k.0 != device;
            assert(0 <= m < all.len() && all[m].0@ == k);
            assert(entries_map(all).contains_key(k));
        }
        assert(self.latched@.dom() =~= survivors(before.dom(), device));
        stopped
    }

    /// The runs presses own, in table order.
    pub closed spec fn press_runs(&self) -> Seq<H> {
        runs_of(self.by_press.entry_seq())
    }

    /// The latched runs, in table order.
    pub closed spec fn latched_runs(&self) -> Seq<H> {
        runs_of(self.latched.entry_seq())
    }

    /// Hand back every outstanding run, press-owned first: a binding or profile
    /// change, a foreground switch, a config reload, or shutdown. Nothing that
    /// survives one of those still has a binding that would explain it.
    pub fn stop_all(&mut self) -> (stopped: Vec<H>)
        ensures
            final(self).pressing() == Set::<PressToken>::empty(),
            final(self).latched() == Set::<(Option<Seq<char>>, PressControl)>::empty(),
            stopped@ == old(self).press_runs().reverse() + old(self).latched_runs().reverse(),
            stopped@.len() == old(self).press_owned_count() + old(self).latched_count(),
    {
        let mut by_press = self.by_press.take_all();
        let mut latched = self.latched.take_all();
        let ghost pressed_all = runs_of(by_press@);
        let ghost latched_all = runs_of(latched@);
        let ghost n = by_press@.len();
        let mut stopped: Vec<H> = Vec::new();
        while by_press.len() > 0
            invariant
                by_press@.len() <= n,
                n == pressed_all.len(),
                runs_of(by_press@) == pressed_all.subrange(0, by_press@.len() as int),
                stopped@ == pressed_all.subrange(by_press@.len() as int, n as int).reverse(),
            decreases by_press@.len(),
        {
            let ghost k = by_press@.len();
            let ghost before = by_press@;
            if let Some((_, handle)) = by_press.pop() {
                assert(before.drop_last() == by_press@);
                assert(runs_of(by_press@) =~= pressed_all.subrange(0, k - 1));
                assert(runs_of(before)[k - 1] == before[k - 1].1);
                assert(pressed_all.subrange(0, k as int)[k - 1] == pressed_all[k - 1]);
                assert(handle == pressed_all[k - 1]);
                stopped.push(handle);
                assert(stopped@ =~= pressed_all.subrange(k - 1, n as int).reverse());
            }
        }
        assert(pressed_all.subrange(0, n as int) =~= pressed_all);
        let ghost m = latched@.len();
        let ghost first = stopped@;
        while latched.len() > 0
            invariant
                latched@.len() <= m,
                m == latched_all.len(),
                runs_of(latched@) == latched_all.subrange(0, latched@.len() as int),
                stopped@ == first + latched_all.subrange(latched@.len() as int, m as int).reverse(),
            decreases latched@.len(),
        {
            let ghost k = latched@.len();
            let ghost before = latched@;
            if let Some((_, handle)) = latched.pop() {
                assert(before.drop_last() == latched@);
                assert(runs_of(latched@) =~= latched_all.subrange(0, k - 1));
                assert(runs_of(before)[k - 1] == before[k - 1].1);
                assert(latched_all.subrange(0, k as int)[k - 1] == latched_all[k - 1]);
                assert(handle == latched_all[k - 1]);
                stopped.push(handle);
                assert(stopped@ =~= first + latched_all.subrange(k - 1, m as int).reverse());
            }
        }
        assert(latched_all.subrange(0, m as int) =~= latched_all);
        assert(stopped@ =~= pressed_all.reverse() + latched_all.reverse());
        stopped
    }
}

/// The values of a list of entries, in order.
pub open spec fn runs_of<K, H>(entries: Seq<(K, H)>) -> Seq<H> {
    entries.map_values(|e: (K, H)| e.1)
}

/// The single pass of macro `id` to run for a dispatch path that owns no
/// release: the thumb wheel, the Actions Ring and the off-thread action worker
/// fire an action with no terminal event, so a repeating macro degrades to a
/// single pass instead of a repeat nothing would ever stop. `None` for an
/// unknown macro.
pub fn run_once(macros: &MacroTable, id: &MacroId) -> (once: Option<Macro>)
    ensures
        once is Some <==> macros@.contains_key(id@),
        once matches Some(m) ==> {
            &&& m.id == macros@[id@].id
            &&& m.name == macros@[id@].name
            &&& m.steps@ == macros@[id@].steps@
            &&& m.repeat == RepeatMode::Once
        },
{
    match macros.get(id) {
        Some(definition) => Some(definition.single_pass()),
        None => None,
    }
}

/// The definition `id` names, if the config still holds it.
pub fn lookup(macros: &MacroTable, id: &MacroId) -> (found: Option<Macro>)
    ensures
        found is Some <==> macros@.contains_key(id@),
        found matches Some(m) ==> m.id == macros@[id@].id && m.name == macros@[id@].name
            && m.steps@ == macros@[id@].steps@ && m.repeat == macros@[id@].repeat,
{
    match macros.get(id) {
        Some(definition) => Some(definition.duplicate()),
        None => None,
    }
}

/// A toggle press on a latched control un-latches exactly that control, and a
/// press on an idle one latches it: two presses of the same control return
/// the latched set to where it was.
pub proof fn lemma_toggle_round_trip(
    latched: Set<(Option<Seq<char>>, PressControl)>,
    key: (Option<Seq<char>>, PressControl),
)
    requires
        !latched.contains(key),
    ensures
        latched.insert(key).contains(key),
        latched.insert(key).remove(key) == latched,
{
    assert(latched.insert(key).remove(key) =~= latched);
}

} // verus!
