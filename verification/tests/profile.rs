use openhub::action::Action;
use openhub::app_model::{FocusedWindow, ForegroundApp};
use openhub::button::ButtonId;
use openhub::macro_model::MacroId;
use openhub::profile::{
    pick_strongest, Assignments, GameProfile, MatchRule, ProfileId, ProfileTable, Strength,
};

fn window(app_id: &str) -> FocusedWindow {
    FocusedWindow::app(ForegroundApp::unnamed(app_id.into()))
}

fn profile(matches: Vec<MatchRule>) -> GameProfile {
    GameProfile {
        name: "Lost Ark".into(),
        icon: None,
        matches,
        assignments: Assignments::new(),
    }
}

fn table(entries: Vec<(&str, GameProfile)>) -> ProfileTable {
    let mut table = ProfileTable::new();
    for (id, profile) in entries {
        table.insert(ProfileId(id.into()), profile);
    }
    table
}

fn resolved(profiles: &ProfileTable, win: &FocusedWindow) -> Option<String> {
    profiles.resolve(win).map(|id| id.0.clone())
}

#[test]
fn wm_class_matches_case_insensitively() {
    let profiles = table(vec![(
        "lost-ark",
        profile(vec![MatchRule::WmClass("lostark.exe".into())]),
    )]);
    assert_eq!(
        resolved(&profiles, &window("LostArk.exe")).as_deref(),
        Some("lost-ark")
    );
    assert_eq!(resolved(&profiles, &window("steam")), None);
}

#[test]
fn steam_app_id_matches_when_the_class_does_not() {
    let profiles = table(vec![(
        "lost-ark",
        profile(vec![MatchRule::SteamAppId(1_599_340)]),
    )]);
    let mut win = window("steam_app_1599340");
    assert_eq!(resolved(&profiles, &win), None);
    win.steam_app_id = Some(1_599_340);
    assert!(resolved(&profiles, &win).is_some());
}

#[test]
fn title_is_a_regex_and_needs_a_title() {
    let profiles = table(vec![(
        "lost-ark",
        profile(vec![MatchRule::Title("^LOST ARK".into())]),
    )]);
    let mut win = window("unknown");
    assert_eq!(resolved(&profiles, &win), None);
    win.title = Some("LOST ARK — Arthetine".into());
    assert!(resolved(&profiles, &win).is_some());
    win.title = Some("Steam — LOST ARK".into());
    assert_eq!(resolved(&profiles, &win), None);
}

#[test]
fn a_broken_pattern_never_matches() {
    let profiles = table(vec![("bad", profile(vec![MatchRule::Title("(".into())]))]);
    let mut win = window("x");
    win.title = Some("(".into());
    assert_eq!(resolved(&profiles, &win), None);
}

#[test]
fn wm_class_outranks_title_and_ties_go_to_the_first_id() {
    let profiles = table(vec![
        ("b-by-title", profile(vec![MatchRule::Title(".*".into())])),
        ("c-by-class", profile(vec![MatchRule::WmClass("game".into())])),
        ("a-by-title", profile(vec![MatchRule::Title(".*".into())])),
    ]);
    let mut win = window("game");
    win.title = Some("anything".into());
    assert_eq!(
        resolved(&profiles, &win).as_deref(),
        Some("c-by-class")
    );
    win.app.id = "other".into();
    assert_eq!(
        resolved(&profiles, &win).as_deref(),
        Some("a-by-title")
    );
}

#[test]
fn steam_outranks_title_and_class_outranks_steam() {
    let mut win = window("game");
    win.title = Some("Game".into());
    win.steam_app_id = Some(42);
    let profiles = table(vec![
        ("a-title", profile(vec![MatchRule::Title("Game".into())])),
        ("b-steam", profile(vec![MatchRule::SteamAppId(42)])),
    ]);
    assert_eq!(resolved(&profiles, &win).as_deref(), Some("b-steam"));
    let profiles = table(vec![
        ("a-steam", profile(vec![MatchRule::SteamAppId(42)])),
        ("z-class", profile(vec![MatchRule::WmClass("GAME".into())])),
    ]);
    assert_eq!(resolved(&profiles, &win).as_deref(), Some("z-class"));
}

#[test]
fn a_profile_matches_as_strongly_as_its_strongest_rule() {
    let mut win = window("game");
    win.title = Some("Game".into());
    let p = profile(vec![
        MatchRule::Title("Game".into()),
        MatchRule::WmClass("game".into()),
        MatchRule::SteamAppId(1),
    ]);
    assert_eq!(p.strength_against(&win), Some(Strength::WmClass));
    assert_eq!(profile(vec![]).strength_against(&win), None);
}

#[test]
fn inserting_an_existing_id_replaces_its_profile() {
    let mut profiles = table(vec![("game", profile(vec![MatchRule::WmClass("a".into())]))]);
    profiles.insert(
        ProfileId("game".into()),
        profile(vec![MatchRule::WmClass("b".into())]),
    );
    assert_eq!(profiles.len(), 1);
    assert_eq!(resolved(&profiles, &window("a")), None);
    assert_eq!(resolved(&profiles, &window("b")).as_deref(), Some("game"));
}

#[test]
fn the_strongest_wins_and_the_first_breaks_ties() {
    assert_eq!(pick_strongest(&[]), None);
    assert_eq!(pick_strongest(&[None, None]), None);
    assert_eq!(
        pick_strongest(&[
            Some(Strength::Title),
            Some(Strength::SteamAppId),
            None,
            Some(Strength::SteamAppId),
        ]),
        Some(1)
    );
    assert_eq!(
        pick_strongest(&[None, Some(Strength::Title), Some(Strength::WmClass)]),
        Some(2)
    );
}

#[test]
fn a_title_pattern_matches_anywhere_and_a_broken_one_never() {
    let rule = MatchRule::Title("ARK$".into());
    let mut win = window("x");
    win.title = Some("LOST ARK".into());
    assert_eq!(rule.strength_against(&win), Some(Strength::Title));
    win.title = Some("ARK 2".into());
    assert_eq!(rule.strength_against(&win), None);
    win.title = Some("[".into());
    assert_eq!(MatchRule::Title("[".into()).strength_against(&win), None);
}

#[test]
fn a_profile_carries_both_assignment_layers() {
    let mut p = profile(vec![MatchRule::WmClass("lostark.exe".into())]);
    p.assignments.normal.insert(
        ButtonId::Back,
        Action::RunMacro(MacroId("hyper".into())),
    );
    p.assignments.g_shift.insert(
        ButtonId::RightClick,
        Action::RunMacro(MacroId("superright".into())),
    );
    p.assignments
        .normal
        .insert(ButtonId::DpiToggle, Action::DoNothing);
    assert_eq!(p.assignments.normal.len(), 2);
    assert_eq!(
        p.assignments.g_shift.get(&ButtonId::RightClick),
        Some(&Action::RunMacro(MacroId("superright".into())))
    );
    assert_eq!(
        p.assignments.normal.get(&ButtonId::DpiToggle),
        Some(&Action::DoNothing)
    );
}
