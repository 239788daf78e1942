//! The foreground application, in the form per-app profiles match against.

use vstd::prelude::*;

verus! {

/// One application, named the way a per-app profile names it.
///
/// [`ForegroundApp::id`] is the whole of the matching contract; the display
/// name exists only so a UI never has to show a reverse-DNS string.
#[derive(Clone, Debug, PartialEq, Eq)]
pub struct ForegroundApp {
    /// The exact string a per-app profile key is compared against: a macOS
    /// bundle identifier, an X11 `WM_CLASS` class or a Wayland xdg `app_id` on
    /// Linux, or the lower-cased executable path on Windows.
    pub id: String,
    /// Human-readable name for the UI.
    pub display_name: String,
}

impl ForegroundApp {
    /// An application the platform identified but did not name — the display
    /// name falls back to the identifier.
    pub fn unnamed(id: String) -> (app: ForegroundApp)
        ensures
            app.id == id,
            app.display_name == id,
    {
        ForegroundApp { display_name: id.clone(), id }
    }
}

/// Everything a focus source could read about the window in front. Every
/// field but `app` is `None` where the source cannot read it.
#[derive(Clone, Debug, PartialEq, Eq)]
pub struct FocusedWindow {
    /// The application.
    pub app: ForegroundApp,
    /// The window title, when the source reports one.
    pub title: Option<String>,
    /// The client process, when the source reports one.
    pub pid: Option<u32>,
    /// `SteamAppId` from the client's environment, when the process was
    /// launched by Steam.
    pub steam_app_id: Option<u32>,
}

impl FocusedWindow {
    /// A reading that knows the application and nothing else.
    pub fn app(app: ForegroundApp) -> (window: FocusedWindow)
        ensures
            window.app == app,
            window.title is None,
            window.pid is None,
            window.steam_app_id is None,
    {
        FocusedWindow { app, title: None, pid: None, steam_app_id: None }
    }
}

/// Map a `(wm_class, title, pid)` triple from the GNOME Shell extension into
/// a [`FocusedWindow`]. An empty `wm_class` means nothing is focused; an
/// empty title and a zero pid mean the extension could not read them.
pub fn describe(wm_class: String, title: String, pid: u32) -> (window: Option<FocusedWindow>)
    ensures
        window is None <==> wm_class@.len() == 0,
        window matches Some(w) ==> {
            &&& w.app.id == wm_class
            &&& w.app.display_name == wm_class
            &&& (w.title is None <==> title@.len() == 0)
            &&& (w.title matches Some(t) ==> t == title)
            &&& w.pid == if pid == 0 {
                None
            } else {
                Some(pid)
            }
            &&& w.steam_app_id is None
        },
{
    if wm_class.as_str().is_empty() {
        return None;
    }
    let title = if title.as_str().is_empty() {
        None
    } else {
        Some(title)
    };
    let pid = if pid != 0 {
        Some(pid)
    } else {
        None
    };
    Some(FocusedWindow { app: ForegroundApp::unnamed(wm_class), title, pid, steam_app_id: None })
}

} // verus!
