//! The fullscreen detector: which window, if any, is the one foreground
//! fullscreen window.
//!
//! The window manager is queried per window for its name, its state set and
//! its extent; any of the three can fail, and a failed query makes the
//! window ineligible rather than failing the whole scan.  A window whose
//! name contains an entry of the app-ignore list is ineligible whatever its
//! state.  The first eligible window in the given order wins; in scan-all
//! mode that order is the manager's own and not stable across calls, so
//! which of several simultaneous fullscreen windows wins is undefined.  In
//! focused-only mode the caller hands over just the active window.

use crate::geometry::Geometry;
use crate::names::{bytes_contain, has_substring};
use vstd::prelude::*;

verus! {

/// One entry of a window's state set, reduced to what detection reads:
/// fullscreen, or anything else.
#[derive(Clone, Copy, Debug, PartialEq, Eq, Structural)]
pub enum WindowState {
    Fullscreen,
    Other,
}

/// What querying one window yielded, as plain values.  `None` stands for a
/// failed query.
pub struct WindowQuery {
    pub name: Option<Vec<u8>>,
    pub states: Option<Vec<WindowState>>,
    pub extent: Option<Geometry>,
}

/// The mathematical shape of a window query.
pub struct QueryModel {
    pub name: Option<Seq<u8>>,
    pub states: Option<Seq<WindowState>>,
    pub extent: Option<Geometry>,
}

impl View for WindowQuery {
    type V = QueryModel;

    open spec fn view(&self) -> QueryModel {
        QueryModel {
            name: match self.name {
                Some(n) => Some(n@),
                None => None,
            },
            states: match self.states {
                Some(s) => Some(s@),
                None => None,
            },
            extent: self.extent,
        }
    }
}

/// The detected foreground fullscreen application: its extent and its name.
pub struct Application {
    pub extent: Geometry,
    pub name: Vec<u8>,
}

/// The mathematical shape of a detected application.
pub struct ApplicationModel {
    pub extent: Geometry,
    pub name: Seq<u8>,
}

impl View for Application {
    type V = ApplicationModel;

    open spec fn view(&self) -> ApplicationModel {
        ApplicationModel { extent: self.extent, name: self.name@ }
    }
}

/// The name contains some entry of the app-ignore list.
pub open spec fn name_ignored(name: Seq<u8>, ignore_apps: Seq<Vec<u8>>) -> bool {
    exists|k: int| 0 <= k < ignore_apps.len() && has_substring(name, ignore_apps[k]@)
}

/// A window is eligible when its name was read and is not ignored, its state
/// set was read and holds the fullscreen state, and its extent was read.
pub open spec fn window_eligible(w: QueryModel, ignore_apps: Seq<Vec<u8>>) -> bool {
    &&& (w.name matches Some(nm) && !name_ignored(nm, ignore_apps))
    &&& (w.states matches Some(sts) && sts.contains(WindowState::Fullscreen))
    &&& w.extent is Some
}

/// The application an eligible window stands for.
pub open spec fn app_of(w: QueryModel) -> ApplicationModel
    recommends
        w.name is Some,
        w.extent is Some,
{
    ApplicationModel { extent: w.extent->0, name: w.name->0 }
}

/// The first eligible window at or past `k`, if any.
pub open spec fn detected_from(
    windows: Seq<QueryModel>,
    ignore_apps: Seq<Vec<u8>>,
    k: int,
) -> Option<ApplicationModel>
    decreases windows.len() - k,
{
    if k < 0 || k >= windows.len() {
        None
    } else if window_eligible(windows[k], ignore_apps) {
        Some(app_of(windows[k]))
    } else {
        detected_from(windows, ignore_apps, k + 1)
    }
}

/// The current fullscreen state of the desktop: the first eligible window in
/// the given order, or absent.
pub open spec fn detected(windows: Seq<QueryModel>, ignore_apps: Seq<Vec<u8>>) -> Option<
    ApplicationModel,
> {
    detected_from(windows, ignore_apps, 0)
}

/// Whether the name contains some entry of the app-ignore list.
fn app_name_ignored(name: &Vec<u8>, ignore_apps: &Vec<Vec<u8>>) -> (r: bool)
    ensures
        r == name_ignored(name@, ignore_apps@),
{
    let n: usize = ignore_apps.len();
    let mut k: usize = 0;
    while k < n
        invariant
            n == ignore_apps@.len(),
            k <= n,
            forall|j: int| 0 <= j < k ==> !has_substring(name@, ignore_apps@[j]@),
        decreases n - k,
    {
        if bytes_contain(name, &ignore_apps[k]) {
            return true;
        }
        k += 1;
    }
    false
}

/// Whether the state set holds the fullscreen state.
fn states_contain_fullscreen(states: &Vec<WindowState>) -> (r: bool)
    ensures
        r == states@.contains(WindowState::Fullscreen),
{
    let n: usize = states.len();
    let mut k: usize = 0;
    while k < n
        invariant
            n == states@.len(),
            k <= n,
            forall|j: int| 0 <= j < k ==> states@[j] != WindowState::Fullscreen,
        decreases n - k,
    {
        if states[k] == WindowState::Fullscreen {
            return true;
        }
        k += 1;
    }
    false
}

/// The application one window stands for, or `None` where the window is
/// ineligible: a failed name, state or extent query, an ignored name, or a
/// state set without the fullscreen state.
pub fn eligible_application(w: &WindowQuery, ignore_apps: &Vec<Vec<u8>>) -> (r: Option<Application>)
    ensures
        match r {
            Some(a) => window_eligible(w@, ignore_apps@) && a@ == app_of(w@),
            None => !window_eligible(w@, ignore_apps@),
        },
{
    let nm = match &w.name {
        Some(nm) => nm,
        None => {
            return None;
        },
    };
    if app_name_ignored(nm, ignore_apps) {
        return None;
    }
    let sts = match &w.states {
        Some(s) => s,
        None => {
            return None;
        },
    };
    if !states_contain_fullscreen(sts) {
        return None;
    }
    let extent = match &w.extent {
        Some(g) => *g,
        None => {
            return None;
        },
    };
    let name = nm.clone();
    proof {
        assert(name@ =~= nm@);
    }
    Some(Application { extent, name })
}

/// Scans the windows, in the given order, for the first eligible fullscreen
/// window.
pub fn detect_fullscreen(windows: &Vec<WindowQuery>, ignore_apps: &Vec<Vec<u8>>) -> (r: Option<
    Application,
>)
    ensures
        match r {
            Some(a) => detected(windows@.map(|i: int, w: WindowQuery| w@), ignore_apps@) == Some(
                a@,
            ),
            None => detected(windows@.map(|i: int, w: WindowQuery| w@), ignore_apps@) is None,
        },
{
    let ghost wm = windows@.map(|i: int, w: WindowQuery| w@);
    let n: usize = windows.len();
    let mut k: usize = 0;
    while k < n
        invariant
            n == windows@.len(),
            wm == windows@.map(|i: int, w: WindowQuery| w@),
            k <= n,
            detected_from(wm, ignore_apps@, k as int) == detected(wm, ignore_apps@),
        decreases n - k,
    {
        proof {
            assert(wm[k as int] == windows@[k as int]@);
        }
        match eligible_application(&windows[k], ignore_apps) {
            Some(a) => {
                return Some(a);
            },
            None => {},
        }
        k += 1;
    }
    None
}

} // verus!
