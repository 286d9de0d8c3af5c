//! The application state and its reducer.
//!
//! The console is driven in a single loop: an [`Action`] (from the
//! keyboard or from the program itself) is turned into an [`AppEvent`],
//! the event is folded into the [`App`] state, and the fold answers with
//! the next action.  Everything here is pure state arithmetic; fetching
//! bus names or object paths is outside work, so an action that needs
//! the bus is handed back to the caller as a pending action, and the
//! data the caller fetched comes back in as the matching event.

use vstd::prelude::*;

use crate::error::DBusConsoleError;
use crate::filter::count_filtered_names;
use crate::filter::spec_filtered_names;

verus! {

/// The whole state of the console: the bus-name list with its
/// selection, the object paths and methods of the selected name, the
/// display policy for generated aliases, the focused section, and the
/// log of everything the reducer has seen.
pub struct App {
    pub bus_name_state: ListState,
    pub paths: Vec<String>,
    pub methods: Vec<String>,
    pub filter_aliases: bool,
    pub focus: Section,
    pub log: Vec<LogEntry>,
}

/// One line of the on-screen log: an action fed to the reducer, or an
/// event the reducer produced.
#[derive(Debug)]
pub enum LogEntry {
    ActionEntry(Action),
    AppEventEntry(AppEvent),
}

/// A scrollable list of names with an optional selection.
#[derive(Debug)]
pub struct ListState {
    pub entries: Vec<String>,
    pub selected: Option<u32>,
    pub skip: u32,
    pub visible_lines: u32,
}

/// The section of the screen that owns the keyboard.
#[derive(Debug)]
pub enum Section {
    BusFrame,
}

/// What the user (or the program) asks for next.
#[derive(Debug)]
pub enum Action {
    NoOp,
    Quit,
    LoadBusNames,
    LoadPaths { bus_name: String },
    Resize { section: Section, rows: i32 },
    SelectLastBusName,
    SelectNextBusName,
}

/// What happened: data arrived from the bus, the selection moves, or an
/// error is recorded.
#[derive(Debug)]
pub enum AppEvent {
    NoOp,
    Error(DBusConsoleError),
    BusNamesLoaded(Vec<String>),
    PathsLoaded(Vec<String>),
    MethodsLoaded(Vec<String>),
    SelectNextBusName,
    SelectPreviousBusName,
}

impl Clone for Section {
    /// Cloning keeps the variant.
    fn clone(&self) -> (r: Self)
        ensures
            r == *self,
    {
        match self {
            Section::BusFrame => Section::BusFrame,
        }
    }
}

impl Clone for Action {
    /// Cloning keeps the variant and its payload.
    fn clone(&self) -> (r: Self)
        ensures
            r == *self,
    {
        match self {
            Action::NoOp => Action::NoOp,
            Action::Quit => Action::Quit,
            Action::LoadBusNames => Action::LoadBusNames,
            Action::LoadPaths { bus_name } => Action::LoadPaths { bus_name: bus_name.clone() },
            Action::Resize { section, rows } => Action::Resize {
                section: section.clone(),
                rows: *rows,
            },
            Action::SelectLastBusName => Action::SelectLastBusName,
            Action::SelectNextBusName => Action::SelectNextBusName,
        }
    }
}

/// Value equality of events: same variant, and payloads equal — lists
/// of names element for element.
pub open spec fn app_event_eq(a: AppEvent, b: AppEvent) -> bool {
    match (a, b) {
        (AppEvent::NoOp, AppEvent::NoOp) => true,
        (AppEvent::Error(x), AppEvent::Error(y)) => x == y,
        (AppEvent::BusNamesLoaded(x), AppEvent::BusNamesLoaded(y)) => x@ == y@,
        (AppEvent::PathsLoaded(x), AppEvent::PathsLoaded(y)) => x@ == y@,
        (AppEvent::MethodsLoaded(x), AppEvent::MethodsLoaded(y)) => x@ == y@,
        (AppEvent::SelectNextBusName, AppEvent::SelectNextBusName) => true,
        (AppEvent::SelectPreviousBusName, AppEvent::SelectPreviousBusName) => true,
        _ => false,
    }
}

impl Clone for AppEvent {
    /// Cloning keeps the variant and the payload's value.
    fn clone(&self) -> (r: Self)
        ensures
            app_event_eq(r, *self),
    {
        match self {
            AppEvent::NoOp => AppEvent::NoOp,
            AppEvent::Error(e) => AppEvent::Error(e.clone()),
            AppEvent::BusNamesLoaded(v) => AppEvent::BusNamesLoaded(clone_names(v)),
            AppEvent::PathsLoaded(v) => AppEvent::PathsLoaded(clone_names(v)),
            AppEvent::MethodsLoaded(v) => AppEvent::MethodsLoaded(clone_names(v)),
            AppEvent::SelectNextBusName => AppEvent::SelectNextBusName,
            AppEvent::SelectPreviousBusName => AppEvent::SelectPreviousBusName,
        }
    }
}

/// An element-for-element copy of a list of names.
pub fn clone_names(v: &Vec<String>) -> (r: Vec<String>)
    ensures
        r@ == v@,
{
    let mut r: Vec<String> = Vec::new();
    let mut i: usize = 0;
    while i < v.len()
        invariant
            0 <= i <= v@.len(),
            r@ == v@.take(i as int),
        decreases v@.len() - i,
    {
        r.push(v[i].clone());
        proof {
            assert(r@ =~= v@.take(i + 1));
        }
        i += 1;
    }
    proof {
        assert(v@.take(v@.len() as int) =~= v@);
    }
    r
}

impl Default for ListState {
    /// An empty list: no entries, no selection, nothing skipped.
    fn default() -> (r: Self)
        ensures
            r.entries@.len() == 0,
            r.selected is None,
            r.skip == 0,
            r.visible_lines == 0,
    {
        ListState { entries: Vec::new(), selected: None, skip: 0, visible_lines: 0 }
    }
}

impl Default for App {
    /// The starting state: focus on the bus-name frame, alias filtering
    /// on, everything else empty.
    fn default() -> (r: Self)
        ensures
            r.focus == Section::BusFrame,
            r.filter_aliases == true,
            r.methods@.len() == 0,
            r.paths@.len() == 0,
            r.log@.len() == 0,
            r.bus_name_state.entries@.len() == 0,
            r.bus_name_state.selected is None,
            r.bus_name_state.skip == 0,
            r.bus_name_state.visible_lines == 0,
    {
        App {
            focus: Section::BusFrame,
            methods: Vec::new(),
            paths: Vec::new(),
            filter_aliases: true,
            bus_name_state: ListState::default(),
            log: Vec::new(),
        }
    }
}

impl App {
    /// The selection, when there is one, points into the entry list,
    /// and the list is small enough for the signed index arithmetic of
    /// the selection moves.
    pub open spec fn wf(&self) -> bool {
        &&& self.bus_name_state.entries@.len() <= i32::MAX
        &&& (self.bus_name_state.selected matches Some(i) ==> i
            < self.bus_name_state.entries@.len())
    }

    /// Feeds one action through the reducer.  The actions that need no
    /// outside work — `NoOp` and the two selection moves — are folded
    /// into the state completely.  The reducer answers with the pending
    /// action that does need the bus (loading the selected name's
    /// paths), already logged, for the caller to perform; or `NoOp`
    /// when the chain has settled.
    pub fn reduce(&mut self, action: Action) -> (pending: Action)
        requires
            action is NoOp || action is SelectLastBusName || action is SelectNextBusName,
            old(self).wf(),
        ensures
            final(self).bus_name_state.entries == old(self).bus_name_state.entries,
            final(self).bus_name_state.skip == old(self).bus_name_state.skip,
            final(self).bus_name_state.visible_lines == old(self).bus_name_state.visible_lines,
            final(self).paths == old(self).paths,
            final(self).methods == old(self).methods,
            final(self).filter_aliases == old(self).filter_aliases,
            final(self).focus == old(self).focus,
            final(self).wf(),
            ({
                let e = (match action {
                    Action::SelectLastBusName => AppEvent::SelectPreviousBusName,
                    Action::SelectNextBusName => AppEvent::SelectNextBusName,
                    _ => AppEvent::NoOp,
                });
                let moved = action is SelectLastBusName || action is SelectNextBusName;
                let idx: int = (match action {
                    Action::SelectNextBusName => (match old(self).bus_name_state.selected {
                        Some(i) => i + 1,
                        None => 0,
                    }),
                    Action::SelectLastBusName => (match old(self).bus_name_state.selected {
                        Some(i) => i - 1,
                        None => 0,
                    }),
                    _ => 0,
                });
                let sel = if moved {
                    spec_selected_after(*old(self), idx)
                } else {
                    old(self).bus_name_state.selected
                };
                &&& final(self).bus_name_state.selected == sel
                &&& pending == (if moved {
                    spec_select_action(old(self).bus_name_state.entries@, sel)
                } else {
                    Action::NoOp
                })
                &&& final(self).log@ == (if pending == Action::NoOp {
                    old(self).log@.push(LogEntry::AppEventEntry(e))
                } else {
                    old(self).log@.push(LogEntry::AppEventEntry(e)).push(
                        LogEntry::ActionEntry(pending),
                    )
                })
            }),
    {
        let e = action_to_events(action, Vec::new());
        let next = reduce_event(self, e);
        match next {
            Action::NoOp => Action::NoOp,
            a => {
                let logged = a.clone();
                self.log.push(LogEntry::ActionEntry(logged));
                a
            },
        }
    }
}

/// The event an action denotes.  For the two load actions the fetched
/// names are carried in `loaded`; the other actions ignore it.
pub open spec fn spec_action_event(a: Action, loaded: Vec<String>) -> AppEvent {
    match a {
        Action::LoadBusNames => AppEvent::BusNamesLoaded(loaded),
        Action::LoadPaths { .. } => AppEvent::PathsLoaded(loaded),
        Action::SelectLastBusName => AppEvent::SelectPreviousBusName,
        Action::SelectNextBusName => AppEvent::SelectNextBusName,
        Action::NoOp => AppEvent::NoOp,
        Action::Quit => AppEvent::NoOp,
        Action::Resize { .. } => AppEvent::NoOp,
    }
}

/// Turns an action into the event it denotes.  The two load actions
/// need the bus, which is outside work: the caller performs the call
/// and hands the fetched names in as `loaded`.  `Quit` and `Resize`
/// are for the caller, not for the reducer, and are not accepted
/// here.
pub fn action_to_events(a: Action, loaded: Vec<String>) -> (r: AppEvent)
    requires
        !(a is Quit),
        !(a is Resize),
    ensures
        r == spec_action_event(a, loaded),
{
    match a {
        Action::LoadBusNames => AppEvent::BusNamesLoaded(loaded),
        Action::LoadPaths { bus_name: _ } => AppEvent::PathsLoaded(loaded),
        Action::SelectLastBusName => AppEvent::SelectPreviousBusName,
        Action::SelectNextBusName => AppEvent::SelectNextBusName,
        Action::NoOp => AppEvent::NoOp,
        Action::Quit => AppEvent::NoOp,
        Action::Resize { section: _, rows: _ } => AppEvent::NoOp,
    }
}

/// Folds one event into the state and answers with the next action.
/// Every event is logged; the data events replace the matching list,
/// and the selection events move the selection among the filtered
/// names.
pub fn reduce_event(app: &mut App, e: AppEvent) -> (r: Action)
    requires
        (e is SelectNextBusName || e is SelectPreviousBusName) ==> old(app).wf(),
    ensures
        final(app).log@ == old(app).log@.push(LogEntry::AppEventEntry(e)),
        final(app).filter_aliases == old(app).filter_aliases,
        final(app).focus == old(app).focus,
        final(app).bus_name_state.skip == old(app).bus_name_state.skip,
        final(app).bus_name_state.visible_lines == old(app).bus_name_state.visible_lines,
        (match e {
            AppEvent::BusNamesLoaded(names) => final(app).bus_name_state.entries@ == names@
                && final(app).bus_name_state.selected == old(app).bus_name_state.selected
                && final(app).paths == old(app).paths && final(app).methods == old(app).methods
                && r == Action::NoOp,
            AppEvent::PathsLoaded(paths) => final(app).paths@ == paths@ && final(app).bus_name_state.entries == old(app).bus_name_state.entries && final(app).bus_name_state.selected == old(app).bus_name_state.selected && final(app).methods
                == old(app).methods && r == Action::NoOp,
            AppEvent::MethodsLoaded(methods) => final(app).methods@ == methods@ && final(app).bus_name_state.entries == old(app).bus_name_state.entries && final(app).bus_name_state.selected == old(app).bus_name_state.selected && final(app).paths
                == old(app).paths && r == Action::NoOp,
            AppEvent::SelectNextBusName => ({
                let idx: int = (match old(app).bus_name_state.selected {
                    Some(i) => i + 1,
                    None => 0,
                });
                let sel = spec_selected_after(*old(app), idx);
                final(app).bus_name_state.selected == sel && final(app).bus_name_state.entries
                    == old(app).bus_name_state.entries && final(app).paths == old(app).paths
                    && final(app).methods == old(app).methods && r == spec_select_action(
                    old(app).bus_name_state.entries@,
                    sel,
                ) && final(app).wf()
            }),
            AppEvent::SelectPreviousBusName => ({
                let idx: int = (match old(app).bus_name_state.selected {
                    Some(i) => i - 1,
                    None => 0,
                });
                let sel = spec_selected_after(*old(app), idx);
                final(app).bus_name_state.selected == sel && final(app).bus_name_state.entries
                    == old(app).bus_name_state.entries && final(app).paths == old(app).paths
                    && final(app).methods == old(app).methods && r == spec_select_action(
                    old(app).bus_name_state.entries@,
                    sel,
                ) && final(app).wf()
            }),
            _ => final(app).bus_name_state.entries == old(app).bus_name_state.entries && final(app).bus_name_state.selected == old(app).bus_name_state.selected && final(app).paths
                == old(app).paths && final(app).methods == old(app).methods && r
                == Action::NoOp,
        }),
{
    let r: Action = match &e {
        AppEvent::NoOp => Action::NoOp,
        AppEvent::Error(_) => Action::NoOp,
        AppEvent::BusNamesLoaded(names) => {
            app.bus_name_state.entries = clone_names(names);
            Action::NoOp
        },
        AppEvent::PathsLoaded(paths) => {
            app.paths = clone_names(paths);
            Action::NoOp
        },
        AppEvent::MethodsLoaded(methods) => {
            app.methods = clone_names(methods);
            Action::NoOp
        },
        AppEvent::SelectNextBusName => select_next_bus_name(app),
        AppEvent::SelectPreviousBusName => select_last_bus_name(app),
    };
    app.log.push(LogEntry::AppEventEntry(e));
    r
}

/// The selection after asking to select the filtered index `idx`: the
/// new index when it lies among the filtered names, otherwise the old
/// selection, untouched.
pub open spec fn spec_selected_after(app: App, idx: int) -> Option<u32> {
    if 0 <= idx < spec_filtered_names(app.bus_name_state.entries@, app.filter_aliases).len() {
        Some(idx as u32)
    } else {
        app.bus_name_state.selected
    }
}

/// The action a settled selection produces: load the selected entry's
/// paths, or nothing when nothing is selected.
pub open spec fn spec_select_action(entries: Seq<String>, sel: Option<u32>) -> Action {
    match sel {
        Some(i) => Action::LoadPaths { bus_name: entries[i as int] },
        None => Action::NoOp,
    }
}

/// Moves the selection one entry down (or to the first entry when
/// nothing is selected yet).
pub fn select_next_bus_name(app: &mut App) -> (r: Action)
    requires
        old(app).wf(),
    ensures
        only_selection_changed(*old(app), *final(app)),
        final(app).wf(),
        ({
            let idx: int = (match old(app).bus_name_state.selected {
                Some(i) => i + 1,
                None => 0,
            });
            final(app).bus_name_state.selected == spec_selected_after(*old(app), idx)
                && r == spec_select_action(
                old(app).bus_name_state.entries@,
                final(app).bus_name_state.selected,
            )
        }),
{
    match app.bus_name_state.selected {
        Some(index) => {
            let idx = index as i32 + 1;
            select_bus_name(app, idx)
        },
        None => select_bus_name(app, 0),
    }
}

/// Moves the selection one entry up (or to the first entry when
/// nothing is selected yet).
pub fn select_last_bus_name(app: &mut App) -> (r: Action)
    requires
        old(app).wf(),
    ensures
        only_selection_changed(*old(app), *final(app)),
        final(app).wf(),
        ({
            let idx: int = (match old(app).bus_name_state.selected {
                Some(i) => i - 1,
                None => 0,
            });
            final(app).bus_name_state.selected == spec_selected_after(*old(app), idx)
                && r == spec_select_action(
                old(app).bus_name_state.entries@,
                final(app).bus_name_state.selected,
            )
        }),
{
    match app.bus_name_state.selected {
        Some(index) => {
            let idx = index as i32 - 1;
            select_bus_name(app, idx)
        },
        None => select_bus_name(app, 0),
    }
}

/// Everything but the selection is untouched.
pub open spec fn only_selection_changed(pre: App, post: App) -> bool {
    &&& post.bus_name_state.entries == pre.bus_name_state.entries
    &&& post.bus_name_state.skip == pre.bus_name_state.skip
    &&& post.bus_name_state.visible_lines == pre.bus_name_state.visible_lines
    &&& post.paths == pre.paths
    &&& post.methods == pre.methods
    &&& post.filter_aliases == pre.filter_aliases
    &&& post.focus == pre.focus
    &&& post.log == pre.log
}

/// Selects the filtered index `index` when it is in range — the bound
/// is the number of names the display filter keeps — and answers with
/// the action for the selection the state settles on.
pub fn select_bus_name(app: &mut App, index: i32) -> (r: Action)
    requires
        old(app).wf(),
    ensures
        only_selection_changed(*old(app), *final(app)),
        final(app).wf(),
        final(app).bus_name_state.selected == spec_selected_after(*old(app), index as int),
        r == spec_select_action(
            old(app).bus_name_state.entries@,
            final(app).bus_name_state.selected,
        ),
{
    let filtered = count_filtered_names(app);
    if index >= 0 && (index as usize) < filtered {
        app.bus_name_state.selected = Some(index as u32);
    }
    match app.bus_name_state.selected {
        Some(i) => Action::LoadPaths {
            bus_name: app.bus_name_state.entries[i as usize].clone(),
        },
        None => Action::NoOp,
    }
}

} // verus!
