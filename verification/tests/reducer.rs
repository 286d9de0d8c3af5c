use dbus_console::app::{action_to_events, Action, App, AppEvent, LogEntry};
use dbus_console::dbus::{child_paths, in_signature, interface_names, join_path, signature_of,
                         Interface, Method, MethodArg};
use dbus_console::error::DBusConsoleError;
use dbus_console::filter::{count_filtered_names, filter_bus_names, name_is_alias};
use dbus_console::ui::{key_to_action, Key};
use dbus_console::app::Section;

fn names(list: &[&str]) -> Vec<String> {
    list.iter().map(|s| s.to_string()).collect()
}

#[test]
fn default_app_is_empty_and_filtering() {
    let app = App::default();
    assert!(app.filter_aliases);
    assert!(matches!(app.focus, Section::BusFrame));
    assert_eq!(app.bus_name_state.entries.len(), 0);
    assert!(app.bus_name_state.selected.is_none());
    assert_eq!(app.log.len(), 0);
}

#[test]
fn action_to_events_maps_each_action() {
    let loaded = names(&["org.a", "org.b"]);
    match action_to_events(Action::LoadBusNames, loaded.clone()) {
        AppEvent::BusNamesLoaded(v) => assert_eq!(v, loaded),
        other => panic!("unexpected event {:?}", other),
    }
    match action_to_events(
        Action::LoadPaths { bus_name: "org.a".to_string() },
        loaded.clone(),
    ) {
        AppEvent::PathsLoaded(v) => assert_eq!(v, loaded),
        other => panic!("unexpected event {:?}", other),
    }
    assert!(matches!(
        action_to_events(Action::SelectLastBusName, Vec::new()),
        AppEvent::SelectPreviousBusName
    ));
    assert!(matches!(
        action_to_events(Action::SelectNextBusName, Vec::new()),
        AppEvent::SelectNextBusName
    ));
    assert!(matches!(action_to_events(Action::NoOp, Vec::new()), AppEvent::NoOp));
}

#[test]
fn bus_names_loaded_replaces_entries() {
    let mut app = App::default();
    let next = dbus_console::app::reduce_event(
        &mut app,
        AppEvent::BusNamesLoaded(names(&["org.a", ":1.7", "org.b"])),
    );
    assert!(matches!(next, Action::NoOp));
    assert_eq!(app.bus_name_state.entries, names(&["org.a", ":1.7", "org.b"]));
    assert_eq!(app.log.len(), 1);
    assert!(matches!(
        app.log[0],
        LogEntry::AppEventEntry(AppEvent::BusNamesLoaded(_))
    ));
}

#[test]
fn reduce_selects_and_asks_for_paths() {
    let mut app = App::default();
    dbus_console::app::reduce_event(&mut app, AppEvent::BusNamesLoaded(names(&["org.a", "org.b"])));

    let pending = app.reduce(Action::SelectNextBusName);
    assert_eq!(app.bus_name_state.selected, Some(0));
    match &pending {
        Action::LoadPaths { bus_name } => assert_eq!(bus_name, "org.a"),
        other => panic!("unexpected pending action {:?}", other),
    }
    // the event and the follow-up action are both logged
    assert_eq!(app.log.len(), 3);
    assert!(matches!(app.log[1], LogEntry::AppEventEntry(AppEvent::SelectNextBusName)));
    assert!(matches!(app.log[2], LogEntry::ActionEntry(Action::LoadPaths { .. })));

    // moving past the end keeps the selection
    let pending = app.reduce(Action::SelectNextBusName);
    assert_eq!(app.bus_name_state.selected, Some(1));
    assert!(matches!(pending, Action::LoadPaths { .. }));
    let pending = app.reduce(Action::SelectNextBusName);
    assert_eq!(app.bus_name_state.selected, Some(1));
    match &pending {
        Action::LoadPaths { bus_name } => assert_eq!(bus_name, "org.b"),
        other => panic!("unexpected pending action {:?}", other),
    }
}

#[test]
fn reduce_select_previous_stops_at_first_entry() {
    let mut app = App::default();
    dbus_console::app::reduce_event(&mut app, AppEvent::BusNamesLoaded(names(&["org.a", "org.b"])));
    app.reduce(Action::SelectNextBusName);
    app.reduce(Action::SelectNextBusName);
    assert_eq!(app.bus_name_state.selected, Some(1));
    app.reduce(Action::SelectLastBusName);
    assert_eq!(app.bus_name_state.selected, Some(0));
    // one step before the first entry is out of range: selection stays
    app.reduce(Action::SelectLastBusName);
    assert_eq!(app.bus_name_state.selected, Some(0));
}

#[test]
fn reduce_noop_only_logs() {
    let mut app = App::default();
    let pending = app.reduce(Action::NoOp);
    assert!(matches!(pending, Action::NoOp));
    assert_eq!(app.log.len(), 1);
    assert!(matches!(app.log[0], LogEntry::AppEventEntry(AppEvent::NoOp)));
}

#[test]
fn paths_and_methods_loaded_replace_lists() {
    let mut app = App::default();
    dbus_console::app::reduce_event(&mut app, AppEvent::PathsLoaded(names(&["/org", "/org/a"])));
    assert_eq!(app.paths, names(&["/org", "/org/a"]));
    dbus_console::app::reduce_event(&mut app, AppEvent::MethodsLoaded(names(&["Notify"])));
    assert_eq!(app.methods, names(&["Notify"]));
    dbus_console::app::reduce_event(
        &mut app,
        AppEvent::Error(DBusConsoleError::DBusError("lost connection".to_string())),
    );
    assert_eq!(app.paths, names(&["/org", "/org/a"]));
    assert_eq!(app.log.len(), 3);
}

#[test]
fn no_selection_when_filtering_is_off() {
    // with alias filtering disabled the display filter keeps nothing,
    // so no index is ever in range and nothing gets selected
    let mut app = App::default();
    dbus_console::app::reduce_event(&mut app, AppEvent::BusNamesLoaded(names(&["org.a"])));
    app.filter_aliases = false;
    let pending = app.reduce(Action::SelectNextBusName);
    assert_eq!(app.bus_name_state.selected, None);
    assert!(matches!(pending, Action::NoOp));
}

#[test]
fn alias_names_are_recognized() {
    assert!(name_is_alias(":1.42"));
    assert!(name_is_alias("prefix:1x4suffix"));
    assert!(!name_is_alias("org.freedesktop.DBus"));
    assert!(!name_is_alias(":1"));
    assert!(!name_is_alias(":a.4"));
}

#[test]
fn filter_hides_aliases_and_keeps_order() {
    let mut app = App::default();
    dbus_console::app::reduce_event(
        &mut app,
        AppEvent::BusNamesLoaded(names(&[":1.42", "org.a", ":2.7", "org.b"])),
    );
    assert_eq!(filter_bus_names(&app), names(&["org.a", "org.b"]));
    assert_eq!(count_filtered_names(&app), 2);
    app.filter_aliases = false;
    assert_eq!(filter_bus_names(&app), Vec::<String>::new());
    assert_eq!(count_filtered_names(&app), 0);
}

#[test]
fn clone_keeps_action_and_event_values() {
    let action = Action::LoadPaths { bus_name: "org.a".to_string() };
    match action.clone() {
        Action::LoadPaths { bus_name } => assert_eq!(bus_name, "org.a"),
        other => panic!("unexpected clone {:?}", other),
    }
    let event = AppEvent::BusNamesLoaded(names(&["org.a"]));
    match event.clone() {
        AppEvent::BusNamesLoaded(v) => assert_eq!(v, names(&["org.a"])),
        other => panic!("unexpected clone {:?}", other),
    }
    let error = DBusConsoleError::FdoError("denied".to_string());
    assert_eq!(error.clone(), error);
}

#[test]
fn keys_map_to_actions() {
    let focus = Section::BusFrame;
    assert!(matches!(key_to_action(&focus, Key::Up), Action::SelectLastBusName));
    assert!(matches!(key_to_action(&focus, Key::Down), Action::SelectNextBusName));
    assert!(matches!(key_to_action(&focus, Key::Char('q')), Action::Quit));
    assert!(matches!(key_to_action(&focus, Key::Char('x')), Action::NoOp));
    assert!(matches!(key_to_action(&focus, Key::Other), Action::NoOp));
}

fn notify_interface() -> Interface {
    Interface {
        name: "org.freedesktop.Notifications".to_string(),
        methods: vec![
            Method {
                name: "Notify".to_string(),
                args: vec![
                    MethodArg { ty: "s".to_string(), direction: Some("in".to_string()) },
                    MethodArg { ty: "u".to_string(), direction: Some("in".to_string()) },
                    MethodArg { ty: "s".to_string(), direction: Some("in".to_string()) },
                    MethodArg { ty: "s".to_string(), direction: Some("in".to_string()) },
                    MethodArg { ty: "s".to_string(), direction: Some("in".to_string()) },
                    MethodArg { ty: "as".to_string(), direction: Some("in".to_string()) },
                    MethodArg { ty: "a{sv}".to_string(), direction: Some("in".to_string()) },
                    MethodArg { ty: "i".to_string(), direction: Some("in".to_string()) },
                    MethodArg { ty: "u".to_string(), direction: Some("out".to_string()) },
                ],
            },
            Method { name: "CloseNotification".to_string(), args: vec![] },
        ],
    }
}

#[test]
fn signature_concatenates_in_arguments() {
    let interfaces = vec![notify_interface()];
    let signature = signature_of(&interfaces, "org.freedesktop.Notifications", "Notify");
    assert_eq!(signature, Some("susssasa{sv}i".to_string()));
    assert_eq!(
        signature_of(&interfaces, "org.freedesktop.Notifications", "CloseNotification"),
        Some(String::new())
    );
    assert_eq!(signature_of(&interfaces, "org.freedesktop.Notifications", "Absent"), None);
    assert_eq!(signature_of(&interfaces, "org.other", "Notify"), None);
}

#[test]
fn in_signature_skips_out_and_undirected_arguments() {
    let args = vec![
        MethodArg { ty: "s".to_string(), direction: Some("in".to_string()) },
        MethodArg { ty: "u".to_string(), direction: Some("out".to_string()) },
        MethodArg { ty: "i".to_string(), direction: None },
        MethodArg { ty: "b".to_string(), direction: Some("in".to_string()) },
    ];
    assert_eq!(in_signature(&args), "sb".to_string());
}

#[test]
fn interface_names_lists_all() {
    let interfaces = vec![notify_interface()];
    assert_eq!(interface_names(&interfaces), names(&["org.freedesktop.Notifications"]));
}

#[test]
fn join_path_inserts_separator_once() {
    assert_eq!(join_path("/", "org"), "/org".to_string());
    assert_eq!(join_path("/org", "freedesktop"), "/org/freedesktop".to_string());
    assert_eq!(join_path("", "org"), "/org".to_string());
}

#[test]
fn child_paths_join_every_name() {
    let children = child_paths("/org", &names(&["a", "b"]));
    assert_eq!(children, names(&["/org/a", "/org/b"]));
}
