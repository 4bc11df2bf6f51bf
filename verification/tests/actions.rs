use kdotool::actions::{lookup, Action};

const ALL: [Action; 9] = [
    Action::GetWindowName,
    Action::GetWindowClassName,
    Action::GetWindowGeometry,
    Action::GetWindowPid,
    Action::WindowMinimize,
    Action::WindowRaise,
    Action::WindowClose,
    Action::WindowKill,
    Action::WindowActivate,
];

#[test]
fn every_verb_is_found_under_its_name() {
    for action in ALL {
        assert_eq!(lookup(action.name()), Some(action));
    }
}

#[test]
fn names_are_as_on_the_command_line() {
    assert_eq!(Action::GetWindowName.name(), "getwindowname");
    assert_eq!(Action::GetWindowClassName.name(), "getwindowclassname");
    assert_eq!(Action::GetWindowGeometry.name(), "getwindowgeometry");
    assert_eq!(Action::GetWindowPid.name(), "getwindowpid");
    assert_eq!(Action::WindowMinimize.name(), "windowminimize");
    assert_eq!(Action::WindowRaise.name(), "windowraise");
    assert_eq!(Action::WindowClose.name(), "windowclose");
    assert_eq!(Action::WindowKill.name(), "windowkill");
    assert_eq!(Action::WindowActivate.name(), "windowactivate");
}

#[test]
fn lookup_is_exact() {
    assert_eq!(lookup("windowclose"), Some(Action::WindowClose));
    assert_eq!(lookup("WindowClose"), None);
    assert_eq!(lookup("windowclos"), None);
    assert_eq!(lookup("windowclose "), None);
    assert_eq!(lookup(" windowclose"), None);
    assert_eq!(lookup(""), None);
    assert_eq!(lookup("search"), None);
    assert_eq!(lookup("getactivewindow"), None);
    assert_eq!(lookup("foobar"), None);
}

#[test]
fn queries_write_results() {
    for action in ALL {
        assert_eq!(action.is_query(), action.fragment().contains("output_result("));
    }
    assert!(Action::GetWindowName.is_query());
    assert!(Action::GetWindowClassName.is_query());
    assert!(Action::GetWindowGeometry.is_query());
    assert!(Action::GetWindowPid.is_query());
    assert!(!Action::WindowMinimize.is_query());
    assert!(!Action::WindowRaise.is_query());
    assert!(!Action::WindowClose.is_query());
    assert!(!Action::WindowKill.is_query());
    assert!(!Action::WindowActivate.is_query());
}

#[test]
fn fragments_work_on_the_window_w() {
    assert_eq!(Action::GetWindowName.fragment(), "output_result(w.caption);");
    assert_eq!(Action::GetWindowClassName.fragment(), "output_result(w.resourceClass);");
    assert_eq!(Action::GetWindowPid.fragment(), "output_result(w.pid);");
    assert_eq!(Action::WindowMinimize.fragment(), "w.minimized = true;");
    assert_eq!(Action::WindowRaise.fragment(), "workspace.raiseWindow(w);");
    assert_eq!(Action::WindowClose.fragment(), "w.closeWindow();");
    assert_eq!(Action::WindowKill.fragment(), "w.killWindow();");
    assert_eq!(Action::WindowActivate.fragment(), "workspace.setActiveWindow(w);");
}

#[test]
fn geometry_writes_three_lines() {
    let fragment = Action::GetWindowGeometry.fragment();
    assert_eq!(fragment.matches("output_result(").count(), 3);
    assert_eq!(
        fragment,
        "output_result(`Window ${w.internalId}`); output_result(`  Position: ${w.x},${w.y}`); output_result(`  Geometry: ${w.width}x${w.height}`);"
    );
}
