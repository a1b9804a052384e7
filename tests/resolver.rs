use volta_core::resolve::{
    command, has_direct_bin, select, Loader, PlatformEnv, PlatformSource, ProjectInfo, ResolveError, Selection, ToolCommand,
    UserTool,
};

fn strings(v: &[&str]) -> Vec<String> {
    v.iter().map(|s| s.to_string()).collect()
}

fn project(bins: &[&str], has_platform: bool) -> Option<ProjectInfo> {
    Some(ProjectInfo { direct_bins: strings(bins), local_bin_dir: "/proj/node_modules/.bin".to_string(), has_platform })
}

fn tool(bin: &str, loader: Option<Loader>) -> UserTool {
    UserTool { bin_path: bin.to_string(), loader, image_path: "/img/bin".to_string() }
}

#[test]
fn direct_bin_lookup() {
    let p = project(&["tsc", "eslint"], false).unwrap();
    assert!(has_direct_bin(&p, "eslint"));
    assert!(!has_direct_bin(&p, "esl"));
    assert!(!has_direct_bin(&project(&[], false).unwrap(), "tsc"));
}

#[test]
fn project_local_wins_over_user_tool() {
    let sel = select("foo", &project(&["foo"], true), true, Some(tool("/tools/foo", None)));
    match &sel {
        Selection::ProjectLocal { bin, platform } => {
            assert_eq!(bin, "/proj/node_modules/.bin/foo");
            assert_eq!(*platform, PlatformSource::Project);
        }
        other => panic!("unexpected {:?}", other),
    }
    match command(sel, strings(&["-v"]), true, PlatformEnv::Path("/p/bin".to_string())).unwrap() {
        ToolCommand::ProjectLocal { exe, args, path, deferred } => {
            assert_eq!(exe, "/proj/node_modules/.bin/foo");
            assert_eq!(args, strings(&["-v"]));
            assert_eq!(path, Some("/p/bin".to_string()));
            assert_eq!(deferred, None);
        }
        other => panic!("unexpected {:?}", other),
    }
}

#[test]
fn project_local_platform_order() {
    let user = select("foo", &project(&["foo"], false), true, None);
    assert!(matches!(user, Selection::ProjectLocal { platform: PlatformSource::User, .. }));
    let none = select("foo", &project(&["foo"], false), false, None);
    assert!(matches!(none, Selection::ProjectLocal { platform: PlatformSource::Ambient, .. }));
    match command(none, strings(&["a"]), true, PlatformEnv::Inherit).unwrap() {
        ToolCommand::ProjectLocal { exe, args, path, deferred } => {
            assert_eq!(exe, "/proj/node_modules/.bin/foo");
            assert_eq!(args, strings(&["a"]));
            assert_eq!(path, None);
            assert_eq!(deferred, Some(ResolveError::NoPlatform));
        }
        other => panic!("unexpected {:?}", other),
    }
}

#[test]
fn failed_platform_checkout_is_fatal() {
    for has_platform in [true, false] {
        let sel = select("foo", &project(&["foo"], has_platform), true, None);
        match command(sel, strings(&["a"]), true, PlatformEnv::Failed("no such node".to_string())) {
            Err(ResolveError::CheckoutFailed { message }) => assert_eq!(message, "no such node"),
            other => panic!("unexpected {:?}", other),
        }
    }
}

#[test]
fn missing_project_binary_is_fatal() {
    let sel = select("foo", &project(&["foo"], true), false, Some(tool("/tools/foo", None)));
    match command(sel, vec![], false, PlatformEnv::Path("/p/bin".to_string())) {
        Err(ResolveError::ProjectLocalBinaryNotFound { command }) => {
            assert_eq!(command, "/proj/node_modules/.bin/foo")
        }
        other => panic!("unexpected {:?}", other),
    }
}

#[test]
fn undeclared_binary_goes_to_user_tool() {
    let sel = select("foo", &project(&["bar"], true), true, Some(tool("/tools/foo", None)));
    match command(sel, strings(&["1", "2"]), false, PlatformEnv::Inherit).unwrap() {
        ToolCommand::Direct { exe, args, path } => {
            assert_eq!(exe, "/tools/foo");
            assert_eq!(args, strings(&["1", "2"]));
            assert_eq!(path, "/img/bin");
        }
        other => panic!("unexpected {:?}", other),
    }
}

#[test]
fn unknown_command_passes_through() {
    let sel = select("bar", &None, true, None);
    match command(sel, strings(&["--x", "y"]), false, PlatformEnv::Inherit).unwrap() {
        ToolCommand::Passthrough { exe, args, error } => {
            assert_eq!(exe, "bar");
            assert_eq!(args, strings(&["--x", "y"]));
            assert_eq!(error, ResolveError::BinaryNotFound { name: "bar".to_string() });
        }
        other => panic!("unexpected {:?}", other),
    }
}

#[test]
fn loader_comes_before_target_and_arguments() {
    let loader = Loader { command: "engine".to_string(), args: strings(&["--flag"]) };
    let sel = select("runner", &None, false, Some(tool("/install/runner", Some(loader))));
    match command(sel, strings(&["x", "y"]), false, PlatformEnv::Inherit).unwrap() {
        ToolCommand::Direct { exe, args, path } => {
            assert_eq!(exe, "engine");
            assert_eq!(args, strings(&["--flag", "/install/runner", "x", "y"]));
            assert_eq!(path, "/img/bin");
        }
        other => panic!("unexpected {:?}", other),
    }
}
