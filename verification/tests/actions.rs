use pass::actions::{
    verdict, Many, action, always_fail, always_ok, command, copy_file, copy_file_named, create_dir,
    create_dir_perm, delete_file, fn_action, install_apt_packages, invert, many, perm,
    owner_ids, replace_in_file_once, set_perm, set_perm_full, start_service, stop_service, restart_service,
    reload_service, enable_service, disable_service, write_file, Attempt, OwnerIds,
    PathPermissions,
};
use pass::interfaces::{Action, ActionResult};
use pass::pattern::{bin, re};
use pass::process::ProcessResult;
use std::cell::Cell;
use std::rc::Rc;

/// Stands in for the host: what the few commands used here do on a Unix
/// system.
fn run(cmd: &[String]) -> ProcessResult {
    let Some((program, args)) = cmd.split_first() else {
        return ProcessResult::fail_on_start();
    };
    match program.as_str() {
        "echo" => ProcessResult::exited(true, format!("{}\n", args.join(" ")).into_bytes(), vec![]),
        "ls" => {
            let errors: Vec<String> = args
                .iter()
                .map(|a| format!("ls: cannot access '{}': No such file or directory\n", a))
                .collect();
            ProcessResult::exited(false, vec![], errors.concat().into_bytes())
        }
        "true" | "/bin/true" => ProcessResult::exited(true, vec![], vec![]),
        "false" | "/bin/false" => ProcessResult::exited(false, vec![], vec![]),
        _ => ProcessResult::fail_on_start(),
    }
}

#[test]
fn test_always_ok() {
    assert_eq!(always_ok().run(), ActionResult::Success);
}

#[test]
fn test_always_fail() {
    assert_eq!(always_fail().run(), ActionResult::Fail);
}

#[test]
fn actions_test_named() {
    let a = action("aaa", always_ok());
    assert_eq!(a.name(), "aaa");
    assert_eq!(a.run(), ActionResult::Success);
}

#[test]
fn test_many() {
    assert_eq!(many(vec![]).run(), ActionResult::Success);
    assert_eq!(many(vec![always_ok(), always_ok()]).run(), ActionResult::Success);
    assert_eq!(many(vec![always_ok(), always_fail()]).run(), ActionResult::Fail);
}

#[test]
fn many_stops_at_the_first_failure() {
    let count = Rc::new(Cell::new(0));
    let (a, b) = (count.clone(), count.clone());
    let all = many(vec![
        fn_action("first", move || {
            a.set(a.get() + 1);
            ActionResult::Success
        }),
        always_fail(),
        fn_action("third", move || {
            b.set(b.get() + 10);
            ActionResult::Success
        }),
    ]);
    assert_eq!(all.run(), ActionResult::Fail);
    assert_eq!(count.get(), 1);
    assert_eq!(all.name(), "Many");
}

#[test]
fn many_reports_each_action_that_was_run() {
    let all = Many::new(vec![always_ok(), always_ok(), always_fail(), always_ok()]);
    let outcomes = all.run_each();
    assert_eq!(outcomes, vec![ActionResult::Success, ActionResult::Success, ActionResult::Fail]);
    assert_eq!(verdict(&outcomes), ActionResult::Fail);
    assert_eq!(all.run(), ActionResult::Fail);
    let all = Many::new(vec![always_ok(), always_ok()]);
    assert_eq!(all.run_each(), vec![ActionResult::Success, ActionResult::Success]);
    assert_eq!(verdict(&vec![]), ActionResult::Success);
    assert_eq!(Many::new(vec![]).run_each(), vec![]);
}

#[test]
fn test_command() {
    let a = command(vec!["echo", "1"]);
    assert_eq!(a.outcome(&run(&a.cmd)), ActionResult::Success);
    let a = command(vec!["false"]);
    assert_eq!(a.outcome(&run(&a.cmd)), ActionResult::Fail);
    let a = command(vec!["random-incorrect-command-aaabbb222"]);
    assert_eq!(a.outcome(&run(&a.cmd)), ActionResult::Fail);
}

#[test]
fn test_invert() {
    assert_eq!(invert(always_ok()).run(), ActionResult::Fail);
}

#[test]
fn invert_turns_a_failure_into_a_success() {
    assert_eq!(invert(always_fail()).run(), ActionResult::Success);
    assert_eq!(invert(invert(always_ok())).run(), ActionResult::Success);
    assert_eq!(invert(always_ok()).name(), "Invert");
}

#[test]
fn test_install_apt_packages() {
    // needs a host with apt
}

#[test]
fn apt_command_lists_the_packages() {
    let a = install_apt_packages(vec!["curl", "git"]);
    assert_eq!(
        a.command(),
        vec![
            "apt".to_owned(),
            "install".to_owned(),
            "-y".to_owned(),
            "curl".to_owned(),
            "git".to_owned()
        ]
    );
    assert_eq!(install_apt_packages(vec![]).command().len(), 3);
    assert_eq!(a.outcome(&ProcessResult::exited(true, vec![], vec![])), ActionResult::Success);
    assert_eq!(a.outcome(&ProcessResult::exited(false, vec![], vec![])), ActionResult::Fail);
    assert_eq!(a.outcome(&ProcessResult::fail_on_start()), ActionResult::Fail);
}

#[test]
fn test_set_path_permissions() {
    // needs a host with known users
}

#[test]
fn permissions_are_built_step_by_step() {
    assert_eq!(
        perm(0o775, "root"),
        PathPermissions::new(0o775, "root".to_owned(), "root".to_owned())
    );
    let p = PathPermissions::default();
    assert!(p.is_noop());
    let p = p.access(0o644);
    assert_eq!(p.access_mode, Some(0o644));
    assert_eq!(p.user_owner, None);
    let p = p.user("alice").group("staff");
    assert_eq!(p.user_owner, Some("alice".to_owned()));
    assert_eq!(p.group_owner, Some("staff".to_owned()));
    assert!(!p.is_noop());
    let p = p.owner("bob");
    assert_eq!(p, PathPermissions::new(0o644, "bob".to_owned(), "bob".to_owned()));
    assert_eq!(set_perm("/x", 0o600, "root").perm, perm(0o600, "root"));
    assert_eq!(
        set_perm_full("/x", 0o600, "root", "wheel").perm,
        PathPermissions::new(0o600, "root".to_owned(), "wheel".to_owned())
    );
    assert_eq!(write_file("/x", b"abc").perm, PathPermissions::default());
    assert_eq!(write_file("/x", b"abc").data, b"abc");
    assert_eq!(create_dir("/x").perm, PathPermissions::default());
    assert_eq!(create_dir_perm("/x", perm(0o700, "root")).perm, perm(0o700, "root"));
}

#[test]
fn owners_are_set_only_where_every_name_is_known() {
    assert_eq!(owner_ids(None, None), Some(OwnerIds { uid: None, gid: None }));
    assert_eq!(owner_ids(Some(Some(0)), None), Some(OwnerIds { uid: Some(0), gid: None }));
    assert_eq!(
        owner_ids(Some(Some(1000)), Some(Some(50))),
        Some(OwnerIds { uid: Some(1000), gid: Some(50) })
    );
    assert_eq!(owner_ids(Some(None), Some(Some(50))), None);
    assert_eq!(owner_ids(Some(Some(1000)), Some(None)), None);
    assert_eq!(owner_ids(None, Some(None)), None);
    assert_eq!(
        PathPermissions::default().access(0o600).resolve_owners(),
        Some(OwnerIds { uid: None, gid: None })
    );
    let unknown = "no-such-user-5kGHx7FDlwolHKpmJQim9X";
    assert_eq!(PathPermissions::default().user(unknown).resolve_owners(), None);
    assert_eq!(PathPermissions::default().group(unknown).resolve_owners(), None);
}

#[test]
fn outcomes_of_steps_that_follow_each_other() {
    let w = write_file("/x", b"abc");
    assert_eq!(w.outcome(true, Some(true)), ActionResult::Success);
    assert_eq!(w.outcome(true, Some(false)), ActionResult::Fail);
    assert_eq!(w.outcome(false, None), ActionResult::Fail);
    assert_eq!(w.outcome(true, None), ActionResult::Fail);
    assert_eq!(w.outcome(false, Some(true)), ActionResult::Fail);
    let c = create_dir("/x");
    assert_eq!(c.outcome(Attempt::Done, Some(true)), ActionResult::Success);
    assert_eq!(c.outcome(Attempt::AlreadyExists, Some(true)), ActionResult::Success);
    assert_eq!(c.outcome(Attempt::AlreadyExists, Some(false)), ActionResult::Fail);
    assert_eq!(c.outcome(Attempt::Failed, None), ActionResult::Fail);
    assert_eq!(c.outcome(Attempt::NotFound, Some(true)), ActionResult::Fail);
    assert_eq!(c.outcome(Attempt::Done, None), ActionResult::Fail);
    let r = replace_in_file_once("/x", bin(b"ab"), b"11");
    assert_eq!(r.outcome(Some(true)), ActionResult::Success);
    assert_eq!(r.outcome(Some(false)), ActionResult::Fail);
    assert_eq!(r.outcome(None), ActionResult::Fail);
    let c = copy_file("/a/b.txt", "/d");
    assert_eq!(c.outcome(Some(true)), ActionResult::Success);
    assert_eq!(c.outcome(Some(false)), ActionResult::Fail);
    assert_eq!(c.outcome(None), ActionResult::Fail);
}

#[test]
fn removal_and_creation_outcomes() {
    let d = delete_file("/x");
    assert_eq!(d.outcome(Attempt::Done), ActionResult::Success);
    assert_eq!(d.outcome(Attempt::NotFound), ActionResult::Success);
    assert_eq!(d.outcome(Attempt::Failed), ActionResult::Fail);
    assert_eq!(d.outcome(Attempt::AlreadyExists), ActionResult::Fail);
    let c = create_dir("/x");
    assert!(c.created(Attempt::Done));
    assert!(c.created(Attempt::AlreadyExists));
    assert!(!c.created(Attempt::Failed));
    assert!(!c.created(Attempt::NotFound));
}

#[test]
fn test_replace_in_file_once() {
    let content = "aaabbbccc".as_bytes();
    assert_eq!(
        replace_in_file_once("/x", bin(b"ab"), b"11").new_content(content).unwrap(),
        "aa11bbccc".as_bytes()
    );
    assert!(replace_in_file_once("/x", bin(b"a"), b"a").new_content(content).is_none());
    assert!(replace_in_file_once("/x", bin(b"a"), b"11").new_content(content).is_none());
    assert!(replace_in_file_once("/x", bin(b"111"), b"222").new_content(content).is_none());
    assert!(replace_in_file_once("/x", bin(b""), b"").new_content(content).is_none());
    assert!(replace_in_file_once("/x", bin(b""), b"111").new_content(content).is_none());
    assert_eq!(
        replace_in_file_once("/x", re("a+"), b"1").new_content(content).unwrap(),
        "1bbbccc".as_bytes()
    );
    assert!(replace_in_file_once("/x", re("a."), b"1").new_content(content).is_none());
}

#[test]
fn test_service_command() {
    // needs a host with a service manager
}

#[test]
fn service_command_lines() {
    let line = |verb: &str| vec!["systemctl".to_owned(), verb.to_owned(), "nginx".to_owned()];
    assert_eq!(start_service("nginx").command_line(), line("start"));
    assert_eq!(stop_service("nginx").command_line(), line("stop"));
    assert_eq!(restart_service("nginx").command_line(), line("restart"));
    assert_eq!(reload_service("nginx").command_line(), line("reload"));
    assert_eq!(enable_service("nginx").command_line(), line("enable"));
    assert_eq!(disable_service("nginx").command_line(), line("disable"));
    let a = start_service("nginx");
    assert_eq!(a.outcome(&ProcessResult::exited(true, vec![], vec![])), ActionResult::Success);
    assert_eq!(a.outcome(&ProcessResult::exited(false, vec![], vec![])), ActionResult::Fail);
}

#[test]
fn test_tuple_as_action() {
    {
        let a = fn_action("a1", || ActionResult::Success);
        assert_eq!(a.name(), "a1");
        assert!(matches!(a.run(), ActionResult::Success));
    }
    {
        let a = fn_action(&"a2".to_owned(), || ActionResult::Fail);
        assert_eq!(a.name(), "a2");
        assert!(matches!(a.run(), ActionResult::Fail));
    }
}

#[test]
fn copy_target_paths() {
    assert_eq!(copy_file("/a/b.txt", "/d").target_path(), Some("/d/b.txt".to_owned()));
    assert_eq!(copy_file("/", "/d").target_path(), None);
    assert_eq!(copy_file("/a/..", "/d").target_path(), None);
    assert_eq!(
        copy_file_named("/a/b.txt", "/d", "c.txt").target_path(),
        Some("/d/c.txt".to_owned())
    );
    assert_eq!(copy_file_named("/", "/d/", "c.txt").target_path(), Some("/d/c.txt".to_owned()));
}

#[test]
fn test_set_dir() {
    // needs a host whose working directory may be changed
}

#[test]
fn action_result_conversions() {
    assert!(ActionResult::Success.ok());
    assert!(!ActionResult::Fail.ok());
    assert_eq!(ActionResult::from(Ok(())), ActionResult::Success);
    assert_eq!(ActionResult::from(Err(())), ActionResult::Fail);
    assert_eq!(ActionResult::from_bool(true), ActionResult::Success);
    assert_eq!(ActionResult::from_bool(false), ActionResult::Fail);
}
