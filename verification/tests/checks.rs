use pass::checks::{
    ask_until, ends_on, always_no, always_yes, and_op, check, command_err, command_fail, command_ok, fn_check,
    is_dir, is_file, is_file_content, file_contains_once, not_op, or_op, path_is_missing,
    prints_word, service_is_active, user_is_root, service_is_disabled, service_is_enabled, service_is_failed,
    service_is_inactive, stderr_contains_once, stderr_lacks, stdout_contains_once, stdout_lacks,
    same_bytes, PathKind, UserIsRoot,
};
use pass::interfaces::Check;
use pass::pattern::{bin, re};
use pass::process::ProcessResult;

/// Stands in for the host: what the few commands used here do on a Unix
/// system.
fn run(cmd: &[String]) -> ProcessResult {
    let Some((program, args)) = cmd.split_first() else {
        return ProcessResult::fail_on_start();
    };
    match program.as_str() {
        "echo" => ProcessResult::exited(true, format!("{}\n", args.join(" ")).into_bytes(), vec![]),
        "ls" => {
            let errors: Vec<String> = args
                .iter()
                .map(|a| format!("ls: cannot access '{}': No such file or directory\n", a))
                .collect();
            ProcessResult::exited(false, vec![], errors.concat().into_bytes())
        }
        "true" | "/bin/true" => ProcessResult::exited(true, vec![], vec![]),
        "false" | "/bin/false" => ProcessResult::exited(false, vec![], vec![]),
        _ => ProcessResult::fail_on_start(),
    }
}

const NOT_A_FILE: &str = "/tmp/not-a-pass-test-file-5555555555";

#[test]
fn test_always_yes() {
    assert!(always_yes().yes());
}

#[test]
fn test_always_no() {
    assert!(always_yes().yes());
}

#[test]
fn always_no_answers_no() {
    assert!(!always_no().yes());
    assert_eq!(always_no().name(), "AlwaysNo");
    assert_eq!(always_yes().name(), "AlwaysYes");
}

#[test]
fn checks_test_named() {
    let c = check("aaa", always_yes());
    assert_eq!(c.name(), "aaa");
    assert!(c.yes());
    let c = check("aaa", always_no());
    assert!(!c.yes());
}

#[test]
fn test_user_is_root() {
    // needs a host with a known user
}

#[test]
fn root_is_user_zero() {
    assert!(UserIsRoot::is_root_uid(0));
    assert!(!UserIsRoot::is_root_uid(1));
    assert!(!UserIsRoot::is_root_uid(1000));
}

#[test]
fn test_path_is_missing() {
    let probe = |path: &str| std::path::Path::new(path).try_exists().ok();
    let c = path_is_missing("/tmp111111111111111122222222222");
    assert!(c.holds(probe(&c.0)));
    let c = path_is_missing("/tmp");
    assert!(!c.holds(probe(&c.0)));
}

#[test]
fn path_is_missing_needs_a_definite_answer() {
    let c = path_is_missing("/somewhere");
    assert!(c.holds(Some(false)));
    assert!(!c.holds(Some(true)));
    assert!(!c.holds(None));
}

#[test]
fn test_or_op() {
    assert!(or_op(vec![]).yes());
    assert!(or_op(vec![always_yes(), always_yes()]).yes());
    assert!(or_op(vec![always_yes(), always_no()]).yes());
    assert!(!or_op(vec![always_no(), always_no()]).yes());
}

#[test]
fn test_and_op() {
    assert!(and_op(vec![]).yes());
    assert!(and_op(vec![always_yes(), always_yes()]).yes());
    assert!(!and_op(vec![always_yes(), always_no()]).yes());
    assert!(!and_op(vec![always_no(), always_no()]).yes());
}

#[test]
fn checks_are_asked_up_to_the_first_that_decides() {
    let checks = vec![always_yes(), always_no(), always_yes()];
    assert_eq!(ask_until(&checks, false), vec![true, false]);
    assert_eq!(ask_until(&checks, true), vec![true]);
    assert_eq!(ask_until(&vec![always_no(), always_no()], true), vec![false, false]);
    assert_eq!(ask_until(&vec![], true), vec![]);
    assert!(ends_on(&vec![true, false], false));
    assert!(!ends_on(&vec![true, false], true));
    assert!(!ends_on(&vec![], true));
    assert!(!ends_on(&vec![], false));
}

#[test]
fn not_op_negates() {
    assert!(!not_op(always_yes()).yes());
    assert!(not_op(always_no()).yes());
    assert!(not_op(not_op(always_yes())).yes());
    assert_eq!(not_op(always_yes()).name(), "NotOp");
}

#[test]
fn combinators_nest() {
    let c = and_op(vec![or_op(vec![always_no(), always_yes()]), check("x", and_op(vec![]))]);
    assert!(c.yes());
    assert_eq!(c.name(), "AndOp");
    let c = or_op(vec![and_op(vec![always_yes(), always_no()]), always_no()]);
    assert!(!c.yes());
    assert_eq!(c.name(), "OrOp");
}

#[test]
fn test_stdout_contains_once() {
    let c = stdout_contains_once(vec!["echo", "111222333"], bin("23".as_bytes()));
    assert!(c.holds(&run(&c.cmd)));
    let c = stdout_contains_once(vec!["echo", "1112222"], bin("22".as_bytes()));
    assert!(!c.holds(&run(&c.cmd)));
    let c = stdout_contains_once(vec!["echo", "1112222"], bin("44".as_bytes()));
    assert!(!c.holds(&run(&c.cmd)));
    let c = stdout_contains_once(vec!["echo", "111222333"], re("1.2"));
    assert!(c.holds(&run(&c.cmd)));
    let c = stdout_contains_once(vec!["echo", "111222333"], re("1."));
    assert!(!c.holds(&run(&c.cmd)));
}

#[test]
fn test_stderr_contains_once() {
    let c = stderr_contains_once(vec!["ls", NOT_A_FILE], bin("cannot access".as_bytes()));
    assert!(c.holds(&run(&c.cmd)));
    let c = stderr_contains_once(vec!["ls", NOT_A_FILE], bin("c".as_bytes()));
    assert!(!c.holds(&run(&c.cmd)));
    let c = stderr_contains_once(vec!["ls", NOT_A_FILE], bin("11111111111111111".as_bytes()));
    assert!(!c.holds(&run(&c.cmd)));
    let c = stderr_contains_once(
        vec!["ls", "/tmp/not-a-pass-test-file-1111222333"],
        re("1.2{3}"),
    );
    assert!(c.holds(&run(&c.cmd)));
    let c = stderr_contains_once(vec!["ls", "/tmp/not-a-pass-test-file-1111222333"], re("1{2}"));
    assert!(!c.holds(&run(&c.cmd)));
}

#[test]
fn test_stdout_lacks() {
    let c = stdout_lacks(vec!["echo", "111222333"], bin("000".as_bytes()));
    assert!(c.holds(&run(&c.cmd)));
    let c = stdout_lacks(vec!["echo", "111222333"], bin("111".as_bytes()));
    assert!(!c.holds(&run(&c.cmd)));
    let c = stdout_lacks(vec!["eeeeeeeeeeeeeeeeeeeeerrrrrr123"], bin("111".as_bytes()));
    assert!(!c.holds(&run(&c.cmd)));
    let c = stdout_lacks(vec!["echo", "111222333"], re("1{4}"));
    assert!(c.holds(&run(&c.cmd)));
    let c = stdout_lacks(vec!["echo", "111222333"], re("1{3}"));
    assert!(!c.holds(&run(&c.cmd)));
}

#[test]
fn test_stderr_lacks() {
    let path = "/tmp/not-a-pass-test-file-5555555555-111222333-test_stderr_lacks";
    let c = stderr_lacks(vec!["ls", path], bin("000".as_bytes()));
    assert!(c.holds(&run(&c.cmd)));
    let c = stderr_lacks(vec!["ls", path], bin("111".as_bytes()));
    assert!(!c.holds(&run(&c.cmd)));
    let c = stderr_lacks(vec!["eeeeeeeeeeeeeeeeeerrrrrrrrrrrrrrrrrr123"], bin("111".as_bytes()));
    assert!(!c.holds(&run(&c.cmd)));
    let c = stderr_lacks(vec!["ls", path], re("1{4}"));
    assert!(c.holds(&run(&c.cmd)));
    let c = stderr_lacks(vec!["ls", path], re("1{3}"));
    assert!(!c.holds(&run(&c.cmd)));
}

#[test]
fn stream_questions_on_given_results() {
    let result = ProcessResult::exited(true, b"one two\n".to_vec(), b"warn warn\n".to_vec());
    assert!(stdout_contains_once(vec!["x"], bin(b"two")).holds(&result));
    assert!(!stderr_contains_once(vec!["x"], bin(b"warn")).holds(&result));
    assert!(stdout_lacks(vec!["x"], bin(b"warn")).holds(&result));
    assert!(!stderr_lacks(vec!["x"], bin(b"warn")).holds(&result));
    let failed = ProcessResult::fail_on_start();
    assert!(!stdout_contains_once(vec!["x"], bin(b"two")).holds(&failed));
    assert!(!stdout_lacks(vec!["x"], bin(b"two")).holds(&failed));
    let binary = ProcessResult::exited(true, vec![0xff, 0xfe], vec![]);
    assert!(!stdout_lacks(vec!["x"], re("a")).holds(&binary));
    assert!(!stdout_contains_once(vec!["x"], re("a")).holds(&binary));
}

#[test]
fn test_is_exit_code() {
    let c = command_ok(vec!["/bin/true"]);
    assert!(c.holds(&run(&c.cmd)));
    let c = command_err(vec!["/bin/false"]);
    assert!(c.holds(&run(&c.cmd)));
    let c = command_fail(vec!["/bin/command-which-does-not-exist-5kGHx7FDlwolHKpmJQim9X"]);
    assert!(c.holds(&run(&c.cmd)));
}

#[test]
fn exit_code_questions_on_given_results() {
    let ok = ProcessResult::exited(true, vec![], vec![]);
    let err = ProcessResult::exited(false, vec![], vec![]);
    let fail = ProcessResult::fail_on_start();
    assert!(command_ok(vec!["x"]).holds(&ok));
    assert!(!command_ok(vec!["x"]).holds(&err));
    assert!(!command_ok(vec!["x"]).holds(&fail));
    assert!(command_err(vec!["x"]).holds(&err));
    assert!(!command_err(vec!["x"]).holds(&ok));
    assert!(command_fail(vec!["x"]).holds(&fail));
    assert!(!command_fail(vec!["x"]).holds(&err));
    assert_eq!(command_ok(vec!["a", "b"]).cmd, vec!["a".to_owned(), "b".to_owned()]);
}

#[test]
fn path_kind_questions() {
    assert!(is_file("/x").holds(Some(PathKind::File)));
    assert!(!is_file("/x").holds(Some(PathKind::Dir)));
    assert!(!is_file("/x").holds(Some(PathKind::Other)));
    assert!(!is_file("/x").holds(None));
    assert!(is_dir("/x").holds(Some(PathKind::Dir)));
    assert!(!is_dir("/x").holds(Some(PathKind::File)));
    assert!(!is_dir("/x").holds(None));
    assert_eq!(is_file("/x").path, "/x");
    assert_eq!(is_dir("/y").name(), "IsDir");
}

#[test]
fn test_is_file_content() {
    let content = Some("aaabbbccc".as_bytes().to_vec());
    assert!(is_file_content("/tmp/f", "aaabbbccc".as_bytes()).holds(content.as_ref()));
    assert!(!is_file_content("/tmp/f", "111".as_bytes()).holds(content.as_ref()));
}

#[test]
fn test_file_contains_once() {
    let content = Some("aaabbbccc".as_bytes().to_vec());
    assert!(file_contains_once("/tmp/f", bin("bbb".as_bytes())).holds(content.as_ref()));
    assert!(!file_contains_once("/tmp/f", bin("b".as_bytes())).holds(content.as_ref()));
    assert!(file_contains_once("/tmp/f", re("a.ab{3}")).holds(content.as_ref()));
    assert!(!file_contains_once("/tmp/f", re("a.")).holds(content.as_ref()));
}

#[test]
fn unreadable_files_answer_no() {
    assert!(!is_file_content("/x", b"aaabbbccc").holds(None));
    assert!(!is_file_content("/x", b"").holds(None));
    assert!(!file_contains_once("/x", bin(b"bbb")).holds(None));
    assert!(is_file_content("/x", b"").holds(Some(&vec![])));
    assert!(same_bytes(b"", b""));
    assert!(same_bytes(b"abc", b"abc"));
    assert!(!same_bytes(b"a", b"b"));
    assert!(!same_bytes(b"a", b"ab"));
}

#[test]
fn user_is_root_asks_the_host() {
    let c = user_is_root();
    assert_eq!(c.name(), "UserIsRoot");
    let first = c.yes();
    assert_eq!(c.yes(), first);
}

#[test]
fn test_service_in_status() {
    // needs a host with a service manager
}

#[test]
fn test_service_is_enabled() {
    // needs a host with a service manager
}

#[test]
fn service_questions_read_the_printed_word() {
    let active = ProcessResult::exited(true, b"active\n".to_vec(), vec![]);
    let inactive = ProcessResult::exited(false, b"  inactive \n".to_vec(), vec![]);
    let failed = ProcessResult::exited(false, b"failed".to_vec(), vec![]);
    assert!(service_is_active("nginx").holds(&active));
    assert!(!service_is_active("nginx").holds(&inactive));
    assert!(service_is_inactive("nginx").holds(&inactive));
    assert!(service_is_failed("nginx").holds(&failed));
    assert!(!service_is_failed("nginx").holds(&ProcessResult::fail_on_start()));
    assert!(!service_is_active("nginx").holds(&ProcessResult::exited(true, vec![0xff], vec![])));
    assert_eq!(
        service_is_active("nginx").command(),
        vec!["/usr/bin/systemctl".to_owned(), "is-active".to_owned(), "nginx".to_owned()]
    );
    let enabled = ProcessResult::exited(true, b"enabled\n".to_vec(), vec![]);
    let disabled = ProcessResult::exited(false, b"disabled\n".to_vec(), vec![]);
    assert!(service_is_enabled("nginx").holds(&enabled));
    assert!(!service_is_enabled("nginx").holds(&disabled));
    assert!(service_is_disabled("nginx").holds(&disabled));
    assert!(!service_is_disabled("nginx").holds(&enabled));
    assert_eq!(
        service_is_enabled("nginx").command(),
        vec!["/usr/bin/systemctl".to_owned(), "is-enabled".to_owned(), "nginx".to_owned()]
    );
    assert!(prints_word(&active, "active"));
    assert!(!prints_word(&active, "active\n"));
}

#[test]
fn test_tuple_as_check() {
    {
        let c = fn_check("t1", || true);
        assert_eq!(c.name(), "t1");
        assert!(c.yes());
    }
    {
        let c = fn_check("t2", || false);
        assert!(!c.yes());
    }
    {
        let c = fn_check(&"t3".to_owned(), || true);
        assert!(c.yes());
    }
}
