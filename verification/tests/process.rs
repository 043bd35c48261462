use pass::process::{norm_cmd, split_cmd, ExitCode, ProcessResult};

/// Stands in for the host: what the few commands used here do on a Unix
/// system.
fn run(cmd: &[String]) -> ProcessResult {
    let Some((program, args)) = cmd.split_first() else {
        return ProcessResult::fail_on_start();
    };
    match program.as_str() {
        "echo" => ProcessResult::exited(true, format!("{}\n", args.join(" ")).into_bytes(), vec![]),
        "ls" => {
            let errors: Vec<String> = args
                .iter()
                .map(|a| format!("ls: cannot access '{}': No such file or directory\n", a))
                .collect();
            ProcessResult::exited(false, vec![], errors.concat().into_bytes())
        }
        "true" | "/bin/true" => ProcessResult::exited(true, vec![], vec![]),
        "false" | "/bin/false" => ProcessResult::exited(false, vec![], vec![]),
        _ => ProcessResult::fail_on_start(),
    }
}

#[test]
fn test_run() {
    {
        let result = run(&norm_cmd(vec!["echo", "1"]));
        assert!(matches!(result.code, ExitCode::SuccessOnExit));
        assert!(result.ok());
        let Some(output) = result.output else {
            panic!("expecting output");
        };
        assert_eq!(output.stdout, "1\n".as_bytes());
    }
    {
        let result = run(&norm_cmd(vec!["false"]));
        assert!(matches!(result.code, ExitCode::ErrorOnExit));
        assert!(!result.ok());
    }
    {
        let result = run(&norm_cmd(vec!["aaabbb-not-a-command-bbbaaa"]));
        assert!(matches!(result.code, ExitCode::FailOnStart));
        assert!(!result.ok());
    }
}

#[test]
fn results_are_classified() {
    let r = ProcessResult::exited(true, b"out".to_vec(), b"err".to_vec());
    assert_eq!(r.code, ExitCode::SuccessOnExit);
    assert!(r.ok());
    let out = r.output.unwrap();
    assert_eq!(out.stdout, b"out");
    assert_eq!(out.stderr, b"err");
    let r = ProcessResult::exited(false, vec![], vec![]);
    assert_eq!(r.code, ExitCode::ErrorOnExit);
    assert!(!r.ok());
    assert!(r.output.is_some());
    let r = ProcessResult::fail_on_start();
    assert_eq!(r.code, ExitCode::FailOnStart);
    assert!(r.output.is_none());
    assert!(!r.ok());
}

#[test]
fn commands_are_split_into_program_and_arguments() {
    assert_eq!(norm_cmd(vec!["a", "b c"]), vec!["a".to_owned(), "b c".to_owned()]);
    assert!(norm_cmd(vec![]).is_empty());
    assert!(split_cmd(&vec![]).is_none());
    let cmd = norm_cmd(vec!["ls", "-l", "/tmp"]);
    let (program, args) = split_cmd(&cmd).unwrap();
    assert_eq!(program, "ls");
    assert_eq!(args, vec!["-l".to_owned(), "/tmp".to_owned()]);
    let cmd = norm_cmd(vec!["ls"]);
    let (program, args) = split_cmd(&cmd).unwrap();
    assert_eq!(program, "ls");
    assert!(args.is_empty());
}
