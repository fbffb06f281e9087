use scrubs::{begin, proceed, Attachment, CommandOutcome, Execution, Step, Tmux, Verdict};

/// Drives one invocation against scripted results and records the argument
/// vectors that would have been run.
fn drive(
    name: &str,
    listing: Execution,
    captured: &dyn Fn(&[String]) -> Execution,
    attach: &dyn Fn(&[String]) -> Attachment,
) -> (Vec<Vec<String>>, Verdict) {
    let mut ran: Vec<Vec<String>> = Vec::new();
    ran.push(Tmux::list_sessions());
    let mut verdict = begin(Tmux::has_session(name, listing));
    loop {
        let step = match verdict {
            Verdict::Run(step) => step,
            done => return (ran, done),
        };
        let result = match step {
            Step::Create => {
                let args = Tmux::new_session(name);
                let exec = captured(&args);
                ran.push(args);
                Tmux::command(exec).map(|_| ())
            }
            Step::Split => {
                let args = Tmux::split_vertical();
                let exec = captured(&args);
                ran.push(args);
                Tmux::command(exec).map(|_| ())
            }
            Step::Attach => {
                let args = Tmux::attach_session(name);
                let how = attach(&args);
                ran.push(args);
                Tmux::attached(how)
            }
        };
        verdict = proceed(step, result);
    }
}

fn ok_run(_: &[String]) -> Execution {
    Execution::Finished(CommandOutcome { code: Some(0), stdout: Vec::new(), stderr: Vec::new() })
}

fn failed(stderr: &str) -> Execution {
    Execution::Finished(CommandOutcome {
        code: Some(1),
        stdout: Vec::new(),
        stderr: stderr.as_bytes().to_vec(),
    })
}

fn words(ran: &[Vec<String>]) -> Vec<String> {
    ran.iter().map(|args| args.join(" ")).collect()
}

#[test]
fn no_server_running_creates_splits_and_attaches() {
    let listing = failed("no server running on /tmp/tmux-1000/default\n");
    let (ran, verdict) = drive("work", listing, &ok_run, &|_| Attachment::Exited(Some(0)));
    assert_eq!(
        words(&ran),
        vec![
            "list-sessions -F #{session_name}",
            "new-session -d -s work",
            "split-window -v",
            "attach-session -twork",
        ]
    );
    assert!(matches!(verdict, Verdict::Finish));
    assert_eq!(verdict.exit_code(), Some(0));
}

#[test]
fn missing_socket_counts_as_no_session() {
    let listing = failed("error connecting to /tmp/x (No such file or directory)\n");
    let (ran, verdict) = drive("work", listing, &ok_run, &|_| Attachment::Exited(Some(0)));
    assert_eq!(ran.len(), 4);
    assert_eq!(verdict.exit_code(), Some(0));
}

#[test]
fn existing_session_is_attached_directly() {
    let listing = Execution::Finished(CommandOutcome {
        code: Some(0),
        stdout: b"play\nwork\n".to_vec(),
        stderr: Vec::new(),
    });
    let (ran, verdict) = drive("work", listing, &ok_run, &|_| Attachment::Exited(Some(0)));
    assert_eq!(words(&ran), vec!["list-sessions -F #{session_name}", "attach-session -twork"]);
    assert_eq!(verdict.exit_code(), Some(0));
}

#[test]
fn session_with_longer_name_does_not_count() {
    let listing = Execution::Finished(CommandOutcome {
        code: Some(0),
        stdout: b"work\n".to_vec(),
        stderr: Vec::new(),
    });
    let (ran, verdict) = drive("wor", listing, &ok_run, &|_| Attachment::Exited(Some(0)));
    assert_eq!(
        words(&ran),
        vec![
            "list-sessions -F #{session_name}",
            "new-session -d -s wor",
            "split-window -v",
            "attach-session -twor",
        ]
    );
    assert_eq!(verdict.exit_code(), Some(0));
}

#[test]
fn name_with_space_is_created_and_attached_as_one_name() {
    let listing = failed("no server running");
    let (ran, verdict) = drive("my work", listing, &ok_run, &|_| Attachment::Exited(Some(0)));
    assert_eq!(ran[1], vec!["new-session", "-d", "-s", "my work"]);
    assert_eq!(ran[3], vec!["attach-session", "-tmy work"]);
    assert_eq!(verdict.exit_code(), Some(0));
}

#[test]
fn name_with_open_quote_is_no_failure() {
    let listing = failed("no server running");
    let (ran, verdict) = drive("a\"b", listing, &ok_run, &|_| Attachment::Exited(Some(0)));
    assert_eq!(ran[1], vec!["new-session", "-d", "-s", "a\"b"]);
    assert_eq!(ran[3], vec!["attach-session", "-ta\"b"]);
    assert_eq!(verdict.exit_code(), Some(0));
}

#[test]
fn detach_with_nonzero_code_still_exits_zero() {
    let listing = failed("no server running");
    let (_, verdict) = drive("work", listing, &ok_run, &|_| Attachment::Exited(Some(1)));
    assert_eq!(verdict.exit_code(), Some(0));
}

#[test]
fn binary_missing_fails_with_exit_code_one() {
    let spawn = |_: &[String]| Execution::SpawnFailed("No such file or directory (os error 2)".into());
    let listing = spawn(&[]);
    let (ran, verdict) = drive("work", listing, &spawn, &|_| Attachment::NotSpawned);
    assert_eq!(words(&ran), vec!["list-sessions -F #{session_name}", "new-session -d -s work"]);
    assert_eq!(verdict.exit_code(), Some(1));
    match verdict {
        Verdict::Fail(line) => assert_eq!(line, "socket file not found"),
        other => panic!("unexpected {:?}", other),
    }
}

#[test]
fn attach_that_cannot_start_fails_with_exit_code_one() {
    let listing = Execution::Finished(CommandOutcome {
        code: Some(0),
        stdout: b"work\n".to_vec(),
        stderr: Vec::new(),
    });
    let (ran, verdict) = drive("work", listing, &ok_run, &|_| Attachment::NotSpawned);
    assert_eq!(ran.len(), 2);
    assert_eq!(verdict.exit_code(), Some(1));
    match verdict {
        Verdict::Fail(line) => assert_eq!(line, "tmux unable to start"),
        other => panic!("unexpected {:?}", other),
    }
}

#[test]
fn unknown_failure_of_the_listing_is_reported() {
    let listing = failed("protocol version mismatch\n");
    let (ran, verdict) = drive("work", listing, &ok_run, &|_| Attachment::Exited(Some(0)));
    assert_eq!(ran.len(), 1);
    match verdict {
        Verdict::Fail(line) => assert_eq!(line, "protocol version mismatch\n"),
        other => panic!("unexpected {:?}", other),
    }
}

#[test]
fn failed_create_stops_before_the_split() {
    let create_fails = |args: &[String]| {
        if args[0] == "new-session" {
            failed("duplicate session: work\n")
        } else {
            ok_run(args)
        }
    };
    let (ran, verdict) =
        drive("work", failed("no server running"), &create_fails, &|_| Attachment::Exited(Some(0)));
    assert_eq!(ran.len(), 2);
    assert_eq!(verdict.exit_code(), Some(1));
}

#[test]
fn absence_after_the_look_is_a_failure() {
    let split_fails = |args: &[String]| {
        if args[0] == "split-window" {
            failed("no server running")
        } else {
            ok_run(args)
        }
    };
    let (ran, verdict) =
        drive("work", failed("no server running"), &split_fails, &|_| Attachment::Exited(Some(0)));
    assert_eq!(ran.len(), 3);
    match verdict {
        Verdict::Fail(line) => assert_eq!(line, "server not started"),
        other => panic!("unexpected {:?}", other),
    }
}

#[test]
fn steps_follow_each_other() {
    assert!(matches!(begin(Ok(true)), Verdict::Run(Step::Attach)));
    assert!(matches!(begin(Ok(false)), Verdict::Run(Step::Create)));
    assert!(matches!(proceed(Step::Create, Ok(())), Verdict::Run(Step::Split)));
    assert!(matches!(proceed(Step::Split, Ok(())), Verdict::Run(Step::Attach)));
    assert!(matches!(proceed(Step::Attach, Ok(())), Verdict::Finish));
    assert_eq!(Verdict::Run(Step::Split).exit_code(), None);
}
