use l4t_playpen::cache::{Cache, CACHE_CAPACITY};
use l4t_playpen::request::{LaunchRequest, TIMEOUT_SECS};
use l4t_playpen::status::{append_timeout_marker, ExecError, ExecutionResult, ExitStatus};

fn ok_run(output: &[u8]) -> Result<ExecutionResult, ExecError> {
    Ok(ExecutionResult { exit_status: ExitStatus::Exited(0), output: output.to_vec(), timed_out: false })
}

#[test]
fn exit_status_success_only_for_code_zero() {
    assert!(ExitStatus::Exited(0).success());
    assert!(!ExitStatus::Exited(1).success());
    assert!(!ExitStatus::Exited(-1).success());
    assert!(!ExitStatus::Signaled(0).success());
    assert!(!ExitStatus::Signaled(9).success());
}

#[test]
fn result_success_needs_status_and_no_timeout() {
    let good = ExecutionResult { exit_status: ExitStatus::Exited(0), output: vec![], timed_out: false };
    let late = ExecutionResult { exit_status: ExitStatus::Exited(0), output: vec![], timed_out: true };
    let bad = ExecutionResult { exit_status: ExitStatus::Exited(2), output: vec![], timed_out: false };
    assert!(good.success());
    assert!(!late.success());
    assert!(!bad.success());
}

#[test]
fn result_clone_keeps_every_field() {
    let run = ExecutionResult { exit_status: ExitStatus::Signaled(9), output: vec![1, 2, 255], timed_out: true };
    let copy = run.clone();
    assert_eq!(copy.exit_status, ExitStatus::Signaled(9));
    assert_eq!(copy.output, vec![1, 2, 255]);
    assert!(copy.timed_out);
}

#[test]
fn timeout_marker_is_the_exact_text() {
    let mut output = b"partial".to_vec();
    append_timeout_marker(&mut output);
    assert_eq!(output, b"partial\ntimeout triggered!".to_vec());
    let mut empty = Vec::new();
    append_timeout_marker(&mut empty);
    assert_eq!(empty, b"\ntimeout triggered!".to_vec());
    assert_eq!(empty.len(), 19);
}

#[test]
fn launch_request_holds_command_profile_input_and_limit() {
    let request = LaunchRequest::new("/usr/local/bin/evaluate.sh", "fn main() { \u{e9} }");
    assert_eq!(request.command, "/usr/local/bin/evaluate.sh");
    assert_eq!(request.profile, "l4t-playpen");
    assert_eq!(request.input, "fn main() { \u{e9} }".as_bytes().to_vec());
    assert_eq!(request.timeout_secs, 5);
    assert_eq!(TIMEOUT_SECS, 5);
}

#[test]
fn new_cache_is_empty() {
    let mut cache = Cache::new();
    assert_eq!(cache.len(), 0);
    assert!(cache.lookup("echo-ok", "fn main() {}").is_none());
    assert_eq!(CACHE_CAPACITY, 256);
}

#[test]
fn second_call_is_answered_without_a_launch() {
    let mut cache = Cache::new();
    let mut launches = 0;
    let first = cache
        .exec("echo-ok", "fn main() {}".to_string(), |_request| {
            launches += 1;
            ok_run(b"")
        })
        .unwrap();
    assert_eq!(first.exit_status, ExitStatus::Exited(0));
    assert_eq!(first.output, Vec::<u8>::new());
    assert!(!first.timed_out);
    let second = cache
        .exec("echo-ok", "fn main() {}".to_string(), |_request| {
            launches += 1;
            ok_run(b"something else")
        })
        .unwrap();
    assert_eq!(launches, 1);
    assert_eq!(second.exit_status, first.exit_status);
    assert_eq!(second.output, first.output);
    assert!(!second.timed_out);
    assert_eq!(cache.len(), 1);
}

#[test]
fn exec_hands_the_request_to_the_runner() {
    let mut cache = Cache::new();
    let mut seen = None;
    let result = cache.exec("/usr/local/bin/compile.sh", "code".to_string(), |request| {
        seen = Some((request.command, request.profile, request.input, request.timeout_secs));
        ok_run(b"out")
    });
    assert_eq!(result.unwrap().output, b"out".to_vec());
    assert_eq!(
        seen,
        Some(("/usr/local/bin/compile.sh".to_string(), "l4t-playpen".to_string(), b"code".to_vec(), 5))
    );
}

#[test]
fn failing_status_is_run_again() {
    let mut cache = Cache::new();
    let mut launches = 0;
    for _ in 0..3 {
        let result = cache
            .exec("cmd", "bad code".to_string(), |_request| {
                launches += 1;
                Ok(ExecutionResult { exit_status: ExitStatus::Exited(101), output: b"error".to_vec(), timed_out: false })
            })
            .unwrap();
        assert_eq!(result.exit_status, ExitStatus::Exited(101));
        assert_eq!(result.output, b"error".to_vec());
        assert!(!result.success());
    }
    assert_eq!(launches, 3);
    assert_eq!(cache.len(), 0);
}

#[test]
fn signal_is_not_cached() {
    let mut cache = Cache::new();
    let outcome = Ok(ExecutionResult { exit_status: ExitStatus::Signaled(0), output: vec![], timed_out: false });
    let result = cache.record("cmd", "x".to_string(), outcome).unwrap();
    assert_eq!(result.exit_status, ExitStatus::Signaled(0));
    assert!(cache.lookup("cmd", "x").is_none());
}

#[test]
fn timeout_is_marked_and_run_again() {
    let mut cache = Cache::new();
    let mut launches = 0;
    for _ in 0..3 {
        let result = cache
            .exec("sleep-forever", "loop{}".to_string(), |_request| {
                launches += 1;
                Ok(ExecutionResult { exit_status: ExitStatus::Signaled(9), output: b"so far".to_vec(), timed_out: true })
            })
            .unwrap();
        assert!(result.timed_out);
        assert!(!result.success());
        assert_eq!(result.output, b"so far\ntimeout triggered!".to_vec());
        assert!(result.output.ends_with(b"\ntimeout triggered!"));
    }
    assert_eq!(launches, 3);
    assert_eq!(cache.len(), 0);
}

#[test]
fn timeout_with_zero_status_is_still_a_failure() {
    let mut cache = Cache::new();
    let outcome = Ok(ExecutionResult { exit_status: ExitStatus::Exited(0), output: b"x".to_vec(), timed_out: true });
    let result = cache.record("cmd", "in".to_string(), outcome).unwrap();
    assert!(result.timed_out);
    assert_eq!(result.exit_status, ExitStatus::Exited(0));
    assert_eq!(result.output, b"x\ntimeout triggered!".to_vec());
    assert!(!result.success());
    assert!(cache.lookup("cmd", "in").is_none());
    assert_eq!(cache.len(), 0);
}

#[test]
fn setup_error_is_handed_back_and_not_cached() {
    let mut cache = Cache::new();
    let mut launches = 0;
    for _ in 0..2 {
        let result = cache.exec("bad-profile", "fn main() {}".to_string(), |_request| {
            launches += 1;
            Err(ExecError::SandboxSetup)
        });
        assert_eq!(result.err(), Some(ExecError::SandboxSetup));
    }
    assert_eq!(launches, 2);
    assert_eq!(cache.len(), 0);
}

#[test]
fn delivery_error_is_handed_back_and_not_cached() {
    let mut cache = Cache::new();
    let result = cache.record("cmd", "in".to_string(), Err(ExecError::IoDelivery));
    assert_eq!(result.err(), Some(ExecError::IoDelivery));
    assert!(cache.lookup("cmd", "in").is_none());
}

#[test]
fn same_input_under_two_commands_is_two_entries() {
    let mut cache = Cache::new();
    cache.record("evaluate", "fn main() {}".to_string(), ok_run(b"ran")).unwrap();
    cache.record("compile", "fn main() {}".to_string(), ok_run(b"asm")).unwrap();
    assert_eq!(cache.len(), 2);
    assert_eq!(cache.lookup("evaluate", "fn main() {}").unwrap().output, b"ran".to_vec());
    assert_eq!(cache.lookup("compile", "fn main() {}").unwrap().output, b"asm".to_vec());
}

#[test]
fn keys_are_compared_as_they_are() {
    let mut cache = Cache::new();
    cache.record("cmd", "fn main() {}".to_string(), ok_run(b"a")).unwrap();
    assert!(cache.lookup("cmd", "fn main() {} ").is_none());
    assert!(cache.lookup("cmd", "fn main(){}").is_none());
    assert!(cache.lookup("cmd ", "fn main() {}").is_none());
    assert!(cache.lookup("CMD", "fn main() {}").is_none());
    assert!(cache.lookup("cmd", "fn main() {}").is_some());
}

#[test]
fn binary_output_is_kept_byte_for_byte() {
    let bytes: Vec<u8> = vec![0xff, 0x00, 0xfe, b'H', b'i', 0x80, b'\n', 0xc3];
    let mut cache = Cache::new();
    let first = cache.record("cmd", "in".to_string(), ok_run(&bytes)).unwrap();
    assert_eq!(first.output, bytes);
    let again = cache.lookup("cmd", "in").unwrap();
    assert_eq!(again.output, bytes);
    assert_eq!(again.exit_status, ExitStatus::Exited(0));
    assert!(!again.timed_out);
}

#[test]
fn storing_a_key_again_replaces_its_value() {
    let mut cache = Cache::new();
    cache.record("cmd", "in".to_string(), ok_run(b"old")).unwrap();
    cache.record("cmd", "in".to_string(), ok_run(b"new")).unwrap();
    assert_eq!(cache.len(), 1);
    assert_eq!(cache.lookup("cmd", "in").unwrap().output, b"new".to_vec());
}

#[test]
fn table_never_exceeds_its_capacity() {
    let mut cache = Cache::new();
    for i in 0..300 {
        cache.record("cmd", format!("input {}", i), ok_run(format!("{}", i).as_bytes())).unwrap();
        assert!(cache.len() <= 256);
        assert_eq!(cache.len(), if i < 256 { i + 1 } else { 256 });
    }
}

#[test]
fn least_recently_used_key_is_evicted_first() {
    let mut cache = Cache::new();
    for i in 0..256 {
        cache.record("cmd", format!("input {}", i), ok_run(format!("{}", i).as_bytes())).unwrap();
    }
    assert_eq!(cache.len(), 256);
    cache.record("cmd", "input 256".to_string(), ok_run(b"256")).unwrap();
    assert_eq!(cache.len(), 256);
    assert!(cache.lookup("cmd", "input 0").is_none());
    assert_eq!(cache.lookup("cmd", "input 1").unwrap().output, b"1".to_vec());
    assert_eq!(cache.lookup("cmd", "input 256").unwrap().output, b"256".to_vec());
}

#[test]
fn lookup_counts_as_a_use() {
    let mut cache = Cache::new();
    for i in 0..256 {
        cache.record("cmd", format!("input {}", i), ok_run(format!("{}", i).as_bytes())).unwrap();
    }
    assert!(cache.lookup("cmd", "input 0").is_some());
    cache.record("cmd", "input 256".to_string(), ok_run(b"256")).unwrap();
    assert_eq!(cache.lookup("cmd", "input 0").unwrap().output, b"0".to_vec());
    assert!(cache.lookup("cmd", "input 1").is_none());
    assert_eq!(cache.len(), 256);
}

#[test]
fn failed_lookup_changes_nothing() {
    let mut cache = Cache::new();
    for i in 0..256 {
        cache.record("cmd", format!("input {}", i), ok_run(b"x")).unwrap();
    }
    assert!(cache.lookup("cmd", "absent").is_none());
    cache.record("cmd", "new".to_string(), ok_run(b"y")).unwrap();
    assert!(cache.lookup("cmd", "input 0").is_none());
    assert!(cache.lookup("cmd", "input 1").is_some());
}

#[test]
fn lookup_then_record_is_what_exec_does() {
    let mut cache = Cache::new();
    assert!(cache.lookup("cmd", "in").is_none());
    let shown = cache.record("cmd", "in".to_string(), ok_run(b"out")).unwrap();
    assert_eq!(shown.output, b"out".to_vec());
    let mut launches = 0;
    let again = cache
        .exec("cmd", "in".to_string(), |_request| {
            launches += 1;
            ok_run(b"other")
        })
        .unwrap();
    assert_eq!(launches, 0);
    assert_eq!(again.output, b"out".to_vec());
}
