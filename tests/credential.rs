use lambda_cli::credential::{key_from_output, ApiKeySource, CommandOutput, CredentialResolver, KeyStep};
use lambda_cli::LambdaError;

fn ran(success: bool, stdout: &str, stderr: &str) -> CommandOutput {
    CommandOutput::Ran { success, stdout: stdout.to_string(), stderr: stderr.to_string() }
}

fn detail(r: Result<String, LambdaError>) -> String {
    match r {
        Err(LambdaError::ApiKeyCommandFailed(d)) => d,
        other => panic!("unexpected {:?}", other),
    }
}

#[test]
fn key_is_trimmed_output() {
    assert_eq!(key_from_output(ran(true, "  secret-key\n", "")).unwrap(), "secret-key");
}

#[test]
fn empty_or_failing_command_is_an_error() {
    assert_eq!(detail(key_from_output(ran(true, " \n\t", ""))), "Command returned empty output");
    assert_eq!(detail(key_from_output(ran(false, "x", " denied \n"))), "Command failed: denied");
    assert_eq!(
        detail(key_from_output(CommandOutput::NotStarted("No such file".to_string()))),
        "Failed to execute command: No such file"
    );
}

#[test]
fn source_selection() {
    let r = CredentialResolver::from_values(Some("direct".to_string()), Some("cmd".to_string())).unwrap();
    assert!(matches!(r.next_step(), KeyStep::Ready(k) if k == "direct"));
    let r = CredentialResolver::from_values(Some(String::new()), Some("op read x".to_string())).unwrap();
    assert!(matches!(r.next_step(), KeyStep::RunCommand(c) if c == "op read x"));
    assert!(matches!(
        CredentialResolver::from_values(None, Some(String::new())),
        Err(LambdaError::ApiKeyNotSet)
    ));
}

#[test]
fn command_runs_once_and_key_is_reused() {
    let mut r = CredentialResolver::new(ApiKeySource::Command("echo key".to_string()));
    let mut runs = 0;
    let mut keys = Vec::new();
    for _ in 0..3 {
        let key = match r.next_step() {
            KeyStep::Ready(k) => k,
            KeyStep::RunCommand(_) => {
                runs += 1;
                r.record(key_from_output(ran(true, "key\n", ""))).unwrap()
            }
        };
        keys.push(key);
    }
    assert_eq!(runs, 1);
    assert_eq!(keys, vec!["key".to_string(), "key".to_string(), "key".to_string()]);
}

#[test]
fn failed_run_is_not_cached() {
    let mut r = CredentialResolver::new(ApiKeySource::Command("false".to_string()));
    assert!(matches!(r.next_step(), KeyStep::RunCommand(_)));
    assert!(r.record(key_from_output(ran(false, "", "bad"))).is_err());
    assert!(matches!(r.next_step(), KeyStep::RunCommand(_)));
}

#[test]
fn direct_key_needs_no_run() {
    let r = CredentialResolver::direct("abc".to_string());
    assert!(matches!(r.next_step(), KeyStep::Ready(k) if k == "abc"));
    assert!(matches!(r.next_step(), KeyStep::Ready(k) if k == "abc"));
}
