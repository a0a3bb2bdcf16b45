use backup_tool::pipeline::{isolate, notification, PipelineError, PipelineResult, Stage};
use backup_tool::settings::Notify;

fn notify(success: &[&str], error: &[&str]) -> Notify {
    Notify {
        error_address: error.iter().map(|s| s.to_string()).collect(),
        success_address: success.iter().map(|s| s.to_string()).collect(),
        smtp_host: "smtp.example.org".to_string(),
        smtp_user: "user".to_string(),
        smtp_pass: "SECRET-REDACTED".to_string(),
        smtp_port: 25,
        smtp_from: "backup@example.org".to_string(),
    }
}

#[test]
fn stages_run_in_order() {
    let s = Stage::RunCommands.advance(Ok(()));
    assert!(matches!(s, Stage::BuildArchive));
    let s = s.advance(Ok(()));
    assert!(matches!(s, Stage::Upload));
    let s = s.advance(Ok(()));
    assert!(matches!(s, Stage::Succeeded));
    assert!(matches!(s.finished(), Some(Ok(()))));
}

#[test]
fn failure_skips_remaining_stages() {
    let s = Stage::RunCommands.advance(Ok(()));
    let s = s.advance(Err(PipelineError::ArchiveFailed { cause: "disk full".to_string() }));
    match &s {
        Stage::Failed(PipelineError::ArchiveFailed { cause }) => assert_eq!(cause, "disk full"),
        _ => panic!("expected a failed stage"),
    }
    let s = s.advance(Ok(()));
    assert!(matches!(s, Stage::Failed(PipelineError::ArchiveFailed { .. })));
    assert!(matches!(s.finished(), Some(Err(PipelineError::ArchiveFailed { .. }))));
    assert!(Stage::Upload.finished().is_none());
}

#[test]
fn crash_becomes_a_failure() {
    assert!(matches!(isolate(None), Err(PipelineError::PipelineCrashed)));
    assert!(matches!(isolate(Some(Ok(()))), Ok(())));
    assert!(matches!(
        isolate(Some(Err(PipelineError::TooManyCollisions))),
        Err(PipelineError::TooManyCollisions)
    ));
    let result = PipelineResult::new(isolate(None), 2);
    assert!(!result.succeeded());
    assert_eq!(result.elapsed_secs, 2);
    assert_eq!(result.error.unwrap().message(), "Backup process crashed");
}

#[test]
fn error_messages() {
    let cases = vec![
        (PipelineError::CommandFailed { command: "/bin/x".to_string(), cause: "exit status: 2".to_string() },
         "Command '/bin/x' failed: exit status: 2"),
        (PipelineError::ArchiveFailed { cause: "io".to_string() }, "Archive failed: io"),
        (PipelineError::RemoteConnectFailed { cause: "refused".to_string() }, "Remote connection failed: refused"),
        (PipelineError::TooManyCollisions, "Too many backup files with the same name exist"),
        (PipelineError::UploadFailed { cause: "reset".to_string() }, "Upload failed: reset"),
        (PipelineError::PipelineCrashed, "Backup process crashed"),
    ];
    for (e, text) in cases {
        assert_eq!(e.message(), text);
    }
}

#[test]
fn success_report() {
    let n = notify(&["ok@example.org"], &["err@example.org"]);
    let result = PipelineResult::new(Ok(()), 3661);
    assert!(result.succeeded());
    let m = notification(&n, &result).expect("a report");
    assert_eq!(m.recipients, vec!["ok@example.org".to_string()]);
    assert_eq!(m.subject, "Backup finished");
    assert_eq!(m.body, "Backup finished\nExecution time: 01:01:01");
}

#[test]
fn failure_report() {
    let n = notify(&["ok@example.org"], &["a@example.org", "b@example.org"]);
    let result = PipelineResult::new(Err(PipelineError::UploadFailed { cause: "timeout".to_string() }), 75);
    let m = notification(&n, &result).expect("a report");
    assert_eq!(m.recipients, vec!["a@example.org".to_string(), "b@example.org".to_string()]);
    assert_eq!(m.subject, "Error backup");
    assert_eq!(m.body, "Error in backup process: Upload failed: timeout\nExecution time: 00:01:15");
}

#[test]
fn empty_recipient_list_sends_nothing() {
    let n = notify(&[], &["err@example.org"]);
    assert!(notification(&n, &PipelineResult::new(Ok(()), 1)).is_none());
    let n = notify(&["ok@example.org"], &[]);
    assert!(notification(&n, &PipelineResult::new(Err(PipelineError::PipelineCrashed), 1)).is_none());
}
