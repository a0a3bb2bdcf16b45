use backup_tool::naming::{base_name, first_probe, next_probe_step, target_name_for, FtpAction, ProbeStep, MAX_PROBES};
use backup_tool::settings::Ftp;

/// Runs the name search against a probe that reports `found(i)` for the name
/// of index `i`; returns the probed names and the final step.
fn search(base: &str, found: impl Fn(u64) -> bool) -> (Vec<String>, ProbeStep) {
    let mut probed = Vec::new();
    let mut step = first_probe();
    loop {
        match step {
            ProbeStep::Probe(i) => {
                probed.push(target_name_for(base, i));
                step = next_probe_step(i, found(i));
            }
            other => return (probed, other),
        }
    }
}

#[test]
fn target_names() {
    assert_eq!(target_name_for("base", 0), "base.zip");
    assert_eq!(target_name_for("base", 1), "base-1.zip");
    assert_eq!(target_name_for("base", 98), "base-98.zip");
    assert_eq!(target_name_for("", 10), "-10.zip");
}

#[test]
fn base_name_joins_stem_and_stamp() {
    assert_eq!(base_name("backup", "2024-01-02"), "backup-2024-01-02");
}

#[test]
fn first_free_name_is_taken() {
    let (probed, end) = search("base", |i| i < 98);
    assert_eq!(end, ProbeStep::Upload(98));
    assert_eq!(probed.len(), 99);
    assert_eq!(probed[0], "base.zip");
    for (i, name) in probed.iter().enumerate().skip(1) {
        assert_eq!(*name, format!("base-{}.zip", i));
    }
    assert_eq!(target_name_for("base", 98), "base-98.zip");
}

#[test]
fn free_first_name_is_used_at_once() {
    let (probed, end) = search("base", |_| false);
    assert_eq!(end, ProbeStep::Upload(0));
    assert_eq!(probed, vec!["base.zip".to_string()]);
}

#[test]
fn search_gives_up_after_max_probes() {
    let (probed, end) = search("base", |_| true);
    assert_eq!(end, ProbeStep::TooManyCollisions);
    assert_eq!(probed.len(), 99);
    assert_eq!(MAX_PROBES, 99);
    assert_eq!(probed[98], "base-98.zip");
}

#[test]
fn single_steps() {
    assert_eq!(next_probe_step(0, false), ProbeStep::Upload(0));
    assert_eq!(next_probe_step(0, true), ProbeStep::Probe(1));
    assert_eq!(next_probe_step(97, true), ProbeStep::Probe(98));
    assert_eq!(next_probe_step(98, true), ProbeStep::TooManyCollisions);
    assert_eq!(next_probe_step(98, false), ProbeStep::Upload(98));
}

fn ftp(pattern: &str) -> Ftp {
    Ftp {
        host: "localhost".to_string(),
        port: 21,
        user: "user".to_string(),
        pass: "pass".to_string(),
        path: "/backups".to_string(),
        backup_file_name: "backup".to_string(),
        backup_suffix_format: pattern.to_string(),
    }
}

#[test]
fn generated_name_has_stem_and_stamp() {
    let settings = ftp("%Y");
    let action = FtpAction::new(&settings);
    let name = action.generate_file_name().expect("valid pattern");
    assert!(name.starts_with("backup-"));
    let year = &name["backup-".len()..];
    assert_eq!(year.len(), 4);
    assert!(year.chars().all(|c| c.is_ascii_digit()));
}

#[test]
fn generated_name_with_bad_pattern_fails() {
    let settings = ftp("%Q");
    let action = FtpAction::new(&settings);
    let err = action.generate_file_name().unwrap_err();
    assert_eq!(err.pattern, "%Q");
}
