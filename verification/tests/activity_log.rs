use luoli::config::MonitorConfig;
use luoli::monitor::{
    output_preview, ActivityMonitor, ActivityRecord, ActivityStatus, ActivityType, ExportFormat,
    MonitorError, RotationStep, MAX_RECORDS,
};

fn create_test_config() -> MonitorConfig {
    MonitorConfig {
        enabled: true,
        log_file: "/tmp/luoli-test/test.log".to_string(),
        max_log_size: 1024 * 1024,
        log_rotation: 3,
        capture_output: true,
        capture_env: false,
    }
}

fn record(t: ActivityType, command: &str, args: &[&str]) -> ActivityRecord {
    ActivityRecord::new(
        t,
        "test_user".to_string(),
        command.to_string(),
        args.iter().map(|a| a.to_string()).collect(),
        "/tmp".to_string(),
    )
    .unwrap_or_else(|| panic!("the clock and the random source work here"))
}

#[test]
fn test_log_activity() {
    let config = create_test_config();
    let mut monitor = ActivityMonitor::new(config);

    let record = ActivityRecord::new(
        ActivityType::CommandExecution,
        "test_user".to_string(),
        "ls".to_string(),
        vec!["-la".to_string()],
        "/tmp".to_string(),
    )
    .unwrap_or_else(|| panic!("the clock and the random source work here"))
    .with_status(ActivityStatus::Success);

    assert!(monitor.log_activity(record));

    let records = monitor.get_recent_records(10);
    assert_eq!(records.len(), 1);
    assert_eq!(records[0].command, "ls");
}

#[test]
fn new_record_shape() {
    let r = record(ActivityType::ApiCall, "GET x", &[]);
    assert_eq!(r.id.len(), 36);
    for (i, c) in r.id.chars().enumerate() {
        if i == 8 || i == 13 || i == 18 || i == 23 {
            assert_eq!(c, '-');
        } else {
            assert!(c.is_ascii_hexdigit() && !c.is_ascii_uppercase());
        }
    }
    assert_eq!(r.id.chars().nth(14), Some('4'));
    assert!(r.timestamp.secs > 1_600_000_000);
    assert!(r.timestamp.nanos < 1_000_000_000);
    assert!(matches!(r.status, ActivityStatus::Pending));
    assert_eq!(r.metadata, "{}");
    assert_eq!(r.working_dir, "/tmp");
    let other = record(ActivityType::ApiCall, "GET x", &[]);
    assert_ne!(r.id, other.id);
}

#[test]
fn builders_set_fields() {
    let r = record(ActivityType::CommandExecution, "ls", &[])
        .with_output("out".to_string())
        .with_duration(12)
        .with_env_vars(vec![("A".to_string(), "1".to_string())])
        .with_metadata("{\"k\":1}".to_string())
        .with_status(ActivityStatus::Failed("bad".to_string()));
    assert_eq!(r.output.as_deref(), Some("out"));
    assert_eq!(r.duration_ms, Some(12));
    assert_eq!(r.env_vars.as_ref().map(|v| v.len()), Some(1));
    assert_eq!(r.metadata, "{\"k\":1}");
    assert_eq!(r.status.to_string(), "失败: bad");
}

#[test]
fn labels() {
    assert_eq!(ActivityType::CommandExecution.to_string(), "命令执行");
    assert_eq!(ActivityType::SecurityViolation.to_string(), "安全违规");
    assert_eq!(ActivityStatus::Success.to_string(), "成功");
    assert_eq!(ActivityStatus::Blocked("x".to_string()).to_string(), "阻止: x");
    assert_eq!(ActivityStatus::Pending.to_string(), "进行中");
}

#[test]
fn window_keeps_the_latest() {
    let mut m = ActivityMonitor::new(create_test_config());
    for i in 0..(MAX_RECORDS + 5) {
        m.log_activity(record(ActivityType::CommandExecution, &format!("c{}", i), &[]));
    }
    assert_eq!(m.len(), MAX_RECORDS);
    let recent = m.get_recent_records(2);
    assert_eq!(recent[0].command, format!("c{}", MAX_RECORDS + 4));
    assert_eq!(recent[1].command, format!("c{}", MAX_RECORDS + 3));
    let all = m.get_recent_records(usize::MAX);
    assert_eq!(all.len(), MAX_RECORDS);
    assert_eq!(all[MAX_RECORDS - 1].command, "c5");
}

#[test]
fn disabled_log_is_not_written() {
    let mut c = create_test_config();
    c.enabled = false;
    let mut m = ActivityMonitor::new(c);
    assert!(!m.log_activity(record(ActivityType::FileAccess, "x", &[])));
    assert_eq!(m.len(), 1);
}

#[test]
fn search_and_statistics() {
    let mut m = ActivityMonitor::new(create_test_config());
    m.log_activity(record(ActivityType::CommandExecution, "ls", &["-la"]).with_status(ActivityStatus::Success));
    m.log_activity(record(ActivityType::CommandExecution, "cat", &["notes.txt"]).with_status(ActivityStatus::Failed("no".to_string())));
    m.log_activity(record(ActivityType::SecurityViolation, "rm", &["-rf", "/"]).with_status(ActivityStatus::Blocked("deny".to_string())));
    m.log_activity(record(ActivityType::ApiCall, "GET https://x", &[]).with_status(ActivityStatus::Success));
    m.log_activity(record(ActivityType::ToolInvocation, "shell", &[]));

    assert_eq!(m.search_records(None, None, None).len(), 5);
    let cmds = m.search_records(Some(ActivityType::CommandExecution), None, None);
    assert_eq!(cmds.len(), 2);
    assert_eq!(cmds[0].command, "ls");
    let failed = m.search_records(None, Some(ActivityStatus::Failed(String::new())), None);
    assert_eq!(failed.len(), 1);
    assert_eq!(failed[0].command, "cat");
    let by_arg = m.search_records(None, None, Some("note".to_string()));
    assert_eq!(by_arg.len(), 1);
    let by_cmd = m.search_records(None, Some(ActivityStatus::Success), Some("https".to_string()));
    assert_eq!(by_cmd.len(), 1);
    assert_eq!(by_cmd[0].command, "GET https://x");

    let s = m.get_statistics();
    assert_eq!(s.total_records, 5);
    assert_eq!(s.success, 2);
    assert_eq!(s.failed, 1);
    assert_eq!(s.blocked, 1);
    assert_eq!(s.command, 2);
    assert_eq!(s.tool, 1);
    assert_eq!(s.api, 1);
    assert_eq!(s.violation, 1);
}

#[test]
fn export_formats() {
    assert!(matches!(ExportFormat::parse("json"), Ok(ExportFormat::Json)));
    assert!(matches!(ExportFormat::parse("csv"), Ok(ExportFormat::Csv)));
    match ExportFormat::parse("xml") {
        Err(MonitorError::UnsupportedFormat { format }) => assert_eq!(format, "xml"),
        _ => panic!("unsupported"),
    }
}

#[test]
fn rotation_plan_steps() {
    let m = ActivityMonitor::new(create_test_config());
    assert!(!m.should_rotate(1024 * 1024 - 1));
    assert!(m.should_rotate(1024 * 1024));
    assert!(m.should_rotate(1024 * 1024 + 1));
    let steps = m.rotation_plan();
    let p = "/tmp/luoli-test/test.log";
    assert_eq!(steps.len(), 4);
    match &steps[0] {
        RotationStep::RemoveIfExists { path } => assert_eq!(path, &format!("{}.3.gz", p)),
        _ => panic!("remove first"),
    }
    match &steps[1] {
        RotationStep::RenameIfExists { from, to } => {
            assert_eq!(from, &format!("{}.2", p));
            assert_eq!(to, &format!("{}.3", p));
        }
        _ => panic!("shift"),
    }
    match &steps[2] {
        RotationStep::RenameIfExists { from, to } => {
            assert_eq!(from, &format!("{}.1", p));
            assert_eq!(to, &format!("{}.2", p));
        }
        _ => panic!("shift"),
    }
    match &steps[3] {
        RotationStep::Rename { from, to } => {
            assert_eq!(from, p);
            assert_eq!(to, &format!("{}.1", p));
        }
        _ => panic!("move the log"),
    }
}

#[test]
fn rotation_without_backups() {
    let mut c = create_test_config();
    c.log_rotation = 0;
    let m = ActivityMonitor::new(c);
    let steps = m.rotation_plan();
    assert_eq!(steps.len(), 2);
}

#[test]
fn previews() {
    let (p, more) = output_preview("hello", 200);
    assert_eq!(p, "hello");
    assert!(!more);
    let long: String = "é".repeat(150);
    let (p, more) = output_preview(&long, 200);
    assert_eq!(p.chars().count(), 150);
    assert!(more);
    let (p, _) = output_preview(&"a".repeat(250), 200);
    assert_eq!(p.len(), 200);
}
