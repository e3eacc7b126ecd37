use markemptydirs::application::create_appinfo;
use markemptydirs::commands::context::{Config, DefaultContext};
use markemptydirs::fs::access::{
    create_file_system_access, DryRunFileSystemAccess, FileSystemAccess,
};
use markemptydirs::fscrawling::{DirectoryReader, PathList, PathStat, VisitData};
use markemptydirs::notification::{
    render_message, LogLevel, MessageLength, Notification, StdoutNotifier,
};
use markemptydirs::path::DirPath;

fn abs(parts: &[&str]) -> DirPath {
    DirPath {
        absolute: true,
        components: parts.iter().map(|s| s.to_string()).collect(),
    }
}

struct NullReader;

impl DirectoryReader for NullReader {
    fn stat(&self, _dir: &DirPath) -> PathStat {
        PathStat { is_dir: false, is_symlink: false }
    }

    fn visit_all(&self, dirs: &PathList) -> Vec<Option<VisitData>> {
        dirs.iter().map(|_| None).collect()
    }
}

#[test]
fn severity_orders_levels() {
    assert!(LogLevel::Error.severity() < LogLevel::Warn.severity());
    assert!(LogLevel::Warn.severity() < LogLevel::Info.severity());
    assert!(LogLevel::Info.severity() < LogLevel::Debug.severity());
    assert!(LogLevel::Debug.severity() < LogLevel::Trace.severity());
    assert!(LogLevel::Warn.enables(LogLevel::Error));
    assert!(!LogLevel::Warn.enables(LogLevel::Info));
}

#[test]
fn stdout_notifier_defaults_to_long_messages() {
    let sink = StdoutNotifier::create(LogLevel::Debug);
    assert_eq!(LogLevel::Debug, sink.log_level);
    assert_eq!(MessageLength::Long, sink.message_length);
}

#[test]
fn render_message_joins_the_parts() {
    let n = Notification::new(
        LogLevel::Info,
        "create_marker",
        "Marker created",
        "/work/a/.emptydir",
        None,
    );
    assert_eq!(
        "create_marker: Marker created: /work/a/.emptydir",
        render_message(&n, MessageLength::Long)
    );
    assert_eq!(
        "create_marker: Marker created",
        render_message(&n, MessageLength::Short)
    );

    let failure = Notification::new(
        LogLevel::Error,
        "delete_marker",
        "Marker deletion failed",
        "/work/a",
        Some(&markemptydirs::Error::Io("permission denied".to_string())),
    );
    assert_eq!(
        "delete_marker: Marker deletion failed: /work/a: permission denied",
        render_message(&failure, MessageLength::Long)
    );
}

fn dry_run_context() -> DefaultContext<NullReader, DryRunFileSystemAccess, StdoutNotifier> {
    DefaultContext::new(
        create_appinfo(),
        Config::new(),
        abs(&["work"]),
        true,
        NullReader,
        DryRunFileSystemAccess {},
        StdoutNotifier::create(LogLevel::Error),
    )
}

fn succeeding_real_context() -> DefaultContext<NullReader, DryRunFileSystemAccess, StdoutNotifier> {
    // A real (non-dry) run whose mutations all succeed: the no-op access
    // stands in for a disk that accepts every operation.
    DefaultContext::new(
        create_appinfo(),
        Config::new(),
        abs(&["work"]),
        false,
        NullReader,
        DryRunFileSystemAccess {},
        StdoutNotifier::create(LogLevel::Error),
    )
}

#[test]
fn dry_run_reports_the_same_events_as_a_successful_real_run() {
    let dry = dry_run_context();
    let real = succeeding_real_context();
    let dir = abs(&["work", "a"]);
    let text = String::new();

    let dry_created = dry.apply_create_marker(&dir, &text);
    let real_created = real.apply_create_marker(&dir, &text);
    assert_eq!(LogLevel::Info, dry_created.level);
    assert_eq!("create_marker", dry_created.target);
    assert_eq!("Marker created", dry_created.info);
    assert_eq!("/work/a/.emptydir", dry_created.data);
    assert_eq!(None, dry_created.error);
    assert_eq!(real_created.level, dry_created.level);
    assert_eq!(real_created.target, dry_created.target);
    assert_eq!(real_created.info, dry_created.info);
    assert_eq!(real_created.data, dry_created.data);
    assert_eq!(real_created.error, dry_created.error);

    let dry_deleted = dry.apply_delete_marker(&dir);
    let real_deleted = real.apply_delete_marker(&dir);
    assert_eq!(LogLevel::Info, dry_deleted.level);
    assert_eq!("delete_marker", dry_deleted.target);
    assert_eq!("Marker deleted", dry_deleted.info);
    assert_eq!("/work/a/.emptydir", dry_deleted.data);
    assert_eq!(None, dry_deleted.error);
    assert_eq!(real_deleted.level, dry_deleted.level);
    assert_eq!(real_deleted.data, dry_deleted.data);
}

#[test]
fn marker_file_path_extends_the_absolute_directory() {
    let ctx = dry_run_context();
    assert_eq!(
        abs(&["work", "a", ".emptydir"]),
        ctx.get_marker_file_path(&abs(&["work", "a"]))
    );
    assert_eq!(
        abs(&["work", "rel", ".emptydir"]),
        ctx.get_marker_file_path(&DirPath {
            absolute: false,
            components: vec!["rel".to_string()],
        })
    );
}

#[test]
fn selection_by_dry_run_flag() {
    let dry = create_file_system_access(DryRunFileSystemAccess {}, true);
    assert!(dry.create_file(&abs(&["x"]), &String::new()).is_ok());
    assert!(dry.remove_file(&abs(&["x"])).is_ok());
    assert!(dry.remove_dir_all(&abs(&["x"])).is_ok());
}
