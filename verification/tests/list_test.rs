use std::sync::Mutex;

use markemptydirs::application::{create_appinfo, ApplicationInfo};
use markemptydirs::commands::context::{Config, Context};
use markemptydirs::commands::list::{render_stat, sort_statistics, stat_of, List, ListStatistics};
use markemptydirs::commands::Command;
use markemptydirs::fs::helpers::get_absolute_dir;
use markemptydirs::fscrawling::{
    DirDescriptor, DirDescriptorList, DirEntryInfo, PathList,
};
use markemptydirs::notification::Notification;
use markemptydirs::path::DirPath;

fn abs(parts: &[&str]) -> DirPath {
    DirPath {
        absolute: true,
        components: parts.iter().map(|s| s.to_string()).collect(),
    }
}

fn rel(parts: &[&str]) -> DirPath {
    DirPath {
        absolute: false,
        components: parts.iter().map(|s| s.to_string()).collect(),
    }
}

fn file_entry(name: &str) -> DirEntryInfo {
    DirEntryInfo {
        name: name.to_string(),
        is_dir: false,
        is_file: true,
        is_symlink: false,
    }
}

fn leaf_with_marker(parts: &[&str]) -> DirDescriptor {
    DirDescriptor {
        dir: abs(parts),
        children: vec![file_entry(".emptydir")],
        marker_file_child_index: Some(0),
        subdir_child_indexes: vec![],
    }
}

fn row(parts: &[&str]) -> ListStatistics {
    ListStatistics {
        dir: rel(parts),
        marker_found: false,
        marker_required: true,
        child_count: 0,
        dir_count: 0,
    }
}

#[test]
fn stat_of_reports_leaf_equivalence() {
    let cwd = abs(&["work"]);
    let descriptor = leaf_with_marker(&["work", "a"]);

    let stat = stat_of(&descriptor, &cwd);

    assert!(stat.marker_found);
    assert!(stat.marker_required);
    assert_eq!(stat.marker_required, stat.dir_count == 0);
    assert_eq!(1, stat.child_count);
    assert_eq!(0, stat.dir_count);
    assert_eq!(rel(&[".", "a"]), stat.dir);
}

#[test]
fn stat_of_counts_subdirectories() {
    let cwd = abs(&["work"]);
    let descriptor = DirDescriptor {
        dir: abs(&["work", "b"]),
        children: vec![
            DirEntryInfo {
                name: "c".to_string(),
                is_dir: true,
                is_file: false,
                is_symlink: false,
            },
            file_entry("note.txt"),
        ],
        marker_file_child_index: None,
        subdir_child_indexes: vec![0],
    };

    let stat = stat_of(&descriptor, &cwd);

    assert!(!stat.marker_found);
    assert!(!stat.marker_required);
    assert_eq!(stat.marker_required, stat.dir_count == 0);
    assert_eq!(2, stat.child_count);
    assert_eq!(1, stat.dir_count);
}

#[test]
fn render_stat_writes_one_exact_line() {
    let stat = ListStatistics {
        dir: rel(&[".", "a"]),
        marker_found: true,
        marker_required: false,
        child_count: 12,
        dir_count: 3,
    };
    assert_eq!(
        "./a: marker found: yes, marker required: no, entries: 12, directories: 3",
        render_stat(&stat)
    );
}

#[test]
fn sort_orders_rows_by_display_path() {
    let mut rows = vec![
        row(&[".", "b"]),
        row(&[".", "a", "c"]),
        row(&[".", "a"]),
    ];
    sort_statistics(&mut rows);
    let order: Vec<String> = rows.iter().map(|r| r.dir.to_native()).collect();
    assert_eq!(vec!["./a", "./a/c", "./b"], order);
}

pub struct ReportingContext {
    appinfo: ApplicationInfo,
    config: Config,
    current_dir: DirPath,
    descriptors_fn: Box<dyn Fn() -> DirDescriptorList>,
    lines: Mutex<Vec<String>>,
}

impl Context for ReportingContext {
    fn get_appinfo(&self) -> &ApplicationInfo {
        &self.appinfo
    }

    fn get_config(&self) -> &Config {
        &self.config
    }

    fn get_current_dir(&self) -> &DirPath {
        &self.current_dir
    }

    fn crawl_dirs(&self, _root_dirs: &PathList) -> DirDescriptorList {
        (self.descriptors_fn)()
    }

    fn create_marker(&self, _dir: &DirPath, _text: &String) {}

    fn delete_child_file(&self, _file: &DirPath) {}

    fn delete_child_dir(&self, _dir: &DirPath) {}

    fn delete_marker(&self, _dir: &DirPath) {}

    fn notify(&self, notification: &Notification) {
        self.lines.lock().unwrap().push(notification.data.clone());
    }

    fn get_root_dir<'a>(&self, dir: &DirPath, root_dirs: &'a PathList) -> Option<&'a DirPath> {
        let a = get_absolute_dir(dir, &self.current_dir);
        root_dirs.iter().find(|root_dir| a.starts_with(root_dir))
    }
}

#[test]
fn list_reports_sorted_statistics() {
    let ctx = ReportingContext {
        appinfo: create_appinfo(),
        config: Config::new(),
        current_dir: abs(&["work"]),
        descriptors_fn: Box::new(|| {
            vec![
                leaf_with_marker(&["work", "b"]),
                leaf_with_marker(&["work", "a"]),
            ]
        }),
        lines: Mutex::new(Vec::new()),
    };
    let sut = List::new();

    sut.execute(&ctx).unwrap();

    let lines = ctx.lines.lock().unwrap().clone();
    assert_eq!(
        vec![
            "./a: marker found: yes, marker required: yes, entries: 1, directories: 0",
            "./b: marker found: yes, marker required: yes, entries: 1, directories: 0",
        ],
        lines
    );
}
