use std::sync::Mutex;

use markemptydirs::application::{create_appinfo, ApplicationInfo};
use markemptydirs::commands::context::{Config, Context};
use markemptydirs::commands::update::{needs_create, needs_delete, Update};
use markemptydirs::commands::Command;
use markemptydirs::fs::helpers::get_absolute_dir;
use markemptydirs::fscrawling::{
    DirDescriptor, DirDescriptorList, DirEntryInfo, DirectoryReader, FileSystemCrawler, PathList,
    PathStat, VisitData,
};
use markemptydirs::notification::Notification;
use markemptydirs::path::DirPath;

fn abs(parts: &[&str]) -> DirPath {
    DirPath {
        absolute: true,
        components: parts.iter().map(|s| s.to_string()).collect(),
    }
}

fn dir_entry(name: &str) -> DirEntryInfo {
    DirEntryInfo {
        name: name.to_string(),
        is_dir: true,
        is_file: false,
        is_symlink: false,
    }
}

fn file_entry(name: &str) -> DirEntryInfo {
    DirEntryInfo {
        name: name.to_string(),
        is_dir: false,
        is_file: true,
        is_symlink: false,
    }
}

fn symlink_dir_entry(name: &str) -> DirEntryInfo {
    DirEntryInfo {
        name: name.to_string(),
        is_dir: true,
        is_file: false,
        is_symlink: true,
    }
}

struct FakeReader {
    visit_fn: Box<dyn Fn(&DirPath) -> Option<VisitData>>,
    symlinks: Vec<DirPath>,
}

impl DirectoryReader for FakeReader {
    fn stat(&self, dir: &DirPath) -> PathStat {
        PathStat {
            is_dir: (self.visit_fn)(dir).is_some(),
            is_symlink: self.symlinks.contains(dir),
        }
    }

    fn visit_all(&self, dirs: &PathList) -> Vec<Option<VisitData>> {
        dirs.iter().map(|d| (self.visit_fn)(d)).collect()
    }
}

fn crawler(dereference_symlinks: bool) -> FileSystemCrawler {
    FileSystemCrawler {
        exclude_dirs: vec![DirPath::from_name(".git")],
        dereference_symlinks,
        marker_name: ".emptydir".to_string(),
    }
}

fn here(dir: &DirPath, entries: Vec<DirEntryInfo>) -> Option<VisitData> {
    Some(VisitData {
        canonical: dir.clone(),
        entries,
    })
}

/// The tree `a/` (empty) and `b/c/` (nested, `c` empty), before any update.
fn fresh_tree(dir: &DirPath) -> Option<VisitData> {
    match dir.to_native().as_str() {
        "/r" => here(dir, vec![dir_entry("a"), dir_entry("b")]),
        "/r/a" => here(dir, vec![]),
        "/r/b" => here(dir, vec![dir_entry("c")]),
        "/r/b/c" => here(dir, vec![]),
        _ => None,
    }
}

/// The same tree right after an update: markers in `a` and `c`.
fn marked_tree(dir: &DirPath) -> Option<VisitData> {
    match dir.to_native().as_str() {
        "/r" => here(dir, vec![dir_entry("a"), dir_entry("b")]),
        "/r/a" => here(dir, vec![file_entry(".emptydir")]),
        "/r/b" => here(dir, vec![dir_entry("c")]),
        "/r/b/c" => here(dir, vec![file_entry(".emptydir")]),
        _ => None,
    }
}

/// The marked tree after a sub-directory `d` appeared inside the
/// previously-leaf `a`.
fn grown_tree(dir: &DirPath) -> Option<VisitData> {
    match dir.to_native().as_str() {
        "/r" => here(dir, vec![dir_entry("a"), dir_entry("b")]),
        "/r/a" => here(dir, vec![file_entry(".emptydir"), dir_entry("d")]),
        "/r/a/d" => here(dir, vec![]),
        "/r/b" => here(dir, vec![dir_entry("c")]),
        "/r/b/c" => here(dir, vec![file_entry(".emptydir")]),
        _ => None,
    }
}

fn crawl(tree: fn(&DirPath) -> Option<VisitData>, dereference: bool) -> DirDescriptorList {
    let reader = FakeReader {
        visit_fn: Box::new(tree),
        symlinks: vec![],
    };
    crawler(dereference).crawl_dirs(&reader, vec![abs(&["r"])])
}

fn find<'a>(descriptors: &'a DirDescriptorList, dir: &DirPath) -> &'a DirDescriptor {
    descriptors
        .iter()
        .find(|d| &d.dir == dir)
        .expect("descriptor missing")
}

pub struct RecordingContext {
    appinfo: ApplicationInfo,
    config: Config,
    current_dir: DirPath,
    crawl_dirs_fn: Box<dyn Fn(&PathList) -> DirDescriptorList>,
    markers_created: Mutex<Vec<DirPath>>,
    markers_deleted: Mutex<Vec<DirPath>>,
}

impl RecordingContext {
    fn new<F: 'static>(crawl_dirs_fn: F) -> RecordingContext
    where
        F: Fn(&PathList) -> DirDescriptorList,
    {
        RecordingContext {
            appinfo: create_appinfo(),
            config: Config::new(),
            current_dir: abs(&["r"]),
            crawl_dirs_fn: Box::new(crawl_dirs_fn),
            markers_created: Mutex::new(Vec::new()),
            markers_deleted: Mutex::new(Vec::new()),
        }
    }
}

impl Context for RecordingContext {
    fn get_appinfo(&self) -> &ApplicationInfo {
        &self.appinfo
    }

    fn get_config(&self) -> &Config {
        &self.config
    }

    fn get_current_dir(&self) -> &DirPath {
        &self.current_dir
    }

    fn crawl_dirs(&self, root_dirs: &PathList) -> DirDescriptorList {
        (self.crawl_dirs_fn)(root_dirs)
    }

    fn create_marker(&self, dir: &DirPath, _text: &String) {
        self.markers_created.lock().unwrap().push(dir.clone());
    }

    fn delete_child_file(&self, _file: &DirPath) {}

    fn delete_child_dir(&self, _dir: &DirPath) {}

    fn delete_marker(&self, dir: &DirPath) {
        self.markers_deleted.lock().unwrap().push(dir.clone());
    }

    fn notify(&self, _notification: &Notification) {}

    fn get_root_dir<'a>(&self, dir: &DirPath, root_dirs: &'a PathList) -> Option<&'a DirPath> {
        let a = get_absolute_dir(dir, &self.current_dir);
        root_dirs.iter().find(|root_dir| a.starts_with(root_dir))
    }
}

#[test]
fn crawl_classifies_the_whole_tree() {
    let descriptors = crawl(fresh_tree, false);

    assert_eq!(4, descriptors.len());
    assert_eq!(2, find(&descriptors, &abs(&["r"])).get_sub_direntry_count());
    assert_eq!(0, find(&descriptors, &abs(&["r", "a"])).get_sub_direntry_count());
    assert_eq!(1, find(&descriptors, &abs(&["r", "b"])).get_sub_direntry_count());
    assert_eq!(0, find(&descriptors, &abs(&["r", "b", "c"])).get_sub_direntry_count());
    assert!(!find(&descriptors, &abs(&["r", "a"])).has_marker());
}

#[test]
fn marker_detection_requires_a_plain_file() {
    let tree = |dir: &DirPath| match dir.to_native().as_str() {
        "/r" => here(
            dir,
            vec![file_entry(".emptydir"), file_entry("other"), dir_entry("sub")],
        ),
        "/r/sub" => here(dir, vec![dir_entry(".emptydir")]),
        "/r/sub/.emptydir" => here(dir, vec![]),
        _ => None,
    };
    let reader = FakeReader {
        visit_fn: Box::new(tree),
        symlinks: vec![],
    };
    let descriptors = crawler(false).crawl_dirs(&reader, vec![abs(&["r"])]);

    let root = find(&descriptors, &abs(&["r"]));
    assert!(root.has_marker());
    assert_eq!(".emptydir", root.get_marker_direntry().unwrap().name);
    assert_eq!(3, root.get_child_count());
    assert_eq!(1, root.get_sub_direntry_count());

    // A directory named like the marker is a sub-directory, never a marker.
    let sub = find(&descriptors, &abs(&["r", "sub"]));
    assert!(!sub.has_marker());
    assert_eq!(1, sub.get_sub_direntry_count());
}

#[test]
fn excluded_directories_never_appear() {
    let tree = |dir: &DirPath| match dir.to_native().as_str() {
        "/r" => here(dir, vec![dir_entry(".git"), dir_entry("x")]),
        "/r/.git" => here(dir, vec![dir_entry("inner")]),
        "/r/.git/inner" => here(dir, vec![]),
        "/r/x" => here(dir, vec![]),
        _ => None,
    };
    let reader = FakeReader {
        visit_fn: Box::new(tree),
        symlinks: vec![],
    };
    let descriptors = crawler(false).crawl_dirs(&reader, vec![abs(&["r"])]);

    assert_eq!(2, descriptors.len());
    assert!(descriptors.iter().any(|d| d.dir == abs(&["r"])));
    assert!(descriptors.iter().any(|d| d.dir == abs(&["r", "x"])));
    assert!(descriptors
        .iter()
        .all(|d| !d.dir.components.contains(&".git".to_string())));
    assert_eq!(1, find(&descriptors, &abs(&["r"])).get_sub_direntry_count());
}

#[test]
fn symlinks_are_skipped_without_dereferencing() {
    let tree = |dir: &DirPath| match dir.to_native().as_str() {
        "/r" => here(dir, vec![symlink_dir_entry("link"), dir_entry("real")]),
        "/r/real" => here(dir, vec![]),
        "/r/link" => Some(VisitData {
            canonical: abs(&["r", "real"]),
            entries: vec![],
        }),
        _ => None,
    };
    let reader = FakeReader {
        visit_fn: Box::new(tree),
        symlinks: vec![abs(&["r", "link"])],
    };
    let descriptors = crawler(false).crawl_dirs(&reader, vec![abs(&["r"])]);

    assert_eq!(2, descriptors.len());
    assert_eq!(1, find(&descriptors, &abs(&["r"])).get_sub_direntry_count());
}

#[test]
fn dereferenced_symlinks_are_visited_exactly_once() {
    let tree = |dir: &DirPath| match dir.to_native().as_str() {
        "/r" => here(dir, vec![symlink_dir_entry("link"), dir_entry("real")]),
        "/r/real" => here(dir, vec![]),
        "/r/link" => Some(VisitData {
            canonical: abs(&["r", "real"]),
            entries: vec![],
        }),
        _ => None,
    };
    let reader = FakeReader {
        visit_fn: Box::new(tree),
        symlinks: vec![abs(&["r", "link"])],
    };
    let descriptors = crawler(true).crawl_dirs(&reader, vec![abs(&["r"])]);

    assert_eq!(2, descriptors.len());
    assert_eq!(2, find(&descriptors, &abs(&["r"])).get_sub_direntry_count());
    assert_eq!(
        1,
        descriptors.iter().filter(|d| d.dir == abs(&["r", "real"])).count()
    );
}

#[test]
fn symlinked_roots_are_dropped_without_dereferencing() {
    let reader = FakeReader {
        visit_fn: Box::new(|dir: &DirPath| match dir.to_native().as_str() {
            "/r/link" => Some(VisitData {
                canonical: abs(&["r", "real"]),
                entries: vec![],
            }),
            _ => None,
        }),
        symlinks: vec![abs(&["r", "link"])],
    };
    let descriptors = crawler(false).crawl_dirs(&reader, vec![abs(&["r", "link"])]);

    assert_eq!(0, descriptors.len());
}

#[test]
fn update_marks_exactly_the_leaves() {
    let descriptors = crawl(fresh_tree, false);
    assert!(!needs_create(find(&descriptors, &abs(&["r"]))));
    assert!(needs_create(find(&descriptors, &abs(&["r", "a"]))));
    assert!(!needs_create(find(&descriptors, &abs(&["r", "b"]))));
    assert!(needs_create(find(&descriptors, &abs(&["r", "b", "c"]))));
    assert!(descriptors.iter().all(|d| !needs_delete(d)));

    let ctx = RecordingContext::new(|roots| {
        let reader = FakeReader {
            visit_fn: Box::new(fresh_tree),
            symlinks: vec![],
        };
        crawler(false).crawl_dirs(&reader, roots.clone())
    });
    let mut sut = Update::new();
    sut.root_dirs = vec![abs(&["r"])];

    sut.execute(&ctx).unwrap();

    assert_eq!(
        vec![abs(&["r", "a"]), abs(&["r", "b", "c"])],
        ctx.markers_created.lock().unwrap().clone()
    );
    assert_eq!(0, ctx.markers_deleted.lock().unwrap().len());
}

#[test]
fn update_passes_never_overlap() {
    let everything = [crawl(fresh_tree, false), crawl(marked_tree, false), crawl(grown_tree, false)];
    for descriptors in &everything {
        for d in descriptors {
            assert!(!(needs_delete(d) && needs_create(d)));
        }
    }
}

#[test]
fn update_is_idempotent_on_an_unchanged_tree() {
    let ctx = RecordingContext::new(|roots| {
        let reader = FakeReader {
            visit_fn: Box::new(marked_tree),
            symlinks: vec![],
        };
        crawler(false).crawl_dirs(&reader, roots.clone())
    });
    let mut sut = Update::new();
    sut.root_dirs = vec![abs(&["r"])];

    sut.execute(&ctx).unwrap();

    assert_eq!(0, ctx.markers_created.lock().unwrap().len());
    assert_eq!(0, ctx.markers_deleted.lock().unwrap().len());
}

#[test]
fn update_reconciles_a_grown_tree() {
    let ctx = RecordingContext::new(|roots| {
        let reader = FakeReader {
            visit_fn: Box::new(grown_tree),
            symlinks: vec![],
        };
        crawler(false).crawl_dirs(&reader, roots.clone())
    });
    let mut sut = Update::new();
    sut.root_dirs = vec![abs(&["r"])];

    sut.execute(&ctx).unwrap();

    assert_eq!(vec![abs(&["r", "a"])], ctx.markers_deleted.lock().unwrap().clone());
    assert_eq!(vec![abs(&["r", "a", "d"])], ctx.markers_created.lock().unwrap().clone());
}
