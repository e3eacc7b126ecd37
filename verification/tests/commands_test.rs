use std::sync::Mutex;

use markemptydirs::application::{create_appinfo, ApplicationInfo};
use markemptydirs::commands::clean::Clean;
use markemptydirs::commands::context::{Config, Context};
use markemptydirs::commands::purge::Purge;
use markemptydirs::commands::Command;
use markemptydirs::fs::helpers::get_absolute_dir;
use markemptydirs::fscrawling::{DirDescriptorList, PathList};
use markemptydirs::notification::{LogLevel, MessageLength, Notification};
use markemptydirs::path::DirPath;
use markemptydirs::Error;

pub struct TestContext {
    appinfo: ApplicationInfo,
    config: Config,
    current_dir: DirPath,
    crawl_dirs_fn: Box<dyn Fn(&PathList) -> DirDescriptorList>,
    markers_created: Mutex<Vec<DirPath>>,
    markers_deleted: Mutex<Vec<DirPath>>,
}

impl TestContext {
    pub fn new<F: 'static>(crawl_dirs_fn: F) -> TestContext
    where
        F: Fn(&PathList) -> DirDescriptorList,
    {
        TestContext {
            appinfo: create_appinfo(),
            config: Config::new(),
            current_dir: DirPath {
                absolute: true,
                components: vec!["work".to_string()],
            },
            crawl_dirs_fn: Box::new(crawl_dirs_fn),
            markers_created: Mutex::new(Vec::new()),
            markers_deleted: Mutex::new(Vec::new()),
        }
    }

    pub fn get_markers_created(&self) -> Vec<DirPath> {
        self.markers_created.lock().unwrap().clone()
    }

    pub fn get_markers_deleted(&self) -> Vec<DirPath> {
        self.markers_deleted.lock().unwrap().clone()
    }
}

impl Context for TestContext {
    fn get_appinfo(&self) -> &ApplicationInfo {
        &self.appinfo
    }

    fn get_config(&self) -> &Config {
        &self.config
    }

    fn get_current_dir(&self) -> &DirPath {
        &self.current_dir
    }

    fn crawl_dirs(&self, root_dirs: &PathList) -> DirDescriptorList {
        (self.crawl_dirs_fn)(root_dirs)
    }

    fn create_marker(&self, dir: &DirPath, _text: &String) {
        self.markers_created.lock().unwrap().push(dir.clone());
    }

    fn delete_child_file(&self, _file: &DirPath) {}

    fn delete_child_dir(&self, _dir: &DirPath) {}

    fn delete_marker(&self, dir: &DirPath) {
        self.markers_deleted.lock().unwrap().push(dir.clone());
    }

    fn notify(&self, _notification: &Notification) {}

    fn get_root_dir<'a>(&self, dir: &DirPath, root_dirs: &'a PathList) -> Option<&'a DirPath> {
        let abs = get_absolute_dir(dir, &self.current_dir);
        root_dirs.iter().find(|root_dir| abs.starts_with(root_dir))
    }
}

#[test]
fn default_root_dirs() {
    assert_eq!(vec![DirPath::from_name(".")], Config::default_root_dirs());
}

#[test]
fn commands_test_new() {
    let expected = Config {
        exclude_dirs: vec![DirPath::from_name(".git")],
        executable_file: DirPath::new(),
        log_level: LogLevel::Error,
        message_length: MessageLength::Long,
        marker_name: ".emptydir".to_string(),
        dereference_symlinks: false,
    };
    assert_eq!(expected, Config::new());

    let expected_clean = Clean {
        delete_hook: String::new(),
        dry_run: false,
        root_dirs: Config::default_root_dirs(),
    };
    assert_eq!(expected_clean, Clean::new());
}

#[test]
fn execute() {
    let ctx = TestContext::new(|_| DirDescriptorList::new());
    let sut = Clean::new();

    sut.execute(&ctx).unwrap();

    assert_eq!(0, ctx.get_markers_created().len());
    assert_eq!(0, ctx.get_markers_deleted().len());
}

#[test]
fn purge_always_fails() {
    let ctx = TestContext::new(|_| DirDescriptorList::new());
    let sut = Purge { dry_run: false, root_dirs: Config::default_root_dirs() };

    let outcome = sut.execute(&ctx);

    match outcome {
        Err(Error::Message(text)) => assert_eq!("not implemented", text),
        _ => panic!("purge must always be a hard failure"),
    }
}

#[test]
fn error_text_carries_cause() {
    assert_eq!("disk full", Error::Io("disk full".to_string()).to_text());
    assert_eq!("not implemented", Error::Message("not implemented").to_text());
}
