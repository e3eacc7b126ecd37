//! The execution context of a command: configuration, the working directory,
//! the chosen filesystem access, the notifier, and read access to the
//! directory tree.

use vstd::prelude::*;

verus! {

use crate::Error;
use crate::application::ApplicationInfo;
use crate::fs::access::{FileSystemAccess, SelectedFileSystemAccess, create_file_system_access};
use crate::fs::helpers::get_absolute_dir;
use crate::fscrawling::{
    DirDescriptorList,
    DirectoryReader,
    FileSystemCrawler,
    PathList,
    spec_classified,
};
use crate::notification::{LogLevel, MessageLength, Notification, NotificationModel, Notifier};
use crate::path::{DirPath, PathModel, spec_native, spec_path_views, spec_starts_with};

/// Configuration shared by every command.
#[derive(Debug)]
pub struct Config {
    pub exclude_dirs: PathList,
    pub executable_file: DirPath,
    pub log_level: LogLevel,
    pub message_length: MessageLength,
    pub marker_name: String,
    pub dereference_symlinks: bool,
}

impl Config {
    /// The default root list: just the current directory.
    pub fn default_root_dirs() -> (r: PathList)
        ensures
            r@.len() == 1,
            !r@[0]@.absolute,
            r@[0]@.parts == seq!["."@],
    {
        let mut r: PathList = Vec::new();
        r.push(DirPath::from_name("."));
        r
    }

    /// The default configuration: prune `.git` everywhere, keep symlinks
    /// un-dereferenced, call the marker `.emptydir`, and report only errors,
    /// in the long message form.
    pub fn new() -> (r: Config)
        ensures
            r.exclude_dirs@.len() == 1,
            !r.exclude_dirs@[0]@.absolute,
            r.exclude_dirs@[0]@.parts == seq![".git"@],
            !r.executable_file@.absolute,
            r.executable_file@.parts.len() == 0,
            r.log_level == LogLevel::Error,
            r.message_length == MessageLength::Long,
            r.marker_name@ == ".emptydir"@,
            !r.dereference_symlinks,
    {
        let mut exclude_dirs: PathList = Vec::new();
        exclude_dirs.push(DirPath::from_name(".git"));
        Config {
            exclude_dirs,
            executable_file: DirPath::new(),
            log_level: LogLevel::Error,
            message_length: MessageLength::Long,
            marker_name: ".emptydir".to_owned(),
            dereference_symlinks: false,
        }
    }
}

impl PartialEq for Config {
    fn eq(&self, other: &Config) -> (r: bool) {
        (crate::path::path_list_eq(&self.exclude_dirs, &other.exclude_dirs) && self.executable_file
            == other.executable_file && self.log_level == other.log_level && self.message_length
            == other.message_length && self.marker_name == other.marker_name
            && self.dereference_symlinks == other.dereference_symlinks)
    }
}

impl vstd::std_specs::cmp::PartialEqSpecImpl for Config {
    open spec fn obeys_eq_spec() -> bool {
        true
    }

    open spec fn eq_spec(&self, other: &Config) -> bool {
        spec_path_views(self.exclude_dirs) == spec_path_views(other.exclude_dirs)
            && self.executable_file@ == other.executable_file@ && self.log_level
            == other.log_level && self.message_length == other.message_length
            && self.marker_name@ == other.marker_name@ && self.dereference_symlinks
            == other.dereference_symlinks
    }
}

/// `dir` made absolute against the working directory `cwd`.
pub open spec fn spec_absolute(dir: PathModel, cwd: PathModel) -> PathModel {
    if dir.absolute {
        dir
    } else {
        PathModel { absolute: cwd.absolute, parts: cwd.parts + dir.parts }
    }
}

/// The path of the marker file inside `dir`: the directory made absolute,
/// extended by the marker name.
pub open spec fn spec_marker_file_path(
    marker_name: Seq<char>,
    cwd: PathModel,
    dir: PathModel,
) -> PathModel {
    let abs = spec_absolute(dir, cwd);
    PathModel { absolute: abs.absolute, parts: abs.parts.push(marker_name) }
}

/// The event reported when the marker at `marker_path` was created.
pub open spec fn spec_marker_created_event(marker_path: PathModel) -> NotificationModel {
    NotificationModel {
        level: LogLevel::Info,
        target: "create_marker"@,
        info: "Marker created"@,
        data: spec_native(marker_path),
        error: Option::None,
    }
}

/// The event reported when creating the marker inside `dir` failed.
pub open spec fn spec_marker_create_failed_event(
    dir: PathModel,
    cause: Seq<char>,
) -> NotificationModel {
    NotificationModel {
        level: LogLevel::Error,
        target: "create_marker"@,
        info: "Marker creation failed"@,
        data: spec_native(dir),
        error: Option::Some(cause),
    }
}

/// The event reported when the marker at `marker_path` was deleted.
pub open spec fn spec_marker_deleted_event(marker_path: PathModel) -> NotificationModel {
    NotificationModel {
        level: LogLevel::Info,
        target: "delete_marker"@,
        info: "Marker deleted"@,
        data: spec_native(marker_path),
        error: Option::None,
    }
}

/// The event reported when deleting the marker inside `dir` failed.
pub open spec fn spec_marker_delete_failed_event(
    dir: PathModel,
    cause: Seq<char>,
) -> NotificationModel {
    NotificationModel {
        level: LogLevel::Error,
        target: "delete_marker"@,
        info: "Marker deletion failed"@,
        data: spec_native(dir),
        error: Option::Some(cause),
    }
}

/// What a command needs from its surroundings. The library ships
/// [`DefaultContext`]; tests and embedding programs may supply their own.
pub trait Context {
    /// The application identity.
    fn get_appinfo(&self) -> &ApplicationInfo;

    /// The configuration.
    fn get_config(&self) -> &Config;

    /// The working directory against which relative paths are resolved.
    fn get_current_dir(&self) -> &DirPath;

    /// Crawls the given roots and returns one descriptor per visited
    /// directory.
    fn crawl_dirs(&self, root_dirs: &PathList) -> DirDescriptorList;

    /// Creates the marker inside `dir`; failures are reported, not raised.
    fn create_marker(&self, dir: &DirPath, text: &String);

    /// Deletes the file `file`; failures are reported, not raised.
    fn delete_child_file(&self, file: &DirPath);

    /// Deletes the directory `dir` with everything beneath it; failures are
    /// reported, not raised.
    fn delete_child_dir(&self, dir: &DirPath);

    /// Deletes the marker inside `dir`; failures are reported, not raised.
    fn delete_marker(&self, dir: &DirPath);

    /// Reports one event.
    fn notify(&self, notification: &Notification);

    /// The first configured root that contains `dir`, if any.
    fn get_root_dir<'a>(&self, dir: &DirPath, root_dirs: &'a PathList) -> Option<&'a DirPath>;
}

/// The stock context: configuration, working directory, a directory reader,
/// the selected filesystem access, and a notifier.
///
/// The dry-run/real split is decided here, once, at construction: the
/// context owns a [`SelectedFileSystemAccess`] rather than branching on a
/// dry-run flag at every mutation site.
pub struct DefaultContext<R, F, N> {
    pub appinfo: ApplicationInfo,
    pub config: Config,
    pub current_dir: DirPath,
    pub reader: R,
    pub fsaccess: SelectedFileSystemAccess<F>,
    pub notifier: N,
}

impl<R: DirectoryReader, F: FileSystemAccess, N: Notifier> DefaultContext<R, F, N> {
    /// Builds the stock context, selecting the dry-run filesystem access when
    /// `dry_run` is set and `real_access` otherwise.
    pub fn new(
        appinfo: ApplicationInfo,
        config: Config,
        current_dir: DirPath,
        dry_run: bool,
        reader: R,
        real_access: F,
        notifier: N,
    ) -> (r: DefaultContext<R, F, N>)
        ensures
            dry_run ==> r.fsaccess is DryRun,
            !dry_run ==> r.fsaccess is Real,
            r.appinfo == appinfo,
            r.config == config,
            r.current_dir == current_dir,
    {
        DefaultContext {
            appinfo,
            config,
            current_dir,
            reader,
            fsaccess: create_file_system_access(real_access, dry_run),
            notifier,
        }
    }
    /// The path of the marker file inside `dir`.
    pub fn get_marker_file_path(&self, dir: &DirPath) -> (r: DirPath)
        ensures
            r@ == spec_marker_file_path(self.config.marker_name@, self.current_dir@, dir@),
    {
        let mut p = get_absolute_dir(dir, &self.current_dir);
        p.push(self.config.marker_name.clone());
        p
    }

    /// Creates the marker inside `dir` through the filesystem access and
    /// returns the event this reports: the created event on success and the
    /// failure event carrying the cause otherwise.
    ///
    /// Under the dry-run access every operation succeeds, so a dry run
    /// reports exactly the events a real run reports for the mutations that
    /// succeed — while performing none of them.
    pub fn apply_create_marker(&self, dir: &DirPath, text: &String) -> (n: Notification)
        ensures
            self.fsaccess is DryRun ==> n@ == spec_marker_created_event(
                spec_marker_file_path(self.config.marker_name@, self.current_dir@, dir@),
            ),
            n@ == spec_marker_created_event(
                spec_marker_file_path(self.config.marker_name@, self.current_dir@, dir@),
            ) || (exists|cause: Seq<char>|
                n@ == spec_marker_create_failed_event(dir@, cause)),
    {
        let marker_file_path = self.get_marker_file_path(dir);
        match self.fsaccess.create_file(&marker_file_path, text) {
            Result::Ok(_) => {
                let data = marker_file_path.to_native();
                Notification::new(
                    LogLevel::Info,
                    "create_marker",
                    "Marker created",
                    data.as_str(),
                    Option::None,
                )
            },
            Result::Err(e) => {
                let data = dir.to_native();
                let n = Notification::new(
                    LogLevel::Error,
                    "create_marker",
                    "Marker creation failed",
                    data.as_str(),
                    Option::Some(&e),
                );
                proof {
                    assert(n@ == spec_marker_create_failed_event(dir@, crate::spec_error_text(e)));
                }
                n
            },
        }
    }

    /// Deletes the marker inside `dir` through the filesystem access and
    /// returns the event this reports, as `apply_create_marker` does for
    /// creation.
    pub fn apply_delete_marker(&self, dir: &DirPath) -> (n: Notification)
        ensures
            self.fsaccess is DryRun ==> n@ == spec_marker_deleted_event(
                spec_marker_file_path(self.config.marker_name@, self.current_dir@, dir@),
            ),
            n@ == spec_marker_deleted_event(
                spec_marker_file_path(self.config.marker_name@, self.current_dir@, dir@),
            ) || (exists|cause: Seq<char>|
                n@ == spec_marker_delete_failed_event(dir@, cause)),
    {
        let marker_file_path = self.get_marker_file_path(dir);
        match self.fsaccess.remove_file(&marker_file_path) {
            Result::Ok(_) => {
                let data = marker_file_path.to_native();
                Notification::new(
                    LogLevel::Info,
                    "delete_marker",
                    "Marker deleted",
                    data.as_str(),
                    Option::None,
                )
            },
            Result::Err(e) => {
                let data = dir.to_native();
                let n = Notification::new(
                    LogLevel::Error,
                    "delete_marker",
                    "Marker deletion failed",
                    data.as_str(),
                    Option::Some(&e),
                );
                proof {
                    assert(n@ == spec_marker_delete_failed_event(dir@, crate::spec_error_text(e)));
                }
                n
            },
        }
    }
}

impl<R: DirectoryReader, F: FileSystemAccess, N: Notifier> Context for DefaultContext<R, F, N> {
    fn get_appinfo(&self) -> &ApplicationInfo {
        &self.appinfo
    }

    fn get_config(&self) -> &Config {
        &self.config
    }

    fn get_current_dir(&self) -> &DirPath {
        &self.current_dir
    }

    /// Crawls through this context's reader, under this context's
    /// configuration: every returned descriptor is classified for the
    /// configured exclude suffixes, symlink policy and marker name, one
    /// descriptor per canonical path, and no roots yield no descriptors.
    fn crawl_dirs(&self, root_dirs: &PathList) -> (r: DirDescriptorList)
        ensures
            forall|k: int|
                0 <= k < r@.len() ==> spec_classified(
                    spec_path_views(self.config.exclude_dirs),
                    self.config.dereference_symlinks,
                    self.config.marker_name@,
                    #[trigger] r@[k],
                ),
            forall|k: int, l: int| 0 <= k < l < r@.len() ==> r@[k].dir@ != r@[l].dir@,
            root_dirs@.len() == 0 ==> r@.len() == 0,
    {
        let crawler = FileSystemCrawler {
            exclude_dirs: crate::path::clone_path_list(&self.config.exclude_dirs),
            dereference_symlinks: self.config.dereference_symlinks,
            marker_name: self.config.marker_name.clone(),
        };
        let roots = crate::path::clone_path_list(root_dirs);
        proof {
            assert(crawler.spec_excludes() =~= spec_path_views(self.config.exclude_dirs));
            assert(roots@.len() == root_dirs@.len()) by {
                assert(spec_path_views(roots).len() == spec_path_views(*root_dirs).len());
            }
        }
        crawler.crawl_dirs(&self.reader, roots)
    }

    fn create_marker(&self, dir: &DirPath, text: &String) {
        let n = self.apply_create_marker(dir, text);
        self.notifier.notify(&n);
    }

    fn delete_child_file(&self, file: &DirPath) {
        let n = match self.fsaccess.remove_file(file) {
            Result::Ok(_) => {
                let data = file.to_native();
                Notification::new(
                    LogLevel::Info,
                    "delete_child_file",
                    "Child file deleted",
                    data.as_str(),
                    Option::None,
                )
            },
            Result::Err(e) => {
                let data = file.to_native();
                Notification::new(
                    LogLevel::Error,
                    "delete_child_file",
                    "Child file deletion failed",
                    data.as_str(),
                    Option::Some(&e),
                )
            },
        };
        self.notifier.notify(&n);
    }

    fn delete_child_dir(&self, dir: &DirPath) {
        let n = match self.fsaccess.remove_dir_all(dir) {
            Result::Ok(_) => {
                let data = dir.to_native();
                Notification::new(
                    LogLevel::Info,
                    "delete_child_dir",
                    "Child dir deleted",
                    data.as_str(),
                    Option::None,
                )
            },
            Result::Err(e) => {
                let data = dir.to_native();
                Notification::new(
                    LogLevel::Error,
                    "delete_child_dir",
                    "Child dir deletion failed",
                    data.as_str(),
                    Option::Some(&e),
                )
            },
        };
        self.notifier.notify(&n);
    }

    fn delete_marker(&self, dir: &DirPath) {
        let n = self.apply_delete_marker(dir);
        self.notifier.notify(&n);
    }

    fn notify(&self, notification: &Notification) {
        self.notifier.notify(notification);
    }

    /// The first configured root that contains `dir` once made absolute.
    fn get_root_dir<'a>(&self, dir: &DirPath, root_dirs: &'a PathList) -> (r: Option<&'a DirPath>)
        ensures
            match r {
                Option::Some(p) => exists|i: int|
                    0 <= i < root_dirs@.len() && *p == root_dirs@[i] && spec_starts_with(
                        spec_absolute(dir@, self.current_dir@),
                        (#[trigger] root_dirs@[i])@,
                    ),
                Option::None => forall|i: int|
                    0 <= i < root_dirs@.len() ==> !spec_starts_with(
                        spec_absolute(dir@, self.current_dir@),
                        (#[trigger] root_dirs@[i])@,
                    ),
            },
    {
        let abs = get_absolute_dir(dir, &self.current_dir);
        proof {
            assert(abs@ == spec_absolute(dir@, self.current_dir@));
        }
        let mut i: usize = 0;
        while i < root_dirs.len()
            invariant
                0 <= i <= root_dirs@.len(),
                abs@ == spec_absolute(dir@, self.current_dir@),
                forall|j: int|
                    0 <= j < i ==> !spec_starts_with(abs@, (#[trigger] root_dirs@[j])@),
            decreases root_dirs@.len() - i,
        {
            if abs.starts_with(&root_dirs[i]) {
                return Option::Some(&root_dirs[i]);
            }
            i += 1;
        }
        Option::None
    }
}

} // verus!
