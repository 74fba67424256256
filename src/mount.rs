use vstd::prelude::*;
use std::path::Path;

verus! {

/// The path of `path` relative to `base`, as `pathdiff::diff_paths`
/// computes it, or nothing where no such path exists.
pub uninterp spec fn path_diff(path: Seq<char>, base: Seq<char>) -> Option<Seq<char>>;

/// `rel` joined onto `base`, as `std::path::Path::join` computes it.
pub uninterp spec fn joined_path(base: Seq<char>, rel: Seq<char>) -> Seq<char>;

/// Relies on `pathdiff::diff_paths`: the relative path from `base` to
/// `path`, which depends on the two paths alone. Its components come from
/// the two UTF-8 inputs, so the text conversion loses nothing.
#[verifier::external_body]
fn relative_path(path: &str, base: &str) -> (r: Option<String>)
    ensures
        r matches Some(s) ==> path_diff(path@, base@) == Some(s@),
        r is None ==> path_diff(path@, base@) is None,
{
    match pathdiff::diff_paths(Path::new(path), Path::new(base)) {
        Some(p) => Some(p.to_string_lossy().into_owned()),
        None => None,
    }
}

/// Relies on `std::path::Path::join`: `rel` appended to `base`, which
/// depends on the two paths alone.
#[verifier::external_body]
fn join_path(base: &str, rel: &str) -> (r: String)
    ensures
        r@ == joined_path(base@, rel@),
{
    Path::new(base).join(rel).to_string_lossy().into_owned()
}

/// Why a path could not be translated out of the mount.
pub enum UnmountError {
    /// The path has no expression relative to the mount root.
    NotUnderMount,
}

/// The host path for `filename`, seen under mount root `mount`, given the
/// host's target output directory: the path relative to the mount root,
/// joined onto the target directory.
pub open spec fn unmounted(mount: Seq<char>, filename: Seq<char>, target_dir: Seq<char>) -> Option<
    Seq<char>,
> {
    match path_diff(filename, mount) {
        Some(rel) => Some(joined_path(target_dir, rel)),
        None => None,
    }
}

/// The host path for `filename` under an optional mount root: the path
/// itself where there is no mount.
pub open spec fn host_path(mount: Option<Seq<char>>, filename: Seq<char>, target_dir: Seq<char>) -> Option<
    Seq<char>,
> {
    match mount {
        Some(m) => unmounted(m, filename, target_dir),
        None => Some(filename),
    }
}

/// A mounted view of a build: the mount root under which observed paths
/// live, and the project descriptor that the metadata query should use.
pub struct MountInfo {
    pub mount: String,
    pub manifest_path: Option<String>,
}

/// The mathematical model of a [`MountInfo`].
pub struct MountInfoView {
    pub mount: Seq<char>,
    pub manifest_path: Option<Seq<char>>,
}

impl View for MountInfo {
    type V = MountInfoView;

    open spec fn view(&self) -> MountInfoView {
        MountInfoView {
            mount: self.mount@,
            manifest_path: match self.manifest_path {
                Some(p) => Some(p@),
                None => None,
            },
        }
    }
}

/// The mount root of an optional mount context.
pub open spec fn mount_root(m: Option<MountInfo>) -> Option<Seq<char>> {
    match m {
        Some(mi) => Some(mi.mount@),
        None => None,
    }
}

/// The model of an optional mount context.
pub open spec fn mount_view(m: Option<MountInfo>) -> Option<MountInfoView> {
    match m {
        Some(mi) => Some(mi@),
        None => None,
    }
}

impl MountInfo {
    /// A copy of this mount context.
    pub fn duplicate(&self) -> (r: MountInfo)
        ensures
            r@ == self@,
    {
        MountInfo {
            mount: self.mount.clone(),
            manifest_path: match &self.manifest_path {
                Some(p) => Some(p.clone()),
                None => None,
            },
        }
    }

    /// The project descriptor that the metadata query should resolve
    /// against, if one was configured.
    pub fn manifest_path(&self) -> (r: &Option<String>)
        ensures
            *r == self.manifest_path,
    {
        &self.manifest_path
    }

    /// Translates `filename`, observed under this mount root, to the host:
    /// its path relative to the mount root joined onto `target_dir`, the
    /// target output directory that the build tool's metadata reports.
    pub fn unmount(&self, filename: String, target_dir: &str) -> (r: Result<String, UnmountError>)
        ensures
            r is Ok <==> unmounted(self.mount@, filename@, target_dir@) is Some,
            r matches Ok(s) ==> Some(s@) == unmounted(self.mount@, filename@, target_dir@),
    {
        match relative_path(filename.as_str(), self.mount.as_str()) {
            Some(rel) => Ok(join_path(target_dir, rel.as_str())),
            None => Err(UnmountError::NotUnderMount),
        }
    }
}

/// Copies an optional mount context.
pub fn duplicate_mount(m: &Option<MountInfo>) -> (r: Option<MountInfo>)
    ensures
        mount_view(r) == mount_view(*m),
        mount_root(r) == mount_root(*m),
{
    match m {
        Some(mi) => Some(mi.duplicate()),
        None => None,
    }
}

/// Translates `filename` to the host under an optional mount context: the
/// identity without one, else [`MountInfo::unmount`].
pub fn unmount_with(mount_info: &Option<MountInfo>, filename: String, target_dir: &str) -> (r: Result<
    String,
    UnmountError,
>)
    ensures
        r is Ok <==> host_path(mount_root(*mount_info), filename@, target_dir@) is Some,
        r matches Ok(s) ==> Some(s@) == host_path(mount_root(*mount_info), filename@, target_dir@),
        mount_info is None ==> r == Ok::<String, UnmountError>(filename),
{
    match mount_info {
        Some(mi) => mi.unmount(filename, target_dir),
        None => Ok(filename),
    }
}

/// Without a mount context, translating a path gives the path itself,
/// whatever target directory is supplied.
pub proof fn lemma_unmount_identity_without_mount(filename: Seq<char>, target_dir: Seq<char>)
    ensures
        host_path(None, filename, target_dir) == Some(filename),
{
}

/// Session options: the optional mount context and the verbosity flag.
pub struct Options {
    pub mount_info: Option<MountInfo>,
    pub verbose: bool,
}

impl Options {
    /// A copy of these options.
    pub fn duplicate(&self) -> (r: Options)
        ensures
            mount_view(r.mount_info) == mount_view(self.mount_info),
            mount_root(r.mount_info) == mount_root(self.mount_info),
            r.verbose == self.verbose,
    {
        Options { mount_info: duplicate_mount(&self.mount_info), verbose: self.verbose }
    }

    /// The mount context, if any.
    pub fn mount_info(&self) -> (r: &Option<MountInfo>)
        ensures
            *r == self.mount_info,
    {
        &self.mount_info
    }

    /// Whether diagnostic narration is wanted.
    pub fn verbose(&self) -> (r: bool)
        ensures
            r == self.verbose,
    {
        self.verbose
    }

    /// Translates `filename` to the host under these options' mount
    /// context: the identity without one.
    pub fn unmount(&self, filename: String, target_dir: &str) -> (r: Result<String, UnmountError>)
        ensures
            r is Ok <==> host_path(mount_root(self.mount_info), filename@, target_dir@) is Some,
            r matches Ok(s) ==> Some(s@) == host_path(
                mount_root(self.mount_info),
                filename@,
                target_dir@,
            ),
            self.mount_info is None ==> r == Ok::<String, UnmountError>(filename),
    {
        unmount_with(&self.mount_info, filename, target_dir)
    }
}

} // verus!
