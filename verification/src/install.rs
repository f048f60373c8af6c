//! Installation of a downloaded mod: what is checked before anything is
//! written, where the mod goes, which metadata is recorded and how the
//! extraction tool is called and judged.
//!
//! Nothing here touches the file system. The caller probes it, creates the
//! folder, writes the metadata and runs the tool, in that order, with the
//! values that these functions hand out.

use crate::error::ErrorKind;
use crate::path_guard::{
    fault_kind, fault_message, separator, target, validation, InstallationTarget, PathError,
    PathFault,
};
use crate::text::{blank, clone_text, is_blank};
use vstd::prelude::*;

verus! {

/// What the user interface sends to have a mod installed.
#[derive(Debug)]
pub struct InstallModDetails {
    pub identifier: String,
    pub title: String,
    pub zip_file_path: String,
    pub pack_file_path: String,
    pub downloaded_url: Option<String>,
    pub description: Option<String>,
    pub categories: Option<String>,
    pub url: Option<String>,
    pub preview_url: Option<String>,
    pub version: Option<String>,
}

/// The record kept beside an installed mod.
#[derive(Debug)]
pub struct ModMeta {
    pub identifier: String,
    pub title: String,
    pub pack_file: String,
    pub downloaded_url: Option<String>,
    pub description: Option<String>,
    pub categories: Option<String>,
    pub url: Option<String>,
    pub preview_url: Option<String>,
    pub version: Option<String>,
    /// Seconds since the Unix epoch.
    pub created_at: u64,
}

/// What the caller found on the machine before planning.
#[derive(Debug)]
pub struct InstallProbe {
    /// The archive named by the details exists.
    pub archive_exists: bool,
    /// Where the extraction tool is, if it was found.
    pub tool_path: Option<String>,
    /// The installation folder exists and is a directory.
    pub base_is_dir: bool,
}

/// The steps of an installation that touch the machine.
#[derive(Clone, Copy, Debug, PartialEq, Eq, Structural)]
pub enum IoStage {
    ResolveConfigDir,
    CreateDefaultDir,
    CreateModDir,
    Clock,
    SerializeMeta,
    CreateMetaFile,
    WriteMeta,
}

/// Why an installation failed, over plain text.
pub enum InstallFault {
    ArchivePathEmpty,
    ArchiveNotFound(Seq<char>),
    ToolNotFound,
    InvalidInstallationPath,
    Path(PathFault),
    Io(IoStage, Seq<char>),
    ToolLaunch(Seq<char>),
    ToolFailed(Seq<char>),
}

/// Why an installation failed.
#[derive(Debug)]
pub enum InstallError {
    /// The archive path is empty or white space.
    ArchivePathEmpty,
    /// No archive is at the given path.
    ArchiveNotFound { path: String },
    /// The extraction tool is not installed.
    ToolNotFound,
    /// The installation folder is absent or no directory.
    InvalidInstallationPath,
    /// The path guard refused the target folder.
    Path(PathError),
    /// A step on the machine failed, with the system's explanation.
    Io { stage: IoStage, detail: String },
    /// The extraction tool could not be started.
    ToolLaunch { detail: String },
    /// The extraction tool ended with a failure, with what it wrote to its
    /// error stream.
    ToolFailed { stderr: String },
}

impl View for InstallError {
    type V = InstallFault;

    open spec fn view(&self) -> InstallFault {
        match self {
            InstallError::ArchivePathEmpty => InstallFault::ArchivePathEmpty,
            InstallError::ArchiveNotFound { path } => InstallFault::ArchiveNotFound(path@),
            InstallError::ToolNotFound => InstallFault::ToolNotFound,
            InstallError::InvalidInstallationPath => InstallFault::InvalidInstallationPath,
            InstallError::Path(e) => InstallFault::Path(e@),
            InstallError::Io { stage, detail } => InstallFault::Io(*stage, detail@),
            InstallError::ToolLaunch { detail } => InstallFault::ToolLaunch(detail@),
            InstallError::ToolFailed { stderr } => InstallFault::ToolFailed(stderr@),
        }
    }
}

/// How the message of a failed step begins.
pub open spec fn stage_prefix(stage: IoStage) -> Seq<char> {
    match stage {
        IoStage::ResolveConfigDir => "Failed to resolve App Config directory: "@,
        IoStage::CreateDefaultDir => "Failed to create default mods directory: "@,
        IoStage::CreateModDir => "Failed to create mod directory: "@,
        IoStage::Clock => "Time error: "@,
        IoStage::SerializeMeta => "Failed to serialize metadata: "@,
        IoStage::CreateMetaFile => "Failed to create metadata file: "@,
        IoStage::WriteMeta => "Failed to write metadata: "@,
    }
}

/// The message that goes with a failure.
pub open spec fn install_fault_message(fault: InstallFault) -> Seq<char> {
    match fault {
        InstallFault::ArchivePathEmpty => "Archive path cannot be empty"@,
        InstallFault::ArchiveNotFound(path) => "Archive file not found: "@ + path,
        InstallFault::ToolNotFound => "7-Zip is required but was not found. Please install 7-Zip."@,
        InstallFault::InvalidInstallationPath => "Invalid mod installation path"@,
        InstallFault::Path(fault) => fault_message(fault),
        InstallFault::Io(stage, detail) => stage_prefix(stage) + detail,
        InstallFault::ToolLaunch(detail) => "Failed to execute 7z: "@ + detail,
        InstallFault::ToolFailed(stderr) => "7z extraction failed: "@ + stderr,
    }
}

/// The kind of a failure.
pub open spec fn install_fault_kind(fault: InstallFault) -> ErrorKind {
    match fault {
        InstallFault::ArchivePathEmpty => ErrorKind::InvalidInput,
        InstallFault::ArchiveNotFound(_) => ErrorKind::InvalidInput,
        InstallFault::ToolNotFound => ErrorKind::ToolFailure,
        InstallFault::InvalidInstallationPath => ErrorKind::InvalidInput,
        InstallFault::Path(fault) => fault_kind(fault),
        InstallFault::Io(_, _) => ErrorKind::IoFailure,
        InstallFault::ToolLaunch(_) => ErrorKind::ToolFailure,
        InstallFault::ToolFailed(_) => ErrorKind::ToolFailure,
    }
}

/// How the message of a failed step begins.
pub fn stage_text(stage: IoStage) -> (text: &'static str)
    ensures
        text@ == stage_prefix(stage),
{
    match stage {
        IoStage::ResolveConfigDir => "Failed to resolve App Config directory: ",
        IoStage::CreateDefaultDir => "Failed to create default mods directory: ",
        IoStage::CreateModDir => "Failed to create mod directory: ",
        IoStage::Clock => "Time error: ",
        IoStage::SerializeMeta => "Failed to serialize metadata: ",
        IoStage::CreateMetaFile => "Failed to create metadata file: ",
        IoStage::WriteMeta => "Failed to write metadata: ",
    }
}

impl InstallError {
    /// The message shown to the user.
    pub fn message(&self) -> (text: String)
        ensures
            text@ == install_fault_message(self@),
    {
        match self {
            InstallError::ArchivePathEmpty => "Archive path cannot be empty".to_owned(),
            InstallError::ArchiveNotFound { path } => {
                let mut text = "Archive file not found: ".to_owned();
                text.append(path.as_str());
                text
            },
            InstallError::ToolNotFound => {
                "7-Zip is required but was not found. Please install 7-Zip.".to_owned()
            },
            InstallError::InvalidInstallationPath => "Invalid mod installation path".to_owned(),
            InstallError::Path(e) => e.message(),
            InstallError::Io { stage, detail } => {
                let mut text = stage_text(*stage).to_owned();
                text.append(detail.as_str());
                text
            },
            InstallError::ToolLaunch { detail } => {
                let mut text = "Failed to execute 7z: ".to_owned();
                text.append(detail.as_str());
                text
            },
            InstallError::ToolFailed { stderr } => {
                let mut text = "7z extraction failed: ".to_owned();
                text.append(stderr.as_str());
                text
            },
        }
    }

    /// The kind of this error.
    pub fn kind(&self) -> (kind: ErrorKind)
        ensures
            kind == install_fault_kind(self@),
    {
        match self {
            InstallError::ArchivePathEmpty => ErrorKind::InvalidInput,
            InstallError::ArchiveNotFound { .. } => ErrorKind::InvalidInput,
            InstallError::ToolNotFound => ErrorKind::ToolFailure,
            InstallError::InvalidInstallationPath => ErrorKind::InvalidInput,
            InstallError::Path(e) => e.kind(),
            InstallError::Io { .. } => ErrorKind::IoFailure,
            InstallError::ToolLaunch { .. } => ErrorKind::ToolFailure,
            InstallError::ToolFailed { .. } => ErrorKind::ToolFailure,
        }
    }
}

/// What the caller does once the checks have passed, in this order: create
/// `target_dir`, write the metadata to `meta_path`, run `tool_path` with
/// `tool_args`.
#[derive(Debug)]
pub struct InstallPlan {
    pub target_dir: String,
    pub meta_path: String,
    pub tool_path: String,
    pub tool_args: Vec<String>,
}

/// The texts of a list of arguments.
pub open spec fn texts(args: Seq<String>) -> Seq<Seq<char>> {
    Seq::new(args.len(), |i: int| args[i]@)
}

/// The arguments that make the tool extract `inner` from `archive` into
/// `out_dir`, overwriting without asking.
pub open spec fn extraction_args(archive: Seq<char>, inner: Seq<char>, out_dir: Seq<char>) -> Seq<
    Seq<char>,
> {
    seq!["e"@, archive, inner, "-o"@ + out_dir, "-y"@]
}

/// Where the metadata of the mod in `target_dir` is written.
pub open spec fn meta_location(target_dir: Seq<char>) -> Seq<char> {
    target_dir + separator() + "meta.json"@
}

/// The first check that fails, in the order in which the checks are made: the
/// archive path, the archive, the tool, the installation folder, the path
/// guard on the target. `None` when all pass.
pub open spec fn plan_fault(
    app_id: u32,
    details: InstallModDetails,
    base: Seq<char>,
    probe: InstallProbe,
) -> Option<InstallFault> {
    let target_dir = target(base, app_id, details.identifier@);
    if blank(details.zip_file_path@) {
        Some(InstallFault::ArchivePathEmpty)
    } else if !probe.archive_exists {
        Some(InstallFault::ArchiveNotFound(details.zip_file_path@))
    } else if probe.tool_path is None {
        Some(InstallFault::ToolNotFound)
    } else if !probe.base_is_dir {
        Some(InstallFault::InvalidInstallationPath)
    } else {
        match validation(target_dir, app_id, details.identifier@) {
            Err(fault) => Some(InstallFault::Path(fault)),
            Ok(()) => None,
        }
    }
}

/// The arguments for the extraction tool.
pub fn tool_arguments(archive: &str, inner: &str, out_dir: &str) -> (args: Vec<String>)
    ensures
        texts(args@) == extraction_args(archive@, inner@, out_dir@),
{
    let mut out_flag = "-o".to_owned();
    out_flag.append(out_dir);
    let mut args: Vec<String> = Vec::new();
    args.push("e".to_owned());
    args.push(archive.to_owned());
    args.push(inner.to_owned());
    args.push(out_flag);
    args.push("-y".to_owned());
    assert(texts(args@) =~= extraction_args(archive@, inner@, out_dir@));
    args
}

/// Decides whether the mod may be installed and, if so, where and how.
///
/// The checks are made in a fixed order and the first that fails gives the
/// error. The target folder is the installation folder, the application's
/// number and the mod's identifier, and no plan is handed out unless the path
/// guard accepts it.
pub fn plan_install(
    app_id: u32,
    details: &InstallModDetails,
    base: &str,
    probe: &InstallProbe,
) -> (r: Result<InstallPlan, InstallError>)
    ensures
        match r {
            Ok(plan) => {
                &&& plan_fault(app_id, *details, base@, *probe) is None
                &&& plan.target_dir@ == target(base@, app_id, details.identifier@)
                &&& plan.meta_path@ == meta_location(plan.target_dir@)
                &&& Some(plan.tool_path) == probe.tool_path
                &&& texts(plan.tool_args@) == extraction_args(
                    details.zip_file_path@,
                    details.pack_file_path@,
                    plan.target_dir@,
                )
            },
            Err(e) => plan_fault(app_id, *details, base@, *probe) == Some(e@),
        },
{
    if is_blank(details.zip_file_path.as_str()) {
        return Err(InstallError::ArchivePathEmpty);
    }
    if !probe.archive_exists {
        return Err(InstallError::ArchiveNotFound { path: details.zip_file_path.clone() });
    }
    let tool_path = match &probe.tool_path {
        Some(path) => path.clone(),
        None => {
            return Err(InstallError::ToolNotFound);
        },
    };
    if !probe.base_is_dir {
        return Err(InstallError::InvalidInstallationPath);
    }
    let target_dir = match InstallationTarget::resolve(base, app_id, details.identifier.as_str()) {
        Ok(found) => found.resolved_path().to_owned(),
        Err(e) => {
            return Err(InstallError::Path(e));
        },
    };
    let mut meta_path = target_dir.clone();
    meta_path.append("/");
    meta_path.append("meta.json");
    proof {
        reveal_strlit("/");
        assert(meta_path@ =~= meta_location(target_dir@));
    }
    let tool_args = tool_arguments(
        details.zip_file_path.as_str(),
        details.pack_file_path.as_str(),
        target_dir.as_str(),
    );
    Ok(InstallPlan { target_dir, meta_path, tool_path, tool_args })
}

/// The final component of `path`, as `std::path::Path::file_name` finds it.
/// Which characters part the components depends on the platform, so nothing
/// is claimed of the result.
#[verifier::external_body]
fn file_name_of(path: &str) -> (name: Option<String>) {
    match std::path::Path::new(path).file_name() {
        Some(name) => Some(name.to_string_lossy().into_owned()),
        None => None,
    }
}

/// The pack file's name as recorded: the name found, or a fixed text where
/// the path has no final component.
pub open spec fn recorded_pack_file(found: Option<Seq<char>>) -> Seq<char> {
    match found {
        Some(name) => name,
        None => "Invalid pack file path"@,
    }
}

/// The record for a mod installed from `details` at time `now`, given the
/// final component `found` of the pack file's path.
pub fn meta_for(details: &InstallModDetails, found: Option<String>, now: u64) -> (meta: ModMeta)
    ensures
        meta.identifier == details.identifier,
        meta.title == details.title,
        meta.pack_file@ == recorded_pack_file(
            match found {
                Some(name) => Some(name@),
                None => None,
            },
        ),
        meta.downloaded_url == details.downloaded_url,
        meta.description == details.description,
        meta.categories == details.categories,
        meta.url == details.url,
        meta.preview_url == details.preview_url,
        meta.version == details.version,
        meta.created_at == now,
{
    let pack_file = match found {
        Some(name) => name,
        None => "Invalid pack file path".to_owned(),
    };
    ModMeta {
        identifier: details.identifier.clone(),
        title: details.title.clone(),
        pack_file,
        downloaded_url: clone_text(&details.downloaded_url),
        description: clone_text(&details.description),
        categories: clone_text(&details.categories),
        url: clone_text(&details.url),
        preview_url: clone_text(&details.preview_url),
        version: clone_text(&details.version),
        created_at: now,
    }
}

/// The record for a mod installed from `details` at time `now`. The pack
/// file is recorded by the final component of its path on this platform.
pub fn build_meta(details: &InstallModDetails, now: u64) -> (meta: ModMeta)
    ensures
        meta.identifier == details.identifier,
        meta.title == details.title,
        meta.downloaded_url == details.downloaded_url,
        meta.description == details.description,
        meta.categories == details.categories,
        meta.url == details.url,
        meta.preview_url == details.preview_url,
        meta.version == details.version,
        meta.created_at == now,
{
    let found = file_name_of(details.pack_file_path.as_str());
    meta_for(details, found, now)
}

/// How a run of the extraction tool ended.
#[derive(Debug)]
pub struct ToolOutput {
    /// The tool's exit code was zero.
    pub success: bool,
    /// What the tool wrote to its error stream.
    pub stderr: String,
}

/// The failure that a run of the tool amounts to: `launch_error` where it
/// could not be started, else its error stream where its exit code was not
/// zero.
pub open spec fn extraction_fault(ran: Result<ToolOutput, String>) -> Option<InstallFault> {
    match ran {
        Err(detail) => Some(InstallFault::ToolLaunch(detail@)),
        Ok(output) => if output.success {
            None
        } else {
            Some(InstallFault::ToolFailed(output.stderr@))
        },
    }
}

/// Judges a run of the extraction tool.
pub fn extraction_result(ran: Result<ToolOutput, String>) -> (r: Result<(), InstallError>)
    ensures
        match r {
            Ok(()) => extraction_fault(ran) is None,
            Err(e) => extraction_fault(ran) == Some(e@),
        },
{
    match ran {
        Err(detail) => Err(InstallError::ToolLaunch { detail }),
        Ok(output) => {
            if output.success {
                Ok(())
            } else {
                Err(InstallError::ToolFailed { stderr: output.stderr })
            }
        },
    }
}

/// A plan is handed out only for a target that the path guard accepts, and
/// the guard never refuses a composed target for its structure: where
/// planning fails at the guard, the target is forbidden.
pub proof fn lemma_plan_is_guarded(
    app_id: u32,
    details: InstallModDetails,
    base: Seq<char>,
    probe: InstallProbe,
)
    ensures
        plan_fault(app_id, details, base, probe) is None ==> validation(
            target(base, app_id, details.identifier@),
            app_id,
            details.identifier@,
        ) is Ok,
        !(plan_fault(app_id, details, base, probe) matches Some(
            InstallFault::Path(PathFault::StructureMismatch(_)),
        )),
{
    crate::path_guard::lemma_target_below_base(base, app_id, details.identifier@);
}

} // verus!
