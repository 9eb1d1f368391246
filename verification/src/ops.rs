//! Mutation executor: the decisions, destination paths, result nodes and
//! progress events of the structural operations. Each operation is a
//! single-shot action; the caller performs the filesystem work in the
//! planned order and aborts at the first failing step.

use crate::classify::EntryKind;
use crate::errors::WsError;
use crate::events::{info_event, success_event, EventKind, WorkspaceEvent};
use crate::manifest::{
    manifest_file_name, manifest_from_request, manifest_name_view, CreateProjectRequest,
    ProjectManifest, CURRENT_FILE_VERSION,
};
use crate::node::ProjectNode;
use crate::text::{
    base_name, base_name_view, join, join_view, last_sep, parent_view, split_path,
};
use vstd::prelude::*;

verus! {

/// A loaded or freshly created project workspace: the manifest together
/// with the snapshot of the project root.
pub struct ProjectStructure {
    pub manifest: ProjectManifest,
    pub files: Vec<ProjectNode>,
}

/// Guards a destination: creating, renaming or moving onto an existing
/// path is a collision, and the filesystem is left unchanged.
pub fn ensure_target_free(target_exists: bool) -> (r: Result<(), WsError>)
    ensures
        r is Ok <==> !target_exists,
        r matches Err(e) ==> e is AlreadyExists,
{
    if target_exists {
        Err(WsError::AlreadyExists)
    } else {
        Ok(())
    }
}

/// The destination path of a rename: the entry keeps its parent and takes
/// the new name. A path that does not name an entry under a parent is
/// invalid: one without a separator (the engine's paths are absolute, so
/// a bare name has no parent here), and one without a base name (the
/// root, or a trailing separator).
pub fn rename_target(old_path: &String, new_name: &String) -> (r: Result<String, WsError>)
    ensures
        r matches Ok(p) ==> {
            &&& last_sep(old_path@) >= 0
            &&& base_name_view(old_path@).len() > 0
            &&& p@ == join_view(parent_view(old_path@), new_name@)
        },
        r matches Err(e) ==> e is InvalidPath,
        r is Ok <==> (last_sep(old_path@) >= 0 && base_name_view(old_path@).len() > 0),
{
    match split_path(old_path) {
        Some((parent, name)) => {
            if name.as_str().unicode_len() == 0 {
                Err(WsError::InvalidPath)
            } else {
                Ok(join(&parent, new_name))
            }
        },
        None => Err(WsError::InvalidPath),
    }
}

/// Builds a message of the shape `prefix` followed by `rest`.
fn prefix_msg(prefix: &str, rest: &str) -> (r: String)
    ensures
        r@ == prefix@ + rest@,
{
    let mut r = prefix.to_owned();
    r.append(rest);
    r
}

/// The snapshot node a successful move returns: it sits at the
/// destination path; a moved directory carries the fresh scan of its
/// subtree handed in by the caller, a moved file carries no children.
pub fn moved_node(destination: &String, is_dir: bool, scanned: Vec<ProjectNode>) -> (r: Result<
    ProjectNode,
    WsError,
>)
    ensures
        r matches Ok(n) ==> ({
            &&& base_name_view(destination@).len() > 0
            &&& n.path@ == destination@
            &&& n.name@ == base_name_view(destination@)
            &&& n.kind == (if is_dir {
                EntryKind::Directory
            } else {
                EntryKind::File
            })
            &&& n.children == (if is_dir {
                Some(scanned)
            } else {
                None::<Vec<ProjectNode>>
            })
        }),
        r matches Err(e) ==> e is InvalidPath && base_name_view(destination@).len() == 0,
        r is Ok <==> base_name_view(destination@).len() > 0,
{
    let name = base_name(destination);
    if name.as_str().unicode_len() == 0 {
        return Err(WsError::InvalidPath);
    }
    Ok(
        ProjectNode {
            path: destination.clone(),
            name,
            kind: if is_dir {
                EntryKind::Directory
            } else {
                EntryKind::File
            },
            children: if is_dir {
                Some(scanned)
            } else {
                None
            },
        },
    )
}

/// Message announcing a move.
pub open spec fn moving_msg(source: Seq<char>, destination: Seq<char>) -> Seq<char> {
    "Moving file: "@ + source + " to "@ + destination
}

/// Message reporting a completed move.
pub open spec fn moved_msg(source: Seq<char>, destination: Seq<char>) -> Seq<char> {
    "File moved: "@ + source + " to "@ + destination
}

/// The ordered pair of progress events of a move: the announcement to
/// emit before the filesystem work, and the terminal success event.
pub fn move_events(source: &String, destination: &String) -> (pair: (
    WorkspaceEvent,
    WorkspaceEvent,
))
    ensures
        pair.0.kind == EventKind::Info,
        pair.0.message@ == moving_msg(source@, destination@),
        pair.1.kind == EventKind::Success,
        pair.1.message@ == moved_msg(source@, destination@),
{
    let mut m0 = prefix_msg("Moving file: ", source.as_str());
    m0.append(" to ");
    m0.append(destination.as_str());
    let mut m1 = prefix_msg("File moved: ", source.as_str());
    m1.append(" to ");
    m1.append(destination.as_str());
    (info_event(m0), success_event(m1))
}

/// Message announcing a folder creation.
pub open spec fn creating_folder_msg(name: Seq<char>) -> Seq<char> {
    "Creating folder: "@ + name
}

/// Message reporting a created folder.
pub open spec fn folder_created_msg(name: Seq<char>) -> Seq<char> {
    "Folder created: "@ + name
}

/// The progress event announcing a folder creation; it precedes the
/// collision check.
pub fn create_folder_start_event(name: &String) -> (e: WorkspaceEvent)
    ensures
        e.kind == EventKind::Info,
        e.message@ == creating_folder_msg(name@),
{
    info_event(prefix_msg("Creating folder: ", name.as_str()))
}

/// The terminal success event of a folder creation.
pub fn create_folder_done_event(name: &String) -> (e: WorkspaceEvent)
    ensures
        e.kind == EventKind::Success,
        e.message@ == folder_created_msg(name@),
{
    success_event(prefix_msg("Folder created: ", name.as_str()))
}

/// The node a successful folder creation returns: the new directory under
/// the parent, with an empty child sequence.
pub fn folder_node(parent: &String, name: String) -> (n: ProjectNode)
    ensures
        n.path@ == join_view(parent@, name@),
        n.name == name,
        n.kind == EntryKind::Directory,
        n.children matches Some(c) && c@ == Seq::<ProjectNode>::empty(),
{
    let path = join(parent, &name);
    ProjectNode { path, name, kind: EntryKind::Directory, children: Some(Vec::new()) }
}

/// Message announcing a deletion of this entry.
pub open spec fn deleting_msg(name: Seq<char>) -> Seq<char> {
    "Deleting: "@ + name
}

/// Message reporting a completed deletion.
pub open spec fn deleted_msg(name: Seq<char>) -> Seq<char> {
    "Deleted: "@ + name
}

/// The ordered pair of progress events of a deletion, named after the
/// entry's base name. A path without a base name cannot be deleted.
pub fn delete_events(path: &String) -> (r: Result<(WorkspaceEvent, WorkspaceEvent), WsError>)
    ensures
        r matches Ok(pair) ==> ({
            &&& base_name_view(path@).len() > 0
            &&& pair.0.kind == EventKind::Info
            &&& pair.0.message@ == deleting_msg(base_name_view(path@))
            &&& pair.1.kind == EventKind::Success
            &&& pair.1.message@ == deleted_msg(base_name_view(path@))
        }),
        r matches Err(e) ==> e is InvalidPath && base_name_view(path@).len() == 0,
        r is Ok <==> base_name_view(path@).len() > 0,
{
    let name = base_name(path);
    if name.as_str().unicode_len() == 0 {
        return Err(WsError::InvalidPath);
    }
    let start = info_event(prefix_msg("Deleting: ", name.as_str()));
    let done = success_event(prefix_msg("Deleted: ", name.as_str()));
    Ok((start, done))
}

/// The relative path of the `k`-th standard subdirectory created under a
/// new project root, in creation order.
pub open spec fn standard_dir(k: int) -> Seq<char> {
    if k == 0 {
        "Content"@
    } else if k == 1 {
        "Content/Characters"@
    } else if k == 2 {
        "Content/Backgrounds"@
    } else if k == 3 {
        "Content/Music"@
    } else if k == 4 {
        "Content/SoundEffects"@
    } else if k == 5 {
        "Content/Scripts"@
    } else if k == 6 {
        "Content/UI"@
    } else if k == 7 {
        "Config"@
    } else if k == 8 {
        "Saved"@
    } else if k == 9 {
        "Saved/Logs"@
    } else {
        "Saved/Backup"@
    }
}

/// How many standard subdirectories a new project receives.
pub open spec fn standard_dir_count() -> int {
    11
}

/// The standard subdirectories, in creation order.
pub fn standard_dirs() -> (v: Vec<String>)
    ensures
        v@.len() == standard_dir_count(),
        forall|k: int| 0 <= k < v@.len() ==> #[trigger] v@[k]@ == standard_dir(k),
{
    let mut v: Vec<String> = Vec::new();
    v.push(String::from_str("Content"));
    v.push(String::from_str("Content/Characters"));
    v.push(String::from_str("Content/Backgrounds"));
    v.push(String::from_str("Content/Music"));
    v.push(String::from_str("Content/SoundEffects"));
    v.push(String::from_str("Content/Scripts"));
    v.push(String::from_str("Content/UI"));
    v.push(String::from_str("Config"));
    v.push(String::from_str("Saved"));
    v.push(String::from_str("Saved/Logs"));
    v.push(String::from_str("Saved/Backup"));
    v
}

/// One step of a project-creation plan; the steps are performed in order
/// and the first failing step aborts the remainder, leaving earlier steps
/// in place.
pub enum ProjectStep {
    /// Create this directory together with any missing ancestors.
    MakeDir(String),
    /// Emit this progress event.
    Emit(WorkspaceEvent),
    /// Write the manifest document at this path.
    WriteManifest(String),
}

/// Message announcing the whole creation.
pub open spec fn starting_msg() -> Seq<char> {
    "Starting project creation..."@
}

/// Per-step message announcing one standard subdirectory.
pub open spec fn creating_dir_msg(d: Seq<char>) -> Seq<char> {
    "Creating directory: "@ + d
}

/// Message announcing the manifest write.
pub open spec fn creating_config_msg() -> Seq<char> {
    "Creating project configuration..."@
}

/// Terminal message of a successful creation.
pub open spec fn project_created_msg() -> Seq<char> {
    "Project created successfully!"@
}

/// The ordered steps that create a project of this name under this root:
/// the project directory itself, the announcement, one announcement and
/// one directory per standard subdirectory, then the manifest write
/// framed by its announcement and the terminal success event.
pub open spec fn plan_steps_ok(steps: Seq<ProjectStep>, dir: Seq<char>, name: Seq<char>) -> bool {
    let n = standard_dir_count();
    &&& steps.len() == 2 * n + 5
    &&& steps[0] matches ProjectStep::MakeDir(p) && p@ == dir
    &&& steps[1] matches ProjectStep::Emit(e) && e.kind == EventKind::Info && e.message@
        == starting_msg()
    &&& forall|k: int| 0 <= k < n ==> ((#[trigger] steps[2 + 2 * k]) matches ProjectStep::Emit(e)
        && e.kind == EventKind::Info && e.message@ == creating_dir_msg(standard_dir(k)))
    &&& forall|k: int| 0 <= k < n ==> ((#[trigger] steps[3 + 2 * k]) matches ProjectStep::MakeDir(
        p,
    ) && p@ == join_view(dir, standard_dir(k)))
    &&& steps[2 * n + 2] matches ProjectStep::Emit(e) && e.kind == EventKind::Info && e.message@
        == creating_config_msg()
    &&& steps[2 * n + 3] matches ProjectStep::WriteManifest(p) && p@ == join_view(
        dir,
        manifest_name_view(name),
    )
    &&& steps[2 * n + 4] matches ProjectStep::Emit(e) && e.kind == EventKind::Success
        && e.message@ == project_created_msg()
}

/// A project-creation plan: where the project lives, the manifest to
/// write, and the ordered steps that create it on disk.
pub struct ProjectPlan {
    pub project_dir: String,
    pub manifest_path: String,
    pub manifest: ProjectManifest,
    pub steps: Vec<ProjectStep>,
}

/// Plans the whole creation of a project. The caller supplies the freshly
/// generated project identifier, performs the steps in order, stops at
/// the first failure, and on success scans the new project directory.
pub fn plan_create_project(req: CreateProjectRequest, project_id: String) -> (plan: ProjectPlan)
    ensures
        plan.project_dir@ == join_view(req.path@, req.name@),
        plan.manifest_path@ == join_view(plan.project_dir@, manifest_name_view(req.name@)),
        plan_steps_ok(plan.steps@, plan.project_dir@, req.name@),
        plan.manifest.file_version == CURRENT_FILE_VERSION,
        plan.manifest.project_id == project_id,
        plan.manifest.project_name == req.name,
        plan.manifest.engine_version == req.engine,
        plan.manifest.description == req.description,
        plan.manifest.author == req.author,
        plan.manifest.settings.resolution == req.settings.resolution,
        plan.manifest.settings.text_speed == req.settings.text_speed,
        plan.manifest.settings.auto_save_interval == req.settings.auto_save_interval,
        plan.manifest.build.output_format == req.build.output_format,
        plan.manifest.build.target_platforms == req.build.target_platforms,
        plan.manifest.editor_state.last_opened_files@ == Seq::<String>::empty(),
        plan.manifest.editor_state.recent_scenes@ == Seq::<String>::empty(),
{
    let project_dir = join(&req.path, &req.name);
    let file_name = manifest_file_name(&req.name);
    let manifest_path = join(&project_dir, &file_name);
    let dirs = standard_dirs();
    let mut steps: Vec<ProjectStep> = Vec::new();
    steps.push(ProjectStep::MakeDir(project_dir.clone()));
    steps.push(ProjectStep::Emit(info_event(String::from_str("Starting project creation..."))));
    let mut k: usize = 0;
    while k < dirs.len()
        invariant
            k <= dirs@.len(),
            dirs@.len() == standard_dir_count(),
            forall|j: int| 0 <= j < dirs@.len() ==> #[trigger] dirs@[j]@ == standard_dir(j),
            project_dir@ == join_view(req.path@, req.name@),
            steps@.len() == 2 + 2 * k,
            steps@[0] matches ProjectStep::MakeDir(p) && p@ == project_dir@,
            steps@[1] matches ProjectStep::Emit(e) && e.kind == EventKind::Info && e.message@
                == starting_msg(),
            forall|j: int| 0 <= j < k ==> ((#[trigger] steps@[2 + 2 * j]) matches
                ProjectStep::Emit(e) && e.kind == EventKind::Info && e.message@
                == creating_dir_msg(standard_dir(j))),
            forall|j: int| 0 <= j < k ==> ((#[trigger] steps@[3 + 2 * j]) matches
                ProjectStep::MakeDir(p) && p@ == join_view(project_dir@, standard_dir(j))),
        decreases dirs@.len() - k,
    {
        let msg = prefix_msg("Creating directory: ", dirs[k].as_str());
        steps.push(ProjectStep::Emit(info_event(msg)));
        steps.push(ProjectStep::MakeDir(join(&project_dir, &dirs[k])));
        k = k + 1;
    }
    steps.push(
        ProjectStep::Emit(info_event(String::from_str("Creating project configuration..."))),
    );
    steps.push(ProjectStep::WriteManifest(manifest_path.clone()));
    steps.push(
        ProjectStep::Emit(success_event(String::from_str("Project created successfully!"))),
    );
    let manifest = manifest_from_request(req, project_id);
    ProjectPlan { project_dir, manifest_path, manifest, steps }
}

} // verus!
