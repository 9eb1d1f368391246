//! The project manifest: identity, settings and build configuration of a
//! project, stored as a single document at the project root, named after
//! the project with the fixed manifest extension.

use crate::errors::WsError;
use crate::text::{join_view, last_sep, parent_view, split_path};
use vstd::prelude::*;

verus! {

/// The schema version this engine writes and accepts.
pub const CURRENT_FILE_VERSION: i32 = 1;

/// Display resolution in pixels.
pub struct Resolution {
    pub width: i32,
    pub height: i32,
}

/// User-facing project settings.
pub struct ProjectSettings {
    pub resolution: Resolution,
    pub text_speed: i32,
    pub auto_save_interval: i32,
}

/// Build configuration: output format and ordered target platforms.
pub struct BuildSettings {
    pub output_format: String,
    pub target_platforms: Vec<String>,
}

/// Editor bookkeeping carried inside the manifest.
pub struct EditorState {
    pub last_opened_files: Vec<String>,
    pub recent_scenes: Vec<String>,
}

/// The manifest document. The project identifier is assigned exactly
/// once, at creation, and never regenerated on load; the schema version
/// is checked before the rest of the document is interpreted.
pub struct ProjectManifest {
    pub file_version: i32,
    pub project_id: String,
    pub project_name: String,
    pub engine_version: String,
    pub description: String,
    pub author: String,
    pub settings: ProjectSettings,
    pub build: BuildSettings,
    pub editor_state: EditorState,
}

/// Settings supplied with a creation request.
pub struct RequestSettings {
    pub resolution: Resolution,
    pub text_speed: i32,
    pub auto_save_interval: i32,
    pub language: String,
}

/// Build configuration supplied with a creation request.
pub struct RequestBuild {
    pub output_format: String,
    pub target_platforms: Vec<String>,
}

/// A request to create a project: its name, the directory to create it
/// under, and the initial manifest contents.
pub struct CreateProjectRequest {
    pub name: String,
    pub path: String,
    pub engine: String,
    pub author: String,
    pub description: String,
    pub settings: RequestSettings,
    pub build: RequestBuild,
}

/// Synthesizes the manifest for a creation request. The caller supplies
/// the freshly generated project identifier; everything else comes from
/// the request, and the schema version is fixed to the current value.
pub fn manifest_from_request(req: CreateProjectRequest, project_id: String) -> (m: ProjectManifest)
    ensures
        m.file_version == CURRENT_FILE_VERSION,
        m.project_id == project_id,
        m.project_name == req.name,
        m.engine_version == req.engine,
        m.description == req.description,
        m.author == req.author,
        m.settings.resolution == req.settings.resolution,
        m.settings.text_speed == req.settings.text_speed,
        m.settings.auto_save_interval == req.settings.auto_save_interval,
        m.build.output_format == req.build.output_format,
        m.build.target_platforms == req.build.target_platforms,
        m.editor_state.last_opened_files@ == Seq::<String>::empty(),
        m.editor_state.recent_scenes@ == Seq::<String>::empty(),
{
    ProjectManifest {
        file_version: CURRENT_FILE_VERSION,
        project_id,
        project_name: req.name,
        engine_version: req.engine,
        description: req.description,
        author: req.author,
        settings: ProjectSettings {
            resolution: req.settings.resolution,
            text_speed: req.settings.text_speed,
            auto_save_interval: req.settings.auto_save_interval,
        },
        build: BuildSettings {
            output_format: req.build.output_format,
            target_platforms: req.build.target_platforms,
        },
        editor_state: EditorState { last_opened_files: Vec::new(), recent_scenes: Vec::new() },
    }
}

/// Checks the schema version before the rest of the document may be
/// interpreted; an unknown version is a parse error, never coerced.
pub fn validate_version(m: &ProjectManifest) -> (r: Result<(), WsError>)
    ensures
        r is Ok <==> m.file_version == CURRENT_FILE_VERSION,
        r matches Err(e) ==> e is ParseError,
{
    if m.file_version == CURRENT_FILE_VERSION {
        Ok(())
    } else {
        Err(WsError::ParseError(String::from_str("unsupported project file version")))
    }
}

/// The manifest extension, with its leading dot.
pub open spec fn manifest_ext() -> Seq<char> {
    ".sora"@
}

/// The manifest file name for a project of this name.
pub open spec fn manifest_name_view(name: Seq<char>) -> Seq<char> {
    name + manifest_ext()
}

/// Builds the manifest file name for a project of this name.
pub fn manifest_file_name(name: &String) -> (r: String)
    ensures
        r@ == manifest_name_view(name@),
{
    let mut r = name.clone();
    r.append(".sora");
    r
}

/// Whether a file name carries the manifest extension (with a non-empty
/// stem before it).
pub open spec fn spec_has_manifest_ext(n: Seq<char>) -> bool {
    n.len() > manifest_ext().len() && n.subrange(
        n.len() - manifest_ext().len(),
        n.len() as int,
    ) == manifest_ext()
}

/// Decides whether a file name carries the manifest extension.
pub fn has_manifest_ext(name: &String) -> (r: bool)
    ensures
        r == spec_has_manifest_ext(name@),
{
    proof {
        reveal_strlit(".sora");
    }
    let s = name.as_str();
    let len = s.unicode_len();
    if len <= 5 {
        return false;
    }
    let tail = s.substring_char(len - 5, len).to_owned();
    let ext = String::from_str(".sora");
    tail.eq(&ext)
}

/// Index of the first entry from position `i` on whose name carries the
/// manifest extension; the sequence length when there is none.
pub open spec fn first_manifest_at(entries: Seq<String>, i: int) -> int
    decreases entries.len() - i,
{
    if i < 0 || i >= entries.len() {
        entries.len() as int
    } else if spec_has_manifest_ext(entries[i]@) {
        i
    } else {
        first_manifest_at(entries, i + 1)
    }
}

/// Locates the manifest file of a project. A path that is itself a
/// manifest file is returned unchanged; inside a directory, the first
/// enumerated entry with the manifest extension is selected; otherwise
/// the manifest is absent.
///
/// `is_file` and `is_dir` say what the path resolved to; `entries` holds
/// the base names of the directory's entries in enumeration order, and is
/// ignored unless the path is a directory.
pub fn locate_manifest(
    path: &String,
    is_file: bool,
    is_dir: bool,
    entries: &Vec<String>,
) -> (r: Result<String, WsError>)
    ensures
        r matches Ok(p) ==> ({
            if is_file && spec_has_manifest_ext(path@) {
                p@ == path@
            } else {
                &&& is_dir
                &&& first_manifest_at(entries@, 0) < entries@.len()
                &&& p@ == join_view(path@, entries@[first_manifest_at(entries@, 0)]@)
            }
        }),
        r matches Err(e) ==> {
            &&& e is NotFound
            &&& !(is_file && spec_has_manifest_ext(path@))
            &&& (is_dir ==> first_manifest_at(entries@, 0) == entries@.len())
        },
        r is Ok <==> ((is_file && spec_has_manifest_ext(path@)) || (is_dir && first_manifest_at(
            entries@,
            0,
        ) < entries@.len())),
{
    if is_file && has_manifest_ext(path) {
        return Ok(path.clone());
    }
    if is_dir {
        let mut i: usize = 0;
        loop
            invariant
                i <= entries@.len(),
                first_manifest_at(entries@, 0) == first_manifest_at(entries@, i as int),
            ensures
                i <= entries@.len(),
                first_manifest_at(entries@, 0) == first_manifest_at(entries@, i as int),
                i < entries@.len() ==> first_manifest_at(entries@, i as int) == i,
                i == entries@.len() ==> first_manifest_at(entries@, 0) == entries@.len(),
            decreases entries@.len() - i,
        {
            if i >= entries.len() {
                break;
            }
            if has_manifest_ext(&entries[i]) {
                break;
            }
            i = i + 1;
        }
        if i < entries.len() {
            return Ok(crate::text::join(path, &entries[i]));
        }
    }
    Err(WsError::NotFound)
}

/// The project directory for a load request: the path itself when it is a
/// directory, the parent directory when the path points at the manifest
/// file, and invalid when such a path has no parent.
pub fn project_dir_of(path: &String, is_file: bool) -> (r: Result<String, WsError>)
    ensures
        r matches Ok(d) ==> ({
            if is_file {
                last_sep(path@) >= 0 && d@ == parent_view(path@)
            } else {
                d@ == path@
            }
        }),
        r matches Err(e) ==> e is InvalidPath && is_file && last_sep(path@) == -1,
        r is Ok <==> (!is_file || last_sep(path@) >= 0),
{
    if is_file {
        match split_path(path) {
            Some((parent, _name)) => Ok(parent),
            None => Err(WsError::InvalidPath),
        }
    } else {
        Ok(path.clone())
    }
}

} // verus!
