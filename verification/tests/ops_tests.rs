use sora_workspace::classify::EntryKind;
use sora_workspace::errors::WsError;
use sora_workspace::events::EventKind;
use sora_workspace::fresh_project_id;
use sora_workspace::manifest::{
    validate_version, CreateProjectRequest, RequestBuild, RequestSettings, Resolution,
};
use sora_workspace::node::ProjectNode;
use sora_workspace::ops::{
    create_folder_done_event, create_folder_start_event, delete_events, ensure_target_free,
    folder_node, move_events, moved_node, plan_create_project, rename_target, standard_dirs,
    ProjectStep,
};
use sora_workspace::scan::{scan_tree, RawEntry};
use sora_workspace::to_string_error;

fn demo_request() -> CreateProjectRequest {
    CreateProjectRequest {
        name: "Demo".to_string(),
        path: "/tmp".to_string(),
        engine: "1.0".to_string(),
        author: "ada".to_string(),
        description: "a demo".to_string(),
        settings: RequestSettings {
            resolution: Resolution { width: 1280, height: 720 },
            text_speed: 30,
            auto_save_interval: 5,
            language: "en".to_string(),
        },
        build: RequestBuild {
            output_format: "react-native".to_string(),
            target_platforms: vec!["android".to_string(), "ios".to_string()],
        },
    }
}

fn same_nodes(a: &[ProjectNode], b: &[ProjectNode]) -> bool {
    if a.len() != b.len() {
        return false;
    }
    for i in 0..a.len() {
        if a[i].path != b[i].path || a[i].name != b[i].name || a[i].kind != b[i].kind {
            return false;
        }
        match (&a[i].children, &b[i].children) {
            (None, None) => {},
            (Some(ca), Some(cb)) => {
                if !same_nodes(ca, cb) {
                    return false;
                }
            },
            _ => return false,
        }
    }
    true
}

#[test]
fn occupied_destination_is_a_collision() {
    assert!(matches!(ensure_target_free(true), Err(WsError::AlreadyExists)));
    assert!(ensure_target_free(false).is_ok());
}

#[test]
fn rename_keeps_the_parent() {
    let r = rename_target(&"/p/old.txt".to_string(), &"new.txt".to_string());
    assert_eq!(r.unwrap(), "/p/new.txt");
}

#[test]
fn rename_of_parentless_path_is_invalid() {
    let r = rename_target(&"old.txt".to_string(), &"new.txt".to_string());
    assert!(matches!(r, Err(WsError::InvalidPath)));
}

#[test]
fn rename_of_path_without_base_name_is_invalid() {
    let root = rename_target(&"/".to_string(), &"new.txt".to_string());
    assert!(matches!(root, Err(WsError::InvalidPath)));
    let trailing = rename_target(&"a/b/".to_string(), &"new.txt".to_string());
    assert!(matches!(trailing, Err(WsError::InvalidPath)));
}

#[test]
fn moved_directory_carries_a_fresh_scan() {
    let tree = vec![RawEntry {
        path: "/q/d/inner.txt".to_string(),
        name: "inner.txt".to_string(),
        kind: EntryKind::File,
        children: vec![],
    }];
    let scanned = scan_tree(&tree);
    let node = moved_node(&"/q/d".to_string(), true, scanned).unwrap();
    assert_eq!(node.path, "/q/d");
    assert_eq!(node.name, "d");
    assert_eq!(node.kind, EntryKind::Directory);
    let fresh = scan_tree(&tree);
    assert!(same_nodes(node.children.as_ref().unwrap(), &fresh));
}

#[test]
fn moved_file_has_no_children() {
    let node = moved_node(&"/q/a.txt".to_string(), false, vec![]).unwrap();
    assert_eq!(node.path, "/q/a.txt");
    assert_eq!(node.name, "a.txt");
    assert_eq!(node.kind, EntryKind::File);
    assert!(node.children.is_none());
}

#[test]
fn move_to_nameless_destination_is_invalid() {
    assert!(matches!(moved_node(&"/".to_string(), true, vec![]), Err(WsError::InvalidPath)));
}

#[test]
fn move_events_name_both_paths() {
    let (start, done) = move_events(&"/a/x".to_string(), &"/b/x".to_string());
    assert_eq!(start.kind, EventKind::Info);
    assert_eq!(start.message, "Moving file: /a/x to /b/x");
    assert_eq!(done.kind, EventKind::Success);
    assert_eq!(done.message, "File moved: /a/x to /b/x");
}

#[test]
fn folder_creation_pieces() {
    let start = create_folder_start_event(&"Art".to_string());
    assert_eq!(start.kind, EventKind::Info);
    assert_eq!(start.message, "Creating folder: Art");
    let node = folder_node(&"/p".to_string(), "Art".to_string());
    assert_eq!(node.path, "/p/Art");
    assert_eq!(node.name, "Art");
    assert_eq!(node.kind, EntryKind::Directory);
    assert_eq!(node.children.as_ref().unwrap().len(), 0);
    let done = create_folder_done_event(&"Art".to_string());
    assert_eq!(done.kind, EventKind::Success);
    assert_eq!(done.message, "Folder created: Art");
}

#[test]
fn delete_events_name_the_entry() {
    let (start, done) = delete_events(&"/p/old".to_string()).unwrap();
    assert_eq!(start.kind, EventKind::Info);
    assert_eq!(start.message, "Deleting: old");
    assert_eq!(done.kind, EventKind::Success);
    assert_eq!(done.message, "Deleted: old");
    assert!(matches!(delete_events(&"/".to_string()), Err(WsError::InvalidPath)));
}

#[test]
fn standard_directories_in_creation_order() {
    let dirs = standard_dirs();
    let names: Vec<&str> = dirs.iter().map(|d| d.as_str()).collect();
    assert_eq!(
        names,
        vec![
            "Content",
            "Content/Characters",
            "Content/Backgrounds",
            "Content/Music",
            "Content/SoundEffects",
            "Content/Scripts",
            "Content/UI",
            "Config",
            "Saved",
            "Saved/Logs",
            "Saved/Backup",
        ]
    );
}

#[test]
fn project_plan_steps_in_order() {
    let plan = plan_create_project(demo_request(), "id-42".to_string());
    assert_eq!(plan.project_dir, "/tmp/Demo");
    assert_eq!(plan.manifest_path, "/tmp/Demo/Demo.sora");
    assert_eq!(plan.steps.len(), 27);
    assert!(matches!(&plan.steps[0], ProjectStep::MakeDir(p) if p == "/tmp/Demo"));
    assert!(matches!(
        &plan.steps[1],
        ProjectStep::Emit(e)
            if e.kind == EventKind::Info && e.message == "Starting project creation..."
    ));
    assert!(matches!(
        &plan.steps[2],
        ProjectStep::Emit(e)
            if e.kind == EventKind::Info && e.message == "Creating directory: Content"
    ));
    assert!(matches!(&plan.steps[3], ProjectStep::MakeDir(p) if p == "/tmp/Demo/Content"));
    assert!(matches!(
        &plan.steps[23],
        ProjectStep::MakeDir(p) if p == "/tmp/Demo/Saved/Backup"
    ));
    assert!(matches!(
        &plan.steps[24],
        ProjectStep::Emit(e)
            if e.kind == EventKind::Info && e.message == "Creating project configuration..."
    ));
    assert!(matches!(&plan.steps[25], ProjectStep::WriteManifest(p) if p == "/tmp/Demo/Demo.sora"));
    assert!(matches!(
        &plan.steps[26],
        ProjectStep::Emit(e)
            if e.kind == EventKind::Success && e.message == "Project created successfully!"
    ));
}

#[test]
fn planned_manifest_round_trips_identity() {
    let plan = plan_create_project(demo_request(), "id-42".to_string());
    let m = &plan.manifest;
    assert_eq!(m.project_id, "id-42");
    assert_eq!(m.project_name, "Demo");
    assert_eq!(m.settings.resolution.width, 1280);
    assert_eq!(m.settings.text_speed, 30);
    assert_eq!(m.settings.auto_save_interval, 5);
    assert!(validate_version(m).is_ok());
}

#[test]
fn fresh_identifiers_render_hyphenated() {
    let a = fresh_project_id();
    let b = fresh_project_id();
    assert_eq!(a.chars().count(), 36);
    assert_eq!(b.chars().count(), 36);
    assert_ne!(a, b);
}

#[test]
fn error_rendering_uses_display() {
    let err = "12x".parse::<i32>().unwrap_err();
    assert_eq!(to_string_error(err.clone()), err.to_string());
}

#[test]
fn created_project_snapshot_contains_all_standard_subdirectories() {
    // mirror on a raw tree what the plan's directory steps lay out on disk
    let plan = plan_create_project(demo_request(), "id-7".to_string());
    let mut dir_paths: Vec<String> = Vec::new();
    for step in plan.steps.iter() {
        if let ProjectStep::MakeDir(p) = step {
            dir_paths.push(p.clone());
        }
    }
    assert_eq!(dir_paths.len(), 12); // the project root and its eleven subdirectories
    let root = &dir_paths[0];

    fn insert_into(tree: &mut Vec<RawEntry>, prefix: &str, rel: &str) {
        let (head, rest) = match rel.find('/') {
            Some(i) => (&rel[..i], Some(&rel[i + 1..])),
            None => (rel, None),
        };
        let path = format!("{}/{}", prefix, head);
        if !tree.iter().any(|e| e.name == head) {
            tree.push(RawEntry {
                path: path.clone(),
                name: head.to_string(),
                kind: EntryKind::Directory,
                children: vec![],
            });
        }
        if let Some(rest) = rest {
            let slot = tree.iter_mut().find(|e| e.name == head).unwrap();
            insert_into(&mut slot.children, &path, rest);
        }
    }

    let mut tree: Vec<RawEntry> = Vec::new();
    for p in dir_paths[1..].iter() {
        insert_into(&mut tree, root, &p[root.len() + 1..]);
    }
    let snapshot = scan_tree(&tree);

    fn contains(nodes: &[ProjectNode], rel: &str) -> bool {
        let (head, rest) = match rel.find('/') {
            Some(i) => (&rel[..i], Some(&rel[i + 1..])),
            None => (rel, None),
        };
        match nodes.iter().find(|n| n.name == head) {
            None => false,
            Some(n) => match rest {
                None => true,
                Some(rest) => match &n.children {
                    Some(c) => contains(c, rest),
                    None => false,
                },
            },
        }
    }

    for d in standard_dirs().iter() {
        assert!(contains(&snapshot, d), "missing standard subdirectory {}", d);
    }
}
