use hachimi::plugins::{files_are_equal, get_so_files, has_so_extension, is_so_file_name, plan_plugin_sync,
    select_plugins, step_needs_copy, loadable_plugin_names, FileStamp, NameSet, PluginRecord, StepKind, SyncStep};
use std::collections::BTreeSet;

fn names(list: &[&str]) -> Vec<String> {
    list.iter().map(|s| s.to_string()).collect()
}

fn set_of(list: &[&str]) -> NameSet {
    let mut set = NameSet::new();
    for n in list {
        set.insert(n.to_string());
    }
    set
}

fn sorted(set: &NameSet) -> Vec<String> {
    let mut v = set.to_vec();
    v.sort();
    v
}

#[test]
fn so_file_names() {
    assert!(is_so_file_name("libfoo.so"));
    assert!(is_so_file_name(".so"));
    assert!(is_so_file_name("a.b.so"));
    assert!(!is_so_file_name("libfoo.so.1"));
    assert!(!is_so_file_name("so"));
    assert!(!is_so_file_name("libfoo.SO"));
    assert!(!is_so_file_name(""));
}

#[test]
fn so_extension_follows_path_rules() {
    for n in ["libfoo.so", "a.b.so", "..so", "x.so", "日本.so"] {
        assert_eq!(has_so_extension(n), std::path::Path::new(n).extension().map(|e| e == "so").unwrap_or(false));
        assert!(has_so_extension(n));
    }
    for n in [".so", "so", "libfoo.so.1", "foo", "..", "foo.", "libfoo.SO"] {
        assert_eq!(has_so_extension(n), std::path::Path::new(n).extension().map(|e| e == "so").unwrap_or(false));
        assert!(!has_so_extension(n));
    }
}

#[test]
fn loaded_plugin_files_are_also_synced() {
    for n in ["libfoo.so", "a.b.so", "..so", ".so", "x", "x.so.2"] {
        if has_so_extension(n) {
            assert!(is_so_file_name(n));
        }
    }
    assert!(is_so_file_name(".so") && !has_so_extension(".so"));
}

#[test]
fn so_file_set_keeps_only_shared_libraries() {
    let set = get_so_files(names(&["a.so", "readme.txt", "b.so", "a.so", ".so", "c.so.1"]));
    assert_eq!(sorted(&set), names(&[".so", "a.so", "b.so"]));
    assert!(set.contains("a.so"));
    assert!(!set.contains("readme.txt"));
    assert!(sorted(&get_so_files(vec![])).is_empty());
}

#[test]
fn name_set_basics() {
    let mut set = NameSet::new();
    assert!(set.to_vec().is_empty());
    assert!(set.insert("x.so".to_string()));
    assert!(!set.insert("x.so".to_string()));
    assert!(set.contains("x.so"));
    assert!(!set.contains("y.so"));
    assert_eq!(set.to_vec(), names(&["x.so"]));
}

fn apply(private: &NameSet, plan: &[SyncStep]) -> BTreeSet<String> {
    let mut out: BTreeSet<String> = private.to_vec().into_iter().collect();
    for step in plan {
        match step.kind {
            StepKind::Delete => {
                out.remove(&step.name);
            }
            _ => {
                out.insert(step.name.clone());
            }
        }
    }
    out
}

#[test]
fn sync_plan_steps() {
    let external = set_of(&["a.so", "b.so", "c.so"]);
    let private = set_of(&["b.so", "c.so", "old.so", "older.so"]);
    let plan = plan_plugin_sync(&external, &private);
    assert_eq!(plan.len(), 5);
    let mut seen: Vec<(StepKind, String)> = plan.iter().map(|s| (s.kind, s.name.clone())).collect();
    let first_delete = plan.iter().position(|s| s.kind == StepKind::Delete).unwrap();
    assert!(plan[first_delete..].iter().all(|s| s.kind == StepKind::Delete));
    assert!(plan[..first_delete].iter().all(|s| s.kind != StepKind::Delete));
    seen.sort_by(|x, y| x.1.cmp(&y.1));
    assert_eq!(
        seen,
        vec![
            (StepKind::Copy, "a.so".to_string()),
            (StepKind::Refresh, "b.so".to_string()),
            (StepKind::Refresh, "c.so".to_string()),
            (StepKind::Delete, "old.so".to_string()),
            (StepKind::Delete, "older.so".to_string()),
        ]
    );
}

#[test]
fn sync_mirrors_external_names() {
    let cases: Vec<(Vec<&str>, Vec<&str>)> = vec![
        (vec![], vec![]),
        (vec!["a.so"], vec![]),
        (vec![], vec!["a.so", "b.so"]),
        (vec!["a.so", "b.so"], vec!["b.so", "c.so"]),
        (vec!["x.so", "y.so", "z.so"], vec!["x.so", "y.so", "z.so"]),
    ];
    for (ext, priv_) in cases {
        let external = set_of(&ext);
        let private = set_of(&priv_);
        let plan = plan_plugin_sync(&external, &private);
        let expected: BTreeSet<String> = ext.iter().map(|s| s.to_string()).collect();
        assert_eq!(apply(&private, &plan), expected);
    }
}

#[test]
fn file_equality_rules() {
    let t1 = FileStamp { seconds: 1_700_000_000, nanos: 5 };
    let t2 = FileStamp { seconds: 1_700_000_000, nanos: 6 };
    assert_eq!(files_are_equal::<&str>(10, Ok(t1), 10, Ok(t1)), Ok(true));
    assert_eq!(files_are_equal::<&str>(10, Ok(t1), 10, Ok(t2)), Ok(false));
    assert_eq!(files_are_equal::<&str>(10, Ok(t1), 11, Ok(t1)), Ok(false));
    assert_eq!(files_are_equal::<&str>(10, Err("first"), 11, Err("second")), Ok(false));
    assert_eq!(files_are_equal::<&str>(10, Err("first"), 10, Err("second")), Err("first"));
    assert_eq!(files_are_equal::<&str>(10, Ok(t1), 10, Err("second")), Err("second"));
    assert_eq!(
        files_are_equal::<&str>(10, Ok(t2), 10, Ok(t1)),
        files_are_equal::<&str>(10, Ok(t1), 10, Ok(t2))
    );
}

#[test]
fn plugins_need_an_entry_point() {
    let loaded = vec![
        PluginRecord { name: "a.so".to_string(), init_addr: 0x1000 },
        PluginRecord { name: "b.so".to_string(), init_addr: 0 },
        PluginRecord { name: "c.so".to_string(), init_addr: 0x2000 },
    ];
    let kept: Vec<(String, usize)> = select_plugins(loaded).into_iter().map(|p| (p.name, p.init_addr)).collect();
    assert_eq!(kept, vec![("a.so".to_string(), 0x1000), ("c.so".to_string(), 0x2000)]);
    assert!(select_plugins(vec![]).is_empty());
}

#[test]
fn resync_after_sync_only_refreshes() {
    let external = set_of(&["a.so", "b.so"]);
    let private = set_of(&["b.so", "c.so"]);
    let plan = plan_plugin_sync(&external, &private);
    let mirrored: Vec<String> = apply(&private, &plan).into_iter().collect();
    let mut after = NameSet::new();
    for n in mirrored {
        after.insert(n);
    }
    let again = plan_plugin_sync(&external, &after);
    assert_eq!(again.len(), 2);
    assert!(again.iter().all(|s| s.kind == StepKind::Refresh));
}

#[test]
fn copy_rule_per_step() {
    assert!(step_needs_copy(StepKind::Copy, false));
    assert!(step_needs_copy(StepKind::Copy, true));
    assert!(step_needs_copy(StepKind::Refresh, false));
    assert!(!step_needs_copy(StepKind::Refresh, true));
    assert!(!step_needs_copy(StepKind::Delete, false));
    assert!(!step_needs_copy(StepKind::Delete, true));
}

#[test]
fn loadable_names_keep_directory_order() {
    let out = loadable_plugin_names(names(&["z.so", ".so", "a.txt", "b.so", "c.so.1", "..so", "a.so"]));
    assert_eq!(out, names(&["z.so", "b.so", "..so", "a.so"]));
    assert!(loadable_plugin_names(vec![]).is_empty());
}
