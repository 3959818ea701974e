use workspace_logger::workspace::{
    get_config_dir, get_data_dir, get_local_dir, get_root_dir, Workspace, WorkspaceCell,
};

#[test]
fn layout_under_plain_root() {
    let w = Workspace::new("/srv/app");
    assert_eq!(w.root_dir(), "/srv/app");
    assert_eq!(w.config_dir(), "/srv/app/config");
    assert_eq!(w.local_dir(), "/srv/app/state");
    assert_eq!(w.data_dir(), "/srv/app/state/data");
}

#[test]
fn layout_under_relative_root() {
    let w = Workspace::new("a");
    assert_eq!(w.config_dir(), "a/config");
    assert_eq!(w.local_dir(), "a/state");
    assert_eq!(w.data_dir(), "a/state/data");
}

#[test]
fn layout_under_empty_root() {
    let w = Workspace::new("");
    assert_eq!(w.root_dir(), "");
    assert_eq!(w.config_dir(), "config");
    assert_eq!(w.local_dir(), "state");
    assert_eq!(w.data_dir(), "state/data");
}

#[test]
fn layout_under_root_with_trailing_separator() {
    let w = Workspace::new("/srv/app/");
    assert_eq!(w.config_dir(), "/srv/app/config");
    assert_eq!(w.local_dir(), "/srv/app/state");
    assert_eq!(w.data_dir(), "/srv/app/state/data");
}

#[test]
fn layout_under_filesystem_root() {
    let w = Workspace::new("/");
    assert_eq!(w.config_dir(), "/config");
    assert_eq!(w.data_dir(), "/state/data");
}

#[test]
fn layout_matches_std_paths() {
    for root in ["", "a", "a/", "/x/y", "x/../y", "dir with space"] {
        let w = Workspace::new(root);
        let base = std::path::PathBuf::from(root);
        assert_eq!(std::path::PathBuf::from(w.config_dir()), base.join("config"));
        assert_eq!(std::path::PathBuf::from(w.local_dir()), base.join("state"));
        assert_eq!(std::path::PathBuf::from(w.data_dir()), base.join("state").join("data"));
        assert_eq!(w.config_dir(), base.join("config").to_str().unwrap());
    }
}

#[test]
fn second_init_keeps_first_root() {
    let mut cell = WorkspaceCell::new();
    assert_eq!(cell.get_or_init("a").root_dir(), "a");
    assert_eq!(cell.get_or_init("b").root_dir(), "a");
    assert_eq!(get_root_dir(&mut cell), "a");
    assert_eq!(get_config_dir(&mut cell), "a/config");
}

#[test]
fn accessors_initialize_with_empty_root() {
    let mut cell = WorkspaceCell::new();
    assert_eq!(get_config_dir(&mut cell), "config");
    assert_eq!(get_local_dir(&mut cell), "state");
    assert_eq!(get_data_dir(&mut cell), "state/data");
    assert_eq!(get_root_dir(&mut cell), "");
    assert_eq!(cell.get_or_init("late").root_dir(), "");
}

#[test]
fn accessors_after_explicit_init() {
    let mut cell = WorkspaceCell::new();
    cell.get_or_init("/home/u/.tool");
    assert_eq!(get_root_dir(&mut cell), "/home/u/.tool");
    assert_eq!(get_local_dir(&mut cell), "/home/u/.tool/state");
    assert_eq!(get_data_dir(&mut cell), "/home/u/.tool/state/data");
}
