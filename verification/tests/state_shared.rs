use scaffold_gateway::state::{
    get_app_settings, get_workspace, put_workspace, set_app_settings, AppSettings, AppState,
    WorkspaceState,
};

#[test]
fn default_settings_match_the_documented_values() {
    let s = AppSettings::default();
    assert_eq!(s.theme, "dark");
    assert_eq!(s.julia_server_url, "http://localhost:8081");
    assert!(s.auto_start_julia);
    assert_eq!(s.default_material, "PCL");
    assert_eq!(s.default_tissue, "bone");
    assert_eq!(s.default_voxel_size, 10);
}

#[test]
fn settings_are_replaced_wholesale() {
    let mut st = AppState::new();
    let mut new_settings = AppSettings::default();
    new_settings.theme = "light".to_string();
    new_settings.julia_server_url = "http://127.0.0.1:9000".to_string();
    new_settings.auto_start_julia = false;

    set_app_settings(&mut st, new_settings).unwrap();
    let got = get_app_settings(&st);
    assert_eq!(got.theme, "light");
    assert_eq!(got.julia_server_url, "http://127.0.0.1:9000");
    assert!(!got.auto_start_julia);
    // untouched fields come from the replacement value, not a merge
    assert_eq!(got.default_material, "PCL");
}

#[test]
fn workspaces_insert_and_replace_by_id() {
    let mut st = AppState::new();
    assert!(get_workspace(&st, "w1").is_none());

    put_workspace(&mut st, WorkspaceState {
        id: "w1".to_string(),
        name: "scaffold A".to_string(),
        file_path: None,
        modified: false,
    });
    put_workspace(&mut st, WorkspaceState {
        id: "w2".to_string(),
        name: "scaffold B".to_string(),
        file_path: Some("/data/b.stl".to_string()),
        modified: true,
    });

    let w1 = get_workspace(&st, "w1").unwrap();
    assert_eq!(w1.name, "scaffold A");
    assert!(!w1.modified);

    // replacing under the same id keeps one record for that id
    put_workspace(&mut st, WorkspaceState {
        id: "w1".to_string(),
        name: "scaffold A2".to_string(),
        file_path: Some("/data/a.stl".to_string()),
        modified: true,
    });
    let w1b = get_workspace(&st, "w1").unwrap();
    assert_eq!(w1b.name, "scaffold A2");
    assert_eq!(w1b.file_path.as_deref(), Some("/data/a.stl"));
    assert_eq!(st.workspaces.len(), 2);

    let w2 = get_workspace(&st, "w2").unwrap();
    assert_eq!(w2.name, "scaffold B");
    assert!(get_workspace(&st, "w3").is_none());
}
