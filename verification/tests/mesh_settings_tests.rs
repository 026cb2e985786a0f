use nmosh::mesh::build_mesh_indices;
use nmosh::settings::{
    loaded_settings_version, migrate_legacy_controls, migration_for, SettingsMigration,
    SettingsStore, SETTINGS_VERSION,
};

#[test]
fn single_quad_mesh() {
    let indices = build_mesh_indices(1);
    assert_eq!(indices.len(), 36);
    assert_eq!(&indices[0..6], &[0, 1, 2, 1, 3, 2]);
    assert_eq!(&indices[6..12], &[4, 5, 6, 5, 7, 6]);
    assert_eq!(&indices[30..36], &[20, 21, 22, 21, 23, 22]);
    assert!(build_mesh_indices(0).is_empty());
}

#[test]
fn grid_mesh_indices_stay_in_range() {
    let size = 96u32;
    let indices = build_mesh_indices(size);
    let row = size + 1;
    assert_eq!(indices.len() as u32, size * size * 36);
    assert!(indices.iter().all(|i| *i < row * row * 6));
    let second_quad = 6;
    assert_eq!(&indices[second_quad..second_quad + 6], &[1, 2, 98, 2, 99, 98]);
    let last = indices.len() - 6;
    let i = 5 * row * row + (size - 1) * row + (size - 1);
    assert_eq!(&indices[last..], &[i, i + 1, i + row, i + 1, i + row + 1, i + row]);
}

#[test]
fn legacy_bindings_lose_retired_parameters() {
    let mut controls: Vec<u32> = (0..22).collect();
    migrate_legacy_controls(4, &mut controls);
    let expected: Vec<u32> = (0..19).chain(21..22).collect();
    assert_eq!(controls, expected);
    assert_eq!(controls.len(), 20);

    let mut current: Vec<u32> = (0..22).collect();
    migrate_legacy_controls(SETTINGS_VERSION, &mut current);
    assert_eq!(current.len(), 22);

    let mut short: Vec<u32> = (0..20).collect();
    migrate_legacy_controls(0, &mut short);
    assert_eq!(short.len(), 20);
}

#[test]
fn migration_steps_by_version() {
    assert_eq!(
        migration_for(0),
        SettingsMigration { clear_flip_x: true, clear_view_extras: true, reset_effects: true }
    );
    assert_eq!(
        migration_for(2),
        SettingsMigration { clear_flip_x: false, clear_view_extras: true, reset_effects: true }
    );
    assert_eq!(
        migration_for(4),
        SettingsMigration { clear_flip_x: false, clear_view_extras: false, reset_effects: true }
    );
    assert_eq!(
        migration_for(5),
        SettingsMigration { clear_flip_x: false, clear_view_extras: false, reset_effects: false }
    );
    assert_eq!(loaded_settings_version(None), 0);
    assert_eq!(loaded_settings_version(Some(5)), 5);
    assert_eq!(loaded_settings_version(Some((1u64 << 32) + 3)), 3);
}

#[test]
fn store_keeps_its_path() {
    let store = SettingsStore::new("C:\\Users\\me\\nMosh\\settings.json".to_string());
    assert_eq!(store.path(), "C:\\Users\\me\\nMosh\\settings.json");
}
