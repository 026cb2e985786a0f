//! Where settings live, and how settings written by older versions are
//! brought up to the current format.

use vstd::prelude::*;

verus! {

/// The format version of saved settings.
pub const SETTINGS_VERSION: u32 = 5;

/// The number of parameter bindings saved by versions before 5, which still
/// had the posterize and thermal parameters.
pub const LEGACY_CONTROL_COUNT: usize = 22;

/// The file that holds the settings.
#[derive(Clone, Debug)]
pub struct SettingsStore {
    path: String,
}

impl SettingsStore {
    /// The path of the settings file.
    pub closed spec fn path_view(&self) -> Seq<char> {
        self.path@
    }

    /// A store for the settings file at `path`.
    pub fn new(path: String) -> (r: Self)
        ensures
            r.path_view() == path@,
    {
        SettingsStore { path }
    }

    /// The path of the settings file.
    pub fn path(&self) -> (r: &str)
        ensures
            r@ == self.path_view(),
    {
        self.path.as_str()
    }
}

/// The version a settings file declares (its `settings_version` number, cut
/// to 32 bits), 0 when it declares none.
pub fn loaded_settings_version(declared: Option<u64>) -> (r: u32)
    ensures
        r == (match declared {
            Some(v) => (v % 0x1_0000_0000) as u32,
            None => 0,
        }),
{
    match declared {
        Some(v) => {
            let low: u64 = v % 0x1_0000_0000;
            low as u32
        },
        None => 0,
    }
}

/// A saved binding list after migration from `loaded_version`.
pub open spec fn migrated_controls<T>(loaded_version: u32, controls: Seq<T>) -> Seq<T> {
    if loaded_version < SETTINGS_VERSION && controls.len() == LEGACY_CONTROL_COUNT {
        controls.subrange(0, 19) + controls.subrange(21, 22)
    } else {
        controls
    }
}

/// Drops the bindings of the retired posterize and thermal parameters (the
/// 20th and 21st of the 22 that versions before 5 saved) from a saved
/// binding list; lists of any other length, and lists of version 5 and
/// later, are kept.
pub fn migrate_legacy_controls<T>(loaded_version: u32, controls: &mut Vec<T>)
    ensures
        final(controls)@ == migrated_controls(loaded_version, old(controls)@),
{
    if loaded_version < SETTINGS_VERSION && controls.len() == LEGACY_CONTROL_COUNT {
        let ghost start = controls@;
        let _thermal = controls.remove(20);
        let _posterize = controls.remove(19);
        proof {
            assert(controls@ =~= start.subrange(0, 19) + start.subrange(21, 22));
        }
    }
}

/// The fix-ups that settings of an older version need after loading.
#[derive(Clone, Copy, Debug, PartialEq, Eq, Structural)]
pub struct SettingsMigration {
    /// Versions before 2 had no horizontal flip: it is cleared.
    pub clear_flip_x: bool,
    /// Versions before 3 had no vertical flip, zoom, tunnel or inside-box
    /// view: they are cleared.
    pub clear_view_extras: bool,
    /// Versions before 5 stored effect amounts that are no longer used: the
    /// effects are reset to clean.
    pub reset_effects: bool,
}

/// The fix-ups for settings of `loaded_version`.
pub open spec fn migration_spec(loaded_version: u32) -> SettingsMigration {
    SettingsMigration {
        clear_flip_x: loaded_version < 2,
        clear_view_extras: loaded_version < 3,
        reset_effects: loaded_version < SETTINGS_VERSION,
    }
}

/// The fix-ups for settings of `loaded_version`.
pub fn migration_for(loaded_version: u32) -> (r: SettingsMigration)
    ensures
        r == migration_spec(loaded_version),
{
    SettingsMigration {
        clear_flip_x: loaded_version < 2,
        clear_view_extras: loaded_version < 3,
        reset_effects: loaded_version < 4 || loaded_version < 5,
    }
}

/// Each fix-up applies exactly to the versions that lacked what it fixes:
/// the horizontal flip is cleared only below version 2, the vertical flip,
/// zoom, tunnel and inside-box view only below version 3, and the effects are
/// reset only below version 5. A fix-up needed by a version is needed by every
/// older one.
pub proof fn lemma_migration_thresholds(older: u32, newer: u32)
    requires
        older <= newer,
    ensures
        migration_spec(newer).clear_flip_x == (newer < 2),
        migration_spec(newer).clear_view_extras == (newer < 3),
        migration_spec(newer).reset_effects == (newer < 5),
        migration_spec(newer).clear_flip_x ==> migration_spec(older).clear_flip_x,
        migration_spec(newer).clear_view_extras ==> migration_spec(older).clear_view_extras,
        migration_spec(newer).reset_effects ==> migration_spec(older).reset_effects,
        migration_spec(newer).clear_flip_x ==> migration_spec(newer).clear_view_extras,
        migration_spec(newer).clear_view_extras ==> migration_spec(newer).reset_effects,
{
}

/// Settings of the current version (or later) are loaded as they are:
/// nothing is fixed up and no binding is dropped; a legacy list of 22
/// bindings becomes one binding per current parameter.
pub proof fn lemma_migration_laws<T>(loaded_version: u32, controls: Seq<T>)
    ensures
        loaded_version >= SETTINGS_VERSION ==> migrated_controls(loaded_version, controls) == controls
            && migration_spec(loaded_version) == (SettingsMigration {
            clear_flip_x: false,
            clear_view_extras: false,
            reset_effects: false,
        }),
        loaded_version < SETTINGS_VERSION && controls.len() == LEGACY_CONTROL_COUNT ==> migrated_controls(
            loaded_version,
            controls,
        ).len() == crate::bindings::MIDI_CONTROL_COUNT,
{
}

} // verus!
