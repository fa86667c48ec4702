//! Command-key input method switcher: the decisions behind a system-wide
//! keyboard hook that turns chosen key presses into input source switches.
//!
//! The hook itself, the input source services and the settings file belong
//! to the host program. It reports what the operating system said and carries
//! out what this library decides.

pub mod event_tap;
pub mod ime;
pub mod settings;
pub mod state;
pub mod text;

use crate::event_tap::{
    EventTapManager, KeyMapping, KeyMappingView, ManagerView, KEY_CODE_COMMAND_L,
    KEY_CODE_COMMAND_R,
};
use crate::settings::{AppInfoView, KeyMappingConfigView, Settings, SettingsView};
use crate::text::str_eq;
use vstd::prelude::*;

verus! {

/// The key code behind a symbolic key name: the right Command key for
/// `Command_R`, the left Command key for `Command_L` and for any name that is
/// not recognised.
pub open spec fn key_code_of(name: Seq<char>) -> i64 {
    if name == "Command_R"@ {
        KEY_CODE_COMMAND_R
    } else {
        KEY_CODE_COMMAND_L
    }
}

/// The table row that a configured mapping becomes: its key as a key code,
/// its input source and its flag as they are.
pub open spec fn key_mapping_of(config: KeyMappingConfigView) -> KeyMappingView {
    KeyMappingView {
        input_key: key_code_of(config.input_key),
        output_source: config.output_source,
        enabled: config.enabled,
    }
}

/// The mapping table of a settings record: one row for each configured
/// mapping, in the same order.
pub open spec fn key_mappings_of(settings: SettingsView) -> Seq<KeyMappingView> {
    settings.mappings.map_values(|config: KeyMappingConfigView| key_mapping_of(config))
}

/// The exclusion list of a settings record: the identifiers of the excluded
/// applications that are enabled, in the same order.
pub open spec fn excluded_ids_of(settings: SettingsView) -> Seq<Seq<char>> {
    settings.excluded_apps.filter(|app: AppInfoView| app.enabled).map_values(
        |app: AppInfoView| app.bundle_id,
    )
}

/// The manager after a settings record was applied to it: both tables come
/// from the record, whether it is active does not change.
pub open spec fn applied(manager: ManagerView, settings: SettingsView) -> ManagerView {
    manager.with_mappings(key_mappings_of(settings)).with_excluded_apps(excluded_ids_of(settings))
}

/// The key code for a symbolic key name.
pub fn key_code_for(name: &str) -> (code: i64)
    ensures
        code == key_code_of(name@),
{
    if str_eq(name, "Command_R") {
        KEY_CODE_COMMAND_R
    } else {
        KEY_CODE_COMMAND_L
    }
}

/// Builds the mapping table from a settings record.
pub fn settings_to_key_mappings(settings: &Settings) -> (mappings: Vec<KeyMapping>)
    ensures
        mappings.deep_view() == key_mappings_of(settings@),
{
    let mut mappings: Vec<KeyMapping> = Vec::new();
    let mut i: usize = 0;
    while i < settings.mappings.len()
        invariant
            i <= settings.mappings.len(),
            mappings@.len() == i,
            mappings.deep_view() == key_mappings_of(settings@).take(i as int),
        decreases settings.mappings.len() - i,
    {
        let config = &settings.mappings[i];
        mappings.push(
            KeyMapping {
                input_key: key_code_for(config.input_key.as_str()),
                output_source: config.output_source.clone(),
                enabled: config.enabled,
            },
        );
        i += 1;
    }
    mappings
}

/// Makes the manager follow a settings record: its mapping table and its
/// exclusion list are replaced by the record's.
pub fn apply_settings_to_event_tap(event_tap: &mut EventTapManager, settings: &Settings)
    ensures
        final(event_tap)@ == applied(old(event_tap)@, settings@),
{
    let mappings = settings_to_key_mappings(settings);
    event_tap.set_mappings(mappings);

    let ghost apps = settings@.excluded_apps;
    let ghost on = |app: AppInfoView| app.enabled;
    let ghost id = |app: AppInfoView| app.bundle_id;
    let mut excluded: Vec<String> = Vec::new();
    let mut i: usize = 0;
    proof {
        reveal(Seq::filter);
    }
    while i < settings.excluded_apps.len()
        invariant
            i <= settings.excluded_apps.len(),
            apps == settings@.excluded_apps,
            on == |app: AppInfoView| app.enabled,
            id == |app: AppInfoView| app.bundle_id,
            excluded.deep_view() == apps.take(i as int).filter(on).map_values(id),
        decreases settings.excluded_apps.len() - i,
    {
        let app = &settings.excluded_apps[i];
        proof {
            assert(apps.take(i + 1).drop_last() =~= apps.take(i as int));
            reveal(Seq::filter);
        }
        if app.enabled {
            let ghost listed = excluded.deep_view();
            excluded.push(app.bundle_id.clone());
            assert(excluded.deep_view() =~= listed.push(app@.bundle_id));
        }
        i += 1;
    }
    assert(apps.take(i as int) =~= apps);
    event_tap.set_excluded_apps(excluded);
}

/// What a mapping says apart from its key: whether it is enabled, and the
/// input source it selects.
pub open spec fn flag_and_target_of_config(config: KeyMappingConfigView) -> (bool, Seq<char>) {
    (config.enabled, config.output_source)
}

/// What a table row says apart from its key: whether it is enabled, and the
/// input source it selects.
pub open spec fn flag_and_target_of_row(row: KeyMappingView) -> (bool, Seq<char>) {
    (row.enabled, row.output_source)
}

/// Settings survive the conversion into the hook's tables. Read back from
/// the tables, the enabled flags and input source identifiers of the mappings
/// are those of the record, entry by entry; every row's key code is one of
/// the two Command keys; and the exclusion list holds exactly the identifiers
/// of the enabled excluded applications, none added and none lost.
pub proof fn law_conversion_keeps_flags_and_identifiers(
    manager: ManagerView,
    settings: SettingsView,
)
    ensures
        applied(manager, settings).mappings.map_values(|row: KeyMappingView| flag_and_target_of_row(row))
            == settings.mappings.map_values(
            |config: KeyMappingConfigView| flag_and_target_of_config(config),
        ),
        forall|i: int|
            0 <= i < settings.mappings.len() ==> {
                let row = #[trigger] applied(manager, settings).mappings[i];
                &&& row.enabled == settings.mappings[i].enabled
                &&& row.output_source == settings.mappings[i].output_source
                &&& (row.input_key == KEY_CODE_COMMAND_L || row.input_key == KEY_CODE_COMMAND_R)
            },
        forall|id: Seq<char>|
            applied(manager, settings).excluded_apps.contains(id) <==> exists|k: int|
                0 <= k < settings.excluded_apps.len() && (#[trigger] settings.excluded_apps[k]).enabled
                    && settings.excluded_apps[k].bundle_id == id,
        applied(manager, settings).excluded_apps.len() <= settings.excluded_apps.len(),
        applied(manager, settings).active == manager.active,
{
    let table = applied(manager, settings).mappings;
    assert(table.map_values(|row: KeyMappingView| flag_and_target_of_row(row))
        =~= settings.mappings.map_values(
        |config: KeyMappingConfigView| flag_and_target_of_config(config),
    ));
    let on = |app: AppInfoView| app.enabled;
    let kept = settings.excluded_apps.filter(on);
    let ids = applied(manager, settings).excluded_apps;
    settings.excluded_apps.lemma_filter_len(on);
    assert forall|id: Seq<char>| ids.contains(id) implies exists|k: int|
        0 <= k < settings.excluded_apps.len() && (#[trigger] settings.excluded_apps[k]).enabled
            && settings.excluded_apps[k].bundle_id == id by {
        let at = choose|at: int| 0 <= at < ids.len() && ids[at] == id;
        assert(ids[at] == kept[at].bundle_id);
        settings.excluded_apps.lemma_filter_pred(on, at);
        settings.excluded_apps.lemma_filter_contains_rev(on, kept[at]);
        assert(kept.contains(kept[at]));
        assert(settings.excluded_apps.contains(kept[at]));
        let k = choose|k: int|
            0 <= k < settings.excluded_apps.len() && settings.excluded_apps[k] == kept[at];
        assert(settings.excluded_apps[k].enabled && settings.excluded_apps[k].bundle_id == id);
    }
    assert forall|id: Seq<char>|
        (exists|k: int|
            0 <= k < settings.excluded_apps.len() && (#[trigger] settings.excluded_apps[k]).enabled
                && settings.excluded_apps[k].bundle_id == id) implies ids.contains(id) by {
        let k = choose|k: int|
            0 <= k < settings.excluded_apps.len() && (#[trigger] settings.excluded_apps[k]).enabled
                && settings.excluded_apps[k].bundle_id == id;
        settings.excluded_apps.lemma_filter_contains(on, k);
        let at = choose|at: int| 0 <= at < kept.len() && kept[at] == settings.excluded_apps[k];
        assert(ids[at] == id);
    }
}

} // verus!
