//! The settings record: what the user configured, as the settings store keeps it.

use crate::ime::sources;
use crate::text::str_eq;
use vstd::prelude::*;

verus! {

/// One configured key mapping, with the key under its symbolic name.
#[derive(Debug)]
pub struct KeyMappingConfig {
    pub input_key: String,
    pub output_source: String,
    pub enabled: bool,
}

/// An application on the exclusion list.
#[derive(Debug)]
pub struct AppInfo {
    pub name: String,
    pub bundle_id: String,
    pub enabled: bool,
}

/// The whole settings record.
#[derive(Debug)]
pub struct Settings {
    pub launch_at_startup: bool,
    pub check_updates_on_startup: bool,
    pub mappings: Vec<KeyMappingConfig>,
    pub excluded_apps: Vec<AppInfo>,
}

/// What a [`KeyMappingConfig`] holds.
pub struct KeyMappingConfigView {
    pub input_key: Seq<char>,
    pub output_source: Seq<char>,
    pub enabled: bool,
}

/// What an [`AppInfo`] holds.
pub struct AppInfoView {
    pub name: Seq<char>,
    pub bundle_id: Seq<char>,
    pub enabled: bool,
}

/// What a [`Settings`] record holds.
pub struct SettingsView {
    pub launch_at_startup: bool,
    pub check_updates_on_startup: bool,
    pub mappings: Seq<KeyMappingConfigView>,
    pub excluded_apps: Seq<AppInfoView>,
}

impl View for KeyMappingConfig {
    type V = KeyMappingConfigView;

    open spec fn view(&self) -> KeyMappingConfigView {
        KeyMappingConfigView {
            input_key: self.input_key@,
            output_source: self.output_source@,
            enabled: self.enabled,
        }
    }
}

impl DeepView for KeyMappingConfig {
    type V = KeyMappingConfigView;

    open spec fn deep_view(&self) -> KeyMappingConfigView {
        self@
    }
}

impl View for AppInfo {
    type V = AppInfoView;

    open spec fn view(&self) -> AppInfoView {
        AppInfoView { name: self.name@, bundle_id: self.bundle_id@, enabled: self.enabled }
    }
}

impl DeepView for AppInfo {
    type V = AppInfoView;

    open spec fn deep_view(&self) -> AppInfoView {
        self@
    }
}

impl View for Settings {
    type V = SettingsView;

    open spec fn view(&self) -> SettingsView {
        SettingsView {
            launch_at_startup: self.launch_at_startup,
            check_updates_on_startup: self.check_updates_on_startup,
            mappings: self.mappings.deep_view(),
            excluded_apps: self.excluded_apps.deep_view(),
        }
    }
}

impl Clone for KeyMappingConfig {
    fn clone(&self) -> (copy: Self)
        ensures
            copy@ == self@,
    {
        KeyMappingConfig {
            input_key: self.input_key.clone(),
            output_source: self.output_source.clone(),
            enabled: self.enabled,
        }
    }
}

impl Clone for AppInfo {
    fn clone(&self) -> (copy: Self)
        ensures
            copy@ == self@,
    {
        AppInfo {
            name: self.name.clone(),
            bundle_id: self.bundle_id.clone(),
            enabled: self.enabled,
        }
    }
}

impl Clone for Settings {
    fn clone(&self) -> (copy: Self)
        ensures
            copy@ == self@,
    {
        let mut mappings: Vec<KeyMappingConfig> = Vec::new();
        let mut i: usize = 0;
        while i < self.mappings.len()
            invariant
                i <= self.mappings.len(),
                mappings@.len() == i,
                mappings.deep_view() == self.mappings.deep_view().take(i as int),
            decreases self.mappings.len() - i,
        {
            mappings.push(self.mappings[i].clone());
            i += 1;
        }
        let mut excluded_apps: Vec<AppInfo> = Vec::new();
        let mut k: usize = 0;
        while k < self.excluded_apps.len()
            invariant
                k <= self.excluded_apps.len(),
                excluded_apps@.len() == k,
                excluded_apps.deep_view() == self.excluded_apps.deep_view().take(k as int),
            decreases self.excluded_apps.len() - k,
        {
            excluded_apps.push(self.excluded_apps[k].clone());
            k += 1;
        }
        assert(mappings.deep_view() =~= self.mappings.deep_view());
        assert(excluded_apps.deep_view() =~= self.excluded_apps.deep_view());
        Settings {
            launch_at_startup: self.launch_at_startup,
            check_updates_on_startup: self.check_updates_on_startup,
            mappings,
            excluded_apps,
        }
    }
}

impl SettingsView {
    /// The record that a fresh installation starts from: both startup options
    /// on, the left Command key switching to the alphanumeric source, the
    /// right one to the native-script source, and nothing excluded.
    pub open spec fn initial() -> SettingsView {
        SettingsView {
            launch_at_startup: true,
            check_updates_on_startup: true,
            mappings: seq![
                KeyMappingConfigView {
                    input_key: "Command_L"@,
                    output_source: sources::ALPHANUMERIC@,
                    enabled: true,
                },
                KeyMappingConfigView {
                    input_key: "Command_R"@,
                    output_source: sources::HIRAGANA@,
                    enabled: true,
                },
            ],
            excluded_apps: Seq::empty(),
        }
    }

    /// This record with one more application excluded, enabled, at the end of
    /// the list.
    pub open spec fn with_excluded_app(self, name: Seq<char>, bundle_id: Seq<char>) -> SettingsView {
        SettingsView {
            excluded_apps: self.excluded_apps.push(
                AppInfoView { name, bundle_id, enabled: true },
            ),
            ..self
        }
    }

    /// This record without the excluded applications that carry `bundle_id`;
    /// the others keep their order.
    pub open spec fn without_excluded_app(self, bundle_id: Seq<char>) -> SettingsView {
        SettingsView {
            excluded_apps: self.excluded_apps.filter(|app: AppInfoView| app.bundle_id != bundle_id),
            ..self
        }
    }
}

impl Default for Settings {
    fn default() -> (settings: Self)
        ensures
            settings@ == SettingsView::initial(),
    {
        let mut mappings: Vec<KeyMappingConfig> = Vec::new();
        mappings.push(
            KeyMappingConfig {
                input_key: "Command_L".to_owned(),
                output_source: sources::ALPHANUMERIC.to_owned(),
                enabled: true,
            },
        );
        mappings.push(
            KeyMappingConfig {
                input_key: "Command_R".to_owned(),
                output_source: sources::HIRAGANA.to_owned(),
                enabled: true,
            },
        );
        let settings = Settings {
            launch_at_startup: true,
            check_updates_on_startup: true,
            mappings,
            excluded_apps: Vec::new(),
        };
        assert(settings@.mappings =~= SettingsView::initial().mappings);
        assert(settings@.excluded_apps =~= SettingsView::initial().excluded_apps);
        settings
    }
}

impl Settings {
    /// The settings to run with, given what the settings store held: the
    /// stored record where one could be read, the defaults where the store was
    /// missing, unreadable or malformed.
    pub fn load(stored: Option<Settings>) -> (settings: Self)
        ensures
            match stored {
                Some(record) => settings == record,
                None => settings@ == SettingsView::initial(),
            },
    {
        match stored {
            Some(record) => record,
            None => Settings::default(),
        }
    }

    /// Puts an application at the end of the exclusion list, enabled.
    pub fn add_excluded_app(&mut self, name: String, bundle_id: String)
        ensures
            final(self)@ == old(self)@.with_excluded_app(name@, bundle_id@),
    {
        self.excluded_apps.push(AppInfo { name, bundle_id, enabled: true });
        assert(self.excluded_apps.deep_view() =~= old(self).excluded_apps.deep_view().push(
            AppInfoView { name: name@, bundle_id: bundle_id@, enabled: true },
        ));
    }

    /// Takes every application with this identifier off the exclusion list.
    pub fn remove_excluded_app(&mut self, bundle_id: &str)
        ensures
            final(self)@ == old(self)@.without_excluded_app(bundle_id@),
    {
        let ghost before = old(self).excluded_apps.deep_view();
        let ghost keep = |app: AppInfoView| app.bundle_id != bundle_id@;
        let mut seen: usize = 0;
        let mut at: usize = 0;
        let total = self.excluded_apps.len();
        proof {
            reveal(Seq::filter);
        }
        while seen < total
            invariant
                seen <= total == before.len(),
                at == before.take(seen as int).filter(keep).len(),
                self.excluded_apps@.len() == at + (total - seen),
                self.excluded_apps.deep_view() == before.take(seen as int).filter(keep)
                    + before.skip(seen as int),
                self.launch_at_startup == old(self).launch_at_startup,
                self.check_updates_on_startup == old(self).check_updates_on_startup,
                self.mappings == old(self).mappings,
                keep == |app: AppInfoView| app.bundle_id != bundle_id@,
            decreases total - seen,
        {
            let ghost kept = before.take(seen as int).filter(keep);
            proof {
                assert(before.take(seen + 1).drop_last() =~= before.take(seen as int));
                reveal(Seq::filter);
                assert(self.excluded_apps.deep_view()[at as int] == before[seen as int]);
            }
            if str_eq(self.excluded_apps[at].bundle_id.as_str(), bundle_id) {
                let ghost shown = self.excluded_apps.deep_view();
                self.excluded_apps.remove(at);
                assert(shown.remove(at as int) =~= kept + before.skip(seen + 1));
            } else {
                at += 1;
            }
            seen += 1;
        }
    }
}

} // verus!
