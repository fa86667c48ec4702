//! The keyboard hook: its life cycle, the tables it consults, and what it
//! decides for each event the operating system hands it.

use crate::ime::sources;
use crate::text::str_eq;
use vstd::prelude::*;

verus! {

/// Key code of the left Command key.
pub const KEY_CODE_COMMAND_L: i64 = 0x37;

/// Key code of the right Command key.
pub const KEY_CODE_COMMAND_R: i64 = 0x36;

/// One row of the mapping table: pressing `input_key` selects `output_source`.
#[derive(Debug)]
pub struct KeyMapping {
    pub input_key: i64,
    pub output_source: String,
    pub enabled: bool,
}

/// What a [`KeyMapping`] holds.
pub struct KeyMappingView {
    pub input_key: i64,
    pub output_source: Seq<char>,
    pub enabled: bool,
}

impl View for KeyMapping {
    type V = KeyMappingView;

    open spec fn view(&self) -> KeyMappingView {
        KeyMappingView {
            input_key: self.input_key,
            output_source: self.output_source@,
            enabled: self.enabled,
        }
    }
}

impl DeepView for KeyMapping {
    type V = KeyMappingView;

    open spec fn deep_view(&self) -> KeyMappingView {
        self@
    }
}

impl Clone for KeyMapping {
    fn clone(&self) -> (copy: Self)
        ensures
            copy@ == self@,
    {
        KeyMapping {
            input_key: self.input_key,
            output_source: self.output_source.clone(),
            enabled: self.enabled,
        }
    }
}

/// A category of events that the hook asks the operating system for.
#[derive(Clone, Copy, Debug, PartialEq, Eq)]
pub enum EventCategory {
    /// A key went down.
    KeyDown,
    /// The modifier flags changed. Keys such as Command produce no key-down
    /// event and are seen only here.
    FlagsChanged,
}

/// An event as the hook receives it: its category and, for the two keyboard
/// categories, the key code it carries.
#[derive(Clone, Copy, Debug, PartialEq, Eq)]
pub enum TapEvent {
    /// A key went down.
    KeyDown { key_code: i64 },
    /// The modifier flags changed: how keys such as Command announce themselves.
    FlagsChanged { key_code: i64 },
    /// Any other category the operating system may deliver.
    Other,
}

impl TapEvent {
    /// The key code of a keyboard event; other events carry none.
    pub open spec fn key_code(self) -> Option<i64> {
        match self {
            TapEvent::KeyDown { key_code } => Some(key_code),
            TapEvent::FlagsChanged { key_code } => Some(key_code),
            TapEvent::Other => None,
        }
    }
}

/// What the hook does with an event.
#[derive(Clone, Copy, Debug, PartialEq, Eq)]
pub enum Verdict<'a> {
    /// Hand the event on unchanged.
    PassThrough,
    /// Swallow the event and make one attempt to select `switch_to`.
    Suppress { switch_to: &'a str },
}

/// What a [`Verdict`] holds.
pub enum VerdictView {
    PassThrough,
    Suppress { switch_to: Seq<char> },
}

impl<'a> View for Verdict<'a> {
    type V = VerdictView;

    open spec fn view(&self) -> VerdictView {
        match *self {
            Verdict::PassThrough => VerdictView::PassThrough,
            Verdict::Suppress { switch_to } => VerdictView::Suppress { switch_to: switch_to@ },
        }
    }
}

/// Why the hook could not be started.
#[derive(Clone, Copy, Debug, PartialEq, Eq)]
pub enum TapError {
    /// The process may not observe input: accessibility permission is missing.
    PermissionDenied,
    /// The operating system did not register the interception.
    TapCreationFailed,
}

impl TapError {
    /// The error in words.
    pub fn message(&self) -> (text: String)
        ensures
            text@ == match *self {
                TapError::PermissionDenied => "Accessibility permission not granted"@,
                TapError::TapCreationFailed => "Failed to create event tap: ()"@,
            },
    {
        match self {
            TapError::PermissionDenied => "Accessibility permission not granted".to_owned(),
            TapError::TapCreationFailed => "Failed to create event tap: ()".to_owned(),
        }
    }
}

/// Whether a table row answers a key code: it is enabled and names that code.
pub open spec fn triggers(mapping: KeyMappingView, key_code: i64) -> bool {
    mapping.enabled && mapping.input_key == key_code
}

/// Whether some row of the table answers the key code.
pub open spec fn has_trigger(table: Seq<KeyMappingView>, key_code: i64) -> bool {
    exists|i: int| 0 <= i < table.len() && triggers(#[trigger] table[i], key_code)
}

/// Whether row `i` is the first one that answers the key code.
pub open spec fn is_first_trigger(table: Seq<KeyMappingView>, key_code: i64, i: int) -> bool {
    &&& 0 <= i < table.len()
    &&& triggers(table[i], key_code)
    &&& forall|j: int| 0 <= j < i ==> !triggers(#[trigger] table[j], key_code)
}

/// The first row that answers the key code, where there is one.
pub open spec fn first_trigger(table: Seq<KeyMappingView>, key_code: i64) -> int {
    choose|i: int| is_first_trigger(table, key_code, i)
}

/// The optional identifier as plain characters.
pub open spec fn identifier_view(identifier: Option<&str>) -> Option<Seq<char>> {
    match identifier {
        Some(text) => Some(text@),
        None => None,
    }
}

/// What an [`EventTapManager`] holds: whether an interception is registered,
/// the mapping table in precedence order, and the excluded applications.
pub struct ManagerView {
    pub active: bool,
    pub mappings: Seq<KeyMappingView>,
    pub excluded_apps: Seq<Seq<char>>,
}

impl ManagerView {
    /// A manager before anything was configured: stopped, the left Command
    /// key mapped to the alphanumeric source and the right one to the
    /// native-script source, no application excluded.
    pub open spec fn initial() -> ManagerView {
        ManagerView {
            active: false,
            mappings: seq![
                KeyMappingView {
                    input_key: KEY_CODE_COMMAND_L,
                    output_source: sources::ALPHANUMERIC@,
                    enabled: true,
                },
                KeyMappingView {
                    input_key: KEY_CODE_COMMAND_R,
                    output_source: sources::HIRAGANA@,
                    enabled: true,
                },
            ],
            excluded_apps: Seq::empty(),
        }
    }

    /// The same manager with another mapping table.
    pub open spec fn with_mappings(self, table: Seq<KeyMappingView>) -> ManagerView {
        ManagerView { mappings: table, ..self }
    }

    /// The same manager with another exclusion list.
    pub open spec fn with_excluded_apps(self, apps: Seq<Seq<char>>) -> ManagerView {
        ManagerView { excluded_apps: apps, ..self }
    }

    /// Whether a start has to register an interception with the operating
    /// system: only a stopped manager does, and only with permission.
    pub open spec fn registration_due(self, permission_granted: bool) -> bool {
        !self.active && permission_granted
    }

    /// What a start reports. An active manager is left alone and reports
    /// success; a stopped one needs permission first and a registered
    /// interception second.
    pub open spec fn start_result(self, permission_granted: bool, tap_created: bool) -> Result<
        (),
        TapError,
    > {
        if self.active {
            Ok(())
        } else if !permission_granted {
            Err(TapError::PermissionDenied)
        } else if !tap_created {
            Err(TapError::TapCreationFailed)
        } else {
            Ok(())
        }
    }

    /// The manager after a start: active where it was active or the start
    /// succeeded, stopped otherwise; the tables are untouched.
    pub open spec fn started(self, permission_granted: bool, tap_created: bool) -> ManagerView {
        ManagerView { active: self.active || (permission_granted && tap_created), ..self }
    }

    /// The manager after a stop: stopped, with its tables untouched.
    pub open spec fn stopped(self) -> ManagerView {
        ManagerView { active: false, ..self }
    }

    /// Whether the hook stands aside for the frontmost application: its
    /// identifier is on the exclusion list, or it could not be resolved at all.
    pub open spec fn stands_aside(self, frontmost: Option<Seq<char>>) -> bool {
        match frontmost {
            Some(app) => self.excluded_apps.contains(app),
            None => true,
        }
    }

    /// What the hook decides for an event while `frontmost` is the frontmost
    /// application.
    pub open spec fn verdict(self, event: TapEvent, frontmost: Option<Seq<char>>) -> VerdictView {
        if self.stands_aside(frontmost) {
            VerdictView::PassThrough
        } else {
            match event.key_code() {
                Some(code) if has_trigger(self.mappings, code) => VerdictView::Suppress {
                    switch_to: self.mappings[first_trigger(self.mappings, code)].output_source,
                },
                _ => VerdictView::PassThrough,
            }
        }
    }
}

/// Owns the state of the system-wide keyboard interception: whether one is
/// registered, and the tables its callback consults.
pub struct EventTapManager {
    active: bool,
    mappings: Vec<KeyMapping>,
    excluded_apps: Vec<String>,
}

impl View for EventTapManager {
    type V = ManagerView;

    closed spec fn view(&self) -> ManagerView {
        ManagerView {
            active: self.active,
            mappings: self.mappings.deep_view(),
            excluded_apps: self.excluded_apps.deep_view(),
        }
    }
}

impl EventTapManager {
    /// A stopped manager with the default mapping table and nothing excluded.
    pub fn new() -> (manager: Self)
        ensures
            manager@ == ManagerView::initial(),
    {
        let mut mappings: Vec<KeyMapping> = Vec::new();
        mappings.push(
            KeyMapping {
                input_key: KEY_CODE_COMMAND_L,
                output_source: sources::ALPHANUMERIC.to_owned(),
                enabled: true,
            },
        );
        mappings.push(
            KeyMapping {
                input_key: KEY_CODE_COMMAND_R,
                output_source: sources::HIRAGANA.to_owned(),
                enabled: true,
            },
        );
        let manager = EventTapManager { active: false, mappings, excluded_apps: Vec::new() };
        assert(manager@.mappings =~= ManagerView::initial().mappings);
        assert(manager@.excluded_apps =~= ManagerView::initial().excluded_apps);
        manager
    }

    /// The event categories an interception is registered for: key-down
    /// events and modifier-flag changes, and no others.
    pub fn events_of_interest() -> (categories: Vec<EventCategory>)
        ensures
            categories@ == seq![EventCategory::KeyDown, EventCategory::FlagsChanged],
    {
        let mut categories: Vec<EventCategory> = Vec::new();
        categories.push(EventCategory::KeyDown);
        categories.push(EventCategory::FlagsChanged);
        categories
    }

    /// Whether an interception is registered.
    pub fn is_active(&self) -> (active: bool)
        ensures
            active == self@.active,
    {
        self.active
    }

    /// The mapping table, in precedence order.
    pub fn mappings(&self) -> (table: &Vec<KeyMapping>)
        ensures
            table.deep_view() == self@.mappings,
    {
        &self.mappings
    }

    /// The identifiers of the excluded applications.
    pub fn excluded_apps(&self) -> (apps: &Vec<String>)
        ensures
            apps.deep_view() == self@.excluded_apps,
    {
        &self.excluded_apps
    }

    /// Whether a start now has to register an interception with the
    /// operating system, for the categories of [`Self::events_of_interest`].
    /// The caller registers where this says so, enables the interception at
    /// once, and reports the outcome to [`Self::start`].
    pub fn registration_due(&self, permission_granted: bool) -> (due: bool)
        ensures
            due == self@.registration_due(permission_granted),
    {
        !self.active && permission_granted
    }

    /// Starts monitoring. `permission_granted` is the outcome of the
    /// accessibility check; `tap_created` says whether the registration that
    /// [`Self::registration_due`] asked for produced an interception, and is
    /// not looked at where none was due.
    ///
    /// An active manager stays as it is and reports success. A failed start
    /// leaves the manager stopped.
    pub fn start(&mut self, permission_granted: bool, tap_created: bool) -> (outcome: Result<
        (),
        TapError,
    >)
        ensures
            outcome == old(self)@.start_result(permission_granted, tap_created),
            final(self)@ == old(self)@.started(permission_granted, tap_created),
            outcome is Ok <==> final(self)@.active,
            outcome is Err ==> final(self)@ == old(self)@,
    {
        if self.active {
            return Ok(());
        }
        if !permission_granted {
            return Err(TapError::PermissionDenied);
        }
        if !tap_created {
            return Err(TapError::TapCreationFailed);
        }
        self.active = true;
        Ok(())
    }

    /// Stops monitoring. Says whether an interception was registered, which
    /// the caller then has to release; on a stopped manager nothing changes.
    pub fn stop(&mut self) -> (release: bool)
        ensures
            release == old(self)@.active,
            final(self)@ == old(self)@.stopped(),
    {
        let release = self.active;
        self.active = false;
        release
    }

    /// Replaces the whole mapping table.
    pub fn set_mappings(&mut self, new_mappings: Vec<KeyMapping>)
        ensures
            final(self)@ == old(self)@.with_mappings(new_mappings.deep_view()),
    {
        self.mappings = new_mappings;
    }

    /// Replaces the whole exclusion list.
    pub fn set_excluded_apps(&mut self, apps: Vec<String>)
        ensures
            final(self)@ == old(self)@.with_excluded_apps(apps.deep_view()),
    {
        self.excluded_apps = apps;
    }

    /// Whether the application is on the exclusion list, by exact identifier.
    pub fn is_current_app_excluded(&self, frontmost: &str) -> (excluded: bool)
        ensures
            excluded == self@.excluded_apps.contains(frontmost@),
    {
        let mut i: usize = 0;
        while i < self.excluded_apps.len()
            invariant
                i <= self.excluded_apps.len(),
                forall|j: int| 0 <= j < i ==> self.excluded_apps.deep_view()[j] != frontmost@,
            decreases self.excluded_apps.len() - i,
        {
            if str_eq(self.excluded_apps[i].as_str(), frontmost) {
                assert(self.excluded_apps.deep_view()[i as int] == frontmost@);
                return true;
            }
            i += 1;
        }
        false
    }

    /// Decides what happens to one event.
    ///
    /// `frontmost` is the identifier of the frontmost application, `None`
    /// where it could not be resolved. The hook stands aside, whatever the
    /// mapping table says, for an excluded application and for an unresolved
    /// one. Otherwise the first enabled row for the event's key code decides:
    /// the event is swallowed and that row's input source is to be selected.
    /// Without such a row, and for events that are not keyboard events, the
    /// event passes through.
    pub fn event_callback(&self, event: TapEvent, frontmost: Option<&str>) -> (verdict: Verdict<'_>)
        ensures
            verdict@ == self@.verdict(event, identifier_view(frontmost)),
            self@.stands_aside(identifier_view(frontmost)) ==> verdict is PassThrough,
            event.key_code() matches Some(code) ==> (!has_trigger(self@.mappings, code)
                ==> verdict is PassThrough),
            event.key_code() is None ==> verdict is PassThrough,
            forall|code: i64, i: int|
                event.key_code() == Some(code) && !self@.stands_aside(identifier_view(frontmost))
                    && is_first_trigger(self@.mappings, code, i) ==> verdict@
                    == (VerdictView::Suppress { switch_to: self@.mappings[i].output_source }),
    {
        let app = match frontmost {
            Some(app) => app,
            None => {
                return Verdict::PassThrough;
            },
        };
        if self.is_current_app_excluded(app) {
            return Verdict::PassThrough;
        }
        let key_code = match event {
            TapEvent::KeyDown { key_code } => key_code,
            TapEvent::FlagsChanged { key_code } => key_code,
            TapEvent::Other => {
                return Verdict::PassThrough;
            },
        };
        let mut i: usize = 0;
        while i < self.mappings.len()
            invariant
                i <= self.mappings.len(),
                !self@.stands_aside(identifier_view(frontmost)),
                event.key_code() == Some(key_code),
                forall|j: int| 0 <= j < i ==> !triggers(#[trigger] self@.mappings[j], key_code),
            decreases self.mappings.len() - i,
        {
            let mapping = &self.mappings[i];
            if mapping.enabled && mapping.input_key == key_code {
                proof {
                    lemma_first_trigger_is_unique(self@.mappings, key_code, i as int);
                }
                return Verdict::Suppress { switch_to: mapping.output_source.as_str() };
            }
            i += 1;
        }
        Verdict::PassThrough
    }
}

/// The first row that answers a key code is the only row that is first:
/// whichever way it was found, it is the one `first_trigger` names.
pub proof fn lemma_first_trigger_is_unique(table: Seq<KeyMappingView>, key_code: i64, i: int)
    requires
        is_first_trigger(table, key_code, i),
    ensures
        has_trigger(table, key_code),
        first_trigger(table, key_code) == i,
{
    let chosen = first_trigger(table, key_code);
    assert(is_first_trigger(table, key_code, chosen));
    if chosen < i {
        assert(!triggers(table[chosen], key_code));
    }
    if i < chosen {
        assert(!triggers(table[i], key_code));
    }
}

/// A new mapping table replaces the old one entirely. Whatever table the
/// manager held before, after the update it holds the new one and nothing of
/// the old: the manager is the one it would be had the old table never been
/// set, and a key code that no enabled row of the new table names passes
/// through, even where the old table had a row for it.
pub proof fn law_set_mappings_replaces_table(
    manager: ManagerView,
    old_table: Seq<KeyMappingView>,
    new_table: Seq<KeyMappingView>,
    event: TapEvent,
    frontmost: Option<Seq<char>>,
)
    ensures
        manager.with_mappings(old_table).with_mappings(new_table) == manager.with_mappings(
            new_table,
        ),
        manager.with_mappings(new_table).mappings == new_table,
        manager.with_mappings(new_table).excluded_apps == manager.excluded_apps,
        manager.with_mappings(new_table).active == manager.active,
        event.key_code() matches Some(code) ==> (!has_trigger(new_table, code)
            ==> manager.with_mappings(old_table).with_mappings(new_table).verdict(event, frontmost)
            is PassThrough),
{
}

/// Stopping is idempotent, and a stopped manager can be started again. A
/// stop leaves the manager stopped; a second stop changes nothing more. A
/// start that follows, with permission granted and the interception
/// registered, succeeds, and the manager then decides every event as it did
/// before it was stopped.
pub proof fn law_stop_twice_then_start(
    manager: ManagerView,
    event: TapEvent,
    frontmost: Option<Seq<char>>,
)
    ensures
        !manager.stopped().active,
        manager.stopped().stopped() == manager.stopped(),
        manager.stopped().registration_due(true),
        manager.stopped().start_result(true, true) is Ok,
        manager.stopped().started(true, true).active,
        manager.stopped().started(true, true).mappings == manager.mappings,
        manager.stopped().started(true, true).excluded_apps == manager.excluded_apps,
        manager.stopped().started(true, true).verdict(event, frontmost) == manager.verdict(
            event,
            frontmost,
        ),
{
}

} // verus!
