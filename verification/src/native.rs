//! The state the native front end reads and writes: the download state and
//! the UI layout settings, with their encodings on the wire to the front end.
use vstd::prelude::*;

verus! {

/// Whether a download runs.
#[derive(Clone, Copy, Debug, PartialEq, Eq, Structural)]
pub enum DownloadState {
    Downloading,
    Paused,
    Stopped,
}

impl Default for DownloadState {
    /// A download is stopped until it is started.
    fn default() -> (r: Self)
        ensures
            r == DownloadState::Stopped,
    {
        DownloadState::Stopped
    }
}

/// The download state as it stands.
pub fn fetch_state(state: &DownloadState) -> (r: DownloadState)
    ensures
        r == *state,
{
    *state
}

/// Replaces the download state.
pub fn write_state(state: &mut DownloadState, s: DownloadState)
    ensures
        *final(state) == s,
{
    *state = s;
}

/// The UI layout settings of the native front end.
#[derive(Clone, Copy, Debug, PartialEq, Eq, Structural)]
pub struct UILayout {
    pub completed_setup: bool,
}

impl Default for UILayout {
    /// Setup has not been completed.
    fn default() -> (r: Self)
        ensures
            r.completed_setup == false,
    {
        UILayout { completed_setup: false }
    }
}

/// A UI layout setting.
#[derive(Clone, Copy, Debug, PartialEq, Eq, Structural)]
pub enum Key {
    CompletedSetup,
}

/// A UI layout setting with its value.
#[derive(Clone, Copy, Debug, PartialEq, Eq, Structural)]
pub enum Value {
    CompletedSetup(bool),
}

/// The setting a value is for.
pub open spec fn key_of(value: Value) -> Key {
    match value {
        Value::CompletedSetup(_) => Key::CompletedSetup,
    }
}

/// The layout with the setting of `value` replaced by it.
pub open spec fn layout_with(layout: UILayout, value: Value) -> UILayout {
    match value {
        Value::CompletedSetup(b) => UILayout { completed_setup: b },
    }
}

/// The value the layout holds for `key`.
pub open spec fn value_of(layout: UILayout, key: Key) -> Value {
    match key {
        Key::CompletedSetup => Value::CompletedSetup(layout.completed_setup),
    }
}

impl UILayout {
    /// The value of the setting `key`.
    pub fn get_value(&self, key: Key) -> (r: Value)
        ensures
            r == value_of(*self, key),
    {
        match key {
            Key::CompletedSetup => Value::CompletedSetup(self.completed_setup),
        }
    }

    /// Sets the setting that `value` is for.
    pub fn set_value(&mut self, value: Value)
        ensures
            *final(self) == layout_with(*old(self), value),
    {
        match value {
            Value::CompletedSetup(b) => {
                self.completed_setup = b;
            },
        }
    }
}

/// The settings the native front end keeps.
pub struct ConfigState {
    pub ui_layout: UILayout,
}

/// The value of a UI layout setting.
pub fn get_ui_layout_config(config: &ConfigState, key: Key) -> (r: Value)
    ensures
        r == value_of(config.ui_layout, key),
{
    config.ui_layout.get_value(key)
}

/// Sets a UI layout setting; the caller saves the layout afterwards.
pub fn set_ui_layout_config(config: &mut ConfigState, value: Value)
    ensures
        final(config).ui_layout == layout_with(old(config).ui_layout, value),
{
    config.ui_layout.set_value(value);
}

/// The number a download state is sent to the front end as.
pub open spec fn state_code(s: DownloadState) -> i32 {
    match s {
        DownloadState::Downloading => 0,
        DownloadState::Paused => 1,
        DownloadState::Stopped => 2,
    }
}

/// The download state the front end sends as `code`, one of 0, 1 and 2.
pub fn download_state_from_wire(code: i32) -> (r: DownloadState)
    requires
        0 <= code <= 2,
    ensures
        state_code(r) == code,
{
    if code == 0 {
        DownloadState::Downloading
    } else if code == 1 {
        DownloadState::Paused
    } else {
        DownloadState::Stopped
    }
}

/// The number the front end receives for a download state.
pub fn download_state_to_wire(s: DownloadState) -> (r: i32)
    ensures
        r == state_code(s),
{
    match s {
        DownloadState::Downloading => 0,
        DownloadState::Paused => 1,
        DownloadState::Stopped => 2,
    }
}

/// The setting the front end sends as `code`, which must be 0.
pub fn key_from_wire(code: i32) -> (r: Key)
    requires
        code == 0,
    ensures
        r == Key::CompletedSetup,
{
    Key::CompletedSetup
}

/// A state sent to the front end and read back is the same state; every code
/// the front end may send names exactly one state.
pub proof fn law_state_wire_round_trip(s: DownloadState, code: i32)
    ensures
        0 <= state_code(s) <= 2,
        0 <= code <= 2 ==> exists|t: DownloadState| state_code(t) == code,
        forall|t: DownloadState| state_code(t) == state_code(s) ==> t == s,
{
    if code == 0 {
        assert(state_code(DownloadState::Downloading) == code);
    } else if code == 1 {
        assert(state_code(DownloadState::Paused) == code);
    } else if code == 2 {
        assert(state_code(DownloadState::Stopped) == code);
    }
}

/// Setting a UI value and then reading its key gives that value; reading any
/// other key gives what it gave before.
pub proof fn law_layout_get_after_set(layout: UILayout, value: Value, key: Key)
    ensures
        value_of(layout_with(layout, value), key_of(value)) == value,
        key != key_of(value) ==> value_of(layout_with(layout, value), key) == value_of(layout, key),
{
}

} // verus!
