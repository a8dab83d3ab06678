//! Settings of the application, as far as the core reads them.

use vstd::prelude::*;
use vstd::string::*;

verus! {

/// Polling frequency of a fresh installation, in hertz.
pub const DEFAULT_POLLING_FREQUENCY: u32 = 125;

/// Lowest polling frequency that is accepted, in hertz.
pub const MIN_POLLING_FREQUENCY: u32 = 1;

/// Highest polling frequency that is accepted, in hertz.
pub const MAX_POLLING_FREQUENCY: u32 = 8000;

/// The device that was connected last, by its numeric ids. An id of zero
/// stands for one that is not known.
#[derive(Clone, Copy, Debug, PartialEq, Eq, Structural)]
pub struct LastConnectedDevice {
    pub vid: u16,
    pub pid: u16,
    pub sub_pid: u16,
}

/// The settings.
#[derive(Debug)]
pub struct AppSettings {
    pub auto_start: bool,
    pub minimize_to_tray: bool,
    pub theme: String,
    /// Polling frequency in hertz.
    pub polling_frequency: u32,
    /// Name of the preset that was in use last.
    pub previous_preset: String,
    /// Name of the shaping mode of the sticks.
    pub calibration_mode: String,
    pub remember_last_connection: bool,
    pub last_connected_device: Option<LastConnectedDevice>,
}

/// The settings as a mathematical value.
pub struct AppSettingsView {
    pub auto_start: bool,
    pub minimize_to_tray: bool,
    pub theme: Seq<char>,
    pub polling_frequency: u32,
    pub previous_preset: Seq<char>,
    pub calibration_mode: Seq<char>,
    pub remember_last_connection: bool,
    pub last_connected_device: Option<LastConnectedDevice>,
}

impl View for AppSettings {
    type V = AppSettingsView;

    open spec fn view(&self) -> AppSettingsView {
        AppSettingsView {
            auto_start: self.auto_start,
            minimize_to_tray: self.minimize_to_tray,
            theme: self.theme@,
            polling_frequency: self.polling_frequency,
            previous_preset: self.previous_preset@,
            calibration_mode: self.calibration_mode@,
            remember_last_connection: self.remember_last_connection,
            last_connected_device: self.last_connected_device,
        }
    }
}

impl AppSettings {
    /// The settings of a fresh installation.
    pub open spec fn fresh() -> AppSettingsView {
        AppSettingsView {
            auto_start: true,
            minimize_to_tray: true,
            theme: "light"@,
            polling_frequency: DEFAULT_POLLING_FREQUENCY,
            previous_preset: "default"@,
            calibration_mode: "circle"@,
            remember_last_connection: false,
            last_connected_device: None,
        }
    }

    /// A copy of these settings.
    pub fn duplicate(&self) -> (copy: Self)
        ensures
            copy@ == self@,
    {
        AppSettings {
            auto_start: self.auto_start,
            minimize_to_tray: self.minimize_to_tray,
            theme: self.theme.clone(),
            polling_frequency: self.polling_frequency,
            previous_preset: self.previous_preset.clone(),
            calibration_mode: self.calibration_mode.clone(),
            remember_last_connection: self.remember_last_connection,
            last_connected_device: self.last_connected_device,
        }
    }
}

impl Clone for AppSettings {
    fn clone(&self) -> (copy: Self)
        ensures
            copy@ == self@,
    {
        self.duplicate()
    }
}

impl Default for AppSettings {
    fn default() -> (settings: Self)
        ensures
            settings@ == AppSettings::fresh(),
    {
        AppSettings {
            auto_start: true,
            minimize_to_tray: true,
            theme: default_theme(),
            polling_frequency: default_polling_frequency(),
            previous_preset: String::from_str("default"),
            calibration_mode: String::from_str("circle"),
            remember_last_connection: false,
            last_connected_device: None,
        }
    }
}

/// The value of a switch that is on unless the settings say otherwise.
pub fn bool_true() -> (on: bool)
    ensures
        on,
{
    true
}

/// The value of a switch that is off unless the settings say otherwise.
pub fn bool_false() -> (on: bool)
    ensures
        !on,
{
    false
}

/// The theme of a fresh installation.
pub fn default_theme() -> (theme: String)
    ensures
        theme@ == "light"@,
{
    String::from_str("light")
}

/// The polling frequency of a fresh installation.
pub fn default_polling_frequency() -> (frequency: u32)
    ensures
        frequency == DEFAULT_POLLING_FREQUENCY,
{
    DEFAULT_POLLING_FREQUENCY
}

/// Whether a polling frequency is accepted: from 1 to 8000 hertz.
pub open spec fn frequency_accepted(frequency: u32) -> bool {
    MIN_POLLING_FREQUENCY <= frequency <= MAX_POLLING_FREQUENCY
}

/// Why new settings were refused.
#[derive(Clone, Copy, Debug, PartialEq, Eq, Structural)]
pub enum SettingsError {
    /// The polling frequency lies outside 1 to 8000 hertz.
    PollingFrequencyOutOfRange,
}

/// What a change of the settings asks of the caller besides storing them.
#[derive(Clone, Copy, Debug, PartialEq, Eq, Structural)]
pub struct SettingsChange {
    /// Whether the start of the application with the system is to be
    /// switched, and to what.
    pub auto_start: Option<bool>,
}

/// The settings read from storage, or those of a fresh installation where
/// none could be read.
pub fn load_settings_internal(stored: Option<AppSettings>) -> (settings: AppSettings)
    ensures
        stored matches Some(read) ==> settings@ == read@,
        stored is None ==> settings@ == AppSettings::fresh(),
{
    match stored {
        Some(read) => read,
        None => AppSettings::default(),
    }
}

/// Replaces the settings in use by those read from storage, or by those of
/// a fresh installation where none could be read.
pub fn load_settings(current: &mut AppSettings, stored: Option<AppSettings>)
    ensures
        stored matches Some(read) ==> final(current)@ == read@,
        stored is None ==> final(current)@ == AppSettings::fresh(),
{
    *current = load_settings_internal(stored);
}

/// A copy of the settings in use.
pub fn get_setting(current: &AppSettings) -> (settings: AppSettings)
    ensures
        settings@ == current@,
{
    current.duplicate()
}

/// A copy of the settings in use, which is what is written to storage.
pub fn save_settings(current: &AppSettings) -> (settings: AppSettings)
    ensures
        settings@ == current@,
{
    current.duplicate()
}

/// Takes over new settings.
///
/// Settings whose polling frequency lies outside 1 to 8000 hertz are
/// refused and change nothing. Otherwise the new settings replace the old
/// ones, and the result says whether the start with the system changed.
pub fn update_settings(current: &mut AppSettings, new_settings: AppSettings) -> (result: Result<
    SettingsChange,
    SettingsError,
>)
    ensures
        !frequency_accepted(new_settings.polling_frequency) ==> result == Err::<
            SettingsChange,
            SettingsError,
        >(SettingsError::PollingFrequencyOutOfRange) && final(current)@ == old(current)@,
        frequency_accepted(new_settings.polling_frequency) ==> final(current)@ == new_settings@
            && result == Ok::<SettingsChange, SettingsError>(
            SettingsChange {
                auto_start: if new_settings.auto_start != old(current).auto_start {
                    Some(new_settings.auto_start)
                } else {
                    None
                },
            },
        ),
{
    if new_settings.polling_frequency < MIN_POLLING_FREQUENCY || new_settings.polling_frequency
        > MAX_POLLING_FREQUENCY {
        return Err(SettingsError::PollingFrequencyOutOfRange);
    }
    let auto_start = if new_settings.auto_start != current.auto_start {
        Some(new_settings.auto_start)
    } else {
        None
    };
    *current = new_settings;
    Ok(SettingsChange { auto_start })
}

/// The place of a file of settings below the directory of the program.
pub open spec fn config_path_spec(file_name: Seq<char>) -> Seq<char> {
    "xc_datas/"@ + file_name
}

/// The place of a file of settings, relative to the directory of the
/// program.
pub fn get_config_path(file_name: &str) -> (path: String)
    ensures
        path@ == config_path_spec(file_name@),
{
    String::from_str("xc_datas/").concat(file_name)
}

} // verus!
