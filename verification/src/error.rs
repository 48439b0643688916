//! The errors of the daemon.

use crate::text::concat_str;
use crate::text::decimal;
use crate::text::u64_to_string;
use vstd::prelude::*;
use vstd::string::StringExecFns;

verus! {

/// Why a configuration is rejected. Mappings are counted from one.
#[derive(Debug, Clone, PartialEq, Eq)]
pub enum ConfigError {
    InvalidLogLevel(String),
    InvalidLogFormat(String),
    ZeroRepeatDelay,
    InvalidDetectionMode(String),
    PollingIntervalTooShort,
    EmptyMappingKey { mapping: usize },
    InvalidModifier { modifier: String, mapping: usize },
}

/// A configuration error with its strings as sequences of characters.
pub enum ConfigErrorView {
    InvalidLogLevel(Seq<char>),
    InvalidLogFormat(Seq<char>),
    ZeroRepeatDelay,
    InvalidDetectionMode(Seq<char>),
    PollingIntervalTooShort,
    EmptyMappingKey { mapping: nat },
    InvalidModifier { modifier: Seq<char>, mapping: nat },
}

impl View for ConfigError {
    type V = ConfigErrorView;

    open spec fn view(&self) -> ConfigErrorView {
        match *self {
            ConfigError::InvalidLogLevel(s) => ConfigErrorView::InvalidLogLevel(s@),
            ConfigError::InvalidLogFormat(s) => ConfigErrorView::InvalidLogFormat(s@),
            ConfigError::ZeroRepeatDelay => ConfigErrorView::ZeroRepeatDelay,
            ConfigError::InvalidDetectionMode(s) => ConfigErrorView::InvalidDetectionMode(s@),
            ConfigError::PollingIntervalTooShort => ConfigErrorView::PollingIntervalTooShort,
            ConfigError::EmptyMappingKey { mapping } => ConfigErrorView::EmptyMappingKey {
                mapping: mapping as nat,
            },
            ConfigError::InvalidModifier { modifier, mapping } => ConfigErrorView::InvalidModifier {
                modifier: modifier@,
                mapping: mapping as nat,
            },
        }
    }
}

/// The text of a configuration error.
pub open spec fn config_error_text(e: ConfigErrorView) -> Seq<char> {
    match e {
        ConfigErrorView::InvalidLogLevel(level) => "Неверный уровень логирования: "@ + level,
        ConfigErrorView::InvalidLogFormat(format) => "Неверный формат логирования: "@ + format,
        ConfigErrorView::ZeroRepeatDelay => "repeat_delay_ms должно быть больше 0"@,
        ConfigErrorView::InvalidDetectionMode(mode) => "Неверный режим детекции окон: "@ + mode,
        ConfigErrorView::PollingIntervalTooShort => "polling_interval_ms должно быть минимум 100"@,
        ConfigErrorView::EmptyMappingKey { mapping } => "Пустая клавиша в маппинге #"@ + decimal(
            mapping,
        ),
        ConfigErrorView::InvalidModifier { modifier, mapping } => "Неверный модификатор '"@
            + modifier + "' в маппинге #"@ + decimal(mapping),
    }
}

/// Everything that can go wrong in the daemon, by kind. Configuration,
/// device and permission errors stop the start; the others are absorbed where
/// they are found.
#[derive(Debug, Clone, PartialEq, Eq)]
pub enum AhkError {
    Config(ConfigError),
    Io(String),
    Uinput(String),
    DBus(String),
    DeviceNotFound(String),
    Permission(String),
    ServiceUnavailable(String),
    Internal(String),
}

impl ConfigError {
    /// The error in words, for the user.
    pub fn message(&self) -> (r: String)
        ensures
            r@ == config_error_text(self@),
    {
        match self {
            ConfigError::InvalidLogLevel(level) => concat_str(
                "Неверный уровень логирования: ",
                level.as_str(),
            ),
            ConfigError::InvalidLogFormat(format) => concat_str(
                "Неверный формат логирования: ",
                format.as_str(),
            ),
            ConfigError::ZeroRepeatDelay => String::from_str(
                "repeat_delay_ms должно быть больше 0",
            ),
            ConfigError::InvalidDetectionMode(mode) => concat_str(
                "Неверный режим детекции окон: ",
                mode.as_str(),
            ),
            ConfigError::PollingIntervalTooShort => String::from_str(
                "polling_interval_ms должно быть минимум 100",
            ),
            ConfigError::EmptyMappingKey { mapping } => {
                let number = u64_to_string(*mapping as u64);
                concat_str("Пустая клавиша в маппинге #", number.as_str())
            },
            ConfigError::InvalidModifier { modifier, mapping } => {
                let number = u64_to_string(*mapping as u64);
                let mut out = concat_str("Неверный модификатор '", modifier.as_str());
                out.append("' в маппинге #");
                out.append(number.as_str());
                out
            },
        }
    }
}

/// An error with its strings as sequences of characters.
pub enum AhkErrorView {
    Config(ConfigErrorView),
    Io(Seq<char>),
    Uinput(Seq<char>),
    DBus(Seq<char>),
    DeviceNotFound(Seq<char>),
    Permission(Seq<char>),
    ServiceUnavailable(Seq<char>),
    Internal(Seq<char>),
}

impl View for AhkError {
    type V = AhkErrorView;

    open spec fn view(&self) -> AhkErrorView {
        match *self {
            AhkError::Config(e) => AhkErrorView::Config(e@),
            AhkError::Io(s) => AhkErrorView::Io(s@),
            AhkError::Uinput(s) => AhkErrorView::Uinput(s@),
            AhkError::DBus(s) => AhkErrorView::DBus(s@),
            AhkError::DeviceNotFound(s) => AhkErrorView::DeviceNotFound(s@),
            AhkError::Permission(s) => AhkErrorView::Permission(s@),
            AhkError::ServiceUnavailable(s) => AhkErrorView::ServiceUnavailable(s@),
            AhkError::Internal(s) => AhkErrorView::Internal(s@),
        }
    }
}

impl AhkError {
    /// The failure of a device search, with its reason.
    pub fn device_not_found<T>(msg: String) -> (r: Result<T, AhkError>)
        ensures
            r == Err::<T, AhkError>(AhkError::DeviceNotFound(msg)),
    {
        Err(AhkError::DeviceNotFound(msg))
    }
}

} // verus!
