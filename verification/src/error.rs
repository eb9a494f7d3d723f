//! The error taxonomy: configuration and storage errors, statistics
//! errors, and the remote service's failures split into retryable and
//! fatal. Every error renders itself as a human-readable message; none of
//! them ever ends the process.

use vstd::prelude::*;

use crate::pixel::Pixel;

verus! {

/// Errors around the persisted configuration and local storage.
#[derive(Debug)]
pub enum SettingsError {
    /// A setting cannot be applied while the timer is running.
    UpdateError,
    SaveError(String),
    LoadError(String),
    /// No saved records were found; the defaults are loaded.
    NoData,
    HomeDirNotFound,
    IO(String),
    WrongSetting(String),
}

impl SettingsError {
    /// The human-readable message shown for this error.
    pub fn message(&self) -> (r: String)
        ensures
            r@ == (match self {
                SettingsError::UpdateError => "Update failed! Stop the timer first"@,
                SettingsError::SaveError(s) => "There was an error with saving your data: "@ + s@,
                SettingsError::LoadError(s) => "There was an error with loading your data: "@
                    + s@,
                SettingsError::NoData => "Saved pixels not found, loading the defaults"@,
                SettingsError::HomeDirNotFound =>
                "Couldn't locate a suitable directory to keep your config in."@,
                SettingsError::IO(s) => "Error with filesystem: "@ + s@,
                SettingsError::WrongSetting(s) => "Incorrect setting value: "@ + s@,
            }),
    {
        match self {
            SettingsError::UpdateError => String::from_str("Update failed! Stop the timer first"),
            SettingsError::SaveError(s) => String::from_str(
                "There was an error with saving your data: ",
            ).concat(s.as_str()),
            SettingsError::LoadError(s) => String::from_str(
                "There was an error with loading your data: ",
            ).concat(s.as_str()),
            SettingsError::NoData => String::from_str(
                "Saved pixels not found, loading the defaults",
            ),
            SettingsError::HomeDirNotFound => String::from_str(
                "Couldn't locate a suitable directory to keep your config in.",
            ),
            SettingsError::IO(s) => String::from_str("Error with filesystem: ").concat(s.as_str()),
            SettingsError::WrongSetting(s) => String::from_str("Incorrect setting value: ").concat(
                s.as_str(),
            ),
        }
    }
}

/// Errors of the progress-tracking side.
#[derive(Debug, Clone, Copy, PartialEq, Eq, Structural)]
pub enum StatsError {
    UserNotProvided,
    StatsTrackingTurnedOff,
    SubjectsAreEmpty,
    SubjectsSyncFailed,
    SubjectCreationFailed,
    WrongPixelData,
    QuantityIsNotBigEnough,
}

impl StatsError {
    /// The human-readable message shown for this error.
    pub fn message(&self) -> (r: String)
        ensures
            r@ == (match self {
                StatsError::UserNotProvided =>
                "Failed to create a PixelaUser: Credentials not provided"@,
                StatsError::StatsTrackingTurnedOff => "Stats module is off, turn on and login"@,
                StatsError::SubjectsAreEmpty => "You have no subjects, make sure to sync"@,
                StatsError::SubjectsSyncFailed => "The sync has failed"@,
                StatsError::SubjectCreationFailed =>
                "Cannot create a subject with these parameters"@,
                StatsError::WrongPixelData => "Can't upload this pixel"@,
                StatsError::QuantityIsNotBigEnough =>
                "Your graph cannot store progress this small"@,
            }),
    {
        match self {
            StatsError::UserNotProvided => String::from_str(
                "Failed to create a PixelaUser: Credentials not provided",
            ),
            StatsError::StatsTrackingTurnedOff => String::from_str(
                "Stats module is off, turn on and login",
            ),
            StatsError::SubjectsAreEmpty => String::from_str(
                "You have no subjects, make sure to sync",
            ),
            StatsError::SubjectsSyncFailed => String::from_str("The sync has failed"),
            StatsError::SubjectCreationFailed => String::from_str(
                "Cannot create a subject with these parameters",
            ),
            StatsError::WrongPixelData => String::from_str("Can't upload this pixel"),
            StatsError::QuantityIsNotBigEnough => String::from_str(
                "Your graph cannot store progress this small",
            ),
        }
    }
}

/// One fatal remote failure: its message and the HTTP status it came with.
#[derive(Debug, Clone)]
pub struct FatalError {
    pub message: String,
    pub code: u16,
}

impl FatalError {
    pub fn new(message: String, code: u16) -> (r: FatalError)
        ensures
            r.message == message,
            r.code == code,
    {
        FatalError { message, code }
    }

    /// The human-readable message shown for this error.
    pub fn message_text(&self) -> (r: String)
        ensures
            r@ == self.message@,
    {
        self.message.clone()
    }

    /// The fatal failure inside an error, when that is what it holds.
    pub fn try_from_error(value: Error) -> (r: Result<FatalError, Error>)
        ensures
            match r {
                Ok(f) => value matches Error::PixelaResponseError(
                    PixelaResponseError::FatalError(m, c),
                ) && f.message == m && f.code == c,
                Err(_) => !(value matches Error::PixelaResponseError(
                    PixelaResponseError::FatalError(_, _),
                )),
            },
    {
        match value {
            Error::PixelaResponseError(PixelaResponseError::FatalError(message, code)) => Ok(
                FatalError { message, code },
            ),
            _ => Err(Error::MiscError(String::from_str("Not supported conversion"))),
        }
    }
}

/// How the remote service answered: a transient failure worth retrying, a
/// fatal one, or a whole batch that could not be settled — the latter
/// carries every record that was not confirmed, so the caller can keep it.
#[derive(Debug)]
pub enum PixelaResponseError {
    RetryableError(String, u16),
    FatalError(String, u16),
    FatalSendingPixelsError { errors: Vec<FatalError>, pixels: Vec<Pixel> },
}

/// The messages of a list of fatal failures, one per line.
pub open spec fn spec_join_messages(errors: Seq<FatalError>) -> Seq<char>
    decreases errors.len(),
{
    if errors.len() == 0 {
        Seq::empty()
    } else if errors.len() == 1 {
        errors[0].message@
    } else {
        spec_join_messages(errors.drop_last()) + seq!['\n'] + errors.last().message@
    }
}

impl PixelaResponseError {
    /// The human-readable message shown for this error; a failed batch
    /// lists each fatal failure on a line of its own.
    pub fn message(&self) -> (r: String)
        ensures
            r@ == (match self {
                PixelaResponseError::RetryableError(s, _) => s@,
                PixelaResponseError::FatalError(s, _) => s@,
                PixelaResponseError::FatalSendingPixelsError { errors, pixels: _ } =>
                spec_join_messages(errors@),
            }),
    {
        match self {
            PixelaResponseError::RetryableError(s, _) => s.clone(),
            PixelaResponseError::FatalError(s, _) => s.clone(),
            PixelaResponseError::FatalSendingPixelsError { errors, pixels: _ } => {
                let mut acc = String::new();
                let mut i: usize = 0;
                let n = errors.len();
                while i < n
                    invariant
                        n == errors@.len(),
                        i <= n,
                        acc@ == spec_join_messages(errors@.subrange(0, i as int)),
                    decreases n - i,
                {
                    if i > 0 {
                        crate::text::push_char(&mut acc, '\n');
                    }
                    let mut line = acc;
                    line.append(errors[i].message.as_str());
                    acc = line;
                    proof {
                        let pre = errors@.subrange(0, i + 1);
                        assert(pre.drop_last() =~= errors@.subrange(0, i as int));
                        assert(pre.last() == errors@[i as int]);
                        assert(acc@ =~= spec_join_messages(pre));
                    }
                    i = i + 1;
                }
                proof {
                    assert(errors@.subrange(0, n as int) =~= errors@);
                }
                acc
            },
        }
    }
}

/// Any failure the library reports. Outside causes — the filesystem, the
/// HTTP client, the configuration format — arrive reduced to their
/// human-readable message.
#[derive(Debug)]
pub enum Error {
    IO(String),
    SettingsError(SettingsError),
    StatsError(StatsError),
    RequestError(String),
    PixelaResponseError(PixelaResponseError),
    TomlDeError(String),
    TomlSerError(String),
    AsyncError(String),
    MiscError(String),
}

/// The message a failure renders to, with a prefix naming the part of
/// the system it came from.
pub open spec fn spec_error_message(e: Error) -> Seq<char> {
    match e {
        Error::IO(s) => s@,
        Error::SettingsError(se) => "Settings Error: "@ + (match se {
            SettingsError::UpdateError => "Update failed! Stop the timer first"@,
            SettingsError::SaveError(s) => "There was an error with saving your data: "@ + s@,
            SettingsError::LoadError(s) => "There was an error with loading your data: "@ + s@,
            SettingsError::NoData => "Saved pixels not found, loading the defaults"@,
            SettingsError::HomeDirNotFound =>
            "Couldn't locate a suitable directory to keep your config in."@,
            SettingsError::IO(s) => "Error with filesystem: "@ + s@,
            SettingsError::WrongSetting(s) => "Incorrect setting value: "@ + s@,
        }),
        Error::StatsError(se) => "Stats Error: "@ + (match se {
            StatsError::UserNotProvided =>
            "Failed to create a PixelaUser: Credentials not provided"@,
            StatsError::StatsTrackingTurnedOff => "Stats module is off, turn on and login"@,
            StatsError::SubjectsAreEmpty => "You have no subjects, make sure to sync"@,
            StatsError::SubjectsSyncFailed => "The sync has failed"@,
            StatsError::SubjectCreationFailed => "Cannot create a subject with these parameters"@,
            StatsError::WrongPixelData => "Can't upload this pixel"@,
            StatsError::QuantityIsNotBigEnough => "Your graph cannot store progress this small"@,
        }),
        Error::RequestError(s) => "Request Error: "@ + s@,
        Error::PixelaResponseError(pe) => "Pixela Error: "@ + (match pe {
            PixelaResponseError::RetryableError(s, _) => s@,
            PixelaResponseError::FatalError(s, _) => s@,
            PixelaResponseError::FatalSendingPixelsError { errors, pixels: _ } =>
            spec_join_messages(errors@),
        }),
        Error::TomlDeError(s) => "Toml Deserialization Error: "@ + s@,
        Error::TomlSerError(s) => "Toml Serialization Error: "@ + s@,
        Error::AsyncError(s) => "Async Error: "@ + s@,
        Error::MiscError(s) => "Misc Error: "@ + s@,
    }
}

impl Error {
    /// The human-readable message shown for this failure, with a prefix
    /// naming the part of the system it came from.
    pub fn message(&self) -> (r: String)
        ensures
            r@ == spec_error_message(*self),
            r@ == (match self {
                Error::IO(s) => s@,
                Error::SettingsError(e) => "Settings Error: "@ + (match e {
                    SettingsError::UpdateError => "Update failed! Stop the timer first"@,
                    SettingsError::SaveError(s) => "There was an error with saving your data: "@
                        + s@,
                    SettingsError::LoadError(s) => "There was an error with loading your data: "@
                        + s@,
                    SettingsError::NoData => "Saved pixels not found, loading the defaults"@,
                    SettingsError::HomeDirNotFound =>
                    "Couldn't locate a suitable directory to keep your config in."@,
                    SettingsError::IO(s) => "Error with filesystem: "@ + s@,
                    SettingsError::WrongSetting(s) => "Incorrect setting value: "@ + s@,
                }),
                Error::StatsError(e) => "Stats Error: "@ + (match e {
                    StatsError::UserNotProvided =>
                    "Failed to create a PixelaUser: Credentials not provided"@,
                    StatsError::StatsTrackingTurnedOff => "Stats module is off, turn on and login"@,
                    StatsError::SubjectsAreEmpty => "You have no subjects, make sure to sync"@,
                    StatsError::SubjectsSyncFailed => "The sync has failed"@,
                    StatsError::SubjectCreationFailed =>
                    "Cannot create a subject with these parameters"@,
                    StatsError::WrongPixelData => "Can't upload this pixel"@,
                    StatsError::QuantityIsNotBigEnough =>
                    "Your graph cannot store progress this small"@,
                }),
                Error::RequestError(s) => "Request Error: "@ + s@,
                Error::PixelaResponseError(e) => "Pixela Error: "@ + (match e {
                    PixelaResponseError::RetryableError(s, _) => s@,
                    PixelaResponseError::FatalError(s, _) => s@,
                    PixelaResponseError::FatalSendingPixelsError { errors, pixels: _ } =>
                    spec_join_messages(errors@),
                }),
                Error::TomlDeError(s) => "Toml Deserialization Error: "@ + s@,
                Error::TomlSerError(s) => "Toml Serialization Error: "@ + s@,
                Error::AsyncError(s) => "Async Error: "@ + s@,
                Error::MiscError(s) => "Misc Error: "@ + s@,
            }),
    {
        match self {
            Error::IO(s) => s.clone(),
            Error::SettingsError(e) => String::from_str("Settings Error: ").concat(
                e.message().as_str(),
            ),
            Error::StatsError(e) => String::from_str("Stats Error: ").concat(e.message().as_str()),
            Error::RequestError(s) => String::from_str("Request Error: ").concat(s.as_str()),
            Error::PixelaResponseError(e) => String::from_str("Pixela Error: ").concat(
                e.message().as_str(),
            ),
            Error::TomlDeError(s) => String::from_str("Toml Deserialization Error: ").concat(
                s.as_str(),
            ),
            Error::TomlSerError(s) => String::from_str("Toml Serialization Error: ").concat(
                s.as_str(),
            ),
            Error::AsyncError(s) => String::from_str("Async Error: ").concat(s.as_str()),
            Error::MiscError(s) => String::from_str("Misc Error: ").concat(s.as_str()),
        }
    }

    /// Whether this failure is transient and worth retrying.
    pub fn is_retryable(&self) -> (r: bool)
        ensures
            r == (self matches Error::PixelaResponseError(
                PixelaResponseError::RetryableError(_, _),
            )),
    {
        match self {
            Error::PixelaResponseError(PixelaResponseError::RetryableError(_, _)) => true,
            _ => false,
        }
    }
}

} // verus!
