//! Invocation options of the command-line and graphical front ends: which
//! acquisition backend to use and how loudly to log. Parsing the command
//! line and opening devices belong to the front ends; the option values
//! and the backend choice they imply are decided here.

use vstd::prelude::*;

verus! {

/// How loudly the front end logs.
#[derive(Clone, Copy, PartialEq, Eq, Structural, Debug)]
pub enum LogLevel {
    Off,
    Error,
    Warn,
    Info,
    Debug,
    Trace,
}

impl LogLevel {
    /// The lower-case name of the level.
    pub fn as_str(self) -> (r: &'static str)
        ensures
            self is Off ==> r@ == "off"@,
            self is Error ==> r@ == "error"@,
            self is Warn ==> r@ == "warn"@,
            self is Info ==> r@ == "info"@,
            self is Debug ==> r@ == "debug"@,
            self is Trace ==> r@ == "trace"@,
    {
        match self {
            LogLevel::Off => "off",
            LogLevel::Error => "error",
            LogLevel::Warn => "warn",
            LogLevel::Info => "info",
            LogLevel::Debug => "debug",
            LogLevel::Trace => "trace",
        }
    }

    /// The level named by its lower-case name.
    pub fn from_str(s: &str) -> (r: Result<LogLevel, ()>)
        ensures
            s@ == "off"@ ==> r == Result::<LogLevel, ()>::Ok(LogLevel::Off),
            s@ == "error"@ ==> r == Result::<LogLevel, ()>::Ok(LogLevel::Error),
            s@ == "warn"@ ==> r == Result::<LogLevel, ()>::Ok(LogLevel::Warn),
            s@ == "info"@ ==> r == Result::<LogLevel, ()>::Ok(LogLevel::Info),
            s@ == "debug"@ ==> r == Result::<LogLevel, ()>::Ok(LogLevel::Debug),
            s@ == "trace"@ ==> r == Result::<LogLevel, ()>::Ok(LogLevel::Trace),
    {
        proof {
            reveal_strlit("off");
            reveal_strlit("error");
            reveal_strlit("warn");
            reveal_strlit("info");
            reveal_strlit("debug");
            reveal_strlit("trace");
            assert("off"@[0] == 'o' && "error"@[0] == 'e' && "warn"@[0] == 'w' && "info"@[0]
                == 'i' && "debug"@[0] == 'd' && "trace"@[0] == 't');
        }
        if crate::options::str_eq(s, "off") {
            Ok(LogLevel::Off)
        } else if crate::options::str_eq(s, "error") {
            Ok(LogLevel::Error)
        } else if crate::options::str_eq(s, "warn") {
            Ok(LogLevel::Warn)
        } else if crate::options::str_eq(s, "info") {
            Ok(LogLevel::Info)
        } else if crate::options::str_eq(s, "debug") {
            Ok(LogLevel::Debug)
        } else if crate::options::str_eq(s, "trace") {
            Ok(LogLevel::Trace)
        } else {
            Err(())
        }
    }
}

/// True when two string slices hold the same characters.
pub(crate) fn str_eq(a: &str, b: &str) -> (r: bool)
    ensures
        r == (a@ == b@),
{
    let x = a.to_owned();
    let y = b.to_owned();
    x == y
}

/// An option bundle a front end runs under: it decides how loudly the
/// front end's logging is initialized.
pub trait Opt {
    /// The configured logging level.
    spec fn log_level_spec(&self) -> LogLevel;

    /// The logging level the front end initializes with.
    fn log_level(&self) -> (r: LogLevel)
        ensures
            r == self.log_level_spec(),
    ;
}

/// The acquisition backend a command-line run reads from.
pub enum CliBackendOption {
    /// The first instrument the vendor API offers.
    DWF,
    /// A saved trace file.
    Csv { file: String },
}

/// The acquisition backend a graphical run reads from.
pub enum GuiBackendOption {
    /// The first instrument the vendor API offers.
    DWF,
}

/// The options of a command-line run.
pub struct CliOpt {
    pub device: Option<CliBackendOption>,
    pub log_level: LogLevel,
}

/// The options of a graphical run.
pub struct GuiOpt {
    pub device: Option<GuiBackendOption>,
    pub log_level: LogLevel,
}

impl Opt for CliOpt {
    open spec fn log_level_spec(&self) -> LogLevel {
        self.log_level
    }

    fn log_level(&self) -> (r: LogLevel) {
        self.log_level
    }
}

impl Opt for GuiOpt {
    open spec fn log_level_spec(&self) -> LogLevel {
        self.log_level
    }

    fn log_level(&self) -> (r: LogLevel) {
        self.log_level
    }
}

impl CliOpt {
    /// True when the run reads from the instrument: either asked for
    /// explicitly or left unsaid, the instrument being the default.
    pub fn uses_hardware(&self) -> (r: bool)
        ensures
            r == (self.device is None || self.device matches Some(CliBackendOption::DWF)),
    {
        match &self.device {
            None => true,
            Some(CliBackendOption::DWF) => true,
            Some(CliBackendOption::Csv { .. }) => false,
        }
    }

    /// The trace file of a file-reading run.
    pub fn csv_file(&self) -> (r: Option<&String>)
        ensures
            (match self.device {
                Some(CliBackendOption::Csv { ref file }) => r matches Some(f) && f == file,
                _ => r is None,
            }),
    {
        match &self.device {
            Some(CliBackendOption::Csv { file }) => Some(file),
            _ => None,
        }
    }
}

impl GuiOpt {
    /// The backend of a graphical run: always the instrument.
    pub fn uses_hardware(&self) -> (r: bool)
        ensures
            r,
    {
        true
    }
}

} // verus!
