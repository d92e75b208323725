//! The failures that the library and the program around it can report.

use vstd::prelude::*;
use vstd::std_specs::convert::FromSpecImpl;
use vstd::string::*;

verus! {

/// Errors that occur at runtime.
///
/// A variant that stands for a failure of the operating system or of a
/// driver carries the text of that failure, so that a one-line diagnostic
/// can be rendered from the value alone.
#[derive(Debug, Clone, PartialEq, Eq)]
pub enum ErrorKind {
    /// The piped input does not have the form `<hum>,<temp>`.
    InvalidInputFormat,
    /// The network interfaces could not be listed; holds the cause.
    InterfaceErr(String),
    /// No network interface has the given name.
    InterfaceNotFound(String),
    /// The I2C bus could not be set up; holds the cause.
    I2cAccessErr(String),
    /// The I2C display could not be initialised.
    I2cInitErr,
    /// The I2C display could not be written to.
    I2cWriteErr,
    /// The `/proc` filesystem could not be read; holds the cause.
    ProcFsErr(String),
    /// A file could not be opened; holds its path and the cause.
    FileOpenErr(String, String),
    /// A file could not be read; holds its path and the cause.
    FileReadErr(String, String),
    /// Standard input could not be read; holds the cause.
    StdinErr(String),
    /// A message could not be passed between threads.
    MsgPassingErr,
    /// Any other error, described by its message.
    Other(String),
}

impl ErrorKind {
    /// The one-line diagnostic of an error.
    pub open spec fn message_text(self) -> Seq<char> {
        match self {
            ErrorKind::InvalidInputFormat => "invalid input format, use '<hum>,<temp>' instead"@,
            ErrorKind::InterfaceErr(err) => "unable to access network interfaces: "@ + err@,
            ErrorKind::InterfaceNotFound(interface) => "network interface not found: '"@
                + interface@ + "'"@,
            ErrorKind::I2cAccessErr(err) => "unable to access I2C device: "@ + err@,
            ErrorKind::I2cInitErr => "unable to initialize I2C display"@,
            ErrorKind::I2cWriteErr => "unable to write to I2C display"@,
            ErrorKind::ProcFsErr(err) => "unable to access '/proc' filesystem: "@ + err@,
            ErrorKind::FileOpenErr(path, err) => "unable to open '"@ + path@ + "': "@ + err@,
            ErrorKind::FileReadErr(path, err) => "unable to read from '"@ + path@ + "': "@ + err@,
            ErrorKind::StdinErr(err) => "unable to read from standard input: "@ + err@,
            ErrorKind::MsgPassingErr => "unable to send messages between threads"@,
            ErrorKind::Other(msg) => msg@,
        }
    }

    /// Renders the diagnostic that is shown to the user when the program
    /// gives up.
    pub fn message(&self) -> (text: String)
        ensures
            text@ == self.message_text(),
    {
        match self {
            ErrorKind::InvalidInputFormat => String::from_str(
                "invalid input format, use '<hum>,<temp>' instead",
            ),
            ErrorKind::InterfaceErr(err) => String::from_str(
                "unable to access network interfaces: ",
            ).concat(err.as_str()),
            ErrorKind::InterfaceNotFound(interface) => String::from_str(
                "network interface not found: '",
            ).concat(interface.as_str()).concat("'"),
            ErrorKind::I2cAccessErr(err) => String::from_str(
                "unable to access I2C device: ",
            ).concat(err.as_str()),
            ErrorKind::I2cInitErr => String::from_str("unable to initialize I2C display"),
            ErrorKind::I2cWriteErr => String::from_str("unable to write to I2C display"),
            ErrorKind::ProcFsErr(err) => String::from_str(
                "unable to access '/proc' filesystem: ",
            ).concat(err.as_str()),
            ErrorKind::FileOpenErr(path, err) => String::from_str("unable to open '").concat(
                path.as_str(),
            ).concat("': ").concat(err.as_str()),
            ErrorKind::FileReadErr(path, err) => String::from_str("unable to read from '").concat(
                path.as_str(),
            ).concat("': ").concat(err.as_str()),
            ErrorKind::StdinErr(err) => String::from_str(
                "unable to read from standard input: ",
            ).concat(err.as_str()),
            ErrorKind::MsgPassingErr => String::from_str(
                "unable to send messages between threads",
            ),
            ErrorKind::Other(msg) => msg.clone(),
        }
    }
}

impl From<&str> for ErrorKind {
    /// Wraps a bare message as `ErrorKind::Other`.
    fn from(msg: &str) -> (err: Self)
        ensures
            err matches ErrorKind::Other(m) && m@ == msg@,
    {
        ErrorKind::Other(String::from_str(msg))
    }
}

impl FromSpecImpl<&str> for ErrorKind {
    /// `from` states in its own contract what it returns: the message is
    /// known by its text, not as a value.
    open spec fn obeys_from_spec() -> bool {
        false
    }

    open spec fn from_spec(msg: &str) -> Self {
        ErrorKind::Other(choose|text: String| text@ == msg@)
    }
}

} // verus!
