//! The log: a channel that execution writes to without waiting for, or
//! depending on, anyone who reads it.

use vstd::prelude::*;

verus! {

/// How much a log message matters. `Info` carries a verbosity: the higher, the
/// less important the message.
#[derive(Debug, Clone, Copy, PartialEq, Eq, Structural)]
pub enum LogLevel {
    Error,
    Warning,
    Info(u8),
    Debug,
}

impl From<u8> for LogLevel {
    /// A bare number stands for an informational message of that verbosity.
    fn from(value: u8) -> (level: LogLevel) {
        LogLevel::Info(value)
    }
}

impl vstd::std_specs::convert::FromSpecImpl<u8> for LogLevel {
    open spec fn obeys_from_spec() -> bool {
        true
    }

    open spec fn from_spec(value: u8) -> LogLevel {
        LogLevel::Info(value)
    }
}

/// `std::sync::mpsc::Sender`, the sending end of a channel. Nothing is known
/// of what is inside.
#[verifier::external_type_specification]
#[verifier::external_body]
#[verifier::reject_recursive_types(T)]
pub struct ExSender<T>(std::sync::mpsc::Sender<T>);

/// `std::sync::mpsc::Receiver`, the receiving end of a channel. Nothing is
/// known of what is inside.
#[verifier::external_type_specification]
#[verifier::external_body]
#[verifier::reject_recursive_types(T)]
pub struct ExReceiver<T>(std::sync::mpsc::Receiver<T>);

/// The receiving end of the log: an ordered stream of levels and messages.
pub type LogReciever = std::sync::mpsc::Receiver<(LogLevel, String)>;

/// The sending end of the log, or nothing where nobody has asked for a log.
pub struct Logger {
    sender: Option<std::sync::mpsc::Sender<(LogLevel, String)>>,
}

/// Opens an unbounded channel with `std::sync::mpsc::channel`. Nothing is
/// claimed of the two ends that come back.
#[verifier::external_body]
fn open_channel() -> (std::sync::mpsc::Sender<(LogLevel, String)>, LogReciever) {
    std::sync::mpsc::channel()
}

/// Hands one message to `std::sync::mpsc::Sender::send`, which never blocks.
/// That the receiving end may be gone is no concern of the sender: the error
/// that `send` reports then is dropped.
#[verifier::external_body]
fn send_message(
    sender: &std::sync::mpsc::Sender<(LogLevel, String)>,
    level: LogLevel,
    message: &str,
) {
    let _ = sender.send((level, message.to_string()));
}

impl Logger {
    /// Whether there is a log to write to.
    pub closed spec fn installed(&self) -> bool {
        self.sender is Some
    }

    /// The logger of somebody who has no log: whatever is logged to it is
    /// dropped.
    pub fn absent() -> (logger: Logger)
        ensures
            !logger.installed(),
    {
        Logger { sender: None }
    }

    /// Whether there is a log to write to.
    pub fn is_installed(&self) -> (installed: bool)
        ensures
            installed == self.installed(),
    {
        self.sender.is_some()
    }

    /// Sends `message` to the log if there is one, and does nothing if there
    /// is none. The logger stays as it is either way.
    pub fn log(&mut self, level: LogLevel, message: &str)
        ensures
            *final(self) == *old(self),
    {
        match &self.sender {
            Some(sender) => send_message(sender, level, message),
            None => {},
        }
    }

    /// Takes the logger out and leaves an absent one in its place.
    pub fn take(&mut self) -> (logger: Logger)
        ensures
            logger == *old(self),
            !final(self).installed(),
    {
        Logger { sender: self.sender.take() }
    }
}

/// Opens a log. The logger that comes back is installed, and the log begins
/// with the announcement that it has started.
pub fn init_logging() -> (ends: (Logger, LogReciever))
    ensures
        ends.0.installed(),
{
    let (sender, reciever) = open_channel();
    let mut logger = Logger { sender: Some(sender) };
    logger.log(LogLevel::Info(0), "XRVE Log started");
    (logger, reciever)
}

} // verus!
