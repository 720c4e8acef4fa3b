//! Structured asynchronous logger.
//!
//! Callers hand log events to a `Logger`, which stamps them and places them
//! on a channel; a dedicated writer loop (outside this library) drains the
//! channel and renders each message as one line of `timestamp, LEVEL, context`
//! text. With a bounded channel, backpressure is by blocking: a full queue
//! delays the producer instead of dropping the event.
//!
//! Each `Logger` handle carries a ghost history of the entries it has
//! successfully enqueued, in order: one entry per accepted call, none lost,
//! none duplicated. The channel itself delivers to the single consumer in
//! enqueue order.

use vstd::prelude::*;
use vstd::string::StringExecFns;

verus! {

/// Severity of a log event. Every level reaches the destination; no
/// filtering happens on level.
#[derive(Copy, Clone, PartialEq, Eq, Structural, Debug)]
pub enum LogLevel {
    Info,
    Warning,
    Error,
}

impl LogLevel {
    /// The upper-case name a rendered log line carries for this level.
    pub open spec fn spec_str(self) -> Seq<char> {
        match self {
            LogLevel::Info => "INFO"@,
            LogLevel::Warning => "WARNING"@,
            LogLevel::Error => "ERROR"@,
        }
    }

    pub fn as_str(&self) -> (r: &'static str)
        ensures
            r@ == self.spec_str(),
    {
        match self {
            LogLevel::Info => "INFO",
            LogLevel::Warning => "WARNING",
            LogLevel::Error => "ERROR",
        }
    }
}

/// A value that can describe itself for a log line. Components declare a
/// closed set of event variants and implement this once per component.
pub trait Context: Sized {
    /// The exact text this event renders to.
    spec fn context_spec(&self) -> Seq<char>;

    fn context_string(&self) -> (r: String)
        ensures
            r@ == self.context_spec(),
    ;
}

/// One log event: a timestamp taken at enqueue time, a severity, and the
/// component-specific context. Consumed exactly once by the writer loop.
pub struct LogMessage<T: Context> {
    pub timestamp: String,
    pub level: LogLevel,
    pub context: T,
}

impl<T: Context> LogMessage<T> {
    pub fn new(timestamp: String, level: LogLevel, context: T) -> (r: Self)
        ensures
            r.timestamp == timestamp,
            r.level == level,
            r.context == context,
    {
        LogMessage { timestamp, level, context }
    }

    /// The rendered text of this message, exactly as `spec_line` states.
    pub open spec fn spec_line(&self) -> Seq<char> {
        self.timestamp@ + ", "@ + self.level.spec_str() + ", "@ + self.context.context_spec()
            + "\n"@
    }

    /// Render this message as its one log line:
    /// `timestamp, LEVEL, context` terminated by a newline.
    pub fn render(&self) -> (r: String)
        ensures
            r@ == self.spec_line(),
    {
        let mut line = self.timestamp.clone();
        line.append(", ");
        line.append(self.level.as_str());
        line.append(", ");
        let context_text = self.context.context_string();
        line.append(context_text.as_str());
        line.append("\n");
        proof {
            assert(line@ =~= self.spec_line());
        }
        line
    }
}

/// The failure a caller sees when the writer loop has terminated and its
/// receiving end is gone. Non-fatal: the caller reports it and goes on.
#[derive(Copy, Clone, PartialEq, Eq, Structural, Debug)]
pub struct LoggerError;

impl LoggerError {
    pub fn message(&self) -> (r: &'static str)
        ensures
            r@ == "sending to logging thread failed, receiver is dead"@,
    {
        "sending to logging thread failed, receiver is dead"
    }
}

/// Relies on crossbeam's `channel::Sender`; declared so that the sending
/// half of the delivery channel can stand in fields and signatures.
#[verifier::external_type_specification]
#[verifier::external_body]
#[verifier::reject_recursive_types(T)]
pub struct ExSender<T>(crossbeam::channel::Sender<T>);

/// Relies on crossbeam's `Sender::send`: it blocks while a bounded queue is
/// full, and hands the message itself back if and only if the receiving side
/// is disconnected.
#[verifier::external_body]
fn channel_send<T>(sender: &crossbeam::channel::Sender<T>, message: T) -> (r: Result<(), T>)
    ensures
        r is Err ==> r->Err_0 == message,
{
    match sender.send(message) {
        Ok(()) => Ok(()),
        Err(e) => Err(e.0),
    }
}

/// Relies on crossbeam's `Sender::clone`: the new handle feeds the same
/// channel, so no new writer loop or destination comes into being.
#[verifier::external_body]
fn clone_sender<T>(sender: &crossbeam::channel::Sender<T>) -> crossbeam::channel::Sender<T> {
    sender.clone()
}

/// Relies on chrono's `Utc::now` and its text form. The result depends on
/// the wall clock, so nothing is promised of it.
#[verifier::external_body]
fn current_timestamp() -> String {
    format!("{}", chrono::Utc::now())
}

/// A shareable handle for producing log events.
///
/// The ghost `history` is the sequence of `(level, context)` entries this
/// handle has successfully enqueued, oldest first. Every accepted call
/// appends exactly one entry, so per handle the delivery order matches the
/// call order, with no loss and no duplication.
#[verifier::reject_recursive_types(T)]
pub struct Logger<T: Context> {
    sender: crossbeam::channel::Sender<LogMessage<T>>,
    history: Ghost<Seq<(LogLevel, T)>>,
}

impl<T: Context> Logger<T> {
    /// The entries this handle has enqueued so far, in order.
    pub closed spec fn history(&self) -> Seq<(LogLevel, T)> {
        self.history@
    }

    /// Wrap the sending half of the delivery channel; the receiving half
    /// belongs to the writer loop.
    pub fn new(sender: crossbeam::channel::Sender<LogMessage<T>>) -> (r: Logger<T>)
        ensures
            r.history() == Seq::<(LogLevel, T)>::empty(),
    {
        Logger { sender, history: Ghost(Seq::empty()) }
    }

    /// A further handle onto the same channel. Its own enqueue history
    /// starts empty: history is tracked per producer.
    pub fn duplicate(&self) -> (r: Logger<T>)
        ensures
            r.history() == Seq::<(LogLevel, T)>::empty(),
    {
        Logger { sender: clone_sender(&self.sender), history: Ghost(Seq::empty()) }
    }

    /// Stamp the event with the current time and enqueue it. Blocks while
    /// the bounded queue is full; fails only when the writer loop is gone,
    /// in which case nothing was enqueued.
    pub fn log(&mut self, level: LogLevel, context: T) -> (r: Result<(), LoggerError>)
        ensures
            r is Ok ==> final(self).history() == old(self).history().push((level, context)),
            r is Err ==> final(self).history() == old(self).history(),
    {
        let ghost entry = (level, context);
        let timestamp = current_timestamp();
        let message = LogMessage::new(timestamp, level, context);
        match channel_send(&self.sender, message) {
            Ok(()) => {
                self.history = Ghost(self.history@.push(entry));
                Ok(())
            },
            Err(_) => Err(LoggerError),
        }
    }

    pub fn info(&mut self, context: T) -> (r: Result<(), LoggerError>)
        ensures
            r is Ok ==> final(self).history() == old(self).history().push(
                (LogLevel::Info, context),
            ),
            r is Err ==> final(self).history() == old(self).history(),
    {
        self.log(LogLevel::Info, context)
    }

    pub fn warning(&mut self, context: T) -> (r: Result<(), LoggerError>)
        ensures
            r is Ok ==> final(self).history() == old(self).history().push(
                (LogLevel::Warning, context),
            ),
            r is Err ==> final(self).history() == old(self).history(),
    {
        self.log(LogLevel::Warning, context)
    }

    pub fn error(&mut self, context: T) -> (r: Result<(), LoggerError>)
        ensures
            r is Ok ==> final(self).history() == old(self).history().push(
                (LogLevel::Error, context),
            ),
            r is Err ==> final(self).history() == old(self).history(),
    {
        self.log(LogLevel::Error, context)
    }
}

} // verus!
