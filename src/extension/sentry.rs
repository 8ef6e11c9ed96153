//! Reporting errors to Sentry without blocking the caller.
//!
//! A [`Reporter`] holds the sending end of an unbounded channel, installed at
//! most once. The caller of [`init`] that installs it gets the receiving end
//! and runs the worker on its own thread, handing each received command to a
//! [`Worker`](super::worker::Worker). Any thread may then [`send`] reports and
//! [`terminate`] the worker; neither blocks.

use vstd::prelude::*;
use crossbeam_channel::{Receiver, Sender};
use once_cell::sync::OnceCell;
use crate::error::Error;
use crate::extension::worker::Command;

verus! {

/// The sending end of a `crossbeam_channel` channel, opaque here.
#[verifier::external_type_specification]
#[verifier::external_body]
#[verifier::reject_recursive_types(T)]
pub struct ExSender<T>(crossbeam_channel::Sender<T>);

/// The receiving end of a `crossbeam_channel` channel, opaque here.
#[verifier::external_type_specification]
#[verifier::external_body]
#[verifier::reject_recursive_types(T)]
pub struct ExReceiver<T>(crossbeam_channel::Receiver<T>);

/// A `once_cell` cell that is written at most once, opaque here.
#[verifier::external_type_specification]
#[verifier::external_body]
#[verifier::reject_recursive_types(T)]
pub struct ExOnceCell<T>(once_cell::sync::OnceCell<T>);

/// Relies on `crossbeam_channel::unbounded`: a new channel without a bound, so
/// that sending never waits.
#[verifier::external_body]
fn new_channel() -> (Sender<Command>, Receiver<Command>) {
    crossbeam_channel::unbounded()
}

/// Relies on `once_cell::sync::OnceCell::new`: an empty cell.
#[verifier::external_body]
fn empty_slot() -> OnceCell<Sender<Command>> {
    OnceCell::new()
}

/// Relies on `once_cell::sync::OnceCell::try_insert`: stores the sender when the
/// cell is empty and says whether it did; of several threads that try at once,
/// one stores.
#[verifier::external_body]
fn install_sender(slot: &OnceCell<Sender<Command>>, tx: Sender<Command>) -> (stored: bool) {
    slot.try_insert(tx).is_ok()
}

/// Relies on `once_cell::sync::OnceCell::get`: the sender, once one is stored;
/// it never waits.
#[verifier::external_body]
fn installed_sender(slot: &OnceCell<Sender<Command>>) -> Option<&Sender<Command>> {
    slot.get()
}

/// Relies on `crossbeam_channel::Sender::send`: on an unbounded channel it does
/// not wait, and refuses the command only once the receiving end is dropped.
#[verifier::external_body]
fn enqueue(tx: &Sender<Command>, cmd: Command) -> (accepted: bool) {
    tx.send(cmd).is_ok()
}

/// Sentry configuration.
#[derive(Clone, Debug)]
pub struct Config {
    /// The URL that Sentry gives when creating a project there.
    pub dsn: String,
    /// staging, production etc.
    pub environment: Option<String>,
    /// Some string to identify the instance of your service.
    pub server_name: Option<String>,
    /// The release to be sent with events.
    pub release: Option<String>,
}

fn copy_text(s: &Option<String>) -> (r: Option<String>)
    ensures
        r == *s,
{
    match s {
        Some(t) => Some(t.clone()),
        None => None,
    }
}

impl Config {
    /// A copy of the configuration.
    pub fn duplicate(&self) -> (r: Config)
        ensures
            r == *self,
    {
        Config {
            dsn: self.dsn.clone(),
            environment: copy_text(&self.environment),
            server_name: copy_text(&self.server_name),
            release: copy_text(&self.release),
        }
    }
}

/// The options of the Sentry client.
pub struct ClientSettings {
    /// Whether a stack trace is attached to each event.
    pub attach_stacktrace: bool,
    /// The release sent with events.
    pub release: Option<String>,
    /// The environment sent with events.
    pub environment: Option<String>,
    /// The server name sent with events.
    pub server_name: Option<String>,
}

/// The client options for a configuration: stack traces on, and the release,
/// environment and server name that the configuration gives.
pub fn options(config: &Config) -> (r: ClientSettings)
    ensures
        r.attach_stacktrace,
        r.release == config.release,
        r.environment == config.environment,
        r.server_name == config.server_name,
{
    ClientSettings {
        attach_stacktrace: true,
        release: copy_text(&config.release),
        environment: copy_text(&config.environment),
        server_name: copy_text(&config.server_name),
    }
}

/// The process-wide handle of the pipeline: the slot for the sending end of
/// the worker's channel, filled at most once and never emptied.
pub struct Reporter {
    slot: OnceCell<Sender<Command>>,
}

impl Reporter {
    /// A handle with no worker yet.
    pub fn new() -> Reporter {
        Reporter { slot: empty_slot() }
    }
}

/// What the caller that installed the channel needs to run the worker.
pub struct WorkerSetup {
    /// The receiving end of the channel; no other thread reads it.
    pub receiver: Receiver<Command>,
    /// A copy of the configuration.
    pub config: Config,
}

/// Installs the channel of the worker, on the first call only. The caller that
/// installs it gets its receiving end and should run the worker on a thread of
/// its own, and join it before the process exits; every other call gets
/// `None`.
pub fn init(reporter: &Reporter, config: &Config) -> (r: Option<WorkerSetup>)
    ensures
        r matches Some(setup) ==> setup.config == *config,
{
    let config = config.duplicate();
    let (tx, rx) = new_channel();
    if install_sender(&reporter.slot, tx) {
        Some(WorkerSetup { receiver: rx, config })
    } else {
        None
    }
}

/// What was asked of the worker.
#[derive(Clone, Copy, Debug, PartialEq, Eq)]
pub enum Request {
    /// A report.
    Report,
    /// The shutdown signal.
    Shutdown,
}

/// Why a command could not be sent.
#[derive(Debug)]
pub enum ReportError {
    /// The worker has stopped and dropped its end of the channel.
    ChannelClosed(String),
}

impl ReportError {
    /// The description of the error.
    pub fn description(&self) -> (r: &str)
        ensures
            r@ == (match self {
                ReportError::ChannelClosed(d) => d@,
            }),
    {
        match self {
            ReportError::ChannelClosed(d) => d.as_str(),
        }
    }
}

/// The description of a report that could not be sent.
pub const REPORT_CLOSED: &'static str = "Failed to send error to Sentry: the worker has stopped";

/// The description of a shutdown signal that could not be sent.
pub const SHUTDOWN_CLOSED: &'static str =
    "Failed to send shutdown signal to Sentry: the worker has stopped";

/// The description of a request that found the channel closed.
pub open spec fn closed_description(req: Request) -> Seq<char> {
    match req {
        Request::Report => REPORT_CLOSED@,
        Request::Shutdown => SHUTDOWN_CLOSED@,
    }
}

/// The result of a request, given what happened to it: `None` where no worker
/// was installed, so that nothing was sent, `Some(accepted)` where the command
/// was sent and the channel accepted it or not. Only a refused command is an
/// error.
pub fn outcome(req: Request, sent: Option<bool>) -> (r: Result<(), ReportError>)
    ensures
        r is Ok <==> sent != Some(false),
        r matches Err(ReportError::ChannelClosed(d)) ==> d@ == closed_description(req),
{
    match sent {
        Some(false) => {
            let d = match req {
                Request::Report => REPORT_CLOSED,
                Request::Shutdown => SHUTDOWN_CLOSED,
            };
            Err(ReportError::ChannelClosed(d.to_owned()))
        },
        _ => Ok(()),
    }
}

/// Sends an error to Sentry. Where no worker was installed the report is
/// dropped and the call succeeds; it fails only where the worker has stopped.
pub fn send(reporter: &Reporter, report: Error) -> (r: Result<(), ReportError>)
    ensures
        r matches Err(ReportError::ChannelClosed(d)) ==> d@ == closed_description(Request::Report),
{
    let sent = match installed_sender(&reporter.slot) {
        None => None,
        Some(tx) => Some(enqueue(tx, Command::NewReport(report))),
    };
    outcome(Request::Report, sent)
}

/// Asks the worker to stop after the commands sent before this one. Where no
/// worker was installed it does nothing and succeeds; it fails only where the
/// worker has stopped. It does not wait for the worker.
pub fn terminate(reporter: &Reporter) -> (r: Result<(), ReportError>)
    ensures
        r matches Err(ReportError::ChannelClosed(d)) ==> d@ == closed_description(
            Request::Shutdown,
        ),
{
    let sent = match installed_sender(&reporter.slot) {
        None => None,
        Some(tx) => Some(enqueue(tx, Command::Terminate)),
    };
    outcome(Request::Shutdown, sent)
}

} // verus!
