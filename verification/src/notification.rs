//! Structured event reporting: levels, notification records, and sinks.
//!
//! Every mutation and every recovered failure of the reconciliation commands
//! is reported as a [`Notification`] value handed to a [`Notifier`]; the sink
//! is fire-and-forget, the core never consumes a return value from it.

use vstd::prelude::*;
use std::io::Write;

verus! {

use vstd::string::StringExecFns;
use crate::Error;

/// Importance of a notification, most severe first.
#[derive(Clone, Copy, Debug, PartialEq, Eq, Structural)]
pub enum LogLevel {
    Error,
    Warn,
    Info,
    Debug,
    Trace,
}

/// How verbose a message may be, from least to most severe level.
pub open spec fn spec_severity(level: LogLevel) -> nat {
    match level {
        LogLevel::Error => 1,
        LogLevel::Warn => 2,
        LogLevel::Info => 3,
        LogLevel::Debug => 4,
        LogLevel::Trace => 5,
    }
}

/// Whether a message at `message_level` passes a sink configured at
/// `configured_level`.
pub open spec fn spec_enabled(configured_level: LogLevel, message_level: LogLevel) -> bool {
    spec_severity(message_level) <= spec_severity(configured_level)
}

impl LogLevel {
    /// The numeric rank of this level; a larger rank means more verbose.
    pub fn severity(&self) -> (n: u8)
        ensures
            n == spec_severity(*self),
    {
        match self {
            LogLevel::Error => 1,
            LogLevel::Warn => 2,
            LogLevel::Info => 3,
            LogLevel::Debug => 4,
            LogLevel::Trace => 5,
        }
    }

    /// Whether a message at `message_level` passes a sink configured at this
    /// level.
    pub fn enables(&self, message_level: LogLevel) -> (r: bool)
        ensures
            r == spec_enabled(*self, message_level),
    {
        message_level.severity() <= self.severity()
    }
}

/// Whether a sink reports messages in a short or a long form.
#[derive(Clone, Copy, Debug, PartialEq, Eq, Structural)]
pub enum MessageLength {
    Short,
    Long,
}

/// The mathematical value of a [`Notification`].
pub ghost struct NotificationModel {
    pub level: LogLevel,
    pub target: Seq<char>,
    pub info: Seq<char>,
    pub data: Seq<char>,
    pub error: Option<Seq<char>>,
}

/// One reported event: a level, the reporting component (`target`), a short
/// description (`info`), the affected datum such as a path (`data`), and the
/// underlying cause when a failure is reported.
pub struct Notification {
    pub level: LogLevel,
    pub target: String,
    pub info: String,
    pub data: String,
    pub error: Option<String>,
}

impl View for Notification {
    type V = NotificationModel;

    open spec fn view(&self) -> NotificationModel {
        NotificationModel {
            level: self.level,
            target: self.target@,
            info: self.info@,
            data: self.data@,
            error: match self.error {
                Option::Some(e) => Option::Some(e@),
                Option::None => Option::None,
            },
        }
    }
}

impl Notification {
    /// Builds a notification record from its parts.
    pub fn new(
        level: LogLevel,
        target: &str,
        info: &str,
        data: &str,
        error: Option<&Error>,
    ) -> (n: Notification)
        ensures
            n@.level == level,
            n@.target == target@,
            n@.info == info@,
            n@.data == data@,
            n@.error == match error {
                Option::Some(e) => Option::Some(crate::spec_error_text(*e)),
                Option::None => Option::None::<Seq<char>>,
            },
    {
        let error_text = match error {
            Option::Some(e) => Option::Some(e.to_text()),
            Option::None => Option::None,
        };
        Notification {
            level,
            target: target.to_owned(),
            info: info.to_owned(),
            data: data.to_owned(),
            error: error_text,
        }
    }
}

/// An event sink.
///
/// The library ships [`StdoutNotifier`]; further sinks (a logging backend,
/// a recording sink for tests) may be supplied by the embedding program.
/// The per-level wrappers are pure delegation to `notify`.
pub trait Notifier: Sized {
    /// The level up to which this sink reports.
    fn get_log_level(&self) -> LogLevel;

    /// Reports one event.
    fn notify(&self, notification: &Notification);

    /// Reports one debug-level event.
    fn debug(&self, target: &str, info: &str, data: &str, error: Option<&Error>) {
        let n = Notification::new(LogLevel::Debug, target, info, data, error);
        self.notify(&n);
    }

    /// Reports one error-level event.
    fn error(&self, target: &str, info: &str, data: &str, error: Option<&Error>) {
        let n = Notification::new(LogLevel::Error, target, info, data, error);
        self.notify(&n);
    }

    /// Reports one info-level event.
    fn info(&self, target: &str, info: &str, data: &str, error: Option<&Error>) {
        let n = Notification::new(LogLevel::Info, target, info, data, error);
        self.notify(&n);
    }

    /// Reports one trace-level event.
    fn trace(&self, target: &str, info: &str, data: &str, error: Option<&Error>) {
        let n = Notification::new(LogLevel::Trace, target, info, data, error);
        self.notify(&n);
    }

    /// Reports one warn-level event.
    fn warn(&self, target: &str, info: &str, data: &str, error: Option<&Error>) {
        let n = Notification::new(LogLevel::Warn, target, info, data, error);
        self.notify(&n);
    }
}

/// The rendered text of a notification: `target: info`, then the data in the
/// long form, then the cause when one is present, all joined by `: `.
pub open spec fn spec_rendered(n: NotificationModel, length: MessageLength) -> Seq<char> {
    n.target + seq![':', ' '] + n.info + (if length is Long {
        seq![':', ' '] + n.data
    } else {
        Seq::<char>::empty()
    }) + (match n.error {
        Option::Some(e) => seq![':', ' '] + e,
        Option::None => Seq::<char>::empty(),
    })
}

/// Renders a notification as one line of text.
pub fn render_message(n: &Notification, length: MessageLength) -> (s: String)
    ensures
        s@ == spec_rendered(n@, length),
{
    proof {
        reveal_strlit(": ");
    }
    let mut s = n.target.clone();
    s.append(": ");
    s.append(n.info.as_str());
    match length {
        MessageLength::Long => {
            s.append(": ");
            s.append(n.data.as_str());
        },
        MessageLength::Short => {
        },
    }
    match &n.error {
        Option::Some(e) => {
            s.append(": ");
            s.append(e.as_str());
        },
        Option::None => {
        },
    }
    proof {
        assert(s@ =~= spec_rendered(n@, length));
    }
    s
}

/// An event sink that prints every enabled notification to standard output.
pub struct StdoutNotifier {
    pub log_level: LogLevel,
    pub message_length: MessageLength,
}

impl StdoutNotifier {
    /// A sink printing messages up to `log_level`, in the long form.
    pub fn create(log_level: LogLevel) -> (r: StdoutNotifier)
        ensures
            r.log_level == log_level,
            r.message_length == MessageLength::Long,
    {
        StdoutNotifier { log_level, message_length: MessageLength::Long }
    }
}

impl Notifier for StdoutNotifier {
    fn get_log_level(&self) -> (r: LogLevel)
        ensures
            r == self.log_level,
    {
        self.log_level
    }

    /// Prints the notification when its level passes the configured level.
    fn notify(&self, notification: &Notification) {
        if self.log_level.enables(notification.level) {
            let message = render_message(notification, self.message_length);
            print_line(&message);
        }
    }
}

/// Relies on std::io::Stdout (via the writeln macro): writes one line of text
/// to standard output. Nothing about the outside world is assumed in return.
#[verifier::external_body]
fn print_line(s: &String) {
    let _ = writeln!(std::io::stdout(), "{}", s);
}

} // verus!
