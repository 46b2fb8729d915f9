//! Log options: the level and where the log goes.
use vstd::prelude::*;
use vstd::string::*;
use crate::conf::{rst, take};
use crate::endpoint::opt_view;
use crate::text::{ascii_lower, lower_eq, str_eq};

verus! {

/// How much is logged.
#[derive(Debug, Clone, Copy, PartialEq, Eq, Structural)]
pub enum LogLevel {
    Off,
    Error,
    Warn,
    Info,
    Debug,
    Trace,
}

impl Default for LogLevel {
    fn default() -> (r: LogLevel)
        ensures
            r == LogLevel::Off,
    {
        LogLevel::Off
    }
}

/// The name of a level, as configuration files write it.
pub open spec fn level_name(l: LogLevel) -> Seq<char> {
    match l {
        LogLevel::Off => "off"@,
        LogLevel::Error => "error"@,
        LogLevel::Warn => "warn"@,
        LogLevel::Info => "info"@,
        LogLevel::Debug => "debug"@,
        LogLevel::Trace => "trace"@,
    }
}

/// The level a name stands for, ignoring ASCII case; an unknown name
/// stands for the default level, `off`.
pub open spec fn level_from_name(s: Seq<char>) -> LogLevel {
    let l = ascii_lower(s);
    if l == "off"@ {
        LogLevel::Off
    } else if l == "error"@ {
        LogLevel::Error
    } else if l == "warn"@ {
        LogLevel::Warn
    } else if l == "info"@ {
        LogLevel::Info
    } else if l == "debug"@ {
        LogLevel::Debug
    } else if l == "trace"@ {
        LogLevel::Trace
    } else {
        LogLevel::Off
    }
}

impl From<String> for LogLevel {
    fn from(x: String) -> (r: LogLevel) {
        LogLevel::from_name(x.as_str())
    }
}

impl vstd::std_specs::convert::FromSpecImpl<String> for LogLevel {
    open spec fn obeys_from_spec() -> bool {
        true
    }

    open spec fn from_spec(v: String) -> LogLevel {
        level_from_name(v@)
    }
}

impl LogLevel {
    /// The level a name stands for, ignoring ASCII case; `off` for an
    /// unknown name.
    pub fn from_name(s: &str) -> (r: LogLevel)
        ensures
            r == level_from_name(s@),
    {
        proof {
            reveal_strlit("off");
            reveal_strlit("error");
            reveal_strlit("warn");
            reveal_strlit("info");
            reveal_strlit("debug");
            reveal_strlit("trace");
        }
        if lower_eq(s, "off") {
            LogLevel::Off
        } else if lower_eq(s, "error") {
            LogLevel::Error
        } else if lower_eq(s, "warn") {
            LogLevel::Warn
        } else if lower_eq(s, "info") {
            LogLevel::Info
        } else if lower_eq(s, "debug") {
            LogLevel::Debug
        } else if lower_eq(s, "trace") {
            LogLevel::Trace
        } else {
            LogLevel::Off
        }
    }

    /// The name of the level.
    pub fn to_string(&self) -> (r: String)
        ensures
            r@ == level_name(*self),
    {
        let s = match self {
            LogLevel::Off => "off",
            LogLevel::Error => "error",
            LogLevel::Warn => "warn",
            LogLevel::Info => "info",
            LogLevel::Debug => "debug",
            LogLevel::Trace => "trace",
        };
        String::from_str(s)
    }
}

/// Where the log is written.
#[derive(Debug, Clone)]
pub enum LogOutput {
    Stdout,
    Stderr,
    File(String),
}

/// The model of a log output, with a file named by its characters.
pub enum LogOutputView {
    Stdout,
    Stderr,
    File(Seq<char>),
}

impl View for LogOutput {
    type V = LogOutputView;

    open spec fn view(&self) -> LogOutputView {
        match self {
            LogOutput::Stdout => LogOutputView::Stdout,
            LogOutput::Stderr => LogOutputView::Stderr,
            LogOutput::File(p) => LogOutputView::File(p@),
        }
    }
}

/// What the output option names: the standard streams by their names,
/// a file otherwise; `stdout` when unset.
pub open spec fn output_for(o: Option<Seq<char>>) -> LogOutputView {
    match o {
        Some(p) => if p == "stdout"@ {
            LogOutputView::Stdout
        } else if p == "stderr"@ {
            LogOutputView::Stderr
        } else {
            LogOutputView::File(p)
        },
        None => LogOutputView::Stdout,
    }
}

/// Log options; an unset field takes its default when built.
#[derive(Debug, Clone)]
pub struct LogConf {
    pub level: Option<LogLevel>,
    pub output: Option<String>,
}

/// The model of the log options.
pub struct LogConfView {
    pub level: Option<LogLevel>,
    pub output: Option<Seq<char>>,
}

impl View for LogConf {
    type V = LogConfView;

    open spec fn view(&self) -> LogConfView {
        LogConfView { level: self.level, output: opt_view(self.output) }
    }
}

/// Every field of `a` that `b` sets is replaced by `b`'s value.
pub open spec fn log_rst(a: LogConfView, b: LogConfView) -> LogConfView {
    LogConfView { level: rst(a.level, b.level), output: rst(a.output, b.output) }
}

/// Every field that `a` leaves unset takes `b`'s value.
pub open spec fn log_take(a: LogConfView, b: LogConfView) -> LogConfView {
    log_rst(b, a)
}

/// A copy of an optional string.
pub fn clone_opt_string(o: &Option<String>) -> (r: Option<String>)
    ensures
        opt_view(r) == opt_view(*o),
{
    match o {
        Some(s) => Some(s.clone()),
        None => None,
    }
}

impl Default for LogConf {
    fn default() -> (r: LogConf)
        ensures
            r@ == LogConf::empty_view(),
    {
        LogConf { level: None, output: None }
    }
}

impl LogConf {
    /// The model of log options with nothing set.
    pub open spec fn empty_view() -> LogConfView {
        LogConfView { level: None, output: None }
    }

    /// Whether no field is set.
    pub fn is_empty(&self) -> (r: bool)
        ensures
            r == (self@ == LogConf::empty_view()),
    {
        self.level.is_none() && self.output.is_none()
    }

    /// Overrides each field with `other`'s where `other` sets it.
    pub fn rst_field(&mut self, other: &Self) -> (r: &mut Self)
        ensures
            r@ == log_rst(old(self)@, other@),
            final(self)@ == final(r)@,
    {
        if other.level.is_some() {
            self.level = other.level;
        }
        if other.output.is_some() {
            self.output = clone_opt_string(&other.output);
        }
        self
    }

    /// Fills each unset field from `other`.
    pub fn take_field(&mut self, other: &Self) -> (r: &mut Self)
        ensures
            r@ == log_take(old(self)@, other@),
            final(self)@ == final(r)@,
    {
        if self.level.is_none() && other.level.is_some() {
            self.level = other.level;
        }
        if self.output.is_none() && other.output.is_some() {
            self.output = clone_opt_string(&other.output);
        }
        self
    }

    /// The level and the output these options stand for: level `off` and
    /// output `stdout` when unset; `stdout` and `stderr` name the standard
    /// streams, anything else a file appended to.
    pub fn build(self) -> (r: (LogLevel, LogOutput))
        ensures
            r.0 == (match self.level { Some(l) => l, None => LogLevel::Off }),
            r.1@ == output_for(opt_view(self.output)),
    {
        let level = match self.level {
            Some(l) => l,
            None => LogLevel::Off,
        };
        proof {
            reveal_strlit("stdout");
            reveal_strlit("stderr");
        }
        let output = match self.output {
            Some(o) => {
                if str_eq(o.as_str(), "stdout") {
                    LogOutput::Stdout
                } else if str_eq(o.as_str(), "stderr") {
                    LogOutput::Stderr
                } else {
                    LogOutput::File(o)
                }
            },
            None => LogOutput::Stdout,
        };
        (level, output)
    }

    /// A one-line description: `level=<level>, output=<output>`, with the
    /// defaults `off` and `stdout` for unset fields.
    pub fn to_string(&self) -> (r: String)
        ensures
            r@ == "level="@ + level_name(match self.level { Some(l) => l, None => LogLevel::Off })
                + ", output="@ + (match opt_view(self.output) { Some(o) => o, None => "stdout"@ }),
    {
        let level = match self.level {
            Some(l) => l,
            None => LogLevel::Off,
        };
        let mut r = String::from_str("level=");
        let name = level.to_string();
        r.append(name.as_str());
        r.append(", output=");
        match &self.output {
            Some(o) => r.append(o.as_str()),
            None => r.append("stdout"),
        }
        r
    }
}

} // verus!
