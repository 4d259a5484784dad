//! Messages of the validation layers: what kind a message is, and where in the
//! log it belongs.
use vstd::prelude::*;

verus! {

/// The kinds a debug message is flagged with.
#[derive(Clone, Copy, PartialEq, Eq, Debug, Structural)]
pub struct MessageTypes {
    /// Something that may give undefined results.
    pub error: bool,
    /// An unexpected use.
    pub warning: bool,
    /// A use that may be slower than need be.
    pub performance_warning: bool,
    /// Something worth knowing while debugging.
    pub information: bool,
    /// Diagnostics of the loader and the layers.
    pub debug: bool,
}

/// One kind of debug message, gravest first.
#[derive(Clone, Copy, PartialEq, Eq, Debug, Structural)]
pub enum MessageKind {
    Error,
    Warning,
    PerformanceWarning,
    Information,
    Debug,
}

/// How much a line of the log matters, gravest first.
#[derive(Clone, Copy, PartialEq, Eq, Debug, Structural)]
pub enum LogLevel {
    Error,
    Warn,
    Info,
    Debug,
    Trace,
}

impl MessageKind {
    /// Place in the order of gravity: the gravest kind has the lowest rank.
    pub open spec fn rank(self) -> int {
        match self {
            MessageKind::Error => 0,
            MessageKind::Warning => 1,
            MessageKind::PerformanceWarning => 2,
            MessageKind::Information => 3,
            MessageKind::Debug => 4,
        }
    }

    /// The level to log messages of this kind at.
    pub open spec fn level(self) -> LogLevel {
        match self {
            MessageKind::Error => LogLevel::Error,
            MessageKind::Warning => LogLevel::Warn,
            MessageKind::PerformanceWarning => LogLevel::Warn,
            MessageKind::Information => LogLevel::Info,
            MessageKind::Debug => LogLevel::Debug,
        }
    }

    /// The kind's name in print.
    pub open spec fn name(self) -> Seq<char> {
        match self {
            MessageKind::Error => "error"@,
            MessageKind::Warning => "warning"@,
            MessageKind::PerformanceWarning => "performance_warning"@,
            MessageKind::Information => "information"@,
            MessageKind::Debug => "debug"@,
        }
    }
}

impl MessageTypes {
    /// Every kind of message.
    pub open spec fn all() -> MessageTypes {
        MessageTypes {
            error: true,
            warning: true,
            performance_warning: true,
            information: true,
            debug: true,
        }
    }

    /// Whether messages of `kind` are flagged.
    pub open spec fn has(self, kind: MessageKind) -> bool {
        match kind {
            MessageKind::Error => self.error,
            MessageKind::Warning => self.warning,
            MessageKind::PerformanceWarning => self.performance_warning,
            MessageKind::Information => self.information,
            MessageKind::Debug => self.debug,
        }
    }

    /// The gravest kind that is flagged, if any is.
    pub open spec fn gravest(self) -> Option<MessageKind> {
        if self.error {
            Some(MessageKind::Error)
        } else if self.warning {
            Some(MessageKind::Warning)
        } else if self.performance_warning {
            Some(MessageKind::PerformanceWarning)
        } else if self.information {
            Some(MessageKind::Information)
        } else if self.debug {
            Some(MessageKind::Debug)
        } else {
            None
        }
    }

    /// The gravest kind that is flagged, if any is.
    pub fn gravest_kind(&self) -> (kind: Option<MessageKind>)
        ensures
            kind == self.gravest(),
    {
        if self.error {
            Some(MessageKind::Error)
        } else if self.warning {
            Some(MessageKind::Warning)
        } else if self.performance_warning {
            Some(MessageKind::PerformanceWarning)
        } else if self.information {
            Some(MessageKind::Information)
        } else if self.debug {
            Some(MessageKind::Debug)
        } else {
            None
        }
    }
}

/// `gravest` names a flagged kind that no flagged kind is graver than, and
/// names none exactly when nothing is flagged.
pub proof fn lemma_gravest_is_flagged_and_least(types: MessageTypes)
    ensures
        match types.gravest() {
            Some(kind) => types.has(kind) && forall|other: MessageKind|
                types.has(other) ==> kind.rank() <= other.rank(),
            None => forall|other: MessageKind| !types.has(other),
        },
{
}

/// Where a debug message belongs in the log, and what to call it.
pub trait MessageTypesExt {
    spec fn kinds(&self) -> MessageTypes;

    /// The name of the gravest kind flagged; none where nothing is flagged.
    fn printing_name(&self) -> (name: Option<&'static str>)
        ensures
            match self.kinds().gravest() {
                Some(kind) => name matches Some(text) && text@ == kind.name(),
                None => name.is_none(),
            },
    ;

    /// The level of the gravest kind flagged; `Trace` where nothing is flagged.
    fn log_level(&self) -> (level: LogLevel)
        ensures
            level == match self.kinds().gravest() {
                Some(kind) => kind.level(),
                None => LogLevel::Trace,
            },
    ;
}

impl MessageTypesExt for MessageTypes {
    open spec fn kinds(&self) -> MessageTypes {
        *self
    }

    fn printing_name(&self) -> (name: Option<&'static str>) {
        match self.gravest_kind() {
            Some(MessageKind::Error) => Some("error"),
            Some(MessageKind::Warning) => Some("warning"),
            Some(MessageKind::PerformanceWarning) => Some("performance_warning"),
            Some(MessageKind::Information) => Some("information"),
            Some(MessageKind::Debug) => Some("debug"),
            None => None,
        }
    }

    fn log_level(&self) -> (level: LogLevel) {
        match self.gravest_kind() {
            Some(MessageKind::Error) => LogLevel::Error,
            Some(MessageKind::Warning) => LogLevel::Warn,
            Some(MessageKind::PerformanceWarning) => LogLevel::Warn,
            Some(MessageKind::Information) => LogLevel::Info,
            Some(MessageKind::Debug) => LogLevel::Debug,
            None => LogLevel::Trace,
        }
    }
}

} // verus!
