//! Decisions of the Vulkan debug-utils messenger: which severities and
//! message types it asks for, how a message type is labelled, and how an
//! error report is written, with repeats of one message condensed.
use vstd::prelude::*;
use crate::text::{chars_eq, chars_of, decimal, push_all, push_decimal, string_of};
use crate::validation::{
    message_well_formed, parse_view, parse_vk_validation_error_message, ContextObjView,
    ValidationErrorView,
};

verus! {

/// `VK_DEBUG_UTILS_MESSAGE_SEVERITY_VERBOSE_BIT_EXT`
pub const SEVERITY_VERBOSE: u32 = 0x1;

/// `VK_DEBUG_UTILS_MESSAGE_SEVERITY_INFO_BIT_EXT`
pub const SEVERITY_INFO: u32 = 0x10;

/// `VK_DEBUG_UTILS_MESSAGE_SEVERITY_WARNING_BIT_EXT`
pub const SEVERITY_WARNING: u32 = 0x100;

/// `VK_DEBUG_UTILS_MESSAGE_SEVERITY_ERROR_BIT_EXT`
pub const SEVERITY_ERROR: u32 = 0x1000;

/// `VK_DEBUG_UTILS_MESSAGE_TYPE_GENERAL_BIT_EXT`
pub const MESSAGE_TYPE_GENERAL: u32 = 0x1;

/// `VK_DEBUG_UTILS_MESSAGE_TYPE_VALIDATION_BIT_EXT`
pub const MESSAGE_TYPE_VALIDATION: u32 = 0x2;

/// `VK_DEBUG_UTILS_MESSAGE_TYPE_PERFORMANCE_BIT_EXT`
pub const MESSAGE_TYPE_PERFORMANCE: u32 = 0x4;

/// Whether verbose validation-layer messages are logged.
pub const VK_VERBOSE_LOGGING_ENABLE: bool = false;

/// The level below which log messages are filtered out.
#[derive(Clone, Copy, PartialEq, Eq, Structural, Debug)]
pub enum LogLevelFilter {
    Off,
    Error,
    Warn,
    Info,
    Debug,
    Trace,
}

/// The level that the engine logs at.
pub fn debug_message_severity() -> (l: LogLevelFilter)
    ensures
        l == LogLevelFilter::Debug,
{
    LogLevelFilter::Debug
}

/// The message severities that the messenger subscribes to for a log level.
pub open spec fn severity_flags_spec(level: LogLevelFilter) -> u32 {
    match level {
        LogLevelFilter::Off => 0,
        LogLevelFilter::Error => SEVERITY_ERROR,
        LogLevelFilter::Warn => SEVERITY_WARNING | SEVERITY_ERROR,
        LogLevelFilter::Info | LogLevelFilter::Debug => SEVERITY_INFO | SEVERITY_WARNING
            | SEVERITY_ERROR,
        LogLevelFilter::Trace => SEVERITY_VERBOSE | SEVERITY_INFO | SEVERITY_WARNING
            | SEVERITY_ERROR,
    }
}

/// The message severities that the messenger subscribes to: every severity
/// at least as serious as `level` lets through.
pub fn message_severity_flags(level: LogLevelFilter) -> (flags: u32)
    ensures
        flags == severity_flags_spec(level),
{
    match level {
        LogLevelFilter::Off => 0,
        LogLevelFilter::Error => SEVERITY_ERROR,
        LogLevelFilter::Warn => SEVERITY_WARNING | SEVERITY_ERROR,
        LogLevelFilter::Info | LogLevelFilter::Debug => SEVERITY_INFO | SEVERITY_WARNING
            | SEVERITY_ERROR,
        LogLevelFilter::Trace => SEVERITY_VERBOSE | SEVERITY_INFO | SEVERITY_WARNING
            | SEVERITY_ERROR,
    }
}

/// The message types that the messenger subscribes to: general,
/// performance and validation messages.
pub fn message_type_flags() -> (flags: u32)
    ensures
        flags == MESSAGE_TYPE_GENERAL | MESSAGE_TYPE_PERFORMANCE | MESSAGE_TYPE_VALIDATION,
        flags == 7,
{
    assert(MESSAGE_TYPE_GENERAL | MESSAGE_TYPE_PERFORMANCE | MESSAGE_TYPE_VALIDATION == 7)
        by (bit_vector);
    MESSAGE_TYPE_GENERAL | MESSAGE_TYPE_PERFORMANCE | MESSAGE_TYPE_VALIDATION
}

/// How the messenger treats a message of a given severity.
#[derive(Clone, Copy, PartialEq, Eq, Structural, Debug)]
pub enum SeverityAction {
    /// Take the message apart and log an error report.
    ReportError,
    /// Log the message as a warning.
    Warn,
    /// Log the message as information.
    Inform,
    /// Log the message at trace level, where verbose logging is enabled.
    Trace,
    /// Drop a verbose message.
    Ignore,
    /// Log that the severity is unknown.
    Unknown,
}

/// The action for a message whose severity flags are exactly `severity`.
pub fn severity_action(severity: u32) -> (a: SeverityAction)
    ensures
        severity == SEVERITY_ERROR ==> a == SeverityAction::ReportError,
        severity == SEVERITY_WARNING ==> a == SeverityAction::Warn,
        severity == SEVERITY_INFO ==> a == SeverityAction::Inform,
        severity == SEVERITY_VERBOSE ==> a == (if VK_VERBOSE_LOGGING_ENABLE {
            SeverityAction::Trace
        } else {
            SeverityAction::Ignore
        }),
        severity != SEVERITY_ERROR && severity != SEVERITY_WARNING && severity != SEVERITY_INFO
            && severity != SEVERITY_VERBOSE ==> a == SeverityAction::Unknown,
{
    if severity == SEVERITY_ERROR {
        SeverityAction::ReportError
    } else if severity == SEVERITY_WARNING {
        SeverityAction::Warn
    } else if severity == SEVERITY_INFO {
        SeverityAction::Inform
    } else if severity == SEVERITY_VERBOSE {
        if VK_VERBOSE_LOGGING_ENABLE {
            SeverityAction::Trace
        } else {
            SeverityAction::Ignore
        }
    } else {
        SeverityAction::Unknown
    }
}

/// The label of a message whose type flags are exactly `message_type`.
pub open spec fn message_type_label_spec(message_type: u32) -> Seq<char> {
    if message_type == MESSAGE_TYPE_GENERAL {
        "[VULKAN GENERAL]"@
    } else if message_type == MESSAGE_TYPE_PERFORMANCE {
        "[VULKAN PERFORMANCE]"@
    } else if message_type == MESSAGE_TYPE_VALIDATION {
        "[VULKAN VALIDATION]"@
    } else {
        "[VULKAN UNKNOWN]"@
    }
}

/// The label of a message type.
pub fn message_type_label(message_type: u32) -> (label: &'static str)
    ensures
        label@ == message_type_label_spec(message_type),
{
    if message_type == MESSAGE_TYPE_GENERAL {
        "[VULKAN GENERAL]"
    } else if message_type == MESSAGE_TYPE_PERFORMANCE {
        "[VULKAN PERFORMANCE]"
    } else if message_type == MESSAGE_TYPE_VALIDATION {
        "[VULKAN VALIDATION]"
    } else {
        "[VULKAN UNKNOWN]"
    }
}

/// One line `\t| index | type: handle\n` per object.
pub open spec fn objects_text(objs: Seq<ContextObjView>) -> Seq<char>
    decreases objs.len(),
{
    if objs.len() == 0 {
        Seq::empty()
    } else {
        let o = objs.last();
        objects_text(objs.drop_last()) + "\t| "@ + o.index + " | "@ + o.vk_type + ": "@
            + o.handle + "\n"@
    }
}

/// The report of a message seen for the first time.
pub open spec fn new_report(message_type: u32, e: ValidationErrorView) -> Seq<char> {
    "\n"@ + message_type_label_spec(message_type) + "\n\t"@ + e.vulkan_id + "\n"@
        + objects_text(e.context_objects) + "\nMSG: "@ + e.message + "\n\nISSUE: "@
        + e.spec_info + "\n\nSPEC: "@ + e.spec_link + "\n_______________\n"@
}

/// The report of a message identical to the one before it, seen `count`
/// times in a row after the first.
pub open spec fn identical_report(count: nat, e: ValidationErrorView) -> Seq<char> {
    "\n[IDENTICAL] ("@ + decimal(count) + ")\n\t"@ + e.vulkan_id + "\n"@ + objects_text(
        e.context_objects,
    ) + "\n_______________\n"@
}

/// One step of the reporter: from the last message and the count of its
/// repeats, a new message gives the next last message, the next count and
/// the report.
pub open spec fn report_step(last: Seq<char>, count: nat, message_type: u32, msg: Seq<char>) -> (
    Seq<char>,
    nat,
    Seq<char>,
) {
    if msg == last {
        (last, count + 1, identical_report(count + 1, parse_view(msg)))
    } else {
        (msg, 0, new_report(message_type, parse_view(msg)))
    }
}


/// A message reported twice in a row is reported the second time in short
/// form, with a repeat count one higher than after the first time.
pub proof fn law_repeated_message_is_condensed(
    last: Seq<char>,
    count: nat,
    first_type: u32,
    second_type: u32,
    msg: Seq<char>,
)
    ensures
        ({
            let (l1, c1, _r1) = report_step(last, count, first_type, msg);
            let (l2, c2, r2) = report_step(l1, c1, second_type, msg);
            &&& l1 == msg
            &&& l2 == msg
            &&& c2 == c1 + 1
            &&& r2 == identical_report(c1 + 1, parse_view(msg))
        }),
{
}

/// A message that differs from the last one is reported in full and
/// starts a new run: the count of repeats goes back to zero.
pub proof fn law_new_message_resets_count(
    last: Seq<char>,
    count: nat,
    message_type: u32,
    msg: Seq<char>,
)
    requires
        msg != last,
    ensures
        report_step(last, count, message_type, msg) == (
            msg,
            0nat,
            new_report(message_type, parse_view(msg)),
        ),
{
}

/// Writes error reports, condensing a message that repeats the one before
/// it.
pub struct ValidationReporter {
    last_message: Vec<char>,
    identical_count: usize,
}

impl ValidationReporter {
    /// The last message reported.
    pub closed spec fn last(&self) -> Seq<char> {
        self.last_message@
    }

    /// How many times in a row the last message has repeated.
    pub closed spec fn count(&self) -> nat {
        self.identical_count as nat
    }

    /// A reporter that has seen no message (the last message counts as empty).
    pub fn new() -> (r: Self)
        ensures
            r.last() == Seq::<char>::empty(),
            r.count() == 0,
    {
        ValidationReporter { last_message: Vec::new(), identical_count: 0 }
    }

    /// How many times in a row the last message has repeated.
    pub fn identical_count(&self) -> (c: usize)
        ensures
            c == self.count(),
    {
        self.identical_count
    }

    /// The report of an error message: the full report for a new message,
    /// a short one with the repeat count for a message equal to the last.
    pub fn error_report(&mut self, message_type: u32, msg: &str) -> (report: String)
        requires
            message_well_formed(msg@),
            old(self).count() < usize::MAX,
        ensures
            (final(self).last(), final(self).count(), report@) == report_step(
                old(self).last(),
                old(self).count(),
                message_type,
                msg@,
            ),
    {
        let val_err = parse_vk_validation_error_message(msg);
        let mut objs: Vec<char> = Vec::new();
        let mut k: usize = 0;
        while k < val_err.context_objects.len()
            invariant
                k <= val_err.context_objects.len(),
                objs@ == objects_text(val_err@.context_objects.take(k as int)),
            decreases val_err.context_objects.len() - k,
        {
            let o = &val_err.context_objects[k];
            let before = objs.len();
            push_all(&mut objs, &chars_of("\t| "));
            push_all(&mut objs, &chars_of(o.index.as_str()));
            push_all(&mut objs, &chars_of(" | "));
            push_all(&mut objs, &chars_of(o.vk_type.as_str()));
            push_all(&mut objs, &chars_of(": "));
            push_all(&mut objs, &chars_of(o.handle.as_str()));
            push_all(&mut objs, &chars_of("\n"));
            proof {
                let os = val_err@.context_objects;
                assert(os.take(k + 1).drop_last() =~= os.take(k as int));
                assert(os.take(k + 1).last() == o@);
            }
            k += 1;
        }
        proof {
            assert(val_err@.context_objects.take(val_err.context_objects.len() as int)
                =~= val_err@.context_objects);
        }
        let msg_chars = chars_of(msg);
        let mut out: Vec<char> = Vec::new();
        if chars_eq(&msg_chars, &self.last_message) {
            self.identical_count = self.identical_count + 1;
            push_all(&mut out, &chars_of("\n[IDENTICAL] ("));
            push_decimal(&mut out, self.identical_count);
            push_all(&mut out, &chars_of(")\n\t"));
            push_all(&mut out, &chars_of(val_err.vulkan_id.as_str()));
            push_all(&mut out, &chars_of("\n"));
            push_all(&mut out, &objs);
            push_all(&mut out, &chars_of("\n_______________\n"));
            proof {
                assert(out@ =~= identical_report(self.identical_count as nat, val_err@));
            }
        } else {
            self.last_message = msg_chars;
            self.identical_count = 0;
            push_all(&mut out, &chars_of("\n"));
            push_all(&mut out, &chars_of(message_type_label(message_type)));
            push_all(&mut out, &chars_of("\n\t"));
            push_all(&mut out, &chars_of(val_err.vulkan_id.as_str()));
            push_all(&mut out, &chars_of("\n"));
            push_all(&mut out, &objs);
            push_all(&mut out, &chars_of("\nMSG: "));
            push_all(&mut out, &chars_of(val_err.message.as_str()));
            push_all(&mut out, &chars_of("\n\nISSUE: "));
            push_all(&mut out, &chars_of(val_err.spec_info.as_str()));
            push_all(&mut out, &chars_of("\n\nSPEC: "));
            push_all(&mut out, &chars_of(val_err.spec_link.as_str()));
            push_all(&mut out, &chars_of("\n_______________\n"));
            proof {
                assert(out@ =~= new_report(message_type, val_err@));
            }
        }
        string_of(&out)
    }
}

} // verus!
