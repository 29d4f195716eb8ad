//! The decisions of the run-controlled archiver: which messages are archived, and when an
//! archive is opened and closed.
use vstd::prelude::*;

use crate::payload::{
    has_identifier, is_run_start, is_run_stop, is_trace_v2, run_start_identifier,
    run_stop_identifier, trace_v2_identifier,
};

verus! {

broadcast use vstd::string::group_string_axioms;

/// What a received message is.
#[derive(Clone, Copy, Debug, PartialEq, Eq, Structural)]
pub enum MessageKind {
    /// The message has no payload.
    NoPayload,
    /// A digitiser trace message.
    Trace,
    /// A run start command on the control topic.
    RunStart,
    /// A run stop command on the control topic.
    RunStop,
    /// Something else on the control topic.
    UnknownControl,
    /// Something else on another topic.
    Unexpected,
}

/// What the archiver does with a received message.
#[derive(Clone, Copy, Debug, PartialEq, Eq, Structural)]
pub enum ControlAction {
    /// Nothing but acknowledging the message.
    Nothing,
    /// Archives the trace message into the open archive.
    WriteTrace,
    /// Counts a trace message that could not be decoded.
    TraceDecodeFailure,
    /// Opens a new archive, named after the message's time.
    CreateFile,
    /// Closes the open archive.
    CloseFile,
    /// Warns of a message with an unknown identifier on the control topic.
    IncorrectIdentifier,
    /// Warns of, and counts, a message of unknown kind.
    UnexpectedMessage,
}

/// The kind of a message from its payload and topic: a trace message on any topic; on the control
/// topic a run start or stop command; anything else is unknown.
pub open spec fn spec_kind(payload: Option<Seq<u8>>, on_control_topic: bool) -> MessageKind {
    match payload {
        None => MessageKind::NoPayload,
        Some(p) => if has_identifier(p, trace_v2_identifier()) {
            MessageKind::Trace
        } else if on_control_topic {
            if has_identifier(p, run_start_identifier()) {
                MessageKind::RunStart
            } else if has_identifier(p, run_stop_identifier()) {
                MessageKind::RunStop
            } else {
                MessageKind::UnknownControl
            }
        } else {
            MessageKind::Unexpected
        },
    }
}

/// A payload carrying the trace identifier is a trace, on the control topic as on any other, and
/// only such a payload is. On the control topic a payload that is no trace is a run start where
/// it carries that identifier, else a run stop where it carries that one, else unknown; on another
/// topic it is unexpected.
pub proof fn law_trace_whatever_topic(p: Seq<u8>, on_control_topic: bool)
    ensures
        has_identifier(p, trace_v2_identifier()) ==> spec_kind(Some(p), on_control_topic)
            == MessageKind::Trace,
        spec_kind(Some(p), on_control_topic) == MessageKind::Trace ==> has_identifier(
            p,
            trace_v2_identifier(),
        ),
        !has_identifier(p, trace_v2_identifier()) && on_control_topic ==> (spec_kind(
            Some(p),
            on_control_topic,
        ) == MessageKind::RunStart <==> has_identifier(p, run_start_identifier())),
        !has_identifier(p, trace_v2_identifier()) && on_control_topic && !has_identifier(
            p,
            run_start_identifier(),
        ) ==> (spec_kind(Some(p), on_control_topic) == MessageKind::RunStop <==> has_identifier(
            p,
            run_stop_identifier(),
        )),
        !has_identifier(p, trace_v2_identifier()) && !on_control_topic ==> spec_kind(
            Some(p),
            on_control_topic,
        ) == MessageKind::Unexpected,
        spec_kind(Some(p), true) == MessageKind::Trace <==> spec_kind(Some(p), false)
            == MessageKind::Trace,
{
}

/// The kind of a message from its payload and topic. A payload must hold the eight bytes of a
/// flatbuffer's root offset and file identifier.
pub fn classify_message(payload: Option<&[u8]>, on_control_topic: bool) -> (res: MessageKind)
    requires
        payload matches Some(p) ==> p@.len() >= 8,
    ensures
        res == spec_kind(
            match payload {
                Some(p) => Some(p@),
                None => None,
            },
            on_control_topic,
        ),
        payload is None <==> res == MessageKind::NoPayload,
        payload matches Some(p) ==> (res == MessageKind::Trace <==> has_identifier(
            p@,
            trace_v2_identifier(),
        )),
        !on_control_topic ==> res == MessageKind::NoPayload || res == MessageKind::Trace || res
            == MessageKind::Unexpected,
{
    proof {
        match payload {
            Some(p) => law_trace_whatever_topic(p@, on_control_topic),
            None => {},
        }
    }
    match payload {
        None => MessageKind::NoPayload,
        Some(p) => {
            if is_trace_v2(p) {
                MessageKind::Trace
            } else if on_control_topic {
                if is_run_start(p) {
                    MessageKind::RunStart
                } else if is_run_stop(p) {
                    MessageKind::RunStop
                } else {
                    MessageKind::UnknownControl
                }
            } else {
                MessageKind::Unexpected
            }
        },
    }
}

/// What the archiver does with a message of the given kind. A trace is archived only while an
/// archive is open; a run start opens an archive only when none is open; a run stop closes it.
pub open spec fn spec_action(file_open: bool, kind: MessageKind, trace_decoded: bool) -> ControlAction {
    match kind {
        MessageKind::NoPayload => ControlAction::Nothing,
        MessageKind::Trace => if !trace_decoded {
            ControlAction::TraceDecodeFailure
        } else if file_open {
            ControlAction::WriteTrace
        } else {
            ControlAction::Nothing
        },
        MessageKind::RunStart => if file_open {
            ControlAction::Nothing
        } else {
            ControlAction::CreateFile
        },
        MessageKind::RunStop => ControlAction::CloseFile,
        MessageKind::UnknownControl => ControlAction::IncorrectIdentifier,
        MessageKind::Unexpected => ControlAction::UnexpectedMessage,
    }
}

/// What the archiver does with a message of the given kind, given whether an archive is open and,
/// for a trace, whether it could be decoded.
pub fn control_action(file_open: bool, kind: MessageKind, trace_decoded: bool) -> (res: ControlAction)
    ensures
        res == spec_action(file_open, kind, trace_decoded),
{
    match kind {
        MessageKind::NoPayload => ControlAction::Nothing,
        MessageKind::Trace => if !trace_decoded {
            ControlAction::TraceDecodeFailure
        } else if file_open {
            ControlAction::WriteTrace
        } else {
            ControlAction::Nothing
        },
        MessageKind::RunStart => if file_open {
            ControlAction::Nothing
        } else {
            ControlAction::CreateFile
        },
        MessageKind::RunStop => ControlAction::CloseFile,
        MessageKind::UnknownControl => ControlAction::IncorrectIdentifier,
        MessageKind::Unexpected => ControlAction::UnexpectedMessage,
    }
}

/// A trace is archived only while an archive is open, and an archive is opened only while none
/// is.
pub proof fn law_archive_opened_once(file_open: bool, kind: MessageKind, trace_decoded: bool)
    ensures
        spec_action(file_open, kind, trace_decoded) == ControlAction::WriteTrace ==> file_open,
        spec_action(file_open, kind, trace_decoded) == ControlAction::CreateFile ==> !file_open,
        spec_action(file_open, kind, trace_decoded) == ControlAction::WriteTrace ==> kind
            == MessageKind::Trace && trace_decoded,
{
}

/// The debug rendering of a time given in milliseconds since the Unix epoch, as
/// `DateTime::<Utc>::from_timestamp_millis` and `{:?}` give it; none where the time is out of the
/// range of a date.
pub uninterp spec fn millis_time_text(millis: i64) -> Option<Seq<char>>;

/// The view of an optional string.
pub open spec fn opt_chars(s: Option<String>) -> Option<Seq<char>> {
    match s {
        Some(v) => Some(v@),
        None => None,
    }
}

/// `DateTime::<Utc>::from_timestamp_millis(millis)` (chrono), rendered with `{:?}`: the text is
/// named, not spelled out; it depends on the time alone, and is absent where the time is out of
/// the range of a date.
#[verifier::external_body]
fn millis_debug_text(millis: i64) -> (res: Option<String>)
    ensures
        opt_chars(res) == millis_time_text(millis),
{
    match chrono::DateTime::<chrono::Utc>::from_timestamp_millis(millis) {
        Some(t) => Some(format!("{:?}", t)),
        None => None,
    }
}

/// Why an archive cannot be named.
#[derive(Clone, Copy, Debug, PartialEq, Eq, Structural)]
pub enum FilenameError {
    /// The message's time cannot be read as milliseconds, or is out of the range of a date.
    TimestampUnavailable,
}

/// The name of the archive opened for a run: the time of the message that starts it, and `.h5`.
pub fn generate_filename(millis: Option<i64>) -> (res: Result<String, FilenameError>)
    ensures
        match millis {
            Some(ms) => match millis_time_text(ms) {
                Some(t) => res matches Ok(name) && name@ == t + ".h5"@,
                None => res == Err::<String, FilenameError>(FilenameError::TimestampUnavailable),
            },
            None => res == Err::<String, FilenameError>(FilenameError::TimestampUnavailable),
        },
{
    match millis {
        Some(ms) => match millis_debug_text(ms) {
            Some(mut name) => {
                name.append(".h5");
                Ok(name)
            },
            None => Err(FilenameError::TimestampUnavailable),
        },
        None => Err(FilenameError::TimestampUnavailable),
    }
}

} // verus!
