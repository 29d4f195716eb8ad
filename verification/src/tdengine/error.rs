//! Error kinds of the TDengine recorder.
use vstd::prelude::*;

verus! {

/// The statement operation that failed.
#[derive(Clone, Copy, Debug, PartialEq, Eq, Structural)]
pub enum StatementErrorCode {
    Init,
    Prepare,
    SetTableName,
    SetTags,
    Bind,
    AddBatch,
    Execute,
}

/// The defect found in a trace message.
#[derive(Clone, Copy, Debug, PartialEq, Eq, Structural)]
pub enum TraceMessageErrorCode {
    TimestampMissing,
    SampleRateZero,
    SampleTimeZero,
    SampleTimeMissing,
    CannotCalcMeasurementTime,
    ChannelDataNull,
    ChannelsMissing,
}

/// An error of the recorder that the library itself detects.
#[derive(Clone, Copy, Debug, PartialEq, Eq, Structural)]
pub enum TDEngineError {
    TraceMessage(TraceMessageErrorCode),
}

/// An error raised while reading the login details.
#[derive(Clone, Copy, Debug)]
pub enum EVError {
    NotFound(&'static str),
}

} // verus!
