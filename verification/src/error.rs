//! Error reporting: recoverable codec failures and the per-context
//! diagnostic log.

use vstd::prelude::*;

verus! {

/// A recoverable failure of a codec operation.  These surface to the
/// immediate caller, which decides whether to skip the tag, retry, or give
/// the whole profile up.
#[derive(Copy, Clone, Debug, Eq, PartialEq, Structural)]
pub enum CodecError {
    /// The stream ended before the required byte count was available, or a
    /// sink stored fewer bytes than asked.
    UnexpectedEof,
    /// The bytes violate the tag type's own rules: a non-ASCII byte in a
    /// text tag, a channel count other than 3, a colorant count over
    /// [`crate::MAX_CHANNELS`], or a length mismatch in a data tag.
    InvalidData,
    /// The entry being added is already present.
    AlreadyExists,
}

/// The classification a diagnostic carries when it is reported.
#[derive(Clone, Copy, Debug, Eq, Hash, Ord, PartialEq, PartialOrd, Structural)]
#[non_exhaustive]
pub enum ErrorCode {
    Undefined,
    File,
    Range,
    Internal,
    Null,
    Read,
    Seek,
    Write,
    UnknownExtension,
    ColorSpaceCheck,
    AlreadyDefined,
    BadSignature,
    CorruptionDetected,
    NotSuitable,
}

/// What a context does with a reported diagnostic.
#[derive(Copy, Clone, Debug, Eq, PartialEq, Structural)]
pub enum LogErrorHandler {
    /// Drop it, the default.
    Discard,
    /// Keep it in the context's log for the caller to read.
    Record,
}

/// One recorded diagnostic.
#[derive(Clone, Debug, Eq, PartialEq)]
pub struct LogEntry {
    pub code: ErrorCode,
    pub text: String,
}

/// The error-log chunk of a context: the chosen handling and what has been
/// recorded so far.
#[derive(Debug)]
pub struct LogErrorChunk {
    pub handler: LogErrorHandler,
    pub entries: Vec<LogEntry>,
}

/// The default handling of a diagnostic: it is dropped.
pub fn default_log_error_handler_function(_code: ErrorCode, _text: &str) {
}

impl LogErrorChunk {
    /// A fresh log chunk with the given handling, or the default when none
    /// is given.
    pub fn new(func: Option<LogErrorHandler>) -> (r: Self)
        ensures
            r.handler == match func {
                Some(h) => h,
                None => LogErrorHandler::Discard,
            },
            r.entries@.len() == 0,
    {
        LogErrorChunk {
            handler: match func {
                Some(h) => h,
                None => LogErrorHandler::Discard,
            },
            entries: Vec::new(),
        }
    }

    /// Reports one diagnostic to this chunk: recorded when the handler asks
    /// for it, dropped otherwise.
    pub fn log(&mut self, code: ErrorCode, text: &str)
        ensures
            final(self).handler == old(self).handler,
            old(self).handler == LogErrorHandler::Record ==> {
                &&& final(self).entries@.len() == old(self).entries@.len() + 1
                &&& final(self).entries@.last().code == code
                &&& final(self).entries@.last().text@ == text@
                &&& forall|i: int|
                    0 <= i < old(self).entries@.len() ==> final(self).entries@[i] == old(
                        self,
                    ).entries@[i]
            },
            old(self).handler != LogErrorHandler::Record ==> final(self).entries@ == old(
                self,
            ).entries@,
    {
        if self.handler == LogErrorHandler::Record {
            let entry = LogEntry { code, text: text.to_owned() };
            self.entries.push(entry);
        }
    }
}

} // verus!
