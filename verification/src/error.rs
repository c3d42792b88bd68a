//! The one channel through which every operation reports failure.
//!
//! A failure is turned into a message. The message goes to the last-error slot
//! and, where the caller supplied one, into the caller's output buffer as UTF-8.
//! A success clears the slot and leaves the caller's buffer alone.

use crate::memory::Buffer;
use vstd::prelude::*;
use vstd::string::*;
use vstd::utf8::*;

verus! {

/// What can go wrong at the boundary.
#[derive(Debug)]
pub enum Error {
    /// A required argument was absent or held no bytes.
    EmptyArg { name: String },
    /// Bytes that should be text are not well-formed UTF-8.
    InvalidUtf8 { msg: String },
    /// Bytes that should be a checksum are none; `msg` says why.
    InvalidChecksum { msg: String },
    /// Something inside unwound and was contained at the boundary.
    Panic,
    /// The engine refused or failed; `msg` is its own account.
    VmErr { msg: String },
}

/// The message for a missing argument called `name`.
pub open spec fn empty_arg_message(name: Seq<char>) -> Seq<char> {
    "Null/Nil argument: "@ + name
}

/// The message for bytes that are no text; `msg` is the decoder's complaint.
pub open spec fn invalid_utf8_message(msg: Seq<char>) -> Seq<char> {
    "Cannot decode UTF8 bytes into string: "@ + msg
}

/// The message for bytes that are no checksum; `msg` says why.
pub open spec fn invalid_checksum_message(msg: Seq<char>) -> Seq<char> {
    "Malformed checksum: "@ + msg
}

/// The message for a contained unwind. It carries no detail.
pub open spec fn panic_message() -> Seq<char> {
    "Caught panic"@
}

/// The message for an engine failure; `msg` is the engine's account.
pub open spec fn vm_message(msg: Seq<char>) -> Seq<char> {
    "Error calling the VM: "@ + msg
}

/// Whether `msg` is what some failure of the engine says of itself.
pub open spec fn engine_words(msg: String) -> bool {
    exists|source: cosmwasm_vm::VmError| #[trigger]
        to_string_from_display_ensures::<cosmwasm_vm::VmError>(&source, msg)
}

/// Whether `msg` is what the engine's checksum type says of bytes it refused.
pub open spec fn checksum_words(msg: String) -> bool {
    exists|source: cosmwasm_std::ChecksumError| #[trigger]
        to_string_from_display_ensures::<cosmwasm_std::ChecksumError>(&source, msg)
}

/// Whether `msg` is what the decoder says of bytes that are no text.
pub open spec fn decoder_words(msg: String) -> bool {
    exists|source: core::str::Utf8Error| #[trigger]
        to_string_from_display_ensures::<core::str::Utf8Error>(&source, msg)
}

impl Error {
    /// Whether the words that the error carries are those of an outside
    /// failure of its kind: nothing was made up on the way.
    pub open spec fn translated(&self) -> bool {
        match self {
            Error::InvalidUtf8 { msg } => decoder_words(*msg),
            Error::InvalidChecksum { msg } => checksum_words(*msg),
            Error::VmErr { msg } => engine_words(*msg),
            _ => true,
        }
    }

    /// The message that this error is reported with.
    pub open spec fn message(&self) -> Seq<char> {
        match self {
            Error::EmptyArg { name } => empty_arg_message(name@),
            Error::InvalidUtf8 { msg } => invalid_utf8_message(msg@),
            Error::InvalidChecksum { msg } => invalid_checksum_message(msg@),
            Error::Panic => panic_message(),
            Error::VmErr { msg } => vm_message(msg@),
        }
    }

    pub fn empty_arg(name: &str) -> (e: Error)
        ensures
            e matches Error::EmptyArg { name: n } && n@ == name@,
    {
        Error::EmptyArg { name: String::from_str(name) }
    }

    pub fn invalid_utf8(msg: String) -> (e: Error)
        ensures
            e == (Error::InvalidUtf8 { msg }),
    {
        Error::InvalidUtf8 { msg }
    }

    pub fn panic() -> (e: Error)
        ensures
            e == Error::Panic,
    {
        Error::Panic
    }

    pub fn vm_err(msg: String) -> (e: Error)
        ensures
            e == (Error::VmErr { msg }),
    {
        Error::VmErr { msg }
    }

    /// An engine failure becomes `VmErr`, with the engine's own words.
    pub fn from_vm_error(source: cosmwasm_vm::VmError) -> (e: Error)
        ensures
            e matches Error::VmErr { msg } && to_string_from_display_ensures::<
                cosmwasm_vm::VmError,
            >(&source, msg),
            e.translated(),
    {
        Error::VmErr { msg: source.to_string() }
    }

    /// Bytes that the engine's checksum type does not take are malformed
    /// input: `InvalidChecksum`, with the words of that type.
    pub fn from_checksum_error(source: cosmwasm_std::ChecksumError) -> (e: Error)
        ensures
            e matches Error::InvalidChecksum { msg } && to_string_from_display_ensures::<
                cosmwasm_std::ChecksumError,
            >(&source, msg),
            e.translated(),
    {
        Error::InvalidChecksum { msg: source.to_string() }
    }

    /// A decoding failure becomes `InvalidUtf8`, with the decoder's own words.
    pub fn from_utf8_error(source: core::str::Utf8Error) -> (e: Error)
        ensures
            e matches Error::InvalidUtf8 { msg } && to_string_from_display_ensures::<
                core::str::Utf8Error,
            >(&source, msg),
            e.translated(),
    {
        Error::InvalidUtf8 { msg: source.to_string() }
    }

    /// Writes the message out.
    pub fn to_string(&self) -> (s: String)
        ensures
            s@ == self.message(),
    {
        match self {
            Error::EmptyArg { name } => String::from_str("Null/Nil argument: ").concat(
                name.as_str(),
            ),
            Error::InvalidUtf8 { msg } => String::from_str(
                "Cannot decode UTF8 bytes into string: ",
            ).concat(msg.as_str()),
            Error::InvalidChecksum { msg } => String::from_str("Malformed checksum: ").concat(
                msg.as_str(),
            ),
            Error::Panic => String::from_str("Caught panic"),
            Error::VmErr { msg } => String::from_str("Error calling the VM: ").concat(
                msg.as_str(),
            ),
        }
    }
}

/// The slot that remembers the message of the most recent failure.
///
/// One slot serves every handle. A success empties it, a failure overwrites
/// it, and `take` reads it and empties it.
#[derive(Debug)]
pub struct LastError {
    message: Option<String>,
}

impl View for LastError {
    type V = Option<Seq<char>>;

    closed spec fn view(&self) -> Option<Seq<char>> {
        match self.message {
            Some(m) => Some(m@),
            None => None,
        }
    }
}

impl LastError {
    /// An empty slot.
    pub fn new() -> (slot: Self)
        ensures
            slot@ is None,
    {
        LastError { message: None }
    }

    /// Reads the slot and empties it.
    pub fn take(&mut self) -> (m: Option<String>)
        ensures
            final(self)@ is None,
            old(self)@ == (match m {
                Some(s) => Some(s@),
                None => None::<Seq<char>>,
            }),
    {
        self.message.take()
    }
}

/// A failure with `message` has been reported: the slot holds the message, and
/// the caller's output buffer, where there is one, holds it as UTF-8.
pub open spec fn failed_with(message: Seq<char>, slot: LastError, out: Option<Seq<u8>>) -> bool {
    &&& slot@ == Some(message)
    &&& out matches Some(bytes) ==> bytes == encode_utf8(message)
}

/// A success has been reported: the slot is empty and the caller's output
/// buffer, where there is one, is as it was.
pub open spec fn succeeded(
    slot: LastError,
    out_before: Option<Seq<u8>>,
    out_after: Option<Seq<u8>>,
) -> bool {
    &&& slot@ is None
    &&& out_after == out_before
}

/// The failure `source` of the engine has been reported, in its own words.
pub open spec fn engine_failure_of(
    source: cosmwasm_vm::VmError,
    slot: LastError,
    out: Option<Seq<u8>>,
) -> bool {
    exists|msg: String| #[trigger]
        to_string_from_display_ensures::<cosmwasm_vm::VmError>(&source, msg) && failed_with(
            vm_message(msg@),
            slot,
            out,
        )
}

/// A failure of the engine has been reported, in the engine's own words.
pub open spec fn engine_failure(slot: LastError, out: Option<Seq<u8>>) -> bool {
    exists|source: cosmwasm_vm::VmError, msg: String| #[trigger]
        to_string_from_display_ensures::<cosmwasm_vm::VmError>(&source, msg) && failed_with(
            vm_message(msg@),
            slot,
            out,
        )
}

/// A malformed checksum has been reported, in the words of the engine's
/// checksum type.
pub open spec fn checksum_failure(slot: LastError, out: Option<Seq<u8>>) -> bool {
    exists|source: cosmwasm_std::ChecksumError, msg: String| #[trigger]
        to_string_from_display_ensures::<cosmwasm_std::ChecksumError>(&source, msg)
            && failed_with(invalid_checksum_message(msg@), slot, out)
}

/// Bytes that are no text have been reported, in the decoder's words.
pub open spec fn text_failure(slot: LastError, out: Option<Seq<u8>>) -> bool {
    exists|source: core::str::Utf8Error, msg: String| #[trigger]
        to_string_from_display_ensures::<core::str::Utf8Error>(&source, msg) && failed_with(
            invalid_utf8_message(msg@),
            slot,
            out,
        )
}

/// Empties the slot.
pub fn clear_error(slot: &mut LastError)
    ensures
        final(slot)@ is None,
{
    slot.message = None;
}

/// Reports `err`: its message goes to the slot and, as UTF-8, to `error_msg`.
pub fn set_error(slot: &mut LastError, err: Error, error_msg: Option<&mut Buffer>)
    ensures
        failed_with(
            err.message(),
            *final(slot),
            match error_msg {
                Some(b) => Some(final(b)@),
                None => None,
            },
        ),
{
    let message = err.to_string();
    match error_msg {
        Some(b) => {
            *b = Buffer::from_vec(message.as_str().as_bytes_vec());
        },
        None => {},
    }
    slot.message = Some(message);
}

/// Settles an operation that returns bytes: the bytes on success, no bytes
/// and a reported error on failure.
pub fn handle_c_error_binary(
    slot: &mut LastError,
    result: Result<Vec<u8>, Error>,
    error_msg: Option<&mut Buffer>,
) -> (data: Vec<u8>)
    ensures
        match result {
            Ok(v) => data@ == v@ && succeeded(
                *final(slot),
                match error_msg {
                    Some(b) => Some(b@),
                    None => None,
                },
                match error_msg {
                    Some(b) => Some(final(b)@),
                    None => None,
                },
            ),
            Err(e) => data@.len() == 0 && failed_with(
                e.message(),
                *final(slot),
                match error_msg {
                    Some(b) => Some(final(b)@),
                    None => None,
                },
            ),
        },
{
    match result {
        Ok(v) => {
            clear_error(slot);
            v
        },
        Err(e) => {
            set_error(slot, e, error_msg);
            Vec::new()
        },
    }
}

/// Settles an operation that returns nothing.
pub fn handle_c_error_default(
    slot: &mut LastError,
    result: Result<(), Error>,
    error_msg: Option<&mut Buffer>,
)
    ensures
        match result {
            Ok(_) => succeeded(
                *final(slot),
                match error_msg {
                    Some(b) => Some(b@),
                    None => None,
                },
                match error_msg {
                    Some(b) => Some(final(b)@),
                    None => None,
                },
            ),
            Err(e) => failed_with(
                e.message(),
                *final(slot),
                match error_msg {
                    Some(b) => Some(final(b)@),
                    None => None,
                },
            ),
        },
{
    match result {
        Ok(_) => {
            clear_error(slot);
        },
        Err(e) => {
            set_error(slot, e, error_msg);
        },
    }
}

/// How a call that was run under containment ended.
pub enum Completion<T> {
    /// It returned, with a value.
    Returned(T),
    /// It unwound, and the unwind was caught.
    Unwound,
}

/// Settles a call that was run under containment.
///
/// A call that returned has settled itself, so its value passes through and
/// nothing changes. A call that unwound is answered with `sentinel` and
/// reported as a contained unwind: the message says that much and nothing of
/// the cause.
pub(crate) fn contain<T>(
    slot: &mut LastError,
    completion: Completion<T>,
    sentinel: T,
    error_msg: Option<&mut Buffer>,
) -> (value: T)
    ensures
        completion is Unwound ==> value == sentinel,
        contained(
            completion,
            value,
            *old(slot),
            *final(slot),
            match error_msg {
                Some(b) => Some(b@),
                None => None,
            },
            match error_msg {
                Some(b) => Some(final(b)@),
                None => None,
            },
        ),
{
    match completion {
        Completion::Returned(returned) => returned,
        Completion::Unwound => {
            set_error(slot, Error::panic(), error_msg);
            sentinel
        },
    }
}

/// What containment makes of a call that ended in `completion`: the value and
/// the error channel of a call that returned are passed on as they are, and a
/// call that unwound is reported as a contained unwind.
pub open spec fn contained<T>(
    completion: Completion<T>,
    value: T,
    slot_before: LastError,
    slot_after: LastError,
    out_before: Option<Seq<u8>>,
    out_after: Option<Seq<u8>>,
) -> bool {
    match completion {
        Completion::Returned(returned) => value == returned && slot_after == slot_before
            && out_after == out_before,
        Completion::Unwound => failed_with(panic_message(), slot_after, out_after),
    }
}

/// Settles a contained call of an operation that returns bytes: a call that
/// unwound is answered with no bytes.
pub fn contain_binary(
    slot: &mut LastError,
    completion: Completion<Buffer>,
    error_msg: Option<&mut Buffer>,
) -> (data: Buffer)
    ensures
        completion is Unwound ==> data@.len() == 0,
        contained(
            completion,
            data,
            *old(slot),
            *final(slot),
            match error_msg {
                Some(b) => Some(b@),
                None => None,
            },
            match error_msg {
                Some(b) => Some(final(b)@),
                None => None,
            },
        ),
{
    contain(slot, completion, Buffer::default(), error_msg)
}

/// Settles a contained call of an operation that returns nothing.
pub fn contain_default(
    slot: &mut LastError,
    completion: Completion<()>,
    error_msg: Option<&mut Buffer>,
)
    ensures
        contained(
            completion,
            (),
            *old(slot),
            *final(slot),
            match error_msg {
                Some(b) => Some(b@),
                None => None,
            },
            match error_msg {
                Some(b) => Some(final(b)@),
                None => None,
            },
        ),
{
    contain(slot, completion, (), error_msg)
}

} // verus!
