//! What holds across calls, stated over the effects that the operations
//! promise.
//!
//! In each law a call is given by what went in, what came out, and the state
//! of the error channel after it: the slot, and the caller's output buffer
//! before and after, where there was one. A call succeeded when it left the
//! slot empty.

use crate::cache::{
    analysis_of, analyze_effect, default_report, load_effect, pin_effect, save_effect,
    unpin_effect, AnalysisReport,
};
use crate::engine::{module_checksum, module_has_ibc_entry_points};
use crate::error::{
    checksum_failure, engine_failure, engine_failure_of, failed_with, succeeded, text_failure,
    vm_message, Error, LastError,
};
use vstd::string::*;
use vstd::prelude::*;
use vstd::utf8::*;

verus! {

/// No call reports both a success and a failure: a failure leaves a message
/// in the slot, a success leaves the slot empty.
pub proof fn lemma_success_excludes_failure(
    message: Seq<char>,
    slot: LastError,
    out_before: Option<Seq<u8>>,
    out_after: Option<Seq<u8>>,
)
    ensures
        failed_with(message, slot, out_after) ==> slot@ is Some,
        engine_failure(slot, out_after) ==> slot@ is Some,
        checksum_failure(slot, out_after) ==> slot@ is Some,
        succeeded(slot, out_before, out_after) ==> slot@ is None,
{
}

/// Saving a module and then loading under the checksum that the save returned:
/// where both calls succeed, the checksum is that of the saved bytes, and the
/// loaded bytes carry it too.
///
/// That the loaded bytes are the saved ones rests on more than is stated in
/// this crate: on the checksum telling any two modules apart.
pub proof fn lemma_load_after_save(
    wasm: Seq<u8>,
    checksum: Seq<u8>,
    loaded: Seq<u8>,
    slot_saved: LastError,
    out_0: Option<Seq<u8>>,
    out_1: Option<Seq<u8>>,
    slot_loaded: LastError,
    out_2: Option<Seq<u8>>,
)
    requires
        wasm.len() > 0,
        save_effect(wasm, checksum, slot_saved, out_0, out_1),
        slot_saved@ is None,
        load_effect(checksum, loaded, slot_loaded, out_1, out_2),
        slot_loaded@ is None,
    ensures
        checksum.len() == 32,
        checksum == module_checksum(wasm),
        module_checksum(loaded) == module_checksum(wasm),
        out_2 == out_0,
{
}

/// Pinning is idempotent: after a pin that succeeded, a second pin of the same
/// checksum succeeds too, reports no error and leaves the pinned set as the
/// first left it.
pub proof fn lemma_pin_is_idempotent(
    pinned_0: Set<Seq<u8>>,
    checksum: Seq<u8>,
    pinned_1: Set<Seq<u8>>,
    slot_1: LastError,
    out_0: Option<Seq<u8>>,
    out_1: Option<Seq<u8>>,
    pinned_2: Set<Seq<u8>>,
    slot_2: LastError,
    out_2: Option<Seq<u8>>,
)
    requires
        pin_effect(pinned_0, checksum, pinned_1, slot_1, out_0, out_1),
        slot_1@ is None,
        pin_effect(pinned_1, checksum, pinned_2, slot_2, out_1, out_2),
    ensures
        slot_2@ is None,
        out_2 == out_1,
        pinned_1.contains(checksum),
        pinned_2 == pinned_1,
{
    assert(pinned_1.insert(checksum) =~= pinned_1);
}

/// Unpinning never fails on a checksum of the right length, pinned or not, and
/// what was not pinned leaves the pinned set as it was.
pub proof fn lemma_unpin_succeeds(
    pinned_0: Set<Seq<u8>>,
    checksum: Seq<u8>,
    pinned_1: Set<Seq<u8>>,
    slot_1: LastError,
    out_0: Option<Seq<u8>>,
    out_1: Option<Seq<u8>>,
)
    requires
        checksum.len() == 32,
        unpin_effect(pinned_0, checksum, pinned_1, slot_1, out_0, out_1),
    ensures
        slot_1@ is None,
        out_1 == out_0,
        !pinned_1.contains(checksum),
        !pinned_0.contains(checksum) ==> pinned_1 == pinned_0,
{
    if !pinned_0.contains(checksum) {
        assert(pinned_0.remove(checksum) =~= pinned_0);
    }
}

/// Unpinning is idempotent: a second unpin of the same checksum succeeds like
/// the first and leaves the pinned set as the first left it.
pub proof fn lemma_unpin_is_idempotent(
    pinned_0: Set<Seq<u8>>,
    checksum: Seq<u8>,
    pinned_1: Set<Seq<u8>>,
    slot_1: LastError,
    out_0: Option<Seq<u8>>,
    out_1: Option<Seq<u8>>,
    pinned_2: Set<Seq<u8>>,
    slot_2: LastError,
    out_2: Option<Seq<u8>>,
)
    requires
        checksum.len() == 32,
        unpin_effect(pinned_0, checksum, pinned_1, slot_1, out_0, out_1),
        unpin_effect(pinned_1, checksum, pinned_2, slot_2, out_1, out_2),
    ensures
        slot_1@ is None,
        slot_2@ is None,
        out_2 == out_0,
        pinned_2 == pinned_1,
{
    assert(pinned_1.remove(checksum) =~= pinned_1);
}

/// Pinning and then unpinning a checksum that was not pinned before brings the
/// pinned set back to what it was.
pub proof fn lemma_unpin_undoes_pin(
    pinned_0: Set<Seq<u8>>,
    checksum: Seq<u8>,
    pinned_1: Set<Seq<u8>>,
    slot_1: LastError,
    out_0: Option<Seq<u8>>,
    out_1: Option<Seq<u8>>,
    pinned_2: Set<Seq<u8>>,
    slot_2: LastError,
    out_2: Option<Seq<u8>>,
)
    requires
        !pinned_0.contains(checksum),
        pin_effect(pinned_0, checksum, pinned_1, slot_1, out_0, out_1),
        slot_1@ is None,
        unpin_effect(pinned_1, checksum, pinned_2, slot_2, out_1, out_2),
    ensures
        slot_2@ is None,
        pinned_2 == pinned_0,
{
    assert(pinned_0.insert(checksum).remove(checksum) =~= pinned_0);
}

/// An analysis that fails, for whatever reason, answers with the report in
/// which every flag is off.
pub proof fn lemma_failed_analysis_answers_default(
    checksum: Seq<u8>,
    report: AnalysisReport,
    slot: LastError,
    out_before: Option<Seq<u8>>,
    out_after: Option<Seq<u8>>,
)
    requires
        analyze_effect(checksum, report, slot, out_before, out_after),
        slot@ is Some,
    ensures
        report == default_report(),
        !report.has_ibc_entry_points,
{
}

/// A save or a load that fails, for whatever reason, answers with no bytes.
pub proof fn lemma_failed_transfer_answers_nothing(
    input: Seq<u8>,
    output: Seq<u8>,
    slot: LastError,
    out_before: Option<Seq<u8>>,
    out_after: Option<Seq<u8>>,
)
    requires
        save_effect(input, output, slot, out_before, out_after) || load_effect(
            input,
            output,
            slot,
            out_before,
            out_after,
        ),
        slot@ is Some,
    ensures
        output.len() == 0,
{
}

/// A pin or an unpin that fails leaves the pinned set as it was.
pub proof fn lemma_failed_pinning_changes_nothing(
    pinned_0: Set<Seq<u8>>,
    checksum: Seq<u8>,
    pinned_1: Set<Seq<u8>>,
    slot: LastError,
    out_before: Option<Seq<u8>>,
    out_after: Option<Seq<u8>>,
)
    requires
        pin_effect(pinned_0, checksum, pinned_1, slot, out_before, out_after) || unpin_effect(
            pinned_0,
            checksum,
            pinned_1,
            slot,
            out_before,
            out_after,
        ),
        slot@ is Some,
    ensures
        pinned_1 == pinned_0,
{
}

/// The message of a failure tells its kind: two errors with the same message
/// are of the same kind. So a missing argument, malformed text, a malformed
/// checksum, a failure of the engine and a contained unwind can be told apart
/// by what is reported.
pub proof fn lemma_message_tells_the_kind(a: Error, b: Error)
    requires
        a.message() == b.message(),
    ensures
        a is EmptyArg <==> b is EmptyArg,
        a is InvalidUtf8 <==> b is InvalidUtf8,
        a is InvalidChecksum <==> b is InvalidChecksum,
        a is Panic <==> b is Panic,
        a is VmErr <==> b is VmErr,
{
    lemma_message_starts(a);
    lemma_message_starts(b);
}

/// How the message of each kind of error starts.
proof fn lemma_message_starts(e: Error)
    ensures
        e.message().len() >= 12,
        e is EmptyArg ==> e.message()[0] == 'N',
        e is InvalidUtf8 ==> e.message()[0] == 'C' && e.message()[2] == 'n',
        e is InvalidChecksum ==> e.message()[0] == 'M',
        e is Panic ==> e.message()[0] == 'C' && e.message()[2] == 'u',
        e is VmErr ==> e.message()[0] == 'E',
{
    reveal_strlit("Null/Nil argument: ");
    reveal_strlit("Cannot decode UTF8 bytes into string: ");
    reveal_strlit("Malformed checksum: ");
    reveal_strlit("Caught panic");
    reveal_strlit("Error calling the VM: ");
}

/// What a failure writes into the caller's buffer is never empty and is
/// well-formed UTF-8 that spells the message.
pub proof fn lemma_reported_failure_is_text(e: Error, slot: LastError, bytes: Seq<u8>)
    requires
        failed_with(e.message(), slot, Some(bytes)),
    ensures
        slot@ == Some(e.message()),
        bytes.len() > 0,
        valid_utf8(bytes),
        decode_utf8(bytes) == e.message(),
{
    lemma_message_starts(e);
    let message = e.message();
    encode_utf8_valid_utf8(message);
    encode_utf8_decode_utf8(message);
    assert(encode_utf8(message) == encode_scalar(message[0] as u32) + encode_utf8(
        message.drop_first(),
    ));
}

/// An error that carries the words of an outside failure is reported as a
/// failure of its kind: of the engine, of a checksum, or of text.
pub proof fn lemma_translated_report(e: Error, slot: LastError, out: Option<Seq<u8>>)
    requires
        e.translated(),
        failed_with(e.message(), slot, out),
    ensures
        e is VmErr ==> engine_failure(slot, out),
        e is InvalidChecksum ==> checksum_failure(slot, out),
        e is InvalidUtf8 ==> text_failure(slot, out),
{
    match e {
        Error::VmErr { msg } => {
            let source = choose|source: cosmwasm_vm::VmError| #[trigger]
                to_string_from_display_ensures::<cosmwasm_vm::VmError>(&source, msg);
            assert(to_string_from_display_ensures::<cosmwasm_vm::VmError>(&source, msg));
        },
        Error::InvalidChecksum { msg } => {
            let source = choose|source: cosmwasm_std::ChecksumError| #[trigger]
                to_string_from_display_ensures::<cosmwasm_std::ChecksumError>(&source, msg);
            assert(to_string_from_display_ensures::<cosmwasm_std::ChecksumError>(&source, msg));
        },
        Error::InvalidUtf8 { msg } => {
            let source = choose|source: core::str::Utf8Error| #[trigger]
                to_string_from_display_ensures::<core::str::Utf8Error>(&source, msg);
            assert(to_string_from_display_ensures::<core::str::Utf8Error>(&source, msg));
        },
        _ => {},
    }
}

/// Where the engine fails, or whoever opens it, the caller's buffer holds a
/// message that is not empty and is well-formed UTF-8. This is what a caller
/// sees of a cache that could not be opened, whatever the reason.
pub proof fn lemma_engine_failure_is_text(slot: LastError, bytes: Seq<u8>)
    requires
        engine_failure(slot, Some(bytes)),
    ensures
        slot@ is Some,
        bytes.len() > 0,
        valid_utf8(bytes),
        decode_utf8(bytes) == slot@->0,
{
    let (source, msg) = choose|source: cosmwasm_vm::VmError, msg: String| #[trigger]
        to_string_from_display_ensures::<cosmwasm_vm::VmError>(&source, msg) && failed_with(
            vm_message(msg@),
            slot,
            Some(bytes),
        );
    let message = vm_message(msg@);
    reveal_strlit("Error calling the VM: ");
    encode_utf8_valid_utf8(message);
    encode_utf8_decode_utf8(message);
    assert(encode_utf8(message) == encode_scalar(message[0] as u32) + encode_utf8(
        message.drop_first(),
    ));
}

/// The failure of whoever opens the engine is a failure of the engine.
pub proof fn lemma_failure_to_open_is_engine_failure(
    source: cosmwasm_vm::VmError,
    slot: LastError,
    out: Option<Seq<u8>>,
)
    requires
        engine_failure_of(source, slot, out),
    ensures
        engine_failure(slot, out),
{
    let msg = choose|msg: String| #[trigger]
        to_string_from_display_ensures::<cosmwasm_vm::VmError>(&source, msg) && failed_with(
            vm_message(msg@),
            slot,
            out,
        );
    assert(to_string_from_display_ensures::<cosmwasm_vm::VmError>(&source, msg));
}

/// Saving a module and then analysing under the checksum that the save
/// returned: where both calls succeed, the report is what analysis finds in a
/// module with the checksum of the saved one.
pub proof fn lemma_analysis_after_save(
    wasm: Seq<u8>,
    checksum: Seq<u8>,
    report: AnalysisReport,
    slot_saved: LastError,
    out_0: Option<Seq<u8>>,
    out_1: Option<Seq<u8>>,
    slot_analysed: LastError,
    out_2: Option<Seq<u8>>,
)
    requires
        wasm.len() > 0,
        save_effect(wasm, checksum, slot_saved, out_0, out_1),
        slot_saved@ is None,
        analyze_effect(checksum, report, slot_analysed, out_1, out_2),
        slot_analysed@ is None,
    ensures
        analysis_of(module_checksum(wasm), report),
        exists|stored: Seq<u8>|
            #[trigger] module_checksum(stored) == module_checksum(wasm)
                && report.has_ibc_entry_points == module_has_ibc_entry_points(stored),
        out_2 == out_0,
{
}

} // verus!
