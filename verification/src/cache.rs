//! The handle and the operations on it.
//!
//! Every operation takes the last-error slot, the handle, its argument and the
//! caller's optional output buffer for an error message. It checks the handle,
//! then its argument, then asks the engine, and settles the answer: a result
//! and a cleared slot, or the operation's "nothing" value and a reported
//! error. An operation that is handed no handle never reaches the engine.

use crate::args::{CACHE_ARG, CHECKSUM_ARG, WASM_ARG};
use crate::engine::{
    engine_analyze, engine_load_wasm, engine_pin, engine_pinned, engine_save_wasm, engine_unpin,
    engine_usable, module_checksum, module_has_ibc_entry_points, parse_checksum, Engine,
};
use crate::error::{
    checksum_failure, clear_error, contain, contained, empty_arg_message, engine_failure,
    engine_failure_of, failed_with, handle_c_error_binary, handle_c_error_default, set_error,
    succeeded, Completion, Error, LastError,
};
use vstd::string::*;
use crate::memory::{Buffer, ByteSliceView};
use crate::options::{
    cache_options, options_accepted, options_of, options_rejection, CacheOptions, CacheOptionsView,
};
use vstd::prelude::*;

verus! {

/// The opaque handle that a caller holds on one live engine.
///
/// A handle comes from `init_cache` and ends in `release_cache`. The engine
/// inside cannot be taken out of it.
#[allow(non_camel_case_types)]
pub struct cache_t {
    engine: Engine,
}

impl cache_t {
    /// The engine behind the handle.
    pub closed spec fn engine(&self) -> Engine {
        self.engine
    }

    /// Whether the handle is live: the engine behind it can be asked. A handle
    /// is live from `init_cache` on, through every operation that returns.
    pub open spec fn usable(&self) -> bool {
        engine_usable(self.engine())
    }

    /// The checksums that the engine behind the handle holds pinned.
    pub open spec fn pinned(&self) -> Set<Seq<u8>> {
        engine_pinned(self.engine())
    }
}

/// What static analysis says of a stored module.
#[derive(Clone, Copy, Debug, PartialEq, Eq, Structural)]
pub struct AnalysisReport {
    pub has_ibc_entry_points: bool,
}

impl Default for AnalysisReport {
    /// The report in which every flag is off.
    fn default() -> (report: Self)
        ensures
            report == (AnalysisReport { has_ibc_entry_points: false }),
    {
        AnalysisReport { has_ibc_entry_points: false }
    }
}

/// The report that a failed analysis is answered with.
pub open spec fn default_report() -> AnalysisReport {
    AnalysisReport { has_ibc_entry_points: false }
}

/// What an operation shows when it was handed no handle.
pub open spec fn missing_handle(slot: LastError, out: Option<Seq<u8>>) -> bool {
    failed_with(empty_arg_message(CACHE_ARG@), slot, out)
}

/// What `save_wasm` shows on a live handle: `checksum` is what it returns for
/// the module bytes `wasm`.
pub open spec fn save_effect(
    wasm: Seq<u8>,
    checksum: Seq<u8>,
    slot: LastError,
    out_before: Option<Seq<u8>>,
    out_after: Option<Seq<u8>>,
) -> bool {
    if wasm.len() == 0 {
        checksum.len() == 0 && failed_with(empty_arg_message(WASM_ARG@), slot, out_after)
    } else {
        ||| checksum == module_checksum(wasm) && checksum.len() == 32 && succeeded(
            slot,
            out_before,
            out_after,
        )
        ||| checksum.len() == 0 && engine_failure(slot, out_after)
    }
}

/// What `load_wasm` shows on a live handle: `wasm` is what it returns for the
/// bytes `checksum`.
pub open spec fn load_effect(
    checksum: Seq<u8>,
    wasm: Seq<u8>,
    slot: LastError,
    out_before: Option<Seq<u8>>,
    out_after: Option<Seq<u8>>,
) -> bool {
    if checksum.len() == 0 {
        wasm.len() == 0 && failed_with(empty_arg_message(CHECKSUM_ARG@), slot, out_after)
    } else if checksum.len() != 32 {
        wasm.len() == 0 && checksum_failure(slot, out_after)
    } else {
        ||| module_checksum(wasm) == checksum && succeeded(slot, out_before, out_after)
        ||| wasm.len() == 0 && engine_failure(slot, out_after)
    }
}

/// What `pin` does on a live handle whose engine held `pre` pinned and holds
/// `post` pinned afterwards.
pub open spec fn pin_effect(
    pre: Set<Seq<u8>>,
    checksum: Seq<u8>,
    post: Set<Seq<u8>>,
    slot: LastError,
    out_before: Option<Seq<u8>>,
    out_after: Option<Seq<u8>>,
) -> bool {
    if checksum.len() == 0 {
        post == pre && failed_with(empty_arg_message(CHECKSUM_ARG@), slot, out_after)
    } else if checksum.len() != 32 {
        post == pre && checksum_failure(slot, out_after)
    } else {
        ||| post == pre.insert(checksum) && succeeded(slot, out_before, out_after)
        ||| post == pre && !pre.contains(checksum) && engine_failure(slot, out_after)
    }
}

/// What `unpin` does on a live handle whose engine held `pre` pinned and holds
/// `post` pinned afterwards.
pub open spec fn unpin_effect(
    pre: Set<Seq<u8>>,
    checksum: Seq<u8>,
    post: Set<Seq<u8>>,
    slot: LastError,
    out_before: Option<Seq<u8>>,
    out_after: Option<Seq<u8>>,
) -> bool {
    if checksum.len() == 0 {
        post == pre && failed_with(empty_arg_message(CHECKSUM_ARG@), slot, out_after)
    } else if checksum.len() != 32 {
        post == pre && checksum_failure(slot, out_after)
    } else {
        post == pre.remove(checksum) && succeeded(slot, out_before, out_after)
    }
}

/// Whether `report` is what analysis finds in a module that is filed under
/// `checksum`.
pub open spec fn analysis_of(checksum: Seq<u8>, report: AnalysisReport) -> bool {
    exists|wasm: Seq<u8>|
        #[trigger] module_checksum(wasm) == checksum && report.has_ibc_entry_points
            == module_has_ibc_entry_points(wasm)
}

/// What `analyze_code` shows on a live handle: `report` is what it returns for
/// the bytes `checksum`.
pub open spec fn analyze_effect(
    checksum: Seq<u8>,
    report: AnalysisReport,
    slot: LastError,
    out_before: Option<Seq<u8>>,
    out_after: Option<Seq<u8>>,
) -> bool {
    if checksum.len() == 0 {
        report == default_report() && failed_with(
            empty_arg_message(CHECKSUM_ARG@),
            slot,
            out_after,
        )
    } else if checksum.len() != 32 {
        report == default_report() && checksum_failure(slot, out_after)
    } else {
        ||| analysis_of(checksum, report) && succeeded(slot, out_before, out_after)
        ||| report == default_report() && engine_failure(slot, out_after)
    }
}

/// The engine behind a handle, to work on; nothing for no handle.
pub fn to_cache(ptr: Option<&mut cache_t>) -> (r: Option<&mut Engine>)
    ensures
        match ptr {
            Some(handle) => match r {
                Some(engine) => *engine == handle.engine()
                    && final(handle).engine() == *final(engine),
                None => false,
            },
            None => r is None,
        },
{
    match ptr {
        Some(handle) => Some(&mut handle.engine),
        None => None,
    }
}

/// Reads a checksum argument: it must be present, and the engine's checksum
/// type must take it, which it does of exactly 32 bytes. Other bytes are
/// malformed input, not a failure of the engine.
pub fn read_checksum(checksum: &Buffer) -> (r: Result<[u8; 32], Error>)
    ensures
        r is Ok <==> checksum@.len() == 32,
        r matches Ok(parsed) ==> parsed@ == checksum@,
        r matches Err(e) ==> if checksum@.len() == 0 {
            e matches Error::EmptyArg { name } && name@ == CHECKSUM_ARG@
        } else {
            e is InvalidChecksum && e.translated()
        },
{
    match checksum.read() {
        Some(bytes) => match parse_checksum(bytes) {
            Ok(parsed) => Ok(parsed),
            Err(e) => Err(Error::from_checksum_error(e)),
        },
        None => Err(Error::empty_arg(CHECKSUM_ARG)),
    }
}

/// Whether `open` may answer `opened` when it is handed options that read as
/// `options`.
pub open spec fn opened_with<F: FnOnce(CacheOptions) -> Result<Engine, cosmwasm_vm::VmError>>(
    open: F,
    options: CacheOptionsView,
    opened: Result<Engine, cosmwasm_vm::VmError>,
) -> bool {
    exists|given: CacheOptions| given@ == options && #[trigger] call_ensures(open, (given,), opened)
}

fn do_init_cache<F: FnOnce(CacheOptions) -> Result<Engine, cosmwasm_vm::VmError>>(
    data_dir: ByteSliceView,
    supported_features: ByteSliceView,
    cache_size: u32,
    instance_memory_limit: u32,
    open: F,
) -> (r: Result<Box<cache_t>, Error>)
    requires
        options_accepted(data_dir@, supported_features@) ==> forall|options: CacheOptions|
            options@ == options_of(
                data_dir@,
                supported_features@,
                cache_size,
                instance_memory_limit,
            ) ==> call_requires(open, (options,)),
        forall|options: CacheOptions, engine: Engine| #[trigger]
            call_ensures(open, (options,), Ok::<Engine, cosmwasm_vm::VmError>(engine))
                ==> engine_usable(engine),
    ensures
        r is Ok ==> options_accepted(data_dir@, supported_features@),
        options_accepted(data_dir@, supported_features@) ==> exists|
            opened: Result<Engine, cosmwasm_vm::VmError>,
        |
            #[trigger] opened_with(
                open,
                options_of(data_dir@, supported_features@, cache_size, instance_memory_limit),
                opened,
            ) && match opened {
                Ok(engine) => (r matches Ok(handle) && handle.engine() == engine
                    && handle.usable()),
                Err(failure) => (r matches Err(Error::VmErr { msg })
                    && to_string_from_display_ensures::<cosmwasm_vm::VmError>(&failure, msg)),
            },
        !options_accepted(data_dir@, supported_features@) ==> (r matches Err(e)
            && options_rejection(data_dir@, supported_features@, e)),
{
    let options = match cache_options(
        data_dir,
        supported_features,
        cache_size,
        instance_memory_limit,
    ) {
        Ok(options) => options,
        Err(e) => {
            return Err(e);
        },
    };
    let ghost given = options;
    let opened = open(options);
    proof {
        assert(call_ensures(open, (given,), opened));
        assert(opened_with(open, given@, opened));
    }
    match opened {
        Ok(engine) => Ok(Box::new(cache_t { engine })),
        Err(e) => Err(Error::from_vm_error(e)),
    }
}

/// Opens a cache and returns the handle on it; returns no handle on failure.
///
/// The arguments are checked and turned into options first. Only options that
/// passed are handed to `open`, which opens the engine: that step is the
/// caller's, because opening an engine trusts what is on disk. Whatever `open`
/// answers is settled like the answer of any other operation.
pub fn init_cache<F: FnOnce(CacheOptions) -> Result<Engine, cosmwasm_vm::VmError>>(
    slot: &mut LastError,
    data_dir: ByteSliceView,
    supported_features: ByteSliceView,
    cache_size: u32,
    instance_memory_limit: u32,
    open: F,
    err: Option<&mut Buffer>,
) -> (handle: Option<Box<cache_t>>)
    requires
        options_accepted(data_dir@, supported_features@) ==> forall|options: CacheOptions|
            options@ == options_of(
                data_dir@,
                supported_features@,
                cache_size,
                instance_memory_limit,
            ) ==> call_requires(open, (options,)),
        forall|options: CacheOptions, engine: Engine| #[trigger]
            call_ensures(open, (options,), Ok::<Engine, cosmwasm_vm::VmError>(engine))
                ==> engine_usable(engine),
    ensures
        options_accepted(data_dir@, supported_features@) ==> exists|
            opened: Result<Engine, cosmwasm_vm::VmError>,
        |
            #[trigger] opened_with(
                open,
                options_of(data_dir@, supported_features@, cache_size, instance_memory_limit),
                opened,
            ) && match opened {
                Ok(engine) => (handle matches Some(h) && h.engine() == engine && h.usable())
                    && succeeded(
                    *final(slot),
                    match err {
                        Some(b) => Some(b@),
                        None => None,
                    },
                    match err {
                        Some(b) => Some(final(b)@),
                        None => None,
                    },
                ),
                Err(failure) => handle is None && engine_failure_of(
                    failure,
                    *final(slot),
                    match err {
                        Some(b) => Some(final(b)@),
                        None => None,
                    },
                ),
            },
        !options_accepted(data_dir@, supported_features@) ==> handle is None && exists|e: Error|
            #[trigger] options_rejection(data_dir@, supported_features@, e) && failed_with(
                e.message(),
                *final(slot),
                match err {
                    Some(b) => Some(final(b)@),
                    None => None,
                },
            ),
{
    let r = do_init_cache(data_dir, supported_features, cache_size, instance_memory_limit, open);
    match r {
        Ok(t) => {
            clear_error(slot);
            Some(t)
        },
        Err(e) => {
            set_error(slot, e, err);
            None
        },
    }
}

fn do_save_wasm(cache: &mut Engine, wasm: &Buffer) -> (r: Result<Vec<u8>, Error>)
    requires
        engine_usable(*old(cache)),
    ensures
        engine_usable(*final(cache)),
        engine_pinned(*final(cache)) == engine_pinned(*old(cache)),
        match r {
            Ok(checksum) => wasm@.len() > 0 && checksum@ == module_checksum(wasm@)
                && checksum@.len() == 32,
            Err(e) => if wasm@.len() == 0 {
                e matches Error::EmptyArg { name } && name@ == WASM_ARG@
            } else {
                e is VmErr && e.translated()
            },
        },
{
    let wasm = match wasm.read() {
        Some(bytes) => bytes,
        None => {
            return Err(Error::empty_arg(WASM_ARG));
        },
    };
    match engine_save_wasm(cache, wasm) {
        Ok(checksum) => Ok(checksum),
        Err(e) => Err(Error::from_vm_error(e)),
    }
}

/// Stores a module and returns its checksum; returns no bytes on failure.
pub fn save_wasm(
    slot: &mut LastError,
    cache: Option<&mut cache_t>,
    wasm: &Buffer,
    err: Option<&mut Buffer>,
) -> (checksum: Buffer)
    requires
        match cache {
            Some(handle) => handle.usable(),
            None => true,
        },
    ensures
        match cache {
            Some(handle) => final(handle).usable() && final(handle).pinned() == handle.pinned() && save_effect(
                wasm@,
                checksum@,
                *final(slot),
                match err {
                    Some(b) => Some(b@),
                    None => None,
                },
                match err {
                    Some(b) => Some(final(b)@),
                    None => None,
                },
            ),
            None => checksum@.len() == 0 && missing_handle(
                *final(slot),
                match err {
                    Some(b) => Some(final(b)@),
                    None => None,
                },
            ),
        },
{
    let r = match to_cache(cache) {
        Some(c) => do_save_wasm(c, wasm),
        None => Err(Error::empty_arg(CACHE_ARG)),
    };
    let data = handle_c_error_binary(slot, r, err);
    Buffer::from_vec(data)
}

fn do_load_wasm(cache: &mut Engine, checksum: &Buffer) -> (r: Result<Vec<u8>, Error>)
    requires
        engine_usable(*old(cache)),
    ensures
        engine_usable(*final(cache)),
        engine_pinned(*final(cache)) == engine_pinned(*old(cache)),
        match r {
            Ok(wasm) => checksum@.len() == 32 && module_checksum(wasm@) == checksum@,
            Err(e) => if checksum@.len() == 0 {
                e matches Error::EmptyArg { name } && name@ == CHECKSUM_ARG@
            } else if checksum@.len() != 32 {
                e is InvalidChecksum && e.translated()
            } else {
                e is VmErr && e.translated()
            },
        },
{
    let checksum = match read_checksum(checksum) {
        Ok(parsed) => parsed,
        Err(e) => {
            return Err(e);
        },
    };
    match engine_load_wasm(cache, &checksum) {
        Ok(wasm) => Ok(wasm),
        Err(e) => Err(Error::from_vm_error(e)),
    }
}

/// Returns the bytes of the module stored under `checksum`; returns no bytes
/// on failure.
pub fn load_wasm(
    slot: &mut LastError,
    cache: Option<&mut cache_t>,
    checksum: &Buffer,
    err: Option<&mut Buffer>,
) -> (wasm: Buffer)
    requires
        match cache {
            Some(handle) => handle.usable(),
            None => true,
        },
    ensures
        match cache {
            Some(handle) => final(handle).usable() && final(handle).pinned() == handle.pinned() && load_effect(
                checksum@,
                wasm@,
                *final(slot),
                match err {
                    Some(b) => Some(b@),
                    None => None,
                },
                match err {
                    Some(b) => Some(final(b)@),
                    None => None,
                },
            ),
            None => wasm@.len() == 0 && missing_handle(
                *final(slot),
                match err {
                    Some(b) => Some(final(b)@),
                    None => None,
                },
            ),
        },
{
    let r = match to_cache(cache) {
        Some(c) => do_load_wasm(c, checksum),
        None => Err(Error::empty_arg(CACHE_ARG)),
    };
    let data = handle_c_error_binary(slot, r, err);
    Buffer::from_vec(data)
}

fn do_pin(cache: &mut Engine, checksum: &Buffer) -> (r: Result<(), Error>)
    requires
        engine_usable(*old(cache)),
    ensures
        engine_usable(*final(cache)),
        match r {
            Ok(_) => checksum@.len() == 32 && engine_pinned(*final(cache)) == engine_pinned(
                *old(cache),
            ).insert(checksum@),
            Err(e) => engine_pinned(*final(cache)) == engine_pinned(*old(cache))
                && if checksum@.len() == 0 {
                e matches Error::EmptyArg { name } && name@ == CHECKSUM_ARG@
            } else if checksum@.len() != 32 {
                e is InvalidChecksum && e.translated()
            } else {
                e is VmErr && e.translated() && !engine_pinned(*old(cache)).contains(checksum@)
            },
        },
{
    let checksum = match read_checksum(checksum) {
        Ok(parsed) => parsed,
        Err(e) => {
            return Err(e);
        },
    };
    match engine_pin(cache, &checksum) {
        Ok(_) => Ok(()),
        Err(e) => Err(Error::from_vm_error(e)),
    }
}

/// Pins the module stored under `checksum` in memory. Pinning what is pinned
/// already succeeds and changes nothing.
pub fn pin(
    slot: &mut LastError,
    cache: Option<&mut cache_t>,
    checksum: &Buffer,
    err: Option<&mut Buffer>,
)
    requires
        match cache {
            Some(handle) => handle.usable(),
            None => true,
        },
    ensures
        match cache {
            Some(handle) => final(handle).usable() && pin_effect(
                handle.pinned(),
                checksum@,
                final(handle).pinned(),
                *final(slot),
                match err {
                    Some(b) => Some(b@),
                    None => None,
                },
                match err {
                    Some(b) => Some(final(b)@),
                    None => None,
                },
            ),
            None => missing_handle(
                *final(slot),
                match err {
                    Some(b) => Some(final(b)@),
                    None => None,
                },
            ),
        },
{
    let r = match to_cache(cache) {
        Some(c) => do_pin(c, checksum),
        None => Err(Error::empty_arg(CACHE_ARG)),
    };
    handle_c_error_default(slot, r, err);
}

fn do_unpin(cache: &mut Engine, checksum: &Buffer) -> (r: Result<(), Error>)
    requires
        engine_usable(*old(cache)),
    ensures
        engine_usable(*final(cache)),
        match r {
            Ok(_) => checksum@.len() == 32 && engine_pinned(*final(cache)) == engine_pinned(
                *old(cache),
            ).remove(checksum@),
            Err(e) => checksum@.len() != 32 && engine_pinned(*final(cache)) == engine_pinned(
                *old(cache),
            ) && if checksum@.len() == 0 {
                e matches Error::EmptyArg { name } && name@ == CHECKSUM_ARG@
            } else {
                e is InvalidChecksum && e.translated()
            },
        },
{
    let checksum = match read_checksum(checksum) {
        Ok(parsed) => parsed,
        Err(e) => {
            return Err(e);
        },
    };
    match engine_unpin(cache, &checksum) {
        Ok(_) => Ok(()),
        Err(e) => Err(Error::from_vm_error(e)),
    }
}

/// Takes the module stored under `checksum` out of the pinned set. Unpinning
/// what is not pinned succeeds and changes nothing.
pub fn unpin(
    slot: &mut LastError,
    cache: Option<&mut cache_t>,
    checksum: &Buffer,
    err: Option<&mut Buffer>,
)
    requires
        match cache {
            Some(handle) => handle.usable(),
            None => true,
        },
    ensures
        match cache {
            Some(handle) => final(handle).usable() && unpin_effect(
                handle.pinned(),
                checksum@,
                final(handle).pinned(),
                *final(slot),
                match err {
                    Some(b) => Some(b@),
                    None => None,
                },
                match err {
                    Some(b) => Some(final(b)@),
                    None => None,
                },
            ),
            None => missing_handle(
                *final(slot),
                match err {
                    Some(b) => Some(final(b)@),
                    None => None,
                },
            ),
        },
{
    let r = match to_cache(cache) {
        Some(c) => do_unpin(c, checksum),
        None => Err(Error::empty_arg(CACHE_ARG)),
    };
    handle_c_error_default(slot, r, err);
}

/// Settles an analysis: the report on success, the default report and a
/// reported error on failure.
pub fn handle_c_error_report(
    slot: &mut LastError,
    result: Result<AnalysisReport, Error>,
    error_msg: Option<&mut Buffer>,
) -> (report: AnalysisReport)
    ensures
        match result {
            Ok(found) => report == found && succeeded(
                *final(slot),
                match error_msg {
                    Some(b) => Some(b@),
                    None => None,
                },
                match error_msg {
                    Some(b) => Some(final(b)@),
                    None => None,
                },
            ),
            Err(e) => report == default_report() && failed_with(
                e.message(),
                *final(slot),
                match error_msg {
                    Some(b) => Some(final(b)@),
                    None => None,
                },
            ),
        },
{
    match result {
        Ok(value) => {
            clear_error(slot);
            value
        },
        Err(error) => {
            set_error(slot, error, error_msg);
            AnalysisReport::default()
        },
    }
}

fn do_analyze_code(cache: &mut Engine, checksum: &Buffer) -> (r: Result<AnalysisReport, Error>)
    requires
        engine_usable(*old(cache)),
    ensures
        engine_usable(*final(cache)),
        engine_pinned(*final(cache)) == engine_pinned(*old(cache)),
        match r {
            Ok(report) => checksum@.len() == 32 && analysis_of(checksum@, report),
            Err(e) => if checksum@.len() == 0 {
                e matches Error::EmptyArg { name } && name@ == CHECKSUM_ARG@
            } else if checksum@.len() != 32 {
                e is InvalidChecksum && e.translated()
            } else {
                e is VmErr && e.translated()
            },
        },
{
    let checksum = match read_checksum(checksum) {
        Ok(parsed) => parsed,
        Err(e) => {
            return Err(e);
        },
    };
    match engine_analyze(cache, &checksum) {
        Ok(report) => Ok(report),
        Err(e) => Err(Error::from_vm_error(e)),
    }
}

/// Analyses the module stored under `checksum`; returns the default report on
/// failure.
pub fn analyze_code(
    slot: &mut LastError,
    cache: Option<&mut cache_t>,
    checksum: &Buffer,
    err: Option<&mut Buffer>,
) -> (report: AnalysisReport)
    requires
        match cache {
            Some(handle) => handle.usable(),
            None => true,
        },
    ensures
        match cache {
            Some(handle) => final(handle).usable() && final(handle).pinned() == handle.pinned() && analyze_effect(
                checksum@,
                report,
                *final(slot),
                match err {
                    Some(b) => Some(b@),
                    None => None,
                },
                match err {
                    Some(b) => Some(final(b)@),
                    None => None,
                },
            ),
            None => report == default_report() && missing_handle(
                *final(slot),
                match err {
                    Some(b) => Some(final(b)@),
                    None => None,
                },
            ),
        },
{
    let r = match to_cache(cache) {
        Some(c) => do_analyze_code(c, checksum),
        None => Err(Error::empty_arg(CACHE_ARG)),
    };
    handle_c_error_report(slot, r, err)
}

/// Ends the life of a handle and of the engine behind it. Releasing no handle
/// does nothing.
pub fn release_cache(cache: Option<Box<cache_t>>) {
    match cache {
        Some(handle) => {
            let _ = handle;
        },
        None => {},
    }
}


/// Settles a contained call of `init_cache`: a call that unwound is answered
/// with no handle.
pub fn contain_handle(
    slot: &mut LastError,
    completion: Completion<Option<Box<cache_t>>>,
    error_msg: Option<&mut Buffer>,
) -> (handle: Option<Box<cache_t>>)
    ensures
        completion is Unwound ==> handle is None,
        contained(
            completion,
            handle,
            *old(slot),
            *final(slot),
            match error_msg {
                Some(b) => Some(b@),
                None => None,
            },
            match error_msg {
                Some(b) => Some(final(b)@),
                None => None,
            },
        ),
{
    contain(slot, completion, None, error_msg)
}

/// Settles a contained call of `analyze_code`: a call that unwound is
/// answered with the default report.
pub fn contain_report(
    slot: &mut LastError,
    completion: Completion<AnalysisReport>,
    error_msg: Option<&mut Buffer>,
) -> (report: AnalysisReport)
    ensures
        completion is Unwound ==> report == default_report(),
        contained(
            completion,
            report,
            *old(slot),
            *final(slot),
            match error_msg {
                Some(b) => Some(b@),
                None => None,
            },
            match error_msg {
                Some(b) => Some(final(b)@),
                None => None,
            },
        ),
{
    contain(slot, completion, AnalysisReport::default(), error_msg)
}

} // verus!
