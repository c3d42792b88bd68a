//! The engine behind the boundary, and what is taken on trust of it.
//!
//! The engine compiles modules, keeps them on disk under their checksum and
//! keeps a set of them pinned in memory. What it answers depends on what is on
//! disk, so its answers are taken as they come; what is stated here holds of
//! every answer.
//!
//! A call into the engine takes the engine's lock first and unwinds where the
//! lock is poisoned, which it is once a call has unwound while it held the
//! lock. So every call asks for an engine that is usable, and says that the
//! engine still is when the call returns. A call that does not return leaves
//! an engine that must not be asked again: whoever contains the unwind has to
//! retire the handle.

use crate::cache::AnalysisReport;
use crate::options::{csv_features, feature_names};
use std::collections::HashSet;
use vstd::prelude::*;

verus! {

/// The failure that the engine reports. Nothing is known of its inside.
#[verifier::external_type_specification]
#[verifier::external_body]
pub struct ExVmError(cosmwasm_vm::VmError);

/// The failure that the engine's checksum type reports of bytes that it does
/// not take for a checksum. Nothing is known of its inside.
#[verifier::external_type_specification]
#[verifier::external_body]
pub struct ExChecksumError(cosmwasm_std::ChecksumError);

/// One engine: a `cosmwasm_vm::Cache`.
///
/// None of the operations here runs a module, so the three backend types that
/// the engine is generic over are fixed to its in-memory ones. The field is
/// public so that an engine opened elsewhere can be brought in: opening one is
/// an unsafe call, and the engine's type cannot stand in a signature here.
/// What is stated of the pinned set holds as long as the engine is pinned and
/// unpinned through this crate alone; a handle keeps its engine to itself.
#[verifier::external_body]
pub struct Engine {
    pub inner: cosmwasm_vm::Cache<
        cosmwasm_vm::testing::MockApi,
        cosmwasm_vm::testing::MockStorage,
        cosmwasm_vm::testing::MockQuerier,
    >,
}

/// The checksums of the modules that an engine holds pinned in memory.
pub uninterp spec fn engine_pinned(engine: Engine) -> Set<Seq<u8>>;

/// Whether an engine can be asked: no earlier call on it has unwound and left
/// its lock poisoned. An engine that was just opened can be asked, and so can
/// one on which every call so far has returned. On an engine that cannot be
/// asked, every call unwinds.
pub uninterp spec fn engine_usable(engine: Engine) -> bool;

/// The checksum under which the engine files a module: the 32 bytes that
/// `cosmwasm_std::Checksum::generate` derives from the module's bytes.
pub uninterp spec fn module_checksum(wasm: Seq<u8>) -> Seq<u8>;

/// Whether analysis finds the entry points for IBC in a module: whether all
/// of them are among the functions that the module's bytes export, as
/// `Cache::analyze` reports it in `has_ibc_entry_points`.
pub uninterp spec fn module_has_ibc_entry_points(wasm: Seq<u8>) -> bool;

/// `cosmwasm_vm::capabilities_from_csv`: splits at commas, trims each field
/// and keeps the fields that are not empty, as a set.
#[verifier::external_body]
pub(crate) fn features_from_csv(csv: &str) -> (features: HashSet<String>)
    ensures
        feature_names(features) == csv_features(csv@),
{
    cosmwasm_vm::capabilities_from_csv(csv)
}

/// `cosmwasm_std::Checksum::try_from(&[u8])`: accepts exactly the byte strings
/// of length 32 and keeps their bytes.
#[verifier::external_body]
pub(crate) fn parse_checksum(bytes: &[u8]) -> (r: Result<[u8; 32], cosmwasm_std::ChecksumError>)
    ensures
        r is Ok <==> bytes@.len() == 32,
        r matches Ok(checksum) ==> checksum@ == bytes@,
{
    match cosmwasm_std::Checksum::try_from(bytes) {
        Ok(checksum) => {
            let raw: &[u8; 32] = checksum.as_ref();
            Ok(*raw)
        },
        Err(e) => Err(e),
    }
}

/// `Cache::store_code`, asked to check the module and to keep it on disk, on
/// an engine whose lock is not poisoned: it leaves the lock so, and where it
/// succeeds, the checksum it returns is the one derived from the
/// bytes it was given, 32 bytes long. The pinned set is not touched.
#[verifier::external_body]
pub(crate) fn engine_save_wasm(engine: &mut Engine, wasm: &[u8]) -> (r: Result<
    Vec<u8>,
    cosmwasm_vm::VmError,
>)
    requires
        engine_usable(*old(engine)),
    ensures
        engine_usable(*final(engine)),
        engine_pinned(*final(engine)) == engine_pinned(*old(engine)),
        r matches Ok(checksum) ==> checksum@ == module_checksum(wasm@) && checksum@.len() == 32,
{
    match engine.inner.store_code(wasm, true, true) {
        Ok(checksum) => Ok(checksum.into()),
        Err(e) => Err(e),
    }
}

/// `Cache::load_wasm`, on an engine whose lock is not poisoned: it leaves the
/// lock so, and where it succeeds, the bytes it returns are bytes whose
/// checksum is the one asked for; the engine checks that itself before it
/// answers. The pinned set is not touched.
#[verifier::external_body]
pub(crate) fn engine_load_wasm(engine: &mut Engine, checksum: &[u8; 32]) -> (r: Result<
    Vec<u8>,
    cosmwasm_vm::VmError,
>)
    requires
        engine_usable(*old(engine)),
    ensures
        engine_usable(*final(engine)),
        engine_pinned(*final(engine)) == engine_pinned(*old(engine)),
        r matches Ok(wasm) ==> module_checksum(wasm@) == checksum@,
{
    engine.inner.load_wasm(&cosmwasm_std::Checksum::from(*checksum))
}

/// `Cache::pin`, on an engine whose lock is not poisoned: it leaves the lock
/// so where it returns. It succeeds at once on a checksum that is pinned already; where
/// it succeeds the checksum is pinned afterwards, and where it fails the
/// pinned set is as it was.
#[verifier::external_body]
pub(crate) fn engine_pin(engine: &mut Engine, checksum: &[u8; 32]) -> (r: Result<
    (),
    cosmwasm_vm::VmError,
>)
    requires
        engine_usable(*old(engine)),
    ensures
        engine_usable(*final(engine)),
        engine_pinned(*old(engine)).contains(checksum@) ==> r is Ok,
        r is Ok ==> engine_pinned(*final(engine)) == engine_pinned(*old(engine)).insert(
            checksum@,
        ),
        r is Err ==> engine_pinned(*final(engine)) == engine_pinned(*old(engine)),
{
    engine.inner.pin(&cosmwasm_std::Checksum::from(*checksum))
}

/// `Cache::unpin`, on an engine whose lock is not poisoned: it leaves the lock
/// so, always succeeds, and the checksum is not pinned afterwards,
/// whether it was before or not.
#[verifier::external_body]
pub(crate) fn engine_unpin(engine: &mut Engine, checksum: &[u8; 32]) -> (r: Result<
    (),
    cosmwasm_vm::VmError,
>)
    requires
        engine_usable(*old(engine)),
    ensures
        engine_usable(*final(engine)),
        r is Ok,
        engine_pinned(*final(engine)) == engine_pinned(*old(engine)).remove(checksum@),
{
    engine.inner.unpin(&cosmwasm_std::Checksum::from(*checksum))
}

/// `Cache::analyze`, on an engine whose lock is not poisoned: it leaves the
/// lock so, and where it succeeds, it has loaded bytes whose checksum is
/// the one asked for, and the flag of the report is what analysis finds in
/// those bytes. The pinned set is not touched.
#[verifier::external_body]
pub(crate) fn engine_analyze(engine: &mut Engine, checksum: &[u8; 32]) -> (r: Result<
    AnalysisReport,
    cosmwasm_vm::VmError,
>)
    requires
        engine_usable(*old(engine)),
    ensures
        engine_usable(*final(engine)),
        engine_pinned(*final(engine)) == engine_pinned(*old(engine)),
        r matches Ok(report) ==> exists|wasm: Seq<u8>|
            #[trigger] module_checksum(wasm) == checksum@ && report.has_ibc_entry_points
                == module_has_ibc_entry_points(wasm),
{
    match engine.inner.analyze(&cosmwasm_std::Checksum::from(*checksum)) {
        Ok(report) => Ok(AnalysisReport { has_ibc_entry_points: report.has_ibc_entry_points }),
        Err(e) => Err(e),
    }
}

} // verus!
