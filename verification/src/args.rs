//! The names under which the boundary reports its arguments.

use vstd::prelude::*;

verus! {

pub const CACHE_ARG: &'static str = "cache";

pub const WASM_ARG: &'static str = "wasm";

pub const CHECKSUM_ARG: &'static str = "checksum";

pub const DATA_DIR_ARG: &'static str = "data_dir";

pub const FEATURES_ARG: &'static str = "supported_features";

} // verus!
