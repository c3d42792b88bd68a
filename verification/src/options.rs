//! What a cache is opened with, and how the caller's arguments become it.

use crate::args::{DATA_DIR_ARG, FEATURES_ARG};
use crate::engine::features_from_csv;
use crate::error::Error;
use crate::memory::ByteSliceView;
use crate::text::{decode, decoded};
use std::collections::HashSet;
use vstd::prelude::*;
use vstd::utf8::*;

verus! {

/// Whether `c` is white space: the code points with Unicode's `White_Space`
/// property, which is what trimming removes.
pub open spec fn is_space(c: char) -> bool {
    let n = c as u32;
    ||| 0x09 <= n <= 0x0D
    ||| n == 0x20
    ||| n == 0x85
    ||| n == 0xA0
    ||| n == 0x1680
    ||| 0x2000 <= n <= 0x200A
    ||| n == 0x2028
    ||| n == 0x2029
    ||| n == 0x202F
    ||| n == 0x205F
    ||| n == 0x3000
}

/// `s` without its leading white space.
pub open spec fn trim_start(s: Seq<char>) -> Seq<char>
    decreases s.len(),
{
    if s.len() > 0 && is_space(s.first()) {
        trim_start(s.drop_first())
    } else {
        s
    }
}

/// `s` without its trailing white space.
pub open spec fn trim_end(s: Seq<char>) -> Seq<char>
    decreases s.len(),
{
    if s.len() > 0 && is_space(s.last()) {
        trim_end(s.drop_last())
    } else {
        s
    }
}

/// `s` without the white space at either end.
pub open spec fn trimmed(s: Seq<char>) -> Seq<char> {
    trim_end(trim_start(s))
}

/// Whether `csv[i..j]` is one field of `csv`: it runs from the start or from
/// just behind a comma to the end or to the next comma, and holds no comma.
pub open spec fn is_field(csv: Seq<char>, i: int, j: int) -> bool {
    &&& 0 <= i <= j <= csv.len()
    &&& i == 0 || csv[i - 1] == ','
    &&& j == csv.len() || csv[j] == ','
    &&& forall|k: int| i <= k < j ==> csv[k] != ','
}

/// The feature names that a comma-separated list spells: each field with the
/// white space trimmed off its ends, but for the fields that are then empty.
pub open spec fn csv_features(csv: Seq<char>) -> Set<Seq<char>> {
    Set::new(
        |name: Seq<char>|
            name.len() > 0 && exists|i: int, j: int|
                is_field(csv, i, j) && name == trimmed(csv.subrange(i, j)),
    )
}

/// The names in a set of features, each as the characters it is made of.
pub open spec fn feature_names(features: HashSet<String>) -> Set<Seq<char>> {
    features@.map(|name: String| name@)
}

/// The number of bytes in `n` mebibytes.
pub open spec fn mebibytes(n: nat) -> nat {
    n * 1048576
}

/// The number of bytes in `n` mebibytes.
pub fn mebi(n: u32) -> (bytes: u64)
    ensures
        bytes == mebibytes(n as nat),
{
    let wide: u64 = n as u64;
    wide * 1048576
}

/// What a cache is opened with. Sizes are in bytes.
#[derive(Debug)]
pub struct CacheOptions {
    pub base_dir: String,
    pub supported_features: HashSet<String>,
    pub memory_cache_size: u64,
    pub instance_memory_limit: u64,
}

/// `CacheOptions` as plain values.
pub struct CacheOptionsView {
    pub base_dir: Seq<char>,
    pub supported_features: Set<Seq<char>>,
    pub memory_cache_size: nat,
    pub instance_memory_limit: nat,
}

impl View for CacheOptions {
    type V = CacheOptionsView;

    open spec fn view(&self) -> CacheOptionsView {
        CacheOptionsView {
            base_dir: self.base_dir@,
            supported_features: feature_names(self.supported_features),
            memory_cache_size: self.memory_cache_size as nat,
            instance_memory_limit: self.instance_memory_limit as nat,
        }
    }
}

/// Whether the caller's arguments describe a cache that can be asked for: a
/// base directory that is present, not empty and text, and a feature list that
/// is present and text.
pub open spec fn options_accepted(data_dir: Option<Seq<u8>>, features: Option<Seq<u8>>) -> bool {
    &&& data_dir matches Some(dir) && dir.len() > 0 && valid_utf8(dir)
    &&& features matches Some(csv) && valid_utf8(csv)
}

/// The options that accepted arguments describe.
pub open spec fn options_of(
    data_dir: Option<Seq<u8>>,
    features: Option<Seq<u8>>,
    cache_size: u32,
    instance_memory_limit: u32,
) -> CacheOptionsView
    recommends
        options_accepted(data_dir, features),
{
    CacheOptionsView {
        base_dir: decoded(data_dir->0),
        supported_features: csv_features(decoded(features->0)),
        memory_cache_size: mebibytes(cache_size as nat),
        instance_memory_limit: mebibytes(instance_memory_limit as nat),
    }
}

/// Whether `e` is the error that rejected arguments are answered with. The
/// first fault decides: the base directory is looked at before the features.
pub open spec fn options_rejection(
    data_dir: Option<Seq<u8>>,
    features: Option<Seq<u8>>,
    e: Error,
) -> bool {
    if !(data_dir matches Some(dir) && dir.len() > 0) {
        e matches Error::EmptyArg { name } && name@ == DATA_DIR_ARG@
    } else if !valid_utf8(data_dir->0) {
        e is InvalidUtf8 && e.translated()
    } else if features is None {
        e matches Error::EmptyArg { name } && name@ == FEATURES_ARG@
    } else {
        e is InvalidUtf8 && e.translated()
    }
}

/// Turns the caller's arguments into options, or says what is wrong with them.
/// Both sizes are given in mebibytes.
pub fn cache_options(
    data_dir: ByteSliceView,
    supported_features: ByteSliceView,
    cache_size: u32,
    instance_memory_limit: u32,
) -> (r: Result<CacheOptions, Error>)
    ensures
        r is Ok <==> options_accepted(data_dir@, supported_features@),
        r matches Ok(options) ==> options@ == options_of(
            data_dir@,
            supported_features@,
            cache_size,
            instance_memory_limit,
        ),
        r matches Err(e) ==> options_rejection(data_dir@, supported_features@, e),
{
    let dir = match data_dir.read() {
        Some(dir) => dir,
        None => {
            return Err(Error::empty_arg(DATA_DIR_ARG));
        },
    };
    if dir.len() == 0 {
        return Err(Error::empty_arg(DATA_DIR_ARG));
    }
    let base_dir = match decode(dir) {
        Ok(text) => text,
        Err(e) => {
            return Err(Error::from_utf8_error(e));
        },
    };
    let features_bin = match supported_features.read() {
        Some(bytes) => bytes,
        None => {
            return Err(Error::empty_arg(FEATURES_ARG));
        },
    };
    let features_str = match decode(features_bin) {
        Ok(text) => text,
        Err(e) => {
            return Err(Error::from_utf8_error(e));
        },
    };
    let features = features_from_csv(features_str.as_str());
    Ok(
        CacheOptions {
            base_dir,
            supported_features: features,
            memory_cache_size: mebi(cache_size),
            instance_memory_limit: mebi(instance_memory_limit),
        },
    )
}

} // verus!
