use wasmvm::error::Error;
use wasmvm::memory::ByteSliceView;
use wasmvm::options::{cache_options, mebi};
use wasmvm::text::decode;

fn view(bytes: &[u8]) -> ByteSliceView<'_> {
    ByteSliceView::new(Some(bytes))
}

fn names(csv: &str) -> Vec<String> {
    let options = match cache_options(view(b"/tmp/cache"), view(csv.as_bytes()), 1, 1) {
        Ok(options) => options,
        Err(e) => panic!("rejected: {}", e.to_string()),
    };
    let mut names: Vec<String> = options.supported_features.into_iter().collect();
    names.sort();
    names
}

#[test]
fn mebi_counts_bytes() {
    assert_eq!(mebi(0), 0);
    assert_eq!(mebi(1), 1_048_576);
    assert_eq!(mebi(32), 33_554_432);
    assert_eq!(mebi(512), 536_870_912);
}

#[test]
fn mebi_of_the_largest_input_does_not_wrap() {
    assert_eq!(mebi(u32::MAX), 4_503_599_626_321_920);
    assert_eq!(mebi(4096), 4_294_967_296);
}

#[test]
fn decode_accepts_text() {
    assert_eq!(decode(b"staking").unwrap(), "staking");
    assert_eq!(decode(b"").unwrap(), "");
    assert_eq!(decode("gr\u{fc}n".as_bytes()).unwrap(), "gr\u{fc}n");
}

#[test]
fn decode_rejects_what_is_no_text() {
    assert!(decode(&[0xFF]).is_err());
    assert!(decode(&[0x61, 0xC3]).is_err());
    assert!(decode(&[0xED, 0xA0, 0x80]).is_err());
}

#[test]
fn options_hold_what_was_asked_for() {
    let options = cache_options(view(b"/var/lib/modules"), view(b"staking"), 512, 32).unwrap();
    assert_eq!(options.base_dir, "/var/lib/modules");
    assert_eq!(options.supported_features.len(), 1);
    assert!(options.supported_features.contains("staking"));
    assert_eq!(options.memory_cache_size, 536_870_912);
    assert_eq!(options.instance_memory_limit, 33_554_432);
}

#[test]
fn base_dir_with_a_nul_byte_is_text() {
    // a NUL byte is valid UTF-8, so the options pass; it is the engine that
    // will not open such a directory
    let options = cache_options(view(b"borken\0dir"), view(b"staking"), 512, 32).unwrap();
    assert_eq!(options.base_dir, "borken\0dir");
}

#[test]
fn features_are_split_at_commas() {
    assert_eq!(names("stargate,staking"), vec!["staking", "stargate"]);
    assert_eq!(names("iterator"), vec!["iterator"]);
}

#[test]
fn features_are_trimmed() {
    assert_eq!(
        names(" iterator ,\tstaking\n, stargate"),
        vec!["iterator", "staking", "stargate"]
    );
    assert_eq!(names("\u{a0}staking\u{3000}"), vec!["staking"]);
    // white space inside a name stays
    assert_eq!(names(" two words "), vec!["two words"]);
}

#[test]
fn empty_features_are_dropped() {
    assert_eq!(names(""), Vec::<String>::new());
    assert_eq!(names(",, ,"), Vec::<String>::new());
    assert_eq!(names(",staking,,"), vec!["staking"]);
}

#[test]
fn repeated_features_count_once() {
    assert_eq!(names("staking,staking, staking"), vec!["staking"]);
}

#[test]
fn missing_base_dir_is_rejected() {
    let r = cache_options(ByteSliceView::new(None), view(b"staking"), 512, 32);
    let e = r.unwrap_err();
    assert!(matches!(&e, Error::EmptyArg { name } if name == "data_dir"));
    assert_eq!(e.to_string(), "Null/Nil argument: data_dir");
}

#[test]
fn empty_base_dir_is_rejected() {
    let r = cache_options(view(b""), view(b"staking"), 512, 32);
    let e = r.unwrap_err();
    assert!(matches!(&e, Error::EmptyArg { name } if name == "data_dir"));
}

#[test]
fn base_dir_that_is_no_text_is_rejected() {
    let r = cache_options(view(&[0x2F, 0xFF, 0xFE]), view(b"staking"), 512, 32);
    let e = r.unwrap_err();
    assert!(matches!(&e, Error::InvalidUtf8 { .. }));
    assert!(e
        .to_string()
        .starts_with("Cannot decode UTF8 bytes into string: "));
}

#[test]
fn missing_features_are_rejected() {
    let r = cache_options(view(b"/tmp/cache"), ByteSliceView::new(None), 512, 32);
    let e = r.unwrap_err();
    assert!(matches!(&e, Error::EmptyArg { name } if name == "supported_features"));
    assert_eq!(e.to_string(), "Null/Nil argument: supported_features");
}

#[test]
fn features_that_are_no_text_are_rejected() {
    let r = cache_options(view(b"/tmp/cache"), view(&[0x73, 0x80]), 512, 32);
    let e = r.unwrap_err();
    assert!(matches!(&e, Error::InvalidUtf8 { .. }));
}

#[test]
fn present_but_empty_features_are_accepted() {
    let options = cache_options(view(b"/tmp/cache"), view(b""), 0, 0).unwrap();
    assert!(options.supported_features.is_empty());
    assert_eq!(options.memory_cache_size, 0);
    assert_eq!(options.instance_memory_limit, 0);
}

#[test]
fn base_dir_is_judged_before_features() {
    let r = cache_options(ByteSliceView::new(None), ByteSliceView::new(None), 1, 1);
    assert!(matches!(r.unwrap_err(), Error::EmptyArg { name } if name == "data_dir"));
    let r = cache_options(view(&[0xFF]), view(&[0xFF]), 1, 1);
    assert!(matches!(r.unwrap_err(), Error::InvalidUtf8 { .. }));
    let r = cache_options(view(&[0xFF]), ByteSliceView::new(None), 1, 1);
    assert!(matches!(r.unwrap_err(), Error::InvalidUtf8 { .. }));
}
