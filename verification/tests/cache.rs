use wasmvm::cache::{
    analyze_code, contain_handle, contain_report, handle_c_error_report, init_cache, load_wasm,
    pin, read_checksum, release_cache, save_wasm, to_cache, unpin, AnalysisReport,
};
use wasmvm::engine::Engine;
use wasmvm::error::{set_error, Completion, Error, LastError};
use wasmvm::memory::{Buffer, ByteSliceView};
use wasmvm::options::CacheOptions;

const MISSING_HANDLE: &str = "Null/Nil argument: cache";

fn engine_error() -> cosmwasm_vm::VmError {
    match cosmwasm_vm::from_slice::<u32>(b"seven", 64) {
        Ok(_) => panic!("a word is no number"),
        Err(e) => e,
    }
}

fn some_checksum() -> Buffer {
    Buffer::from_vec((0u8..32).collect())
}

#[test]
fn to_cache_of_no_handle_is_nothing() {
    assert!(to_cache(None).is_none());
}

#[test]
fn release_of_no_handle_does_nothing() {
    release_cache(None);
    // and again: there is nothing that could be released twice
    release_cache(None);
}

#[test]
fn default_report_has_every_flag_off() {
    assert_eq!(
        AnalysisReport::default(),
        AnalysisReport {
            has_ibc_entry_points: false
        }
    );
    assert_ne!(
        AnalysisReport::default(),
        AnalysisReport {
            has_ibc_entry_points: true
        }
    );
}

#[test]
fn checksum_of_32_bytes_is_read() {
    let parsed = read_checksum(&some_checksum()).unwrap();
    let expected: Vec<u8> = (0u8..32).collect();
    assert_eq!(parsed.to_vec(), expected);
}

#[test]
fn empty_checksum_is_a_missing_argument() {
    let e = read_checksum(&Buffer::default()).unwrap_err();
    assert!(matches!(&e, Error::EmptyArg { name } if name == "checksum"));
    assert_eq!(e.to_string(), "Null/Nil argument: checksum");
}

#[test]
fn checksum_of_wrong_length_is_malformed() {
    for len in [1usize, 31, 33, 64] {
        let e = read_checksum(&Buffer::from_vec(vec![0xAB; len])).unwrap_err();
        assert!(matches!(&e, Error::InvalidChecksum { .. }));
        assert_eq!(
            e.to_string(),
            "Malformed checksum: Checksum not of length 32"
        );
    }
}

#[test]
fn save_without_handle_fails() {
    let mut slot = LastError::new();
    let mut err = Buffer::default();
    let wasm = Buffer::from_vec(vec![0, 97, 115, 109]);
    let checksum = save_wasm(&mut slot, None, &wasm, Some(&mut err));
    assert_eq!(checksum.len(), 0);
    assert_ne!(err.len(), 0);
    assert_eq!(err.consume(), MISSING_HANDLE.as_bytes().to_vec());
    assert_eq!(slot.take(), Some(String::from(MISSING_HANDLE)));
}

#[test]
fn load_without_handle_fails() {
    let mut slot = LastError::new();
    let mut err = Buffer::default();
    let wasm = load_wasm(&mut slot, None, &some_checksum(), Some(&mut err));
    assert_eq!(wasm.consume(), Vec::<u8>::new());
    assert_eq!(err.consume(), MISSING_HANDLE.as_bytes().to_vec());
    assert_eq!(slot.take(), Some(String::from(MISSING_HANDLE)));
}

#[test]
fn pin_without_handle_fails() {
    let mut slot = LastError::new();
    let mut err = Buffer::default();
    pin(&mut slot, None, &some_checksum(), Some(&mut err));
    assert_eq!(err.consume(), MISSING_HANDLE.as_bytes().to_vec());
    assert_eq!(slot.take(), Some(String::from(MISSING_HANDLE)));
}

#[test]
fn unpin_without_handle_fails() {
    let mut slot = LastError::new();
    let mut err = Buffer::default();
    unpin(&mut slot, None, &some_checksum(), Some(&mut err));
    assert_eq!(err.consume(), MISSING_HANDLE.as_bytes().to_vec());
    assert_eq!(slot.take(), Some(String::from(MISSING_HANDLE)));
}

#[test]
fn analyze_without_handle_fails_with_default_report() {
    let mut slot = LastError::new();
    let mut err = Buffer::default();
    let report = analyze_code(&mut slot, None, &some_checksum(), Some(&mut err));
    assert_eq!(
        report,
        AnalysisReport {
            has_ibc_entry_points: false
        }
    );
    assert_eq!(err.consume(), MISSING_HANDLE.as_bytes().to_vec());
    assert_eq!(slot.take(), Some(String::from(MISSING_HANDLE)));
}

#[test]
fn missing_handle_is_judged_before_the_argument() {
    let mut slot = LastError::new();
    let checksum = save_wasm(&mut slot, None, &Buffer::default(), None);
    assert!(checksum.is_empty());
    assert_eq!(slot.take(), Some(String::from(MISSING_HANDLE)));
    pin(&mut slot, None, &Buffer::from_vec(vec![1, 2, 3]), None);
    assert_eq!(slot.take(), Some(String::from(MISSING_HANDLE)));
}

#[test]
fn failure_without_output_buffer_still_fills_the_slot() {
    let mut slot = LastError::new();
    let wasm = load_wasm(&mut slot, None, &some_checksum(), None);
    assert!(wasm.is_empty());
    assert_eq!(slot.take(), Some(String::from(MISSING_HANDLE)));
    assert_eq!(slot.take(), None);
}

#[test]
fn init_with_rejected_arguments_never_opens() {
    let mut slot = LastError::new();
    let mut err = Buffer::default();
    let mut asked = false;
    let handle = init_cache(
        &mut slot,
        ByteSliceView::new(None),
        ByteSliceView::new(Some(b"staking")),
        512,
        32,
        |_options: CacheOptions| -> Result<Engine, cosmwasm_vm::VmError> {
            asked = true;
            Err(engine_error())
        },
        Some(&mut err),
    );
    assert!(handle.is_none());
    assert!(!asked);
    assert_eq!(err.consume(), b"Null/Nil argument: data_dir".to_vec());
    assert_eq!(
        slot.take(),
        Some(String::from("Null/Nil argument: data_dir"))
    );
}

#[test]
fn init_with_features_that_are_no_text_never_opens() {
    let mut slot = LastError::new();
    let mut err = Buffer::default();
    let mut asked = false;
    let bad: &[u8] = &[0x73, 0xFF];
    let handle = init_cache(
        &mut slot,
        ByteSliceView::new(Some(b"/tmp/cache")),
        ByteSliceView::new(Some(bad)),
        512,
        32,
        |_options: CacheOptions| -> Result<Engine, cosmwasm_vm::VmError> {
            asked = true;
            Err(engine_error())
        },
        Some(&mut err),
    );
    assert!(handle.is_none());
    assert!(!asked);
    assert_ne!(err.len(), 0);
    let message = String::from_utf8(err.consume()).unwrap();
    assert!(message.starts_with("Cannot decode UTF8 bytes into string: "));
    assert_eq!(slot.take(), Some(message));
}

#[test]
fn init_hands_the_parsed_options_to_open() {
    let mut slot = LastError::new();
    let mut err = Buffer::default();
    let mut seen: Option<(String, Vec<String>, u64, u64)> = None;
    let features: &[u8] = b"stargate, staking";
    let handle = init_cache(
        &mut slot,
        ByteSliceView::new(Some(b"borken\0dir")),
        ByteSliceView::new(Some(features)),
        512,
        32,
        |options: CacheOptions| -> Result<Engine, cosmwasm_vm::VmError> {
            let mut names: Vec<String> = options.supported_features.into_iter().collect();
            names.sort();
            seen = Some((
                options.base_dir,
                names,
                options.memory_cache_size,
                options.instance_memory_limit,
            ));
            Err(engine_error())
        },
        Some(&mut err),
    );
    assert!(handle.is_none());
    assert_eq!(
        seen,
        Some((
            String::from("borken\0dir"),
            vec![String::from("staking"), String::from("stargate")],
            536_870_912,
            33_554_432
        ))
    );
}

#[test]
fn init_cache_writes_error() {
    // the directory cannot exist: the stand-in for the engine refuses to open it
    let dir: String = String::from("borken\0dir");
    let mut slot = LastError::new();
    let mut err = Buffer::default();
    let features: &[u8] = b"staking";
    let cache_ptr = init_cache(
        &mut slot,
        ByteSliceView::new(Some(dir.as_bytes())),
        ByteSliceView::new(Some(features)),
        512,
        32,
        |options: CacheOptions| -> Result<Engine, cosmwasm_vm::VmError> {
            assert!(options.base_dir.contains('\0'));
            Err(engine_error())
        },
        Some(&mut err),
    );
    assert!(cache_ptr.is_none());
    assert_ne!(err.len(), 0);
    let msg = String::from_utf8(err.consume()).unwrap();
    assert_eq!(
        msg,
        format!("Error calling the VM: {}", engine_error().to_string())
    );
    assert_eq!(slot.take(), Some(msg));
    release_cache(cache_ptr);
}

#[test]
fn settled_analysis_passes_the_report_on() {
    let mut slot = LastError::new();
    set_error(&mut slot, Error::panic(), None);
    let mut err = Buffer::from_vec(vec![3]);
    let found = AnalysisReport {
        has_ibc_entry_points: true,
    };
    let report = handle_c_error_report(&mut slot, Ok(found), Some(&mut err));
    assert_eq!(
        report,
        AnalysisReport {
            has_ibc_entry_points: true
        }
    );
    assert_eq!(err.consume(), vec![3]);
    assert_eq!(slot.take(), None);
    let found = AnalysisReport {
        has_ibc_entry_points: false,
    };
    let report = handle_c_error_report(&mut slot, Ok(found), None);
    assert!(!report.has_ibc_entry_points);
    assert_eq!(slot.take(), None);
}

#[test]
fn settled_failed_analysis_answers_the_default_report() {
    let mut slot = LastError::new();
    let mut err = Buffer::default();
    let report = handle_c_error_report(
        &mut slot,
        Err(Error::from_vm_error(engine_error())),
        Some(&mut err),
    );
    assert_eq!(report, AnalysisReport::default());
    let expected = format!("Error calling the VM: {}", engine_error().to_string());
    assert_eq!(err.consume(), expected.as_bytes().to_vec());
    assert_eq!(slot.take(), Some(expected));
}

#[test]
fn contained_unwind_of_init_answers_no_handle() {
    let mut slot = LastError::new();
    let mut err = Buffer::default();
    let handle = contain_handle(&mut slot, Completion::Unwound, Some(&mut err));
    assert!(handle.is_none());
    assert_eq!(err.consume(), b"Caught panic".to_vec());
    assert_eq!(slot.take(), Some(String::from("Caught panic")));
}

#[test]
fn contained_return_of_init_passes_through() {
    let mut slot = LastError::new();
    set_error(&mut slot, Error::empty_arg("data_dir"), None);
    let handle = contain_handle(&mut slot, Completion::Returned(None), None);
    assert!(handle.is_none());
    assert_eq!(
        slot.take(),
        Some(String::from("Null/Nil argument: data_dir"))
    );
}

#[test]
fn contained_unwind_of_analysis_answers_the_default_report() {
    let mut slot = LastError::new();
    let mut err = Buffer::default();
    let report = contain_report(&mut slot, Completion::Unwound, Some(&mut err));
    assert_eq!(
        report,
        AnalysisReport {
            has_ibc_entry_points: false
        }
    );
    assert_eq!(err.consume(), b"Caught panic".to_vec());
    assert_eq!(slot.take(), Some(String::from("Caught panic")));
}

#[test]
fn contained_return_of_analysis_passes_through() {
    let mut slot = LastError::new();
    let mut err = Buffer::from_vec(vec![1]);
    let found = AnalysisReport {
        has_ibc_entry_points: true,
    };
    let report = contain_report(&mut slot, Completion::Returned(found), Some(&mut err));
    assert!(report.has_ibc_entry_points);
    assert_eq!(err.consume(), vec![1]);
    assert_eq!(slot.take(), None);
}
