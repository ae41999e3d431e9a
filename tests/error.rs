use astcenc_rs::error::error_code_to_result;
use astcenc_rs::Error;

#[test]
fn success_code_maps_to_ok() {
    assert_eq!(error_code_to_result(0), Ok(()));
}

#[test]
fn every_known_code_maps_to_its_error() {
    let expected = [
        (1, Error::OutOfMem),
        (2, Error::BadCpuFloat),
        (3, Error::BadParam),
        (4, Error::BadBlockSize),
        (5, Error::BadProfile),
        (6, Error::BadQuality),
        (7, Error::BadSwizzle),
        (8, Error::BadFlags),
        (9, Error::BadContext),
        (10, Error::NotImplemented),
        (11, Error::BadDecodeMode),
    ];
    for (code, e) in expected {
        assert_eq!(error_code_to_result(code), Err(e));
    }
}

#[test]
fn known_failure_codes_map_to_distinct_errors() {
    let mut seen: Vec<Error> = Vec::new();
    for code in 1u32..=11 {
        let e = error_code_to_result(code).unwrap_err();
        assert!(!seen.contains(&e));
        assert_ne!(e, Error::Unknown);
        seen.push(e);
    }
}

#[test]
fn unrecognized_codes_map_to_unknown() {
    for code in [12u32, 13, 100, u32::MAX] {
        assert_eq!(error_code_to_result(code), Err(Error::Unknown));
    }
}
