use onnxruntime::api::{OrtApi, OrtStatusPtr};
use onnxruntime::error::{call_ort, status_to_result, OrtApiError, OrtStatusWrapper};

#[test]
fn null_status_is_success() {
    let api = OrtApi::complete();
    let r = status_to_result(&api, OrtStatusPtr::Null);
    assert_eq!(r, Ok(()));
}

#[test]
fn failure_status_with_valid_text_carries_it_exactly() {
    let api = OrtApi::complete();
    let r = status_to_result(&api, OrtStatusPtr::Failure(b"boom".to_vec()));
    assert_eq!(r, Err(OrtApiError::Msg("boom".to_string())));
}

#[test]
fn failure_status_with_invalid_encoding_keeps_raw_bytes() {
    let api = OrtApi::complete();
    let raw = vec![0xffu8, 0xfe, 0x00, 0x80];
    let r = status_to_result(&api, OrtStatusPtr::Failure(raw.clone()));
    assert_eq!(r, Err(OrtApiError::IntoStringError(raw)));
}

#[test]
fn status_wrapper_translates_like_status_to_result() {
    let api = OrtApi::complete();
    let wrapper = OrtStatusWrapper::new(&api, OrtStatusPtr::Failure(b"boom".to_vec()));
    assert_eq!(wrapper.into_result(), Err(OrtApiError::Msg("boom".to_string())));
    let wrapper = OrtStatusWrapper::new(&api, OrtStatusPtr::Null);
    assert_eq!(wrapper.into_result(), Ok(()));
}

#[test]
fn call_ort_translates_the_closure_status() {
    let api = OrtApi::complete();
    let ok = call_ort(&api, |_a: &OrtApi| OrtStatusPtr::Null);
    assert_eq!(ok, Ok(()));
    let err = call_ort(&api, |_a: &OrtApi| OrtStatusPtr::Failure(b"bad call".to_vec()));
    assert_eq!(err, Err(OrtApiError::Msg("bad call".to_string())));
}

#[test]
fn translation_is_deterministic_for_the_same_bytes() {
    let api = OrtApi::complete();
    let a = status_to_result(&api, OrtStatusPtr::Failure(b"same".to_vec()));
    let b = status_to_result(&api, OrtStatusPtr::Failure(b"same".to_vec()));
    assert_eq!(a, b);
}
