use onnxruntime::error::{
    NonMatchingDimensionsError, OrtApiError, OrtDownloadError, OrtError,
};
use onnxruntime::render::{dec_u64, render_dims};
use onnxruntime::session::validate_input_shapes;

#[test]
fn dimension_mismatch_reports_counts_and_shapes_verbatim() {
    let inference: Vec<Vec<usize>> = vec![vec![1, 3, 224, 224], vec![1, 3, 224, 224]];
    let model: Vec<Vec<Option<u32>>> = vec![vec![None, Some(3), Some(224), Some(224)]];
    let r = validate_input_shapes(&inference, &model);
    match r {
        Err(OrtError::NonMatchingDimensions(NonMatchingDimensionsError::InputsCount {
            inference_input_count,
            model_input_count,
            inference_input,
            model_input,
        })) => {
            assert_eq!(inference_input_count, 2);
            assert_eq!(model_input_count, 1);
            assert_eq!(inference_input, inference);
            assert_eq!(model_input, model);
        }
        other => panic!("expected a dimension mismatch, got {:?}", other),
    }
}

#[test]
fn matching_shapes_validate() {
    let inference: Vec<Vec<usize>> = vec![vec![1, 3, 224, 224]];
    let model: Vec<Vec<Option<u32>>> = vec![vec![None, Some(3), Some(224), Some(224)]];
    assert_eq!(validate_input_shapes(&inference, &model), Ok(()));
}

#[test]
fn fixed_dimension_mismatch_is_rejected() {
    let inference: Vec<Vec<usize>> = vec![vec![1, 4]];
    let model: Vec<Vec<Option<u32>>> = vec![vec![None, Some(3)]];
    assert!(validate_input_shapes(&inference, &model).is_err());
}

#[test]
fn dimension_count_mismatch_is_rejected() {
    let inference: Vec<Vec<usize>> = vec![vec![1, 3, 224]];
    let model: Vec<Vec<Option<u32>>> = vec![vec![None, Some(3), Some(224), Some(224)]];
    assert!(validate_input_shapes(&inference, &model).is_err());
}

#[test]
fn empty_inputs_validate() {
    let inference: Vec<Vec<usize>> = vec![];
    let model: Vec<Vec<Option<u32>>> = vec![];
    assert_eq!(validate_input_shapes(&inference, &model), Ok(()));
}

#[test]
fn api_error_messages_render_exactly() {
    let msg = OrtApiError::Msg("boom".to_string());
    assert_eq!(msg.message(), "Error calling ONNX Runtime C function: boom");
    let undecodable = OrtApiError::IntoStringError(vec![0xff]);
    assert_eq!(
        undecodable.message(),
        "Error calling ONNX Runtime C function and failed to convert error message to UTF-8"
    );
}

#[test]
fn operation_tagged_messages_render_exactly() {
    let e = OrtError::Environment(OrtApiError::Msg("boom".to_string()));
    assert_eq!(
        e.message(),
        "Failed to create environment: Error calling ONNX Runtime C function: boom"
    );
    let e = OrtError::Run(OrtApiError::Msg("halt".to_string()));
    assert_eq!(e.message(), "Failed to run: Error calling ONNX Runtime C function: halt");
    let e = OrtError::StringConversion(OrtApiError::Msg("ignored".to_string()));
    assert_eq!(e.message(), "Failed to construct String");
}

#[test]
fn memory_info_tag_differs_from_the_dimensions_tag() {
    let inner = OrtApiError::Msg("m".to_string());
    let create = OrtError::CreateCpuMemoryInfo(inner);
    let dims = OrtError::GetDimensions(OrtApiError::Msg("m".to_string()));
    assert_eq!(
        create.message(),
        "Failed to create CPU memory info: Error calling ONNX Runtime C function: m"
    );
    assert_eq!(
        dims.message(),
        "Failed to get dimensions: Error calling ONNX Runtime C function: m"
    );
    assert_ne!(create.message(), dims.message());
}

#[test]
fn download_error_messages_render_exactly() {
    let e = OrtDownloadError::IoError("oops".to_string());
    assert_eq!(e.message(), "Error downloading data to file: oops");
    assert_eq!(
        OrtDownloadError::ContentLengthError.message(),
        "Error getting content-length"
    );
    let e = OrtDownloadError::CopyError { expected: 10, io: 3 };
    assert_eq!(e.message(), "Error copying data to file: expected 10 length, received 3");
    let wrapped = OrtError::DownloadError(OrtDownloadError::IoError("oops".to_string()));
    assert_eq!(
        wrapped.message(),
        "Failed to download ONNX model: Error downloading data to file: oops"
    );
}

#[test]
fn domain_error_messages_render_exactly() {
    let e = OrtError::FileDoesNotExists { filename: "model.onnx".to_string() };
    assert_eq!(e.message(), "File \"model.onnx\" does not exists");
    let e = OrtError::NonUtf8Path { path: vec![255, 0] };
    assert_eq!(e.message(), "Path [255, 0] cannot be converted to UTF-8");
    let e = OrtError::CStringNulError { position: 4 };
    assert_eq!(
        e.message(),
        "Failed to build CString when original contains null: nul byte found in provided data at position: 4"
    );
    let e = OrtError::DynamicLibraryLoadingError {
        path: "lib.so".to_string(),
        err: "bad".to_string(),
    };
    assert_eq!(
        e.message(),
        "Failed to load a dynamic library of ONNX runtime '\"lib.so\"' err: \"bad\""
    );
}

#[test]
fn dimension_mismatch_message_renders_both_shape_lists() {
    let e = OrtError::NonMatchingDimensions(NonMatchingDimensionsError::InputsCount {
        inference_input_count: 2,
        model_input_count: 1,
        inference_input: vec![vec![1, 3, 224, 224], vec![1, 3, 224, 224]],
        model_input: vec![vec![None, Some(3), Some(224), Some(224)]],
    });
    assert_eq!(
        e.message(),
        "Dimensions do not match: Non-matching number of inputs: 2 for input vs 1 for model \
         (inputs: [[1, 3, 224, 224], [1, 3, 224, 224]], model: [[None, Some(3), Some(224), Some(224)]])"
    );
}

#[test]
fn message_rendering_is_deterministic() {
    let e = OrtError::Session(OrtApiError::Msg("x".to_string()));
    assert_eq!(e.message(), e.message());
    let e = OrtError::NonUtf8Path { path: vec![1, 2, 3] };
    assert_eq!(e.message(), e.message());
}

#[test]
fn numerals_and_shape_lists_render_exactly() {
    assert_eq!(dec_u64(0), "0");
    assert_eq!(dec_u64(7), "7");
    assert_eq!(dec_u64(1234567890), "1234567890");
    assert_eq!(dec_u64(u64::MAX), "18446744073709551615");
    assert_eq!(render_dims(&vec![]), "[]");
    assert_eq!(render_dims(&vec![5]), "[5]");
    assert_eq!(render_dims(&vec![1, 3, 224, 224]), "[1, 3, 224, 224]");
}
