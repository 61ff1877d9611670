use onnxruntime::api::{ApiEntry, OrtApi};
use onnxruntime::environment::Environment;
use onnxruntime::error::{OrtApiError, OrtError};
use onnxruntime::lifecycle::{
    construct_destroy_cycles, construction_mints_distinct_handles, memory_info_create_destroy_once,
};
use onnxruntime::memory::{AllocatorType, MemType, MemoryInfo};
use onnxruntime::session::{Allocator, Session, SessionOptions};
use onnxruntime::tensor::Tensor;

#[test]
fn memory_info_constructor_destructor() {
    let mut api = OrtApi::complete();
    let memory_info = MemoryInfo::new(&mut api, AllocatorType::Arena, MemType::Default).unwrap();
    let mut memory_info = memory_info;
    memory_info.release(&mut api);
}

#[test]
fn memory_info_construction_yields_non_null_handle_and_release_nulls_it() {
    let mut api = OrtApi::complete();
    let mut memory_info =
        MemoryInfo::new(&mut api, AllocatorType::Arena, MemType::Default).unwrap();
    assert_ne!(memory_info.raw_handle(), 0);
    assert_eq!(memory_info.raw_handle(), 1);
    assert_eq!(api.released, 0);
    memory_info.release(&mut api);
    assert_eq!(memory_info.raw_handle(), 0);
    assert_eq!(api.released, 1);
}

#[test]
fn construction_mints_a_fresh_handle_every_time() {
    let mut api = OrtApi::complete();
    let first = MemoryInfo::new(&mut api, AllocatorType::Arena, MemType::Default).unwrap();
    let second = MemoryInfo::new(&mut api, AllocatorType::Arena, MemType::Default).unwrap();
    let third = Environment::new(&mut api).unwrap();
    assert_eq!(first.raw_handle(), 1);
    assert_eq!(second.raw_handle(), 2);
    assert_eq!(third.raw_handle(), 3);
    let (a, b) = construction_mints_distinct_handles(
        &mut api,
        AllocatorType::Device,
        MemType::CPUOutput,
    );
    assert_ne!(a.raw_handle(), b.raw_handle());
}

#[test]
fn construct_destroy_is_repeatable_for_every_kind() {
    let mut api = OrtApi::complete();
    for cycle in 0..100u64 {
        let mut environment = Environment::new(&mut api).unwrap();
        let mut options = SessionOptions::new(&mut api).unwrap();
        let mut session = Session::new(&mut api, &environment, &options, "model.onnx").unwrap();
        let mut memory_info =
            MemoryInfo::new(&mut api, AllocatorType::Arena, MemType::Default).unwrap();
        let mut allocator = Allocator::new(&mut api, &mut session, &memory_info).unwrap();
        let mut tensor =
            Tensor::new_with_data(&mut api, &memory_info, &vec![0u8; 8], &vec![2, 4]).unwrap();
        tensor.release(&mut api);
        allocator.release(&mut api, &mut session);
        memory_info.release(&mut api);
        session.release(&mut api);
        options.release(&mut api);
        environment.release(&mut api);
        assert_eq!(environment.raw_handle(), 0);
        assert_eq!(options.raw_handle(), 0);
        assert_eq!(session.raw_handle(), 0);
        assert_eq!(memory_info.raw_handle(), 0);
        assert_eq!(allocator.raw_handle(), 0);
        assert_eq!(tensor.raw_handle(), 0);
        assert_eq!(api.released, 6 * (cycle + 1));
    }
}

#[test]
fn verified_lifecycle_cycles_release_once_per_construction() {
    let mut api = OrtApi::complete();
    construct_destroy_cycles(&mut api, 10, "model.onnx", &vec![1u8, 2, 3, 4], &vec![4]);
    assert_eq!(api.released, 60);
    assert_eq!(api.next_handle, 61);
    memory_info_create_destroy_once(&mut api, AllocatorType::Arena, MemType::Default);
    assert_eq!(api.released, 61);
}

#[test]
fn documented_release_order_keeps_session_child_count_consistent() {
    let mut api = OrtApi::complete();
    let environment = Environment::new(&mut api).unwrap();
    let options = SessionOptions::new(&mut api).unwrap();
    let mut session = Session::new(&mut api, &environment, &options, "model.onnx").unwrap();
    assert_eq!(session.children(), 0);
    let memory_info = MemoryInfo::new(&mut api, AllocatorType::Arena, MemType::Default).unwrap();
    let mut allocator = Allocator::new(&mut api, &mut session, &memory_info).unwrap();
    assert_eq!(session.children(), 1);
    assert_ne!(allocator.raw_handle(), 0);
    allocator.release(&mut api, &mut session);
    assert_eq!(session.children(), 0);
    assert_eq!(allocator.raw_handle(), 0);
    assert_ne!(session.raw_handle(), 0);
    session.release(&mut api);
    assert_eq!(session.raw_handle(), 0);
}

#[test]
fn environment_creation_failure_reports_the_message_and_builds_no_wrapper() {
    let mut api = OrtApi::complete();
    api.environment = ApiEntry::failing(b"init failed".to_vec());
    let r = Environment::new(&mut api);
    assert_eq!(
        r.unwrap_err(),
        OrtError::Environment(OrtApiError::Msg("init failed".to_string()))
    );
    assert_eq!(api.next_handle, 1);
}

#[test]
fn each_constructor_failure_is_tagged_with_its_operation() {
    let mut api = OrtApi::complete();
    api.session_options = ApiEntry::failing(b"no options".to_vec());
    api.memory_info = ApiEntry::failing(b"no memory info".to_vec());
    assert_eq!(
        SessionOptions::new(&mut api).unwrap_err(),
        OrtError::SessionOptions(OrtApiError::Msg("no options".to_string()))
    );
    assert_eq!(
        MemoryInfo::new(&mut api, AllocatorType::Device, MemType::Default).unwrap_err(),
        OrtError::CreateCpuMemoryInfo(OrtApiError::Msg("no memory info".to_string()))
    );
}

#[test]
fn session_creation_failure_is_tagged_and_allocator_failure_leaves_session_unchanged() {
    let mut ok_api = OrtApi::complete();
    let environment = Environment::new(&mut ok_api).unwrap();
    let options = SessionOptions::new(&mut ok_api).unwrap();

    let mut failing_api = OrtApi::complete();
    failing_api.session = ApiEntry::failing(b"no model".to_vec());
    assert_eq!(
        Session::new(&mut failing_api, &environment, &options, "model.onnx").unwrap_err(),
        OrtError::Session(OrtApiError::Msg("no model".to_string()))
    );

    let mut session = Session::new(&mut ok_api, &environment, &options, "model.onnx").unwrap();
    let memory_info =
        MemoryInfo::new(&mut ok_api, AllocatorType::Arena, MemType::Default).unwrap();
    let mut failing_alloc_api = OrtApi::complete();
    failing_alloc_api.allocator = ApiEntry::failing(b"no allocator".to_vec());
    assert_eq!(
        Allocator::new(&mut failing_alloc_api, &mut session, &memory_info).unwrap_err(),
        OrtError::Allocator(OrtApiError::Msg("no allocator".to_string()))
    );
    assert_eq!(session.children(), 0);
}

#[test]
fn tensor_creation_failure_is_tagged() {
    let mut ok_api = OrtApi::complete();
    let memory_info =
        MemoryInfo::new(&mut ok_api, AllocatorType::Arena, MemType::Default).unwrap();
    let mut api = OrtApi::complete();
    api.tensor = ApiEntry::failing(b"no tensor".to_vec());
    assert_eq!(
        Tensor::new_with_data(&mut api, &memory_info, &vec![0u8], &vec![1]).unwrap_err(),
        OrtError::CreateTensorWithData(OrtApiError::Msg("no tensor".to_string()))
    );
}

#[test]
fn model_path_with_embedded_nul_is_rejected_with_its_position() {
    let mut api = OrtApi::complete();
    let environment = Environment::new(&mut api).unwrap();
    let options = SessionOptions::new(&mut api).unwrap();
    let r = Session::new(&mut api, &environment, &options, "bad\0path");
    assert_eq!(r.unwrap_err(), OrtError::CStringNulError { position: 3 });
}

#[test]
fn configuration_enums_map_to_the_foreign_values() {
    assert_eq!(AllocatorType::Device.as_raw(), 0);
    assert_eq!(AllocatorType::Arena.as_raw(), 1);
    assert_eq!(MemType::CPUInput.as_raw(), -2);
    assert_eq!(MemType::CPUOutput.as_raw(), -1);
    assert_eq!(MemType::Default.as_raw(), 0);
}
