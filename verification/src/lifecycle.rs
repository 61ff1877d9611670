//! Verified statement of the resource-lifecycle guarantees.
//!
//! The functions here are not meant to be run for their effect: their
//! verification is the point.
//!
//! - [`construction_mints_distinct_handles`] states exclusive ownership: the
//!   library mints a fresh handle for every successful construction, so two
//!   live wrappers never own the same handle.
//! - [`memory_info_create_destroy_once`] states the create-then-destroy
//!   guarantee for a memory-info descriptor in general: exactly one release
//!   call reaches the library, and the wrapper's handle ends nulled.
//! - [`construct_destroy_cycles`] states repeatability and ordering: for any
//!   number of repetitions, a cycle that constructs one wrapper of every
//!   resource kind and releases them in the documented order — session-derived
//!   resources before their session — satisfies every wrapper precondition and
//!   performs exactly one release per construction. Since the wrappers'
//!   contracts forbid double release and use after release, and verified
//!   functions cannot panic, the cycles never double-release and never touch a
//!   released handle.

use vstd::prelude::*;
use vstd::string::StringSliceAdditionalSpecFns;

use crate::api::OrtApi;
use crate::environment::Environment;
use crate::memory::{AllocatorType, MemType, MemoryInfo};
use crate::session::{has_nul_byte, Allocator, Session, SessionOptions};
use crate::tensor::Tensor;

verus! {

/// Exclusive ownership of handles: the library mints a fresh handle for each
/// successful construction, so two wrappers built one after the other from
/// the same table own distinct, live handles — no live handle is aliased by
/// two wrappers.
pub fn construction_mints_distinct_handles(
    api: &mut OrtApi,
    allocator: AllocatorType,
    memory_type: MemType,
) -> (r: (MemoryInfo, MemoryInfo))
    requires
        old(api).memory_info.create_present,
        old(api).memory_info.succeeds(),
        0 < old(api).next_handle,
        old(api).next_handle + 1 < u64::MAX,
    ensures
        r.0.is_live(),
        r.1.is_live(),
        r.0.spec_handle() != r.1.spec_handle(),
{
    let first = match MemoryInfo::new(api, allocator, memory_type) {
        Ok(v) => v,
        Err(_) => unreached(),
    };
    let second = match MemoryInfo::new(api, allocator, memory_type) {
        Ok(v) => v,
        Err(_) => unreached(),
    };
    (first, second)
}

/// Creating a memory-info descriptor and destroying it performs exactly one
/// release call and leaves the wrapper's handle nulled — for every table
/// whose memory-info entry is present and succeeds, every allocator and
/// memory kind, and every prior state of the library.
pub fn memory_info_create_destroy_once(
    api: &mut OrtApi,
    allocator: AllocatorType,
    memory_type: MemType,
)
    requires
        old(api).memory_info.fully_present(),
        old(api).memory_info.succeeds(),
        old(api).can_mint(),
        old(api).released < u64::MAX,
    ensures
        final(api).same_dispatch(*old(api)),
        final(api).released == old(api).released + 1,
{
    let mut memory_info = match MemoryInfo::new(api, allocator, memory_type) {
        Ok(v) => v,
        Err(_) => unreached(),
    };
    assert(memory_info.is_live());
    memory_info.release(api);
    assert(memory_info.spec_handle() == 0);
}

/// Constructs one wrapper of every resource kind and releases them in the
/// documented order, `cycles` times in sequence: construction then release is
/// repeatable, no release happens twice, no released handle is used again,
/// the session-derived allocator goes away strictly before its session, and
/// in the end the library has received exactly one release per construction.
#[verifier::loop_isolation(false)]
pub fn construct_destroy_cycles(
    api: &mut OrtApi,
    cycles: u64,
    model_path: &str,
    data: &Vec<u8>,
    shape: &Vec<usize>,
)
    requires
        old(api).fully_working(),
        0 < old(api).next_handle,
        old(api).next_handle as int + 6 * (cycles as int) <= u64::MAX as int,
        old(api).released as int + 6 * (cycles as int) <= u64::MAX as int,
        !has_nul_byte(model_path.spec_bytes()),
    ensures
        final(api).same_dispatch(*old(api)),
        final(api).next_handle as int == old(api).next_handle as int + 6 * (cycles as int),
        final(api).released as int == old(api).released as int + 6 * (cycles as int),
{
    let mut n: u64 = 0;
    while n < cycles
        invariant
            n <= cycles,
            api.same_dispatch(*old(api)),
            api.next_handle as int == old(api).next_handle as int + 6 * (n as int),
            api.released as int == old(api).released as int + 6 * (n as int),
        decreases cycles - n,
    {
        let mut environment = match Environment::new(api) {
            Ok(v) => v,
            Err(_) => unreached(),
        };
        let mut options = match SessionOptions::new(api) {
            Ok(v) => v,
            Err(_) => unreached(),
        };
        let mut session = match Session::new(api, &environment, &options, model_path) {
            Ok(v) => v,
            Err(_) => unreached(),
        };
        let mut memory_info = match MemoryInfo::new(api, AllocatorType::Arena, MemType::Default) {
            Ok(v) => v,
            Err(_) => unreached(),
        };
        let mut allocator = match Allocator::new(api, &mut session, &memory_info) {
            Ok(v) => v,
            Err(_) => unreached(),
        };
        let mut tensor = match Tensor::new_with_data(api, &memory_info, data, shape) {
            Ok(v) => v,
            Err(_) => unreached(),
        };
        tensor.release(api);
        allocator.release(api, &mut session);
        memory_info.release(api);
        session.release(api);
        options.release(api);
        environment.release(api);
        n = n + 1;
    }
}

} // verus!
