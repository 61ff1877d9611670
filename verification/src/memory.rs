//! The memory-info resource wrapper and the configuration enumerations it
//! consumes.
//!
//! A memory-info descriptor is the first instance of the wrapper pattern this
//! crate applies to every foreign resource kind: construction calls the
//! matching foreign constructor under the out-pointer convention, translates
//! the returned status, validates that a successful call wrote a non-null
//! handle, and produces a value that owns that handle exclusively until it is
//! released — exactly once, with the handle nulled afterwards so it can never
//! be used or released again.

use vstd::prelude::*;

use crate::api::OrtApi;
use crate::error::{api_error_for, status_to_result, OrtError};

verus! {

/// Allocator kind consumed when creating a memory-info descriptor, mapped to
/// the foreign library's own integer enumeration at the wrapper boundary.
#[derive(Clone, Copy, Debug, PartialEq, Eq, Structural)]
pub enum AllocatorType {
    /// Device-local allocator.
    Device,
    /// Arena allocator.
    Arena,
}

impl AllocatorType {
    /// The foreign library's integer value for this allocator kind.
    pub open spec fn spec_raw(&self) -> i32 {
        match self {
            AllocatorType::Device => 0,
            AllocatorType::Arena => 1,
        }
    }

    /// Maps this allocator kind to the foreign library's integer value.
    pub fn as_raw(&self) -> (r: i32)
        ensures
            r == self.spec_raw(),
    {
        match self {
            AllocatorType::Device => 0,
            AllocatorType::Arena => 1,
        }
    }
}

/// Memory kind consumed when creating a memory-info descriptor, mapped to
/// the foreign library's own integer enumeration at the wrapper boundary.
#[derive(Clone, Copy, Debug, PartialEq, Eq, Structural)]
pub enum MemType {
    /// Pinned input memory.
    CPUInput,
    /// Pinned output memory.
    CPUOutput,
    /// Default memory.
    Default,
}

impl MemType {
    /// The foreign library's integer value for this memory kind.
    pub open spec fn spec_raw(&self) -> i32 {
        match self {
            MemType::CPUInput => -2i32,
            MemType::CPUOutput => -1i32,
            MemType::Default => 0i32,
        }
    }

    /// Maps this memory kind to the foreign library's integer value.
    pub fn as_raw(&self) -> (r: i32)
        ensures
            r == self.spec_raw(),
    {
        match self {
            MemType::CPUInput => -2,
            MemType::CPUOutput => -1,
            MemType::Default => 0,
        }
    }
}

/// Owner of one foreign memory-info handle. Once constructed it holds a
/// non-null handle until [`MemoryInfo::release`] nulls it; the handle is
/// owned exclusively, so no second wrapper can release it.
#[derive(Debug)]
pub struct MemoryInfo {
    handle: u64,
}

impl MemoryInfo {
    /// The owned foreign handle; zero models the null pointer and marks a
    /// released wrapper.
    pub closed spec fn spec_handle(&self) -> u64 {
        self.handle
    }

    /// A live wrapper: constructed and not yet released.
    pub open spec fn is_live(&self) -> bool {
        self.spec_handle() != 0
    }

    /// The owned handle, for observation only; ownership stays with the
    /// wrapper.
    pub fn raw_handle(&self) -> (r: u64)
        ensures
            r == self.spec_handle(),
    {
        self.handle
    }

    /// Creates a memory-info descriptor for the given allocator and memory
    /// kinds: calls the foreign constructor under the out-pointer convention,
    /// translates the returned status, and on failure returns the translated
    /// error tagged with this operation, producing no wrapper. On success the
    /// out slot is checked non-null — the foreign out-pointer contract — and
    /// the wrapper takes exclusive ownership of the freshly minted handle: no
    /// other live wrapper holds it.
    pub fn new(api: &mut OrtApi, allocator: AllocatorType, memory_type: MemType) -> (r: Result<
        MemoryInfo,
        OrtError,
    >)
        requires
            old(api).memory_info.create_present,
            old(api).can_mint(),
            old(api).memory_info.status is Some ==> old(api).get_error_message_present,
        ensures
            final(api).same_dispatch(*old(api)),
            final(api).released == old(api).released,
            old(api).memory_info.status is None ==> (r matches Ok(m) && m.is_live()
                && m.spec_handle() == old(api).next_handle && final(api).next_handle == old(api).next_handle + 1),
            old(api).memory_info.status matches Some(msg) ==> (r matches Err(
                OrtError::CreateCpuMemoryInfo(e),
            ) && api_error_for(msg@, e) && final(api).next_handle == old(api).next_handle),
    {
        let mut memory_info_ptr: u64 = 0;
        let status = api.create_cpu_memory_info_raw(
            allocator.as_raw(),
            memory_type.as_raw(),
            &mut memory_info_ptr,
        );
        match status_to_result(api, status) {
            Ok(()) => {},
            Err(e) => {
                return Err(OrtError::CreateCpuMemoryInfo(e));
            },
        }
        assert(memory_info_ptr != 0);
        Ok(MemoryInfo { handle: memory_info_ptr })
    }

    /// Releases the owned handle through the table's release function,
    /// exactly once — the library's release count grows by exactly one: the
    /// wrapper must still be live, and afterwards the handle is nulled, so a
    /// second release — or any further use — is ruled out. Release functions
    /// never fail, so nothing propagates from here.
    pub fn release(&mut self, api: &mut OrtApi)
        requires
            old(self).is_live(),
            old(api).memory_info.release_present,
            old(api).released < u64::MAX,
        ensures
            final(self).spec_handle() == 0,
            !final(self).is_live(),
            final(api).same_dispatch(*old(api)),
            final(api).next_handle == old(api).next_handle,
            final(api).released == old(api).released + 1,
    {
        assert(self.handle != 0);
        api.release_memory_info_raw(self.handle);
        self.handle = 0;
    }
}

} // verus!
