//! The tensor resource wrapper.
//!
//! A tensor built over caller-supplied data needs a live memory-info
//! descriptor describing where that data lives; the wrapper otherwise follows
//! the common pattern: validated construction, exclusive ownership of a
//! non-null handle, release exactly once.

use vstd::prelude::*;

use crate::api::OrtApi;
use crate::error::{api_error_for, status_to_result, OrtError};
use crate::memory::MemoryInfo;

verus! {

/// Owner of one foreign tensor handle.
#[derive(Debug)]
pub struct Tensor {
    handle: u64,
}

impl Tensor {
    /// The owned foreign handle; zero models the null pointer and marks a
    /// released wrapper.
    pub closed spec fn spec_handle(&self) -> u64 {
        self.handle
    }

    /// A live wrapper: constructed and not yet released.
    pub open spec fn is_live(&self) -> bool {
        self.spec_handle() != 0
    }

    /// The owned handle, for observation only.
    pub fn raw_handle(&self) -> (r: u64)
        ensures
            r == self.spec_handle(),
    {
        self.handle
    }

    /// Creates a tensor over the given byte buffer with the given shape. The
    /// memory-info descriptor describing the buffer must still be live — a
    /// released descriptor would hand the foreign call a nulled handle. On
    /// failure the error is tagged as a tensor-with-data creation failure and
    /// no wrapper is produced; on success the wrapper takes exclusive
    /// ownership of the freshly minted handle.
    pub fn new_with_data(
        api: &mut OrtApi,
        memory_info: &MemoryInfo,
        data: &Vec<u8>,
        shape: &Vec<usize>,
    ) -> (r: Result<Tensor, OrtError>)
        requires
            memory_info.is_live(),
            old(api).tensor.create_present,
            old(api).can_mint(),
            old(api).tensor.status is Some ==> old(api).get_error_message_present,
        ensures
            final(api).same_dispatch(*old(api)),
            final(api).released == old(api).released,
            old(api).tensor.status is None ==> (r matches Ok(t) && t.is_live() && t.spec_handle()
                == old(api).next_handle && final(api).next_handle == old(api).next_handle + 1),
            old(api).tensor.status matches Some(msg) ==> (r matches Err(
                OrtError::CreateTensorWithData(e),
            ) && api_error_for(msg@, e) && final(api).next_handle == old(api).next_handle),
    {
        let _ = data;
        let _ = shape;
        let mut tensor_ptr: u64 = 0;
        let status = api.create_tensor_with_data_raw(&mut tensor_ptr);
        match status_to_result(api, status) {
            Ok(()) => {},
            Err(e) => {
                return Err(OrtError::CreateTensorWithData(e));
            },
        }
        assert(tensor_ptr != 0);
        Ok(Tensor { handle: tensor_ptr })
    }

    /// Releases the owned handle exactly once — the library's release count
    /// grows by exactly one — and nulls it, so a second release or any
    /// further use is ruled out.
    pub fn release(&mut self, api: &mut OrtApi)
        requires
            old(self).is_live(),
            old(api).tensor.release_present,
            old(api).released < u64::MAX,
        ensures
            final(self).spec_handle() == 0,
            !final(self).is_live(),
            final(api).same_dispatch(*old(api)),
            final(api).next_handle == old(api).next_handle,
            final(api).released == old(api).released + 1,
    {
        assert(self.handle != 0);
        api.release_tensor_raw(self.handle);
        self.handle = 0;
    }
}

} // verus!
