//! The environment resource wrapper.
//!
//! An environment is the process-wide root resource of the foreign library.
//! Its wrapper follows the same pattern as every other resource kind:
//! construction validates the foreign call and takes exclusive ownership of a
//! non-null handle; release happens exactly once and nulls the handle.

use vstd::prelude::*;

use crate::api::OrtApi;
use crate::error::{api_error_for, status_to_result, OrtError};

verus! {

/// Owner of one foreign environment handle.
#[derive(Debug)]
pub struct Environment {
    handle: u64,
}

impl Environment {
    /// The owned foreign handle; zero models the null pointer and marks a
    /// released wrapper.
    pub closed spec fn spec_handle(&self) -> u64 {
        self.handle
    }

    /// A live wrapper: constructed and not yet released.
    pub open spec fn is_live(&self) -> bool {
        self.spec_handle() != 0
    }

    /// The owned handle, for observation only.
    pub fn raw_handle(&self) -> (r: u64)
        ensures
            r == self.spec_handle(),
    {
        self.handle
    }

    /// Creates an environment: calls the foreign constructor under the
    /// out-pointer convention and translates the returned status. On failure
    /// the error is tagged as an environment-creation failure and no wrapper
    /// is produced; on success the out slot is checked non-null and the
    /// wrapper takes exclusive ownership of the freshly minted handle.
    pub fn new(api: &mut OrtApi) -> (r: Result<Environment, OrtError>)
        requires
            old(api).environment.create_present,
            old(api).can_mint(),
            old(api).environment.status is Some ==> old(api).get_error_message_present,
        ensures
            final(api).same_dispatch(*old(api)),
            final(api).released == old(api).released,
            old(api).environment.status is None ==> (r matches Ok(env) && env.is_live()
                && env.spec_handle() == old(api).next_handle && final(api).next_handle == old(api).next_handle + 1),
            old(api).environment.status matches Some(msg) ==> (r matches Err(
                OrtError::Environment(e),
            ) && api_error_for(msg@, e) && final(api).next_handle == old(api).next_handle),
    {
        let mut env_ptr: u64 = 0;
        let status = api.create_env_raw(&mut env_ptr);
        match status_to_result(api, status) {
            Ok(()) => {},
            Err(e) => {
                return Err(OrtError::Environment(e));
            },
        }
        assert(env_ptr != 0);
        Ok(Environment { handle: env_ptr })
    }

    /// Releases the owned handle exactly once — the library's release count
    /// grows by exactly one — and nulls it, so a second release or any
    /// further use is ruled out.
    pub fn release(&mut self, api: &mut OrtApi)
        requires
            old(self).is_live(),
            old(api).environment.release_present,
            old(api).released < u64::MAX,
        ensures
            final(self).spec_handle() == 0,
            !final(self).is_live(),
            final(api).same_dispatch(*old(api)),
            final(api).next_handle == old(api).next_handle,
            final(api).released == old(api).released + 1,
    {
        assert(self.handle != 0);
        api.release_env_raw(self.handle);
        self.handle = 0;
    }
}

} // verus!
