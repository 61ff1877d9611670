//! Session options, sessions, and session-derived allocators.
//!
//! A session is created from a live environment and live session options. A
//! session-derived resource (here: an allocator) must be released before its
//! parent session; the session counts its live children and refuses to be
//! released while any remain, so following the documented order is enforced
//! rather than left to incidental destruction order.
//!
//! The module also holds the pure input validation a run invocation performs:
//! the shapes handed to an inference call must match the shapes the model
//! declares, and a path handed to the foreign library must not contain an
//! embedded nul byte.

use vstd::prelude::*;
use vstd::string::StringSliceAdditionalSpecFns;

use crate::api::OrtApi;
use crate::environment::Environment;
use crate::error::{api_error_for, status_to_result, NonMatchingDimensionsError, OrtError};
use crate::memory::MemoryInfo;

verus! {

/// The byte sequence contains a nul byte, which the foreign C convention
/// cannot transmit inside a string.
pub open spec fn has_nul_byte(bytes: Seq<u8>) -> bool {
    exists|i: int| 0 <= i < bytes.len() && bytes[i] == 0
}

/// `pos` is the position of the first nul byte of the sequence.
pub open spec fn is_first_nul(bytes: Seq<u8>, pos: int) -> bool {
    &&& 0 <= pos < bytes.len()
    &&& bytes[pos] == 0
    &&& forall|j: int| 0 <= j < pos ==> bytes[j] != 0
}

/// Finds the first embedded nul byte of a string, if any.
fn find_nul_byte(s: &str) -> (r: Option<usize>)
    ensures
        r matches Some(p) ==> is_first_nul(s.spec_bytes(), p as int),
        r is None ==> !has_nul_byte(s.spec_bytes()),
{
    let bytes: &[u8] = s.as_bytes();
    let n = bytes.len();
    let mut i: usize = 0;
    while i < n
        invariant
            i <= n,
            n == bytes@.len(),
            bytes@ == s.spec_bytes(),
            forall|j: int| 0 <= j < i ==> bytes@[j] != 0,
        decreases n - i,
    {
        if bytes[i] == 0 {
            return Some(i);
        }
        i = i + 1;
    }
    None
}

/// One inference-call shape is compatible with one model-declared shape:
/// same number of dimensions, and every fixed model dimension is matched
/// exactly (a `None` model dimension is dynamic and accepts any extent).
pub open spec fn dims_compatible(inference: Seq<usize>, model: Seq<Option<u32>>) -> bool {
    &&& inference.len() == model.len()
    &&& forall|i: int|
        0 <= i < model.len() ==> (#[trigger] model[i] matches Some(d) ==> inference[i]
            == d as usize)
}

/// The inference-call inputs are compatible with the model-declared inputs:
/// same count, and each shape compatible with its counterpart.
pub open spec fn inputs_compatible(
    inference: Seq<Seq<usize>>,
    model: Seq<Seq<Option<u32>>>,
) -> bool {
    &&& inference.len() == model.len()
    &&& forall|i: int| 0 <= i < model.len() ==> dims_compatible(#[trigger] inference[i], model[i])
}

/// Decides [`dims_compatible`] for one shape pair.
fn dims_match(inference: &Vec<usize>, model: &Vec<Option<u32>>) -> (r: bool)
    ensures
        r == dims_compatible(inference@, model@),
{
    if inference.len() != model.len() {
        return false;
    }
    let mut i: usize = 0;
    while i < model.len()
        invariant
            i <= model@.len(),
            inference@.len() == model@.len(),
            forall|j: int|
                0 <= j < i ==> (#[trigger] model@[j] matches Some(d) ==> inference@[j]
                    == d as usize),
        decreases model@.len() - i,
    {
        match model[i] {
            Option::Some(d) => {
                if inference[i] != d as usize {
                    return false;
                }
            },
            Option::None => {},
        }
        i = i + 1;
    }
    true
}

/// Copies one shape.
fn copy_dims(v: &Vec<usize>) -> (r: Vec<usize>)
    ensures
        r@ == v@,
{
    let mut r: Vec<usize> = Vec::new();
    let mut i: usize = 0;
    while i < v.len()
        invariant
            i <= v@.len(),
            r@ == v@.take(i as int),
        decreases v@.len() - i,
    {
        r.push(v[i]);
        proof {
            assert(r@ =~= v@.take(i + 1 as int));
        }
        i = i + 1;
    }
    proof {
        assert(v@.take(v@.len() as int) =~= v@);
    }
    r
}

/// Copies one model shape.
fn copy_model_dims(v: &Vec<Option<u32>>) -> (r: Vec<Option<u32>>)
    ensures
        r@ == v@,
{
    let mut r: Vec<Option<u32>> = Vec::new();
    let mut i: usize = 0;
    while i < v.len()
        invariant
            i <= v@.len(),
            r@ == v@.take(i as int),
        decreases v@.len() - i,
    {
        r.push(v[i]);
        proof {
            assert(r@ =~= v@.take(i + 1 as int));
        }
        i = i + 1;
    }
    proof {
        assert(v@.take(v@.len() as int) =~= v@);
    }
    r
}

/// Copies an inference-input shape list.
fn copy_shapes(v: &Vec<Vec<usize>>) -> (r: Vec<Vec<usize>>)
    ensures
        r.deep_view() == v.deep_view(),
{
    let mut r: Vec<Vec<usize>> = Vec::new();
    let mut i: usize = 0;
    while i < v.len()
        invariant
            i <= v@.len(),
            r@.len() == i,
            forall|j: int| 0 <= j < i ==> #[trigger] r@[j]@ == v@[j]@,
        decreases v@.len() - i,
    {
        r.push(copy_dims(&v[i]));
        i = i + 1;
    }
    proof {
        assert(r.deep_view() =~= v.deep_view());
    }
    r
}

/// Copies a model-input shape list.
fn copy_model_shapes(v: &Vec<Vec<Option<u32>>>) -> (r: Vec<Vec<Option<u32>>>)
    ensures
        r.deep_view() == v.deep_view(),
{
    let mut r: Vec<Vec<Option<u32>>> = Vec::new();
    let mut i: usize = 0;
    while i < v.len()
        invariant
            i <= v@.len(),
            r@.len() == i,
            forall|j: int| 0 <= j < i ==> #[trigger] r@[j]@ == v@[j]@,
        decreases v@.len() - i,
    {
        r.push(copy_model_dims(&v[i]));
        i = i + 1;
    }
    proof {
        assert(r.deep_view() =~= v.deep_view());
    }
    r
}

/// Decides [`inputs_compatible`] for the two shape lists.
fn inputs_match(inference_input: &Vec<Vec<usize>>, model_input: &Vec<Vec<Option<u32>>>) -> (r:
    bool)
    ensures
        r == inputs_compatible(inference_input.deep_view(), model_input.deep_view()),
{
    proof {
        assert(inference_input.deep_view().len() == inference_input@.len());
        assert(model_input.deep_view().len() == model_input@.len());
    }
    if inference_input.len() != model_input.len() {
        return false;
    }
    let mut i: usize = 0;
    while i < model_input.len()
        invariant
            i <= model_input@.len(),
            inference_input@.len() == model_input@.len(),
            forall|j: int|
                0 <= j < i ==> dims_compatible(
                    #[trigger] inference_input.deep_view()[j],
                    model_input.deep_view()[j],
                ),
        decreases model_input@.len() - i,
    {
        proof {
            assert(inference_input.deep_view()[i as int] =~= inference_input@[i as int]@);
            assert(model_input.deep_view()[i as int] =~= model_input@[i as int]@);
        }
        if !dims_match(&inference_input[i], &model_input[i]) {
            return false;
        }
        i = i + 1;
    }
    true
}

/// Validates the inputs handed to an inference call against the inputs the
/// model declares. Success exactly when they are compatible; otherwise the
/// dimension-mismatch error carrying both counts and both full shape lists
/// verbatim.
pub fn validate_input_shapes(
    inference_input: &Vec<Vec<usize>>,
    model_input: &Vec<Vec<Option<u32>>>,
) -> (r: Result<(), OrtError>)
    ensures
        r is Ok <==> inputs_compatible(inference_input.deep_view(), model_input.deep_view()),
        r matches Err(e) ==> (e matches OrtError::NonMatchingDimensions(
            NonMatchingDimensionsError::InputsCount {
                inference_input_count: icount,
                model_input_count: mcount,
                inference_input: ii,
                model_input: mi,
            },
        ) && icount == inference_input@.len() && mcount == model_input@.len() && ii.deep_view()
            == inference_input.deep_view() && mi.deep_view() == model_input.deep_view()),
{
    if inputs_match(inference_input, model_input) {
        return Ok(());
    }
    Err(
        OrtError::NonMatchingDimensions(
            NonMatchingDimensionsError::InputsCount {
                inference_input_count: inference_input.len(),
                model_input_count: model_input.len(),
                inference_input: copy_shapes(inference_input),
                model_input: copy_model_shapes(model_input),
            },
        ),
    )
}

/// Owner of one foreign session-options handle.
#[derive(Debug)]
pub struct SessionOptions {
    handle: u64,
}

impl SessionOptions {
    /// The owned foreign handle; zero models the null pointer and marks a
    /// released wrapper.
    pub closed spec fn spec_handle(&self) -> u64 {
        self.handle
    }

    /// A live wrapper: constructed and not yet released.
    pub open spec fn is_live(&self) -> bool {
        self.spec_handle() != 0
    }

    /// The owned handle, for observation only.
    pub fn raw_handle(&self) -> (r: u64)
        ensures
            r == self.spec_handle(),
    {
        self.handle
    }

    /// Creates session options: calls the foreign constructor under the
    /// out-pointer convention and translates the returned status. On failure
    /// the error is tagged as a session-options creation failure and no
    /// wrapper is produced; on success the wrapper takes exclusive ownership
    /// of the freshly minted handle.
    pub fn new(api: &mut OrtApi) -> (r: Result<SessionOptions, OrtError>)
        requires
            old(api).session_options.create_present,
            old(api).can_mint(),
            old(api).session_options.status is Some ==> old(api).get_error_message_present,
        ensures
            final(api).same_dispatch(*old(api)),
            final(api).released == old(api).released,
            old(api).session_options.status is None ==> (r matches Ok(o) && o.is_live()
                && o.spec_handle() == old(api).next_handle && final(api).next_handle == old(api).next_handle + 1),
            old(api).session_options.status matches Some(msg) ==> (r matches Err(
                OrtError::SessionOptions(e),
            ) && api_error_for(msg@, e) && final(api).next_handle == old(api).next_handle),
    {
        let mut options_ptr: u64 = 0;
        let status = api.create_session_options_raw(&mut options_ptr);
        match status_to_result(api, status) {
            Ok(()) => {},
            Err(e) => {
                return Err(OrtError::SessionOptions(e));
            },
        }
        assert(options_ptr != 0);
        Ok(SessionOptions { handle: options_ptr })
    }

    /// Releases the owned handle exactly once — the library's release count
    /// grows by exactly one — and nulls it.
    pub fn release(&mut self, api: &mut OrtApi)
        requires
            old(self).is_live(),
            old(api).session_options.release_present,
            old(api).released < u64::MAX,
        ensures
            final(self).spec_handle() == 0,
            !final(self).is_live(),
            final(api).same_dispatch(*old(api)),
            final(api).next_handle == old(api).next_handle,
            final(api).released == old(api).released + 1,
    {
        assert(self.handle != 0);
        api.release_session_options_raw(self.handle);
        self.handle = 0;
    }
}

/// Owner of one foreign session handle. The session counts its live derived
/// resources and cannot be released while any remain, which enforces the
/// documented release order.
#[derive(Debug)]
pub struct Session {
    handle: u64,
    live_children: u64,
}

impl Session {
    /// The owned foreign handle; zero models the null pointer and marks a
    /// released wrapper.
    pub closed spec fn spec_handle(&self) -> u64 {
        self.handle
    }

    /// Number of live resources derived from this session.
    pub closed spec fn spec_children(&self) -> u64 {
        self.live_children
    }

    /// A live wrapper: constructed and not yet released.
    pub open spec fn is_live(&self) -> bool {
        self.spec_handle() != 0
    }

    /// The owned handle, for observation only.
    pub fn raw_handle(&self) -> (r: u64)
        ensures
            r == self.spec_handle(),
    {
        self.handle
    }

    /// Number of live resources derived from this session, for observation.
    pub fn children(&self) -> (r: u64)
        ensures
            r == self.spec_children(),
    {
        self.live_children
    }

    /// Creates a session over the model file at the given path, from a live
    /// environment and live session options. A path with an embedded nul
    /// byte cannot be handed to the foreign call and is rejected up front
    /// with the position of the first nul byte; otherwise the foreign
    /// constructor is called and its status translated, tagged as a
    /// session-creation failure. On success the wrapper takes exclusive
    /// ownership of the freshly minted handle.
    pub fn new(
        api: &mut OrtApi,
        environment: &Environment,
        options: &SessionOptions,
        model_path: &str,
    ) -> (r: Result<Session, OrtError>)
        requires
            environment.is_live(),
            options.is_live(),
            old(api).session.create_present,
            old(api).can_mint(),
            old(api).session.status is Some ==> old(api).get_error_message_present,
        ensures
            final(api).same_dispatch(*old(api)),
            final(api).released == old(api).released,
            has_nul_byte(model_path.spec_bytes()) ==> (r matches Err(
                OrtError::CStringNulError { position },
            ) && is_first_nul(model_path.spec_bytes(), position as int) && final(api).next_handle
                == old(api).next_handle),
            !has_nul_byte(model_path.spec_bytes()) && old(api).session.status is None ==> (
            r matches Ok(s) && s.is_live() && s.spec_handle() == old(api).next_handle
                && s.spec_children() == 0 && final(api).next_handle == old(api).next_handle + 1),
            old(api).session.status matches Some(msg) ==> (!has_nul_byte(model_path.spec_bytes())
                ==> (r matches Err(OrtError::Session(e)) && api_error_for(msg@, e) && final(api).next_handle == old(api).next_handle)),
    {
        match find_nul_byte(model_path) {
            Option::Some(position) => {
                return Err(OrtError::CStringNulError { position });
            },
            Option::None => {},
        }
        let mut session_ptr: u64 = 0;
        let status = api.create_session_raw(&mut session_ptr);
        match status_to_result(api, status) {
            Ok(()) => {},
            Err(e) => {
                return Err(OrtError::Session(e));
            },
        }
        assert(session_ptr != 0);
        Ok(Session { handle: session_ptr, live_children: 0 })
    }

    /// Releases the owned handle exactly once — the library's release count
    /// grows by exactly one — and nulls it. Every derived resource must have
    /// been released first: releasing the session while a derived allocator
    /// is live would leave that allocator pointing into a torn-down session.
    pub fn release(&mut self, api: &mut OrtApi)
        requires
            old(self).is_live(),
            old(self).spec_children() == 0,
            old(api).session.release_present,
            old(api).released < u64::MAX,
        ensures
            final(self).spec_handle() == 0,
            !final(self).is_live(),
            final(self).spec_children() == 0,
            final(api).same_dispatch(*old(api)),
            final(api).next_handle == old(api).next_handle,
            final(api).released == old(api).released + 1,
    {
        assert(self.handle != 0);
        api.release_session_raw(self.handle);
        self.handle = 0;
    }
}

/// Owner of one foreign allocator handle, derived from a session: it must be
/// released before that session.
#[derive(Debug)]
pub struct Allocator {
    handle: u64,
    parent: u64,
}

impl Allocator {
    /// The owned foreign handle; zero models the null pointer and marks a
    /// released wrapper.
    pub closed spec fn spec_handle(&self) -> u64 {
        self.handle
    }

    /// Handle of the session this allocator was derived from.
    pub closed spec fn spec_parent(&self) -> u64 {
        self.parent
    }

    /// A live wrapper: constructed and not yet released.
    pub open spec fn is_live(&self) -> bool {
        self.spec_handle() != 0
    }

    /// The owned handle, for observation only.
    pub fn raw_handle(&self) -> (r: u64)
        ensures
            r == self.spec_handle(),
    {
        self.handle
    }

    /// Creates an allocator derived from a live session, for memory described
    /// by a live memory-info descriptor. On success the wrapper takes
    /// exclusive ownership of the freshly minted handle, and the session's
    /// count of live derived resources grows by one — which is what later
    /// forbids releasing the session before this allocator. On failure the
    /// error is tagged as an allocator retrieval failure and the session is
    /// unchanged.
    pub fn new(api: &mut OrtApi, session: &mut Session, memory_info: &MemoryInfo) -> (r: Result<
        Allocator,
        OrtError,
    >)
        requires
            old(session).is_live(),
            old(session).spec_children() < u64::MAX,
            memory_info.is_live(),
            old(api).allocator.create_present,
            old(api).can_mint(),
            old(api).allocator.status is Some ==> old(api).get_error_message_present,
        ensures
            final(api).same_dispatch(*old(api)),
            final(api).released == old(api).released,
            old(api).allocator.status is None ==> (r matches Ok(a) && a.is_live()
                && a.spec_handle() == old(api).next_handle && a.spec_parent() == old(session).spec_handle() && final(session).spec_handle() == old(session).spec_handle()
                && final(session).spec_children() == old(session).spec_children() + 1 && final(api).next_handle == old(api).next_handle + 1),
            old(api).allocator.status matches Some(msg) ==> (r matches Err(OrtError::Allocator(e))
                && api_error_for(msg@, e) && *final(session) == *old(session) && final(api).next_handle == old(api).next_handle),
    {
        let _ = memory_info;
        let mut allocator_ptr: u64 = 0;
        let status = api.create_allocator_raw(&mut allocator_ptr);
        match status_to_result(api, status) {
            Ok(()) => {},
            Err(e) => {
                return Err(OrtError::Allocator(e));
            },
        }
        assert(allocator_ptr != 0);
        session.live_children = session.live_children + 1;
        Ok(Allocator { handle: allocator_ptr, parent: session.handle })
    }

    /// Releases the owned handle exactly once — the library's release count
    /// grows by exactly one — and nulls it, and lowers its parent session's
    /// count of live derived resources: the session handed in must be the
    /// parent, still live — the documented order requires derived resources
    /// to be released while their session exists.
    pub fn release(&mut self, api: &mut OrtApi, session: &mut Session)
        requires
            old(self).is_live(),
            old(session).is_live(),
            old(self).spec_parent() == old(session).spec_handle(),
            old(session).spec_children() > 0,
            old(api).allocator.release_present,
            old(api).released < u64::MAX,
        ensures
            final(self).spec_handle() == 0,
            !final(self).is_live(),
            final(self).spec_parent() == old(self).spec_parent(),
            final(session).spec_handle() == old(session).spec_handle(),
            final(session).spec_children() == old(session).spec_children() - 1,
            final(api).same_dispatch(*old(api)),
            final(api).next_handle == old(api).next_handle,
            final(api).released == old(api).released + 1,
    {
        assert(self.handle != 0);
        api.release_allocator_raw(self.handle);
        self.handle = 0;
        session.live_children = session.live_children - 1;
    }
}

} // verus!
