//! A value-level model of the foreign inference library's dispatch table.
//!
//! The real library hands the application a struct of function pointers, each
//! of which may be absent on an older library version. Every fallible entry
//! point follows the same two conventions: it returns a nullable status
//! pointer (null meaning success, non-null meaning failure with a message),
//! and constructors write the new resource handle through a caller-supplied
//! out-pointer. This module represents that boundary as plain values: an
//! [`ApiEntry`] records, for one resource kind, which entry points the loaded
//! library provides and whether its constructor succeeds; [`OrtApi`] groups
//! the entries of all resource kinds together with the library's internal
//! bookkeeping — the mint from which fresh, never-aliased handles are handed
//! out, and the count of release calls received. The dispatch table proper
//! (the entries and the message accessor) never changes; only the
//! bookkeeping advances. The wrappers built on top are verified for every
//! possible table, so nothing proved here depends on what a concrete library
//! binding does.

use vstd::prelude::*;

verus! {

/// Model of the nullable status pointer that every fallible foreign call
/// returns: null means success; a non-null status owns the raw bytes of a
/// human-readable failure message, readable through the table's message
/// accessor for the duration of the call.
pub enum OrtStatusPtr {
    Null,
    Failure(Vec<u8>),
}

/// The dispatch-table entries for one foreign resource kind: a constructor
/// and a release function, each of which may be absent, together with the
/// status the constructor returns when invoked (`None` modelling the null
/// success status).
pub struct ApiEntry {
    /// The constructor function pointer is set.
    pub create_present: bool,
    /// The release function pointer is set.
    pub release_present: bool,
    /// Status the constructor returns: `None` models the null (success)
    /// status, `Some(bytes)` a failure status owning that message.
    pub status: Option<Vec<u8>>,
}

impl ApiEntry {
    /// Both entry points of this resource kind are provided.
    pub open spec fn fully_present(&self) -> bool {
        self.create_present && self.release_present
    }

    /// The constructor is scripted to succeed.
    pub open spec fn succeeds(&self) -> bool {
        self.status is None
    }

    /// An entry with both entry points present whose constructor succeeds.
    pub fn working() -> (r: ApiEntry)
        ensures
            r.fully_present(),
            r.succeeds(),
            r == (ApiEntry { create_present: true, release_present: true, status: Option::None }),
    {
        ApiEntry { create_present: true, release_present: true, status: Option::None }
    }

    /// An entry with both entry points present whose constructor fails,
    /// returning a status with the given message bytes.
    pub fn failing(message: Vec<u8>) -> (r: ApiEntry)
        ensures
            r.fully_present(),
            r.create_present && r.release_present,
            r.status matches Some(m) && m@ == message@,
    {
        ApiEntry { create_present: true, release_present: true, status: Option::Some(message) }
    }
}

/// Model of the foreign library behind its dispatch table: one [`ApiEntry`]
/// per resource kind and the message accessor (the table, immutable once
/// acquired), plus the library's internal bookkeeping. `next_handle` is the
/// mint: every successful construction writes the current mint value through
/// the out-pointer and advances it, so each handle handed out is non-null and
/// distinct from every other — no two live wrappers can ever own the same
/// handle. `released` counts the release calls received, which makes
/// "released exactly once" an observable fact.
pub struct OrtApi {
    /// The message-accessor function pointer is set.
    pub get_error_message_present: bool,
    /// Entry points for environment creation and release.
    pub environment: ApiEntry,
    /// Entry points for session-options creation and release.
    pub session_options: ApiEntry,
    /// Entry points for session creation and release.
    pub session: ApiEntry,
    /// Entry points for allocator creation and release.
    pub allocator: ApiEntry,
    /// Entry points for memory-info creation and release.
    pub memory_info: ApiEntry,
    /// Entry points for tensor creation and release.
    pub tensor: ApiEntry,
    /// The next handle the library will hand out. Non-null (handles start at
    /// one), strictly increasing: the foreign out-pointer contract — success
    /// writes a non-null handle — and handle freshness both follow from it.
    pub next_handle: u64,
    /// Number of release calls the library has received, over all kinds.
    pub released: u64,
}

impl OrtApi {
    /// The dispatch table proper — the entries and the message accessor — is
    /// the same in both values: operations advance only the bookkeeping,
    /// never the table.
    pub open spec fn same_dispatch(self, other: OrtApi) -> bool {
        &&& self.get_error_message_present == other.get_error_message_present
        &&& self.environment == other.environment
        &&& self.session_options == other.session_options
        &&& self.session == other.session
        &&& self.allocator == other.allocator
        &&& self.memory_info == other.memory_info
        &&& self.tensor == other.tensor
    }

    /// The mint can hand out a fresh non-null handle.
    pub open spec fn can_mint(&self) -> bool {
        0 < self.next_handle < u64::MAX
    }

    /// Every entry of the table is fully present and scripted to succeed: a
    /// library against which every constructor call is owed success.
    pub open spec fn fully_working(&self) -> bool {
        &&& self.environment.fully_present() && self.environment.succeeds()
        &&& self.session_options.fully_present() && self.session_options.succeeds()
        &&& self.session.fully_present() && self.session.succeeds()
        &&& self.allocator.fully_present() && self.allocator.succeeds()
        &&& self.memory_info.fully_present() && self.memory_info.succeeds()
        &&& self.tensor.fully_present() && self.tensor.succeeds()
    }

    /// A table with every entry point present and every constructor scripted
    /// to succeed, with a fresh mint and no release received yet.
    pub fn complete() -> (r: OrtApi)
        ensures
            r.fully_working(),
            r.get_error_message_present,
            r.next_handle == 1,
            r.released == 0,
    {
        OrtApi {
            get_error_message_present: true,
            environment: ApiEntry::working(),
            session_options: ApiEntry::working(),
            session: ApiEntry::working(),
            allocator: ApiEntry::working(),
            memory_info: ApiEntry::working(),
            tensor: ApiEntry::working(),
            next_handle: 1,
            released: 0,
        }
    }
}

/// Copies a byte buffer. Used where the model hands out the message bytes a
/// status owns without giving up the table's copy.
fn copy_bytes(v: &Vec<u8>) -> (r: Vec<u8>)
    ensures
        r@ == v@,
{
    let mut r: Vec<u8> = Vec::new();
    let mut i: usize = 0;
    while i < v.len()
        invariant
            i <= v.len(),
            r@ == v@.take(i as int),
        decreases v.len() - i,
    {
        r.push(v[i]);
        proof {
            assert(r@ =~= v@.take(i + 1 as int));
        }
        i = i + 1;
    }
    proof {
        assert(v@.take(v.len() as int) =~= v@);
    }
    r
}

/// Model of invoking one constructor entry of the table under the
/// out-pointer convention: the caller passes the address of a null slot; on
/// success the foreign function writes a freshly minted handle there and the
/// mint advances; on failure the slot is left untouched. Either way the call
/// returns its status.
fn invoke_create(scripted: &Option<Vec<u8>>, next_handle: &mut u64, out: &mut u64) -> (status:
    OrtStatusPtr)
    requires
        *old(next_handle) < u64::MAX,
    ensures
        scripted is None ==> (status is Null && *final(out) == *old(next_handle) && *final(next_handle) == *old(next_handle) + 1),
        scripted matches Some(m) ==> (status matches OrtStatusPtr::Failure(raw) && raw@ == m@
            && *final(out) == *old(out) && *final(next_handle) == *old(next_handle)),
{
    match scripted {
        Option::None => {
            *out = *next_handle;
            *next_handle = *next_handle + 1;
            OrtStatusPtr::Null
        },
        Option::Some(m) => OrtStatusPtr::Failure(copy_bytes(m)),
    }
}

impl OrtApi {
    /// Calls the environment constructor through the table. The entry's
    /// function pointer must be set — calling through an absent pointer is
    /// undefined, so it is excluded here rather than handled.
    pub fn create_env_raw(&mut self, out: &mut u64) -> (status: OrtStatusPtr)
        requires
            old(self).environment.create_present,
            old(self).next_handle < u64::MAX,
        ensures
            final(self).same_dispatch(*old(self)),
            final(self).released == old(self).released,
            old(self).environment.status is None ==> (status is Null && *final(out) == old(self).next_handle && final(self).next_handle == old(self).next_handle + 1),
            old(self).environment.status matches Some(m) ==> (status matches OrtStatusPtr::Failure(
                raw,
            ) && raw@ == m@ && *final(out) == *old(out) && final(self).next_handle == old(self).next_handle),
    {
        invoke_create(&self.environment.status, &mut self.next_handle, out)
    }

    /// Calls the session-options constructor through the table.
    pub fn create_session_options_raw(&mut self, out: &mut u64) -> (status: OrtStatusPtr)
        requires
            old(self).session_options.create_present,
            old(self).next_handle < u64::MAX,
        ensures
            final(self).same_dispatch(*old(self)),
            final(self).released == old(self).released,
            old(self).session_options.status is None ==> (status is Null && *final(out) == old(self).next_handle && final(self).next_handle == old(self).next_handle + 1),
            old(self).session_options.status matches Some(m) ==> (status
                matches OrtStatusPtr::Failure(raw) && raw@ == m@ && *final(out) == *old(out)
                && final(self).next_handle == old(self).next_handle),
    {
        invoke_create(&self.session_options.status, &mut self.next_handle, out)
    }

    /// Calls the session constructor through the table.
    pub fn create_session_raw(&mut self, out: &mut u64) -> (status: OrtStatusPtr)
        requires
            old(self).session.create_present,
            old(self).next_handle < u64::MAX,
        ensures
            final(self).same_dispatch(*old(self)),
            final(self).released == old(self).released,
            old(self).session.status is None ==> (status is Null && *final(out) == old(self).next_handle && final(self).next_handle == old(self).next_handle + 1),
            old(self).session.status matches Some(m) ==> (status matches OrtStatusPtr::Failure(raw)
                && raw@ == m@ && *final(out) == *old(out) && final(self).next_handle == old(self).next_handle),
    {
        invoke_create(&self.session.status, &mut self.next_handle, out)
    }

    /// Calls the allocator constructor through the table.
    pub fn create_allocator_raw(&mut self, out: &mut u64) -> (status: OrtStatusPtr)
        requires
            old(self).allocator.create_present,
            old(self).next_handle < u64::MAX,
        ensures
            final(self).same_dispatch(*old(self)),
            final(self).released == old(self).released,
            old(self).allocator.status is None ==> (status is Null && *final(out) == old(self).next_handle && final(self).next_handle == old(self).next_handle + 1),
            old(self).allocator.status matches Some(m) ==> (status matches OrtStatusPtr::Failure(
                raw,
            ) && raw@ == m@ && *final(out) == *old(out) && final(self).next_handle == old(self).next_handle),
    {
        invoke_create(&self.allocator.status, &mut self.next_handle, out)
    }

    /// Calls the CPU memory-info constructor through the table. The two
    /// integers are the foreign library's own enumeration values for the
    /// allocator kind and the memory kind.
    pub fn create_cpu_memory_info_raw(
        &mut self,
        allocator_kind: i32,
        memory_kind: i32,
        out: &mut u64,
    ) -> (status: OrtStatusPtr)
        requires
            old(self).memory_info.create_present,
            old(self).next_handle < u64::MAX,
        ensures
            final(self).same_dispatch(*old(self)),
            final(self).released == old(self).released,
            old(self).memory_info.status is None ==> (status is Null && *final(out) == old(self).next_handle && final(self).next_handle == old(self).next_handle + 1),
            old(self).memory_info.status matches Some(m) ==> (status matches OrtStatusPtr::Failure(
                raw,
            ) && raw@ == m@ && *final(out) == *old(out) && final(self).next_handle == old(self).next_handle),
    {
        let _ = allocator_kind;
        let _ = memory_kind;
        invoke_create(&self.memory_info.status, &mut self.next_handle, out)
    }

    /// Calls the tensor constructor through the table.
    pub fn create_tensor_with_data_raw(&mut self, out: &mut u64) -> (status: OrtStatusPtr)
        requires
            old(self).tensor.create_present,
            old(self).next_handle < u64::MAX,
        ensures
            final(self).same_dispatch(*old(self)),
            final(self).released == old(self).released,
            old(self).tensor.status is None ==> (status is Null && *final(out) == old(self).next_handle && final(self).next_handle == old(self).next_handle + 1),
            old(self).tensor.status matches Some(m) ==> (status matches OrtStatusPtr::Failure(raw)
                && raw@ == m@ && *final(out) == *old(out) && final(self).next_handle == old(self).next_handle),
    {
        invoke_create(&self.tensor.status, &mut self.next_handle, out)
    }

    /// Calls the environment release function through the table. Release
    /// functions take the handle by value, return nothing and never fail;
    /// the model counts the call.
    pub fn release_env_raw(&mut self, handle: u64)
        requires
            old(self).environment.release_present,
            handle != 0,
            old(self).released < u64::MAX,
        ensures
            final(self).same_dispatch(*old(self)),
            final(self).next_handle == old(self).next_handle,
            final(self).released == old(self).released + 1,
    {
        let _ = handle;
        self.released = self.released + 1;
    }

    /// Calls the session-options release function through the table.
    pub fn release_session_options_raw(&mut self, handle: u64)
        requires
            old(self).session_options.release_present,
            handle != 0,
            old(self).released < u64::MAX,
        ensures
            final(self).same_dispatch(*old(self)),
            final(self).next_handle == old(self).next_handle,
            final(self).released == old(self).released + 1,
    {
        let _ = handle;
        self.released = self.released + 1;
    }

    /// Calls the session release function through the table.
    pub fn release_session_raw(&mut self, handle: u64)
        requires
            old(self).session.release_present,
            handle != 0,
            old(self).released < u64::MAX,
        ensures
            final(self).same_dispatch(*old(self)),
            final(self).next_handle == old(self).next_handle,
            final(self).released == old(self).released + 1,
    {
        let _ = handle;
        self.released = self.released + 1;
    }

    /// Calls the allocator release function through the table.
    pub fn release_allocator_raw(&mut self, handle: u64)
        requires
            old(self).allocator.release_present,
            handle != 0,
            old(self).released < u64::MAX,
        ensures
            final(self).same_dispatch(*old(self)),
            final(self).next_handle == old(self).next_handle,
            final(self).released == old(self).released + 1,
    {
        let _ = handle;
        self.released = self.released + 1;
    }

    /// Calls the memory-info release function through the table.
    pub fn release_memory_info_raw(&mut self, handle: u64)
        requires
            old(self).memory_info.release_present,
            handle != 0,
            old(self).released < u64::MAX,
        ensures
            final(self).same_dispatch(*old(self)),
            final(self).next_handle == old(self).next_handle,
            final(self).released == old(self).released + 1,
    {
        let _ = handle;
        self.released = self.released + 1;
    }

    /// Calls the tensor release function through the table.
    pub fn release_tensor_raw(&mut self, handle: u64)
        requires
            old(self).tensor.release_present,
            handle != 0,
            old(self).released < u64::MAX,
        ensures
            final(self).same_dispatch(*old(self)),
            final(self).next_handle == old(self).next_handle,
            final(self).released == old(self).released + 1,
    {
        let _ = handle;
        self.released = self.released + 1;
    }
}

} // verus!
