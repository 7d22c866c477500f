//! The library registry: a process-wide cache of loaded native library
//! handles, one slot per identifier, together with the single load guard
//! that serializes load attempts.
//!
//! The registry itself never performs an OS call. A caller that must load
//! drives the protocol `begin_load` / `finish_load`: `begin_load` either
//! answers from the cache, refuses because another load is in flight, or
//! acquires the guard; the caller then performs the platform open and hands
//! the outcome to `finish_load`, which stores the handle or propagates the
//! error, releasing the guard either way.

use vstd::prelude::*;
use vstd::pervasive::VecAdditionalExecFns;

use crate::errors::LoadError;
use crate::identifier::{ACBrLibType, lib_kind_count};

verus! {

/// The outcome of one platform open attempt, as the driver observed it.
pub enum OpenOutcome {
    /// The OS returned this handle; a genuine success has it non-null.
    Opened(u64),
    /// The resolved path does not exist; the OS call was never made.
    Missing,
    /// The OS call failed; the payload is the platform's diagnostic text.
    Failed(String),
}

/// What `begin_load` decided for one get-or-load request.
pub enum LoadGate {
    /// The registry already holds this handle; no load is needed.
    Cached(u64),
    /// The guard is now held by this caller, which must perform the open
    /// and report back through `finish_load`.
    Ready,
    /// Another load is in progress; the request is refused, not queued.
    Busy,
}

/// What a facade should do with a library whose native initialize call
/// has returned.
pub enum InitDecision {
    /// The call succeeded and handed back a usable context: keep the
    /// library and remember the context.
    Accept,
    /// The call reported success but handed back a null context: drop the
    /// cached library so the next request performs a clean reload.
    RejectNullContext,
    /// The call reported this non-zero status: drop the cached library so
    /// the next request performs a clean reload.
    RejectStatus(i32),
}

/// Classifies the outcome of a native initialize call: only a zero status
/// together with a non-null context is acceptable; everything else asks
/// for the cached library to be forgotten and reloaded cleanly.
pub fn classify_init_result(status: i32, context: u64) -> (d: InitDecision)
    ensures
        status == 0 && context != 0 ==> d is Accept,
        status == 0 && context == 0 ==> d is RejectNullContext,
        status != 0 ==> d == InitDecision::RejectStatus(status),
{
    if status != 0 {
        InitDecision::RejectStatus(status)
    } else if context == 0 {
        InitDecision::RejectNullContext
    } else {
        InitDecision::Accept
    }
}

/// The mathematical state of a registry: one optional handle per identifier
/// code, and the load-in-progress flag.
pub struct RegistryView {
    pub handles: Seq<Option<u64>>,
    pub loading: bool,
}

impl RegistryView {
    /// Every identifier has its slot, and a stored handle is never null.
    pub open spec fn wf(&self) -> bool {
        &&& self.handles.len() == lib_kind_count()
        &&& forall|i: int|
            0 <= i < self.handles.len() ==> (#[trigger] self.handles[i] matches Some(h) ==> h
                != 0)
    }

    /// The cached handle for an identifier, if one is stored.
    pub open spec fn handle_of(&self, id: ACBrLibType) -> Option<u64> {
        self.handles[id.code_spec()]
    }

    /// The state after `forget(id)`: the identifier's slot is cleared and
    /// nothing else changes.
    pub open spec fn forget_step(&self, id: ACBrLibType) -> RegistryView {
        RegistryView { handles: self.handles.update(id.code_spec(), None), loading: self.loading }
    }

    /// The state after a successful load stored `h` for `id`.
    pub open spec fn store_step(&self, id: ACBrLibType, h: u64) -> RegistryView {
        RegistryView { handles: self.handles.update(id.code_spec(), Some(h)), loading: false }
    }

    /// The state with the load guard set as given.
    pub open spec fn with_loading(&self, loading: bool) -> RegistryView {
        RegistryView { handles: self.handles, loading }
    }
}

/// The cache of loaded native libraries: at most one live handle per
/// identifier, and at most one load in flight process-wide.
pub struct LibraryRegistry {
    handles: Vec<Option<u64>>,
    loading: bool,
}

impl View for LibraryRegistry {
    type V = RegistryView;

    closed spec fn view(&self) -> RegistryView {
        RegistryView { handles: self.handles@, loading: self.loading }
    }
}

impl LibraryRegistry {
    /// An empty registry: no handle cached, no load in flight.
    pub fn new() -> (r: LibraryRegistry)
        ensures
            r@.wf(),
            !r@.loading,
            forall|id: ACBrLibType| r@.handle_of(id) is None,
    {
        let n = crate::identifier::lib_kinds();
        let mut handles: Vec<Option<u64>> = Vec::new();
        let mut i: usize = 0;
        while i < n
            invariant
                i <= n,
                handles@.len() == i,
                forall|j: int| 0 <= j < i ==> handles@[j] is None,
            decreases n - i,
        {
            handles.push(None);
            i += 1;
        }
        LibraryRegistry { handles, loading: false }
    }

    /// The cached handle for an identifier, without side effects.
    pub fn loaded_handle(&self, id: &ACBrLibType) -> (r: Option<u64>)
        requires
            self@.wf(),
        ensures
            r == self@.handle_of(*id),
    {
        proof {
            id.lemma_code_in_range();
        }
        self.handles[id.code()]
    }

    /// The fast path and the guard of get-or-load, with no OS work.
    ///
    /// A cached identifier is answered at once and nothing changes. With no
    /// cache entry, the request is refused while any load is in flight;
    /// otherwise the guard is acquired and the caller owes a `finish_load`.
    pub fn begin_load(&mut self, id: &ACBrLibType) -> (gate: LoadGate)
        requires
            old(self)@.wf(),
        ensures
            final(self)@.wf(),
            match gate {
                LoadGate::Cached(h) => {
                    &&& final(self)@ == old(self)@
                    &&& old(self)@.handle_of(*id) == Some(h)
                    &&& h != 0
                },
                LoadGate::Busy => {
                    &&& final(self)@ == old(self)@
                    &&& old(self)@.handle_of(*id) is None
                    &&& old(self)@.loading
                },
                LoadGate::Ready => {
                    &&& old(self)@.handle_of(*id) is None
                    &&& !old(self)@.loading
                    &&& final(self)@ == old(self)@.with_loading(true)
                },
            },
    {
        proof {
            id.lemma_code_in_range();
        }
        match self.handles[id.code()] {
            Some(h) => LoadGate::Cached(h),
            None => {
                if self.loading {
                    LoadGate::Busy
                } else {
                    self.loading = true;
                    proof {
                        assert(self@.handles =~= old(self)@.handles);
                    }
                    LoadGate::Ready
                }
            },
        }
    }

    /// Completes a load begun with `begin_load`.
    ///
    /// A non-null opened handle is stored and returned; every other outcome
    /// leaves the cache untouched and yields the matching error. The guard
    /// is released on every path.
    pub fn finish_load(&mut self, id: &ACBrLibType, outcome: OpenOutcome) -> (r: Result<
        u64,
        LoadError,
    >)
        requires
            old(self)@.wf(),
            old(self)@.loading,
            old(self)@.handle_of(*id) is None,
        ensures
            final(self)@.wf(),
            !final(self)@.loading,
            match outcome {
                OpenOutcome::Opened(h) => {
                    if h != 0 {
                        &&& r == Ok::<u64, LoadError>(h)
                        &&& final(self)@ == old(self)@.store_step(*id, h)
                    } else {
                        &&& (r matches Err(LoadError::LoadFailed(m)) && m@ == Seq::<
                            char,
                        >::empty())
                        &&& final(self)@ == old(self)@.with_loading(false)
                    }
                },
                OpenOutcome::Missing => {
                    &&& r == Err::<u64, LoadError>(LoadError::NotFound)
                    &&& final(self)@ == old(self)@.with_loading(false)
                },
                OpenOutcome::Failed(m) => {
                    &&& r == Err::<u64, LoadError>(LoadError::LoadFailed(m))
                    &&& final(self)@ == old(self)@.with_loading(false)
                },
            },
    {
        proof {
            id.lemma_code_in_range();
        }
        let r = match outcome {
            OpenOutcome::Opened(h) => {
                if h != 0 {
                    self.handles.set(id.code(), Some(h));
                    Ok(h)
                } else {
                    Err(LoadError::LoadFailed(String::new()))
                }
            },
            OpenOutcome::Missing => Err(LoadError::NotFound),
            OpenOutcome::Failed(m) => Err(LoadError::LoadFailed(m)),
        };
        self.loading = false;
        proof {
            assert(self@.handles =~= old(self)@.handles || self@.handles
                =~= old(self)@.handles.update(id.code_spec(), self@.handles[id.code_spec()]));
        }
        r
    }

    /// Removes the cached entry for an identifier, if any.
    ///
    /// The platform handle is not closed here: teardown belongs to the
    /// caller. A later get-or-load for the identifier performs a fresh load.
    pub fn forget(&mut self, id: &ACBrLibType)
        requires
            old(self)@.wf(),
        ensures
            final(self)@.wf(),
            final(self)@ == old(self)@.forget_step(*id),
            final(self)@.handle_of(*id) is None,
    {
        proof {
            id.lemma_code_in_range();
        }
        self.handles.set(id.code(), None);
    }
}

} // verus!
