//! An in-memory platform loader, and the full get-or-load operation of the
//! registry driven against it.
//!
//! The platform primitives (open a library by path, look a symbol up by
//! name) are modelled by `MemoryLoader`, which keeps a set of present files
//! and exported symbols and counts every OS-level call it performs. The
//! real OS driver follows the same `begin_load` / `finish_load` protocol
//! from unverified code; everything proved of `get_or_load` here is a
//! statement about the registry's decisions, which are identical for both.

use vstd::prelude::*;
use vstd::string::StringExecFns;

use crate::errors::LoadError;
use crate::identifier::ACBrLibType;
use crate::registry::{LibraryRegistry, LoadGate, OpenOutcome, RegistryView};

verus! {

/// `c + 1`, except that a counter already at the maximum stays there.
pub open spec fn sat_inc(c: u64) -> u64 {
    if c < u64::MAX {
        (c + 1) as u64
    } else {
        c
    }
}

/// The diagnostic text the in-memory loader reports for a failed open.
pub open spec fn open_fail_text() -> Seq<char> {
    "native open call failed"@
}

/// The index of the first row equal to `name`, or `-1` if none is.
pub open spec fn first_match(rows: Seq<Seq<char>>, name: Seq<char>) -> int
    decreases rows.len(),
{
    if rows.len() <= 0 {
        -1
    } else if rows[0] == name {
        0
    } else {
        let rest = first_match(rows.drop_first(), name);
        if rest < 0 {
            -1
        } else {
            rest + 1
        }
    }
}

pub proof fn lemma_first_match_props(rows: Seq<Seq<char>>, name: Seq<char>)
    ensures
        first_match(rows, name) >= 0 ==> 0 <= first_match(rows, name) < rows.len() && rows[
            first_match(rows, name)] == name,
        first_match(rows, name) < 0 ==> forall|i: int| 0 <= i < rows.len() ==> rows[i] != name,
    decreases rows.len(),
{
    if rows.len() > 0 && rows[0] != name {
        let rest = rows.drop_first();
        lemma_first_match_props(rest, name);
        assert(forall|i: int| 0 <= i < rest.len() ==> rest[i] == rows[i + 1]);
        if first_match(rows, name) >= 0 {
            assert(rows[first_match(rows, name)] == rest[first_match(rest, name)]);
        } else {
            assert forall|i: int| 0 <= i < rows.len() implies rows[i] != name by {
                if i > 0 {
                    assert(rows[i] == rest[i - 1]);
                }
            }
        }
    }
}

pub proof fn lemma_first_match_at(rows: Seq<Seq<char>>, name: Seq<char>, k: int)
    requires
        0 <= k < rows.len(),
        rows[k] == name,
        forall|j: int| 0 <= j < k ==> rows[j] != name,
    ensures
        first_match(rows, name) == k,
    decreases k,
{
    if k > 0 {
        lemma_first_match_at(rows.drop_first(), name, k - 1);
    }
}

pub proof fn lemma_first_match_none(rows: Seq<Seq<char>>, name: Seq<char>)
    requires
        forall|j: int| 0 <= j < rows.len() ==> rows[j] != name,
    ensures
        first_match(rows, name) == -1,
    decreases rows.len(),
{
    if rows.len() > 0 {
        assert(forall|i: int|
            0 <= i < rows.drop_first().len() ==> rows.drop_first()[i] == rows[i + 1]);
        lemma_first_match_none(rows.drop_first(), name);
    }
}

/// The mathematical state of the in-memory platform: which files exist,
/// which symbols the library exports, whether the OS open call fails, how
/// many OS-level calls were made, and the next handle to hand out.
pub struct LoaderView {
    pub files: Seq<Seq<char>>,
    pub symbols: Seq<Seq<char>>,
    pub fail_open: bool,
    pub open_calls: u64,
    pub resolve_calls: u64,
    pub next_handle: u64,
}

impl LoaderView {
    /// Handles handed out are never null, and the symbol table is small
    /// enough that every symbol's address fits the platform word.
    pub open spec fn wf(&self) -> bool {
        &&& self.next_handle >= 1
        &&& self.symbols.len() <= u64::MAX
    }

    /// Whether a file exists at the given path.
    pub open spec fn has_file(&self, path: Seq<char>) -> bool {
        exists|i: int| 0 <= i < self.files.len() && self.files[i] == path
    }

    /// Whether the library exports a symbol of the given name.
    pub open spec fn has_symbol(&self, name: Seq<char>) -> bool {
        exists|i: int| 0 <= i < self.symbols.len() && self.symbols[i] == name
    }

    /// The address the platform reports for a symbol: a non-null address
    /// determined by the symbol's position, or null if it is not exported.
    pub open spec fn symbol_address(&self, name: Seq<char>) -> u64 {
        if first_match(self.symbols, name) >= 0 {
            (first_match(self.symbols, name) + 1) as u64
        } else {
            0
        }
    }

    /// The state after a failed OS open call.
    pub open spec fn bump_open(&self) -> LoaderView {
        LoaderView { open_calls: sat_inc(self.open_calls), ..*self }
    }

    /// The state after a successful OS open call: the call is counted and
    /// the handed-out handle is retired.
    pub open spec fn after_open_success(&self) -> LoaderView {
        LoaderView {
            open_calls: sat_inc(self.open_calls),
            next_handle: sat_inc(self.next_handle),
            ..*self
        }
    }

    /// The state after one OS symbol lookup.
    pub open spec fn bump_resolve(&self) -> LoaderView {
        LoaderView { resolve_calls: sat_inc(self.resolve_calls), ..*self }
    }
}

/// A non-null symbol address is reported exactly for exported symbols.
pub proof fn lemma_symbol_address_nonnull(l: LoaderView, name: Seq<char>)
    requires
        l.wf(),
    ensures
        l.symbol_address(name) != 0 <==> l.has_symbol(name),
{
    lemma_first_match_props(l.symbols, name);
}

/// An in-memory stand-in for the operating system's dynamic loader: a set
/// of present library files, the symbols the loaded library exports, an
/// injectable open failure, and counters of every OS-level call.
pub struct MemoryLoader {
    files: Vec<String>,
    symbols: Vec<String>,
    fail_open: bool,
    open_calls: u64,
    resolve_calls: u64,
    next_handle: u64,
}

impl View for MemoryLoader {
    type V = LoaderView;

    closed spec fn view(&self) -> LoaderView {
        LoaderView {
            files: self.files.deep_view(),
            symbols: self.symbols.deep_view(),
            fail_open: self.fail_open,
            open_calls: self.open_calls,
            resolve_calls: self.resolve_calls,
            next_handle: self.next_handle,
        }
    }
}

impl MemoryLoader {
    /// A fresh in-memory platform with the given files on disk and the
    /// given symbols exported; no OS call has been made yet.
    pub fn new(files: Vec<String>, symbols: Vec<String>, fail_open: bool) -> (r: MemoryLoader)
        ensures
            r@.wf(),
            r@.files == files.deep_view(),
            r@.symbols == symbols.deep_view(),
            r@.fail_open == fail_open,
            r@.open_calls == 0,
            r@.resolve_calls == 0,
            r@.next_handle == 1,
    {
        proof {
            vstd::std_specs::vec::axiom_spec_len(&symbols);
        }
        MemoryLoader { files, symbols, fail_open, open_calls: 0, resolve_calls: 0, next_handle: 1 }
    }

    /// Places a file on the fake disk, as copying a library into the
    /// resources directory would.
    pub fn add_file(&mut self, path: String)
        requires
            old(self)@.wf(),
        ensures
            final(self)@.wf(),
            final(self)@ == (LoaderView { files: old(self)@.files.push(path@), ..old(self)@ }),
            final(self)@.has_file(path@),
    {
        let ghost p = path@;
        self.files.push(path);
        proof {
            assert(self@.files =~= old(self)@.files.push(p));
            assert(self@.files[self@.files.len() - 1] == p);
        }
    }

    /// How many OS-level open calls have been performed.
    pub fn open_count(&self) -> (n: u64)
        ensures
            n == self@.open_calls,
    {
        self.open_calls
    }

    /// How many OS-level symbol lookups have been performed.
    pub fn resolve_count(&self) -> (n: u64)
        ensures
            n == self@.resolve_calls,
    {
        self.resolve_calls
    }

    /// Opens a library by path, as the platform would: a missing file is
    /// reported without any OS call; otherwise the OS call is counted and
    /// either fails or yields a fresh non-null handle.
    pub fn open(&mut self, path: &String) -> (out: OpenOutcome)
        requires
            old(self)@.wf(),
        ensures
            final(self)@.wf(),
            !old(self)@.has_file(path@) ==> final(self)@ == old(self)@ && (
            out matches OpenOutcome::Missing),
            old(self)@.has_file(path@) && old(self)@.fail_open ==> final(self)@
                == old(self)@.bump_open() && (out matches OpenOutcome::Failed(m) && m@
                == open_fail_text()),
            old(self)@.has_file(path@) && !old(self)@.fail_open ==> final(self)@
                == old(self)@.after_open_success() && out == OpenOutcome::Opened(
                old(self)@.next_handle,
            ),
    {
        let found = contains_string(&self.files, path);
        if !found {
            return OpenOutcome::Missing;
        }
        self.open_calls = if self.open_calls < u64::MAX {
            self.open_calls + 1
        } else {
            self.open_calls
        };
        if self.fail_open {
            OpenOutcome::Failed(String::from_str("native open call failed"))
        } else {
            let h = self.next_handle;
            self.next_handle = if self.next_handle < u64::MAX {
                self.next_handle + 1
            } else {
                self.next_handle
            };
            OpenOutcome::Opened(h)
        }
    }

    /// Looks a symbol up by name, as the platform would, and reports its
    /// address: non-null exactly when the symbol is exported. Must never be
    /// called with a null handle.
    pub fn resolve(&mut self, handle: u64, name: &String) -> (addr: u64)
        requires
            old(self)@.wf(),
            handle != 0,
        ensures
            final(self)@.wf(),
            final(self)@ == old(self)@.bump_resolve(),
            addr == old(self)@.symbol_address(name@),
    {
        self.resolve_calls = if self.resolve_calls < u64::MAX {
            self.resolve_calls + 1
        } else {
            self.resolve_calls
        };
        let n = self.symbols.len();
        let mut i: usize = 0;
        while i < n
            invariant
                i <= n,
                n == self.symbols.len(),
                old(self)@.wf(),
                self@ == old(self)@.bump_resolve(),
                forall|j: int| 0 <= j < i ==> self@.symbols[j] != name@,
            decreases n - i,
        {
            if self.symbols[i] == *name {
                proof {
                    lemma_first_match_at(self@.symbols, name@, i as int);
                }
                return (i as u64) + 1;
            }
            i += 1;
        }
        proof {
            lemma_first_match_none(self@.symbols, name@);
        }
        0
    }
}

/// Whether some row of `v` holds the same text as `x`.
fn contains_string(v: &Vec<String>, x: &String) -> (b: bool)
    ensures
        b == (exists|i: int| 0 <= i < v.deep_view().len() && v.deep_view()[i] == x@),
{
    let n = v.len();
    let mut i: usize = 0;
    while i < n
        invariant
            i <= n,
            n == v.len(),
            forall|j: int| 0 <= j < i ==> v.deep_view()[j] != x@,
        decreases n - i,
    {
        if v[i] == *x {
            assert(v.deep_view()[i as int] == x@);
            return true;
        }
        assert(v.deep_view()[i as int] != x@);
        i += 1;
    }
    false
}

/// The full path of an identifier's library file below a resources
/// directory.
pub open spec fn lib_path(dir: Seq<char>, id: ACBrLibType) -> Seq<char> {
    dir + "/"@ + id.filename_spec()
}

/// What one get-or-load request decides, stated over the models.
pub enum LoadOutcome {
    /// The request ends with this handle, from the cache or a fresh load.
    Loaded(u64),
    /// The library file does not exist; no OS open call was made.
    NoFile,
    /// The OS open call itself failed.
    OpenFailed,
    /// Another load was in flight, so the request was refused.
    Busy,
}

/// The decision of `get_or_load` from a registry and loader state.
pub open spec fn gol_outcome(
    r: RegistryView,
    l: LoaderView,
    dir: Seq<char>,
    id: ACBrLibType,
) -> LoadOutcome {
    match r.handle_of(id) {
        Some(h) => LoadOutcome::Loaded(h),
        None => {
            if r.loading {
                LoadOutcome::Busy
            } else if !l.has_file(lib_path(dir, id)) {
                LoadOutcome::NoFile
            } else if l.fail_open {
                LoadOutcome::OpenFailed
            } else {
                LoadOutcome::Loaded(l.next_handle)
            }
        },
    }
}

/// The registry state after `get_or_load`.
pub open spec fn gol_reg(
    r: RegistryView,
    l: LoaderView,
    dir: Seq<char>,
    id: ACBrLibType,
) -> RegistryView {
    if r.handle_of(id) is Some || r.loading || !l.has_file(lib_path(dir, id)) || l.fail_open {
        r
    } else {
        r.store_step(id, l.next_handle)
    }
}

/// The loader state after `get_or_load`: the OS open call happens exactly
/// when the cache misses, no other load is in flight, and the file exists.
pub open spec fn gol_loader(
    r: RegistryView,
    l: LoaderView,
    dir: Seq<char>,
    id: ACBrLibType,
) -> LoaderView {
    if r.handle_of(id) is Some || r.loading || !l.has_file(lib_path(dir, id)) {
        l
    } else if l.fail_open {
        l.bump_open()
    } else {
        l.after_open_success()
    }
}

/// How the returned value renders each decision.
pub open spec fn gol_result_matches(res: Result<u64, LoadError>, m: LoadOutcome) -> bool {
    match m {
        LoadOutcome::Loaded(h) => res == Ok::<u64, LoadError>(h),
        LoadOutcome::Busy => res == Err::<u64, LoadError>(LoadError::AlreadyLoading),
        LoadOutcome::NoFile => res == Err::<u64, LoadError>(LoadError::NotFound),
        LoadOutcome::OpenFailed => res matches Err(LoadError::LoadFailed(t)) && t@
            == open_fail_text(),
    }
}

/// Get-or-load, driven against the in-memory platform.
///
/// A cached identifier is answered with its stored handle and nothing
/// changes; a request while a load is in flight is refused; otherwise the
/// library file is looked for below the resources directory and, if
/// present, opened through the platform, and a fresh handle is stored.
pub fn get_or_load(
    reg: &mut LibraryRegistry,
    ld: &mut MemoryLoader,
    resources_dir: &String,
    id: &ACBrLibType,
) -> (res: Result<u64, LoadError>)
    requires
        old(reg)@.wf(),
        old(ld)@.wf(),
    ensures
        final(reg)@.wf(),
        final(ld)@.wf(),
        final(reg)@ == gol_reg(old(reg)@, old(ld)@, resources_dir@, *id),
        final(ld)@ == gol_loader(old(reg)@, old(ld)@, resources_dir@, *id),
        gol_result_matches(res, gol_outcome(old(reg)@, old(ld)@, resources_dir@, *id)),
{
    match reg.begin_load(id) {
        LoadGate::Cached(h) => Ok(h),
        LoadGate::Busy => Err(LoadError::AlreadyLoading),
        LoadGate::Ready => {
            let mut path = resources_dir.clone();
            path.append("/");
            path.append(id.filename());
            proof {
                assert(path@ =~= lib_path(resources_dir@, *id));
            }
            let out = ld.open(&path);
            reg.finish_load(id, out)
        },
    }
}

/// Asking for a loaded identifier again returns the very same handle and
/// performs no further OS open call; across a miss followed by a repeat,
/// exactly one open call happens in total.
pub proof fn lemma_get_or_load_idempotent(
    r: RegistryView,
    l: LoaderView,
    dir: Seq<char>,
    id: ACBrLibType,
)
    requires
        r.wf(),
        l.wf(),
        gol_outcome(r, l, dir, id) is Loaded,
    ensures
        gol_outcome(gol_reg(r, l, dir, id), gol_loader(r, l, dir, id), dir, id) == gol_outcome(
            r,
            l,
            dir,
            id,
        ),
        gol_reg(gol_reg(r, l, dir, id), gol_loader(r, l, dir, id), dir, id) == gol_reg(
            r,
            l,
            dir,
            id,
        ),
        gol_loader(gol_reg(r, l, dir, id), gol_loader(r, l, dir, id), dir, id) == gol_loader(
            r,
            l,
            dir,
            id,
        ),
        r.handle_of(id) is None ==> gol_loader(r, l, dir, id).open_calls == sat_inc(l.open_calls),
        r.handle_of(id) is Some ==> gol_loader(r, l, dir, id).open_calls == l.open_calls,
{
    id.lemma_code_in_range();
}

/// The load guard is always released again before get-or-load returns,
/// on the success path and on every error path alike.
pub proof fn lemma_guard_released(r: RegistryView, l: LoaderView, dir: Seq<char>, id: ACBrLibType)
    requires
        !r.loading,
    ensures
        !gol_reg(r, l, dir, id).loading,
{
}

/// A handle handed out by get-or-load is never null, whether it came
/// from the cache or from a fresh load.
pub proof fn lemma_loaded_handle_nonzero(
    r: RegistryView,
    l: LoaderView,
    dir: Seq<char>,
    id: ACBrLibType,
)
    requires
        r.wf(),
        l.wf(),
    ensures
        match gol_outcome(r, l, dir, id) {
            LoadOutcome::Loaded(h) => h != 0,
            _ => true,
        },
{
    id.lemma_code_in_range();
}

/// A request that arrives while a load is in flight is refused with no
/// change of state and no OS call, rather than blocking.
pub proof fn lemma_load_in_flight_refused(
    r: RegistryView,
    l: LoaderView,
    dir: Seq<char>,
    id: ACBrLibType,
)
    requires
        r.loading,
        r.handle_of(id) is None,
    ensures
        gol_outcome(r, l, dir, id) is Busy,
        gol_reg(r, l, dir, id) == r,
        gol_loader(r, l, dir, id) == l,
{
}

/// Forgetting an identifier and asking for it again performs exactly one
/// new OS open call: a genuine reload, not a reuse of the stale handle.
pub proof fn lemma_forget_then_reload(
    r: RegistryView,
    l: LoaderView,
    dir: Seq<char>,
    id: ACBrLibType,
)
    requires
        r.wf(),
        l.wf(),
        !r.loading,
        l.has_file(lib_path(dir, id)),
        !l.fail_open,
    ensures
        r.forget_step(id).handle_of(id) is None,
        gol_outcome(r.forget_step(id), l, dir, id) == LoadOutcome::Loaded(l.next_handle),
        gol_loader(r.forget_step(id), l, dir, id).open_calls == sat_inc(l.open_calls),
{
    id.lemma_code_in_range();
}

/// A path with no file behind it is reported as not found — never as a
/// failed open — and the OS open call is never attempted.
pub proof fn lemma_missing_file_not_found(
    r: RegistryView,
    l: LoaderView,
    dir: Seq<char>,
    id: ACBrLibType,
)
    requires
        !r.loading,
        r.handle_of(id) is None,
        !l.has_file(lib_path(dir, id)),
    ensures
        gol_outcome(r, l, dir, id) is NoFile,
        gol_loader(r, l, dir, id) == l,
        gol_reg(r, l, dir, id) == r,
{
}

} // verus!
