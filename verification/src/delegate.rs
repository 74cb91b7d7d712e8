//! The reference count behind `InitializeApiImpl*` / `UninitializeApiImpl`:
//! the first initialization loads and initializes the delegated runtime
//! library, the last uninitialization uninitializes and unloads it.
use vstd::prelude::*;
use crate::results::{S_OK, E_FAIL, E_NOTIMPL, CLASS_E_CLASSNOTAVAILABLE};
use vstd::string::StringExecFns;

verus! {

/// Options handed to `InitializeApiImplEx2`; they carry nothing here.
#[derive(Clone, Copy, Debug)]
pub struct InitializeOptions;


/// The delegated runtime's state: how many initializations are outstanding
/// and whether the library is loaded.
#[derive(Clone, Copy, Debug, PartialEq, Eq, Structural)]
pub struct DelegatedApiState {
    pub ref_count: usize,
    pub loaded: bool,
}

/// What an initialization asks of the caller.
#[derive(Clone, Copy, Debug, PartialEq, Eq, Structural)]
pub enum InitializeStep {
    /// The call answers this HRESULT.
    Done(i32),
    /// The caller loads the library, calls its initializer with this mode,
    /// installs the remote-connect prompt handlers, and reports the outcome
    /// to `finish_initialize`.
    LoadDelegate { mode: i8 },
}

/// How loading and initializing the delegated library went.
#[derive(Clone, Copy, Debug, PartialEq, Eq, Structural)]
pub enum DelegateLoadOutcome {
    /// The library or one of its entry points could not be loaded.
    LoadFailed(i32),
    /// The library's initializer answered this failure; the library is freed.
    InitializeFailed(i32),
    /// The library is initialized.
    Initialized,
}

/// What an uninitialization asks of the caller.
#[derive(Clone, Copy, Debug, PartialEq, Eq, Structural)]
pub enum UninitializeStep {
    /// The call answers this HRESULT.
    Done(i32),
    /// The caller calls the library's uninitializer, frees the library and
    /// answers the uninitializer's HRESULT.
    Unload,
}

/// The mode passed on to the delegated runtime: the caller's mode with the
/// cross-platform bit (8) set.
pub open spec fn spec_delegate_mode(mode: i8) -> i8 {
    mode | 8i8
}

/// The state and step after an initialization request.
pub open spec fn spec_initialize(s: DelegatedApiState, mode: i8) -> (DelegatedApiState, InitializeStep) {
    if s.ref_count > 0 {
        (DelegatedApiState { ref_count: (s.ref_count + 1) as usize, loaded: s.loaded }, InitializeStep::Done(S_OK))
    } else {
        (s, InitializeStep::LoadDelegate { mode: spec_delegate_mode(mode) })
    }
}

/// The state and HRESULT once the load was reported, with whether the
/// library must be freed.
pub open spec fn spec_finish_initialize(s: DelegatedApiState, o: DelegateLoadOutcome) -> (DelegatedApiState, i32, bool) {
    match o {
        DelegateLoadOutcome::LoadFailed(hr) => (s, hr, false),
        DelegateLoadOutcome::InitializeFailed(hr) => (s, hr, true),
        DelegateLoadOutcome::Initialized => (DelegatedApiState { ref_count: 1, loaded: true }, S_OK, false),
    }
}

/// The state and step after an uninitialization request.
pub open spec fn spec_uninitialize(s: DelegatedApiState) -> (DelegatedApiState, UninitializeStep) {
    if s.ref_count == 0 {
        (s, UninitializeStep::Done(E_NOTIMPL))
    } else if s.ref_count > 1 {
        (DelegatedApiState { ref_count: (s.ref_count - 1) as usize, loaded: s.loaded }, UninitializeStep::Done(S_OK))
    } else if !s.loaded {
        (DelegatedApiState { ref_count: 0, loaded: false }, UninitializeStep::Done(E_FAIL))
    } else {
        (DelegatedApiState { ref_count: 0, loaded: false }, UninitializeStep::Unload)
    }
}

impl DelegatedApiState {
    /// The library is loaded exactly while initializations are outstanding.
    pub open spec fn wf(self) -> bool {
        self.loaded <==> self.ref_count > 0
    }

    /// Nothing initialized, nothing loaded.
    pub fn new() -> (s: DelegatedApiState)
        ensures
            s.wf(),
            s.ref_count == 0,
            !s.loaded,
    {
        DelegatedApiState { ref_count: 0, loaded: false }
    }

    /// `InitializeApiImplEx2`: a further initialization only counts; the
    /// first one asks the caller to load the delegated library.
    pub fn initialize(&mut self, mode: i8) -> (step: InitializeStep)
        requires
            old(self).wf(),
            old(self).ref_count < usize::MAX,
        ensures
            final(self).wf(),
            (*final(self), step) == spec_initialize(*old(self), mode),
    {
        if self.ref_count > 0 {
            self.ref_count = self.ref_count + 1;
            return InitializeStep::Done(S_OK);
        }
        InitializeStep::LoadDelegate { mode: delegate_mode(mode) }
    }

    /// Records how loading went: on success one initialization is counted.
    /// Returns the HRESULT to answer and whether the library must be freed.
    pub fn finish_initialize(&mut self, outcome: DelegateLoadOutcome) -> (r: (i32, bool))
        requires
            old(self).wf(),
            old(self).ref_count == 0,
        ensures
            final(self).wf(),
            (*final(self), r.0, r.1) == spec_finish_initialize(*old(self), outcome),
    {
        match outcome {
            DelegateLoadOutcome::LoadFailed(hr) => (hr, false),
            DelegateLoadOutcome::InitializeFailed(hr) => (hr, true),
            DelegateLoadOutcome::Initialized => {
                self.ref_count = 1;
                self.loaded = true;
                (S_OK, false)
            },
        }
    }

    /// `UninitializeApiImpl`: without an initialization it answers
    /// `E_NOTIMPL`; otherwise one is uncounted, and the last one asks the
    /// caller to uninitialize and unload the library.
    pub fn uninitialize(&mut self) -> (step: UninitializeStep)
        requires
            old(self).wf(),
        ensures
            final(self).wf(),
            (*final(self), step) == spec_uninitialize(*old(self)),
    {
        if self.ref_count == 0 {
            return UninitializeStep::Done(E_NOTIMPL);
        }
        self.ref_count = self.ref_count - 1;
        if self.ref_count > 0 {
            return UninitializeStep::Done(S_OK);
        }
        if !self.loaded {
            return UninitializeStep::Done(E_FAIL);
        }
        self.loaded = false;
        UninitializeStep::Unload
    }

    /// `QueryApiImpl` for a class this runtime does not serve: `None` when
    /// the query is forwarded to the loaded delegated library; otherwise
    /// `E_NOTIMPL`, with the out pointer set to null.
    pub fn delegated_query_api_impl(&self) -> (r: Option<i32>)
        ensures
            r == (if self.loaded { None::<i32> } else { Some(E_NOTIMPL) }),
    {
        if self.loaded {
            None
        } else {
            Some(E_NOTIMPL)
        }
    }

    /// Whether a runtime class that this runtime does not serve is forwarded
    /// to the delegated library; when it is not, the query answers
    /// `E_NOTIMPL` with a null out pointer.
    pub fn forwards_queries(&self) -> (r: bool)
        ensures
            r == self.loaded,
    {
        self.loaded
    }
}

/// Returns the caller's mode with the cross-platform bit set.
pub fn delegate_mode(mode: i8) -> (m: i8)
    ensures
        m == spec_delegate_mode(mode),
{
    mode | 8i8
}

/// The arguments that `InitializeApiImpl(gdk, gs)` passes on to
/// `InitializeApiImplEx(gdk, gs, 0)`, which passes them on to
/// `InitializeApiImplEx2` with no options.
pub fn initialize_api_impl_mode() -> (mode: i8)
    ensures
        mode == 0,
{
    0
}

/// `DllCanUnloadNow`.
pub fn dll_can_unload_now() -> (hr: i32)
    ensures
        hr == S_OK,
{
    S_OK
}

/// `DllGetClassObject`: no class is served this way.
pub fn dll_get_class_object() -> (hr: i32)
    ensures
        hr == CLASS_E_CLASSNOTAVAILABLE,
{
    CLASS_E_CLASSNOTAVAILABLE
}

/// `XErrorReport`.
pub fn x_error_report() -> (hr: i32)
    ensures
        hr == E_NOTIMPL,
{
    E_NOTIMPL
}

/// A further initialization and an uninitialization cancel out: from any
/// initialized state they lead back to it, answering `S_OK` twice without
/// touching the library.
pub proof fn law_initialize_uninitialize_cancel(s: DelegatedApiState, mode: i8)
    requires
        s.wf(),
        s.ref_count > 0,
        s.ref_count < usize::MAX,
    ensures
        spec_initialize(s, mode).1 == InitializeStep::Done(S_OK),
        spec_uninitialize(spec_initialize(s, mode).0) == (s, UninitializeStep::Done(S_OK)),
{
}

/// The first initialization loads the library, and once it succeeded the
/// matching uninitialization unloads it, leaving nothing initialized.
pub proof fn law_first_load_last_unload(s: DelegatedApiState, mode: i8)
    requires
        s.wf(),
        s.ref_count == 0,
    ensures
        spec_initialize(s, mode) == (s, InitializeStep::LoadDelegate { mode: spec_delegate_mode(mode) }),
        spec_finish_initialize(s, DelegateLoadOutcome::Initialized).0.ref_count == 1,
        spec_uninitialize(spec_finish_initialize(s, DelegateLoadOutcome::Initialized).0)
            == (DelegatedApiState { ref_count: 0, loaded: false }, UninitializeStep::Unload),
{
}

/// Uninitializing what was never initialized answers `E_NOTIMPL` and changes
/// nothing.
pub proof fn law_uninitialize_without_initialize(s: DelegatedApiState)
    requires
        s.wf(),
        s.ref_count == 0,
    ensures
        spec_uninitialize(s) == (s, UninitializeStep::Done(E_NOTIMPL)),
{
}

/// A failed load leaves nothing initialized, so the next initialization
/// tries the load again.
pub proof fn law_failed_load_retries(s: DelegatedApiState, o: DelegateLoadOutcome, mode: i8)
    requires
        s.wf(),
        s.ref_count == 0,
        o != DelegateLoadOutcome::Initialized,
    ensures
        spec_finish_initialize(s, o).0 == s,
        spec_initialize(spec_finish_initialize(s, o).0, mode).1
            == (InitializeStep::LoadDelegate { mode: spec_delegate_mode(mode) }),
{
}

/// The library that calls are delegated to.
pub fn delegated_dll_name() -> (name: &'static str)
    ensures
        name@ == "xgameruntime.gdk.dll"@,
{
    "xgameruntime.gdk.dll"
}

/// How loading the delegated library ended.
#[derive(Clone, Copy, Debug, PartialEq, Eq, Structural)]
pub enum LibraryLoad {
    /// The library and its three entry points are loaded.
    Loaded,
    /// Loading failed with `E_FAIL`; the library is freed first when it was
    /// loaded but an entry point is missing.
    Failed { free_library: bool },
}

/// Loading the delegated library: it must load, then its entry points
/// `InitializeApiImplEx2`, `QueryApiImpl` and `UninitializeApiImpl` must be
/// found, in that order.
pub fn load_delegated_api(module_loaded: bool, initialize_found: bool, query_found: bool, uninitialize_found: bool) -> (r: LibraryLoad)
    ensures
        r == (if !module_loaded {
            LibraryLoad::Failed { free_library: false }
        } else if !initialize_found || !query_found || !uninitialize_found {
            LibraryLoad::Failed { free_library: true }
        } else {
            LibraryLoad::Loaded
        }),
{
    if !module_loaded {
        return LibraryLoad::Failed { free_library: false };
    }
    if !initialize_found {
        return LibraryLoad::Failed { free_library: true };
    }
    if !query_found {
        return LibraryLoad::Failed { free_library: true };
    }
    if !uninitialize_found {
        return LibraryLoad::Failed { free_library: true };
    }
    LibraryLoad::Loaded
}

/// The text of the remote sign-in prompt: the URL and the code, separated
/// by a space.
pub fn remote_login_message(url: &str, code: &str) -> (m: String)
    ensures
        m@ == url@ + " "@ + code@,
{
    let mut m = url.to_owned();
    m.append(" ");
    m.append(code);
    m
}

/// The title of the remote sign-in prompt.
pub fn remote_login_title() -> (t: &'static str)
    ensures
        t@ == "Xbox Live Remote Login"@,
{
    "Xbox Live Remote Login"
}

} // verus!
