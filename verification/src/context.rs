//! The table of loaded driver entry points, and what can be decided from it.

use vstd::prelude::*;
use gl_struct_loader::GlFns;

verus! {

/// `gl_struct_loader::GlFns`, the table of entry points. It is carried
/// through and handed out; nothing here looks into it.
#[verifier::external_type_specification]
#[verifier::external_body]
pub struct ExGlFns(GlFns);

/// The entry point through which a debug callback is registered.
#[derive(Debug, Clone, Copy, PartialEq, Eq, Structural)]
pub enum DebugEntryPoint {
    /// `glDebugMessageCallback`, the standard name.
    Core,
    /// `glDebugMessageCallbackKHR`, the name the extension has on OpenGL ES.
    Khr,
}

/// The driver offers no entry point for what was asked.
#[derive(Debug, Clone, Copy, PartialEq, Eq, Structural)]
pub struct Unsupported;

/// The driver's entry points, as loaded, together with the checked
/// operations of this library.
///
/// The operations that need nothing but their arguments are associated
/// functions: each one turns typed arguments into what the driver call is
/// handed, or turns what the driver returned into a typed result.
pub struct EzGl {
    fns: Box<GlFns>,
}

/// What a table holds: the names of the entry points, as the driver spells
/// them, for which it has an address.
pub uninterp spec fn loaded_entry_points(fns: GlFns) -> Set<Seq<char>>;

/// The standard name of the entry point that registers a debug callback.
pub open spec fn core_debug_name() -> Seq<char> {
    "glDebugMessageCallback"@
}

/// The name that the same entry point has as an extension of OpenGL ES.
pub open spec fn khr_debug_name() -> Seq<char> {
    "glDebugMessageCallbackKHR"@
}

/// `GlFns::new_boxed`: a table on the heap, every slot of which is empty.
#[verifier::external_body]
fn blank_fns() -> (fns: Box<GlFns>)
    ensures
        loaded_entry_points(*fns) == Set::<Seq<char>>::empty(),
{
    GlFns::new_boxed()
}

/// `GlFns::has_loaded` and `FnLoadedChecker::DebugMessageCallback`: whether
/// the table's slot `glDebugMessageCallback` holds an address.
#[verifier::external_body]
fn has_debug_message_callback(fns: &GlFns) -> (loaded: bool)
    ensures
        loaded == loaded_entry_points(*fns).contains(core_debug_name()),
{
    fns.has_loaded().DebugMessageCallback()
}

/// `GlFns::has_loaded` and `FnLoadedChecker::DebugMessageCallbackKHR`:
/// whether the table's slot `glDebugMessageCallbackKHR` holds an address.
#[verifier::external_body]
fn has_debug_message_callback_khr(fns: &GlFns) -> (loaded: bool)
    ensures
        loaded == loaded_entry_points(*fns).contains(khr_debug_name()),
{
    fns.has_loaded().DebugMessageCallbackKHR()
}

/// The entry point for registering a debug callback: the standard one where
/// it is loaded, else the extension's, else none.
pub open spec fn entry_point_for(core_loaded: bool, khr_loaded: bool) -> Result<
    DebugEntryPoint,
    Unsupported,
> {
    if core_loaded {
        Ok(DebugEntryPoint::Core)
    } else if khr_loaded {
        Ok(DebugEntryPoint::Khr)
    } else {
        Err(Unsupported)
    }
}

/// Picks the entry point for registering a debug callback.
pub fn debug_entry_point(core_loaded: bool, khr_loaded: bool) -> (r: Result<
    DebugEntryPoint,
    Unsupported,
>)
    ensures
        r == entry_point_for(core_loaded, khr_loaded),
{
    if core_loaded {
        Ok(DebugEntryPoint::Core)
    } else if khr_loaded {
        Ok(DebugEntryPoint::Khr)
    } else {
        Err(Unsupported)
    }
}

impl EzGl {
    /// The names of the entry points that this context has loaded.
    pub closed spec fn loaded(&self) -> Set<Seq<char>> {
        loaded_entry_points(*self.fns)
    }

    /// A context whose table has no entry point loaded yet.
    pub fn new_boxed() -> (gl: EzGl)
        ensures
            gl.loaded() == Set::<Seq<char>>::empty(),
    {
        EzGl { fns: blank_fns() }
    }

    /// A context over a table that the caller has loaded.
    pub fn from_fns(fns: Box<GlFns>) -> (gl: EzGl)
        ensures
            gl.spec_fns() == fns,
            gl.loaded() == loaded_entry_points(*fns),
    {
        EzGl { fns }
    }

    /// The table of this context.
    pub closed spec fn spec_fns(&self) -> Box<GlFns> {
        self.fns
    }

    /// The table of entry points, for the calls themselves.
    pub fn fns(&self) -> (fns: &GlFns)
        ensures
            *fns == *self.spec_fns(),
    {
        &*self.fns
    }

    /// Gives the table back, for loading.
    pub fn into_fns(self) -> (fns: Box<GlFns>)
        ensures
            fns == self.spec_fns(),
    {
        self.fns
    }

    /// Says through which entry point the debug callback is to be
    /// registered, or that the driver offers none. The decision is that of
    /// [`debug_entry_point`], made on what the table holds.
    pub fn set_stderr_debug_message_callback(&self) -> (r: Result<DebugEntryPoint, Unsupported>)
        ensures
            r == entry_point_for(
                self.loaded().contains(core_debug_name()),
                self.loaded().contains(khr_debug_name()),
            ),
    {
        let core_loaded = has_debug_message_callback(&*self.fns);
        let khr_loaded = has_debug_message_callback_khr(&*self.fns);
        debug_entry_point(core_loaded, khr_loaded)
    }
}

} // verus!
