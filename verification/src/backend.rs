use vstd::prelude::*;

verus! {

/// The link-time optimization that the compiler session asks for.
#[derive(Clone, Copy, Debug, PartialEq, Eq, Structural)]
pub enum Lto {
    /// No link-time optimization.
    No,
    /// Thin LTO across the crate graph.
    Thin,
    /// Thin LTO within the local crate.
    ThinLocal,
    /// Fat LTO.
    Fat,
}

/// One module handed to fat link-time optimization: either a module
/// compiled in this session, or a serialized one read back from a buffer.
pub enum FatLtoInput<M, B> {
    InMemory(M),
    Serialized { name: String, buffer: B },
}

/// The result of fat link-time optimization: the merged module, and the
/// serialized bitcode that went into it.
pub struct FatLtoModule<M, B> {
    pub module: Option<M>,
    pub serialized_bitcode: Vec<B>,
}

/// The serialized form of a whole module.
pub struct ModuleBuffer;

/// The serialized form of a module prepared for thin LTO.
pub struct ThinBuffer;

/// The GCC code generation backend.
#[derive(Clone, Copy, Debug)]
pub struct GccCodegenBackend;

/// What the backend says when asked for link-time optimization.
pub open spec fn lto_warning() -> Seq<char> {
    "LTO is not supported. You may get a linker error."@
}

impl GccCodegenBackend {
    /// The warning that the session shows when the backend starts: one
    /// exactly when link-time optimization is asked for.
    pub fn init(&self, lto: Lto) -> (warning: Option<&'static str>)
        ensures
            warning is Some <==> lto != Lto::No,
            warning matches Some(w) ==> w@ == lto_warning(),
    {
        match lto {
            Lto::No => None,
            _ => Some("LTO is not supported. You may get a linker error."),
        }
    }

    /// The CPU to tune for: the backend names none.
    pub fn tune_cpu(&self) -> (cpu: Option<&'static str>)
        ensures
            cpu is None,
    {
        None
    }

    /// Fat link-time optimization: the first module, which must have been
    /// compiled in this session, is the result; nothing serialized is kept.
    pub fn run_fat_lto<M, B>(modules: Vec<FatLtoInput<M, B>>) -> (r: FatLtoModule<M, B>)
        requires
            modules.len() > 0,
            modules[0] is InMemory,
        ensures
            r.module == Some(modules[0]->InMemory_0),
            r.serialized_bitcode@.len() == 0,
    {
        let mut modules = modules;
        let first = modules.remove(0);
        let module = match first {
            FatLtoInput::InMemory(module) => module,
            FatLtoInput::Serialized { .. } => vstd::pervasive::unreached(),
        };
        FatLtoModule { module: Some(module), serialized_bitcode: Vec::new() }
    }
}

/// A message to show when the value is dropped while the thread unwinds
/// from a panic.
pub struct PrintOnPanic<F: Fn() -> String>(pub F);

impl<F: Fn() -> String> PrintOnPanic<F> {
    /// What dropping the value prints: the message, built only when the
    /// thread is panicking, and nothing otherwise.
    pub fn drop_message(&self, panicking: bool) -> (message: Option<String>)
        requires
            panicking ==> call_requires(self.0, ()),
        ensures
            !panicking ==> message is None,
            panicking ==> (message matches Some(m) && call_ensures(self.0, (), m)),
    {
        if panicking {
            Some((self.0)())
        } else {
            None
        }
    }
}

} // verus!
