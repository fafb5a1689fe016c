//! The configuration a compiler context keeps until it is handed to regor.

use vstd::prelude::*;
use crate::error::Error;

verus! {

/// One piece of buffered configuration, as it is handed to regor.
#[derive(Debug, Clone)]
pub enum PendingConfig {
    /// For `regor_set_system_config`.
    SystemConfig(String),
    /// For `regor_set_compiler_options`.
    CompilerOptions(String),
}

/// What a [`PendingConfig`] carries, by its text.
pub enum PendingView {
    SystemConfig(Seq<char>),
    CompilerOptions(Seq<char>),
}

impl View for PendingConfig {
    type V = PendingView;

    open spec fn view(&self) -> PendingView {
        match self {
            PendingConfig::SystemConfig(s) => PendingView::SystemConfig(s@),
            PendingConfig::CompilerOptions(s) => PendingView::CompilerOptions(s@),
        }
    }
}

/// The view of an optional piece of configuration.
pub open spec fn pending_view(p: Option<PendingConfig>) -> Option<PendingView> {
    match p {
        Some(c) => Some(c@),
        None => None,
    }
}

/// What handing over the next piece of configuration takes out of a
/// compiler's state, and the state it leaves: the system configuration
/// first, then the compiler options, then nothing.
pub open spec fn take_next(m: CompilerModel) -> (Option<PendingView>, CompilerModel) {
    match m.system_config {
        Some(s) => (
            Some(PendingView::SystemConfig(s)),
            CompilerModel { system_config: None, ..m },
        ),
        None => match m.options {
            Some(o) => (Some(PendingView::CompilerOptions(o)), CompilerModel { options: None, ..m }),
            None => (None, m),
        },
    }
}

/// What a [`Compiler`] holds: its context handle and the configuration not
/// yet handed to regor.
pub struct CompilerModel {
    pub ctx: i32,
    pub system_config: Option<Seq<char>>,
    pub options: Option<Seq<char>>,
}

/// The state of a regor compiler context.
///
/// Configuration is buffered rather than pushed straight through to the C
/// library, and handed over when a compilation runs, while the library's
/// lock is held: applying it eagerly would let one thread reconfigure the
/// shared state another thread is midway through compiling against.
pub struct Compiler {
    ctx: i32,
    pending_system_config: Option<String>,
    pending_options: Option<String>,
}

/// The texts of an optional string.
pub open spec fn opt_text(s: Option<String>) -> Option<Seq<char>> {
    match s {
        Some(t) => Some(t@),
        None => None,
    }
}

impl View for Compiler {
    type V = CompilerModel;

    closed spec fn view(&self) -> CompilerModel {
        CompilerModel {
            ctx: self.ctx,
            system_config: opt_text(self.pending_system_config),
            options: opt_text(self.pending_options),
        }
    }
}

impl Compiler {
    /// The state of the context `ctx` that `regor_create` just made: nothing
    /// configured yet.
    pub fn with_context(ctx: i32) -> (c: Compiler)
        ensures
            c@ == (CompilerModel { ctx, system_config: None, options: None }),
    {
        Compiler { ctx, pending_system_config: None, pending_options: None }
    }

    /// Apply a system configuration string.
    ///
    /// The configuration is recorded now and handed to the C library when a
    /// compilation runs, so any error in it surfaces there; a later call
    /// replaces it.
    pub fn system_config(&mut self, config: &str) -> (r: Result<&mut Self, Error>)
        ensures
            r is Ok,
            r matches Ok(c) ==> (*c)@ == (CompilerModel { system_config: Some(config@), ..old(self)@ }),
            r matches Ok(c) ==> *final(self) == *final(c),
    {
        self.pending_system_config = Some(config.to_owned());
        Ok(self)
    }

    /// Apply a system configuration built with
    /// [`SystemConfig`](crate::options::SystemConfig); the same as
    /// [`system_config`](Self::system_config).
    ///
    /// This is how the accelerator is selected; there is no compiler option
    /// for it.
    pub fn set_system_config(&mut self, config: &str) -> (r: Result<&mut Self, Error>)
        ensures
            r is Ok,
            r matches Ok(c) ==> (*c)@ == (CompilerModel { system_config: Some(config@), ..old(self)@ }),
            r matches Ok(c) ==> *final(self) == *final(c),
    {
        self.system_config(config)
    }

    /// Apply typed compiler options built with
    /// [`CompilerOptions`](crate::options::CompilerOptions); the same as
    /// [`compiler_options`](Self::compiler_options).
    pub fn set_options(&mut self, serialised: &str) -> (r: Result<&mut Self, Error>)
        ensures
            r is Ok,
            r matches Ok(c) ==> (*c)@ == (CompilerModel { options: Some(serialised@), ..old(self)@ }),
            r matches Ok(c) ==> *final(self) == *final(c),
    {
        self.compiler_options(serialised)
    }

    /// Apply compiler option overrides from a raw key=value string.
    ///
    /// The options are recorded now and handed to the C library when a
    /// compilation runs, so any error in them surfaces there; a later call
    /// replaces them.
    pub fn compiler_options(&mut self, options: &str) -> (r: Result<&mut Self, Error>)
        ensures
            r is Ok,
            r matches Ok(c) ==> (*c)@ == (CompilerModel { options: Some(options@), ..old(self)@ }),
            r matches Ok(c) ==> *final(self) == *final(c),
    {
        self.pending_options = Some(options.to_owned());
        Ok(self)
    }

    /// Take the next piece of buffered configuration to hand to regor: the
    /// system configuration before the compiler options, each at most once.
    /// Handing them over stops at the first that regor rejects, which leaves
    /// what follows it buffered.
    pub fn next_pending(&mut self) -> (p: Option<PendingConfig>)
        ensures
            (pending_view(p), final(self)@) == take_next(old(self)@),
    {
        if let Some(config) = self.pending_system_config.take() {
            return Some(PendingConfig::SystemConfig(config));
        }
        if let Some(options) = self.pending_options.take() {
            return Some(PendingConfig::CompilerOptions(options));
        }
        None
    }

    /// The raw context handle, for advanced interop.
    pub fn raw_context(&self) -> (ctx: i32)
        ensures
            ctx == self@.ctx,
    {
        self.ctx
    }
}

/// Handing over the buffered configuration gives the system configuration
/// before the compiler options, each once, and after at most two pieces
/// nothing is left buffered.
pub proof fn law_pending_configuration_drains_in_order(m: CompilerModel)
    ensures
        ({
            let (first, m1) = take_next(m);
            let (second, m2) = take_next(m1);
            let (third, m3) = take_next(m2);
            &&& m.system_config matches Some(s) ==> first == Some(PendingView::SystemConfig(s))
            &&& (m.system_config is Some && m.options is Some) ==> second == Some(
                PendingView::CompilerOptions(m.options->0),
            )
            &&& third is None
            &&& m3.system_config is None
            &&& m3.options is None
            &&& m3.ctx == m.ctx
        }),
{
}

} // verus!
