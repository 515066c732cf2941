//! The invocation options of one resolver run.

use vstd::prelude::*;

verus! {

/// View of [`Opts`].
pub ghost struct OptsV {
    pub path: Seq<char>,
    pub shell: bool,
    pub target: Option<Seq<char>>,
    pub config: Option<Seq<char>>,
    pub no_cache: bool,
}

/// What the operator asked for: where to create the project, whether to
/// drop into a REPL after building, which target to resolve, which
/// configuration file to read, and whether to bypass the build cache.
#[derive(Clone, Debug, PartialEq, Eq)]
pub struct Opts {
    path: String,
    shell: bool,
    target: Option<String>,
    config: Option<String>,
    no_cache: bool,
}

impl View for Opts {
    type V = OptsV;

    closed spec fn view(&self) -> OptsV {
        OptsV {
            path: self.path@,
            shell: self.shell,
            target: self.target.deep_view(),
            config: self.config.deep_view(),
            no_cache: self.no_cache,
        }
    }
}

impl Opts {
    /// Options with the given settings.
    pub fn new(
        path: String,
        shell: bool,
        target: Option<String>,
        config: Option<String>,
        no_cache: bool,
    ) -> (r: Opts)
        ensures
            r@ == (OptsV {
                path: path@,
                shell,
                target: target.deep_view(),
                config: config.deep_view(),
                no_cache,
            }),
    {
        Opts { path, shell, target, config, no_cache }
    }

    /// The path under which to create the project.
    pub fn get_path(&self) -> (r: String)
        ensures
            r@ == self@.path,
    {
        self.path.clone()
    }

    /// Whether to drop into a REPL after building.
    pub fn get_shell(&self) -> (r: bool)
        ensures
            r == self@.shell,
    {
        self.shell
    }

    /// The name of the target to resolve, if one was given.
    pub fn get_target(&self) -> (r: Option<String>)
        ensures
            r.deep_view() == self@.target,
    {
        match &self.target {
            Some(t) => Some(t.clone()),
            None => None,
        }
    }

    /// The configuration file to read, if one was given.
    pub fn get_config(&self) -> (r: Option<String>)
        ensures
            r.deep_view() == self@.config,
    {
        match &self.config {
            Some(c) => Some(c.clone()),
            None => None,
        }
    }

    /// Whether to bypass the build cache.
    pub fn get_no_cache(&self) -> (r: bool)
        ensures
            r == self@.no_cache,
    {
        self.no_cache
    }
}

} // verus!
