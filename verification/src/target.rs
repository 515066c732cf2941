//! The target model and the build-orchestration engine.
//!
//! A target is either an internal language-and-dependency pairing
//! ([`DefaultTarget`]), or a remote repository or local directory tree
//! ([`RemoteTarget`]).  Resolving a target yields a sequence of
//! [`Action`](crate::plan::Action) values that an embedding application
//! carries out; nothing in this module touches the file system or spawns
//! a process.

use vstd::prelude::*;

use crate::errors::ResolveError;
use crate::errors::ResolveErrorV;
use crate::plan::Action;
use crate::plan::ActionV;
use crate::plan::FsEntry;
use crate::plan::FsEntryV;
use crate::render::spec_rendering_outcome;

verus! {

/// The list of supported languages.
#[derive(Clone, Copy, Debug, PartialEq, Eq, Structural)]
pub enum SupportedLanguage {
    Elixir,
    Node,
    Rust,
}

/// The identifying name of a language, as it appears in configuration
/// keys and in the build-hash input.
pub open spec fn spec_lang_name(l: SupportedLanguage) -> Seq<char> {
    match l {
        SupportedLanguage::Elixir => "elixir"@,
        SupportedLanguage::Node => "node"@,
        SupportedLanguage::Rust => "rust"@,
    }
}

impl SupportedLanguage {
    /// The identifying name of the language.
    pub fn name(&self) -> (r: &'static str)
        ensures
            r@ == spec_lang_name(*self),
    {
        match self {
            SupportedLanguage::Elixir => "elixir",
            SupportedLanguage::Node => "node",
            SupportedLanguage::Rust => "rust",
        }
    }
}

/// View of a [`Dependency`].
pub ghost struct DepView {
    pub name: Seq<char>,
    pub version: Seq<char>,
}

/// A name/version pair: the atomic unit passed into every template.
#[derive(Clone, Debug, PartialEq, Eq)]
pub struct Dependency {
    pub name: String,
    pub version: String,
}

impl View for Dependency {
    type V = DepView;

    open spec fn view(&self) -> DepView {
        DepView { name: self.name@, version: self.version@ }
    }
}

impl DeepView for Dependency {
    type V = DepView;

    open spec fn deep_view(&self) -> DepView {
        self.view()
    }
}

impl Dependency {
    /// A dependency on `name` at `version`.
    pub fn new(name: &str, version: &str) -> (r: Dependency)
        ensures
            r@ == (DepView { name: name@, version: version@ }),
    {
        Dependency { name: String::from_str(name), version: String::from_str(version) }
    }
}

/// An ordered list of dependencies; duplicates are the caller's concern.
pub type Dependencies = Vec<Dependency>;

/// Copies a dependency list element by element.
pub fn clone_dependencies(v: &Dependencies) -> (r: Dependencies)
    ensures
        r.deep_view() == v.deep_view(),
{
    let mut r: Dependencies = Vec::new();
    let n = v.len();
    let mut i: usize = 0;
    while i < n
        invariant
            n == v@.len(),
            i <= n,
            r@.len() == i,
            forall|j: int| 0 <= j < i ==> #[trigger] r@[j].deep_view() == v@[j].deep_view(),
        decreases n - i,
    {
        let d = &v[i];
        r.push(Dependency { name: d.name.clone(), version: d.version.clone() });
        i = i + 1;
    }
    proof {
        assert forall|j: int| 0 <= j < n implies r.deep_view()[j] == v.deep_view()[j] by {
            assert(r.deep_view()[j] == r@[j].deep_view());
            assert(v.deep_view()[j] == v@[j].deep_view());
        }
        assert(r.deep_view() =~= v.deep_view());
    }
    r
}

/// View of a [`ProgramCommand`].
pub ghost struct ProgramCommandV {
    pub command: Seq<char>,
    pub args: Seq<Seq<char>>,
}

/// An external program invocation: a command name and its arguments,
/// with no shell-metacharacter interpretation.
#[derive(Clone, Debug, PartialEq, Eq)]
pub struct ProgramCommand {
    command: String,
    args: Vec<String>,
}

impl View for ProgramCommand {
    type V = ProgramCommandV;

    closed spec fn view(&self) -> ProgramCommandV {
        ProgramCommandV { command: self.command@, args: self.args.deep_view() }
    }
}

impl ProgramCommand {
    /// A command made of a program name and its arguments.
    pub fn new(command: String, args: Vec<String>) -> (r: ProgramCommand)
        ensures
            r@ == (ProgramCommandV { command: command@, args: args.deep_view() }),
    {
        ProgramCommand { command, args }
    }

    /// The program name.
    pub fn command(&self) -> (r: &String)
        ensures
            r@ == self@.command,
    {
        &self.command
    }

    /// The argument list.
    pub fn args(&self) -> (r: &Vec<String>)
        ensures
            r.deep_view() == self@.args,
    {
        &self.args
    }
}

/// View of a [`ShellRecipe`].
pub ghost enum ShellRecipeV {
    Fixed { command: ProgramCommandV },
    WithRenderedSource { program: Seq<char>, args: Seq<Seq<char>>, source_name: Seq<char> },
}

/// How the interactive shell command of an internal target is built
/// once the project has been written.
///
/// The shell command may depend on a source file produced during the
/// write phase; `WithRenderedSource` names that source template, and the
/// engine appends its rendered body as the final argument.
#[derive(Clone, Debug, PartialEq, Eq)]
pub enum ShellRecipe {
    /// The shell command is known up front.
    Fixed { command: ProgramCommand },
    /// The shell command takes the rendered body of the named source
    /// template as its last argument.
    WithRenderedSource { program: String, args: Vec<String>, source_name: String },
}

impl View for ShellRecipe {
    type V = ShellRecipeV;

    open spec fn view(&self) -> ShellRecipeV {
        match self {
            ShellRecipe::Fixed { command } => ShellRecipeV::Fixed { command: command@ },
            ShellRecipe::WithRenderedSource { program, args, source_name } => {
                ShellRecipeV::WithRenderedSource {
                    program: program@,
                    args: args.deep_view(),
                    source_name: source_name@,
                }
            },
        }
    }
}

/// View of a [`Shell`].
pub ghost struct ShellV {
    pub recipe: ShellRecipeV,
    pub template: Seq<char>,
}

/// The optional interactive shell of an internal target: a recipe for
/// its command and the template of its launcher script.
#[derive(Clone, Debug, PartialEq, Eq)]
pub struct Shell {
    recipe: ShellRecipe,
    template: String,
}

impl View for Shell {
    type V = ShellV;

    closed spec fn view(&self) -> ShellV {
        ShellV { recipe: self.recipe@, template: self.template@ }
    }
}

impl Shell {
    /// A shell with the given command recipe and launcher template.
    pub fn new(recipe: ShellRecipe, template: String) -> (r: Shell)
        ensures
            r@ == (ShellV { recipe: recipe@, template: template@ }),
    {
        Shell { recipe, template }
    }
}

/// View of a [`Template`].
pub ghost struct TemplateV {
    pub path: Seq<char>,
    pub template: Seq<char>,
}

/// A named template: a destination path and a body.
#[derive(Clone, Debug, PartialEq, Eq)]
pub struct Template {
    pub path: String,
    pub template: String,
}

impl View for Template {
    type V = TemplateV;

    open spec fn view(&self) -> TemplateV {
        TemplateV { path: self.path@, template: self.template@ }
    }
}

impl Template {
    /// A template with the given destination path and body.
    pub fn new(path: String, template: String) -> (r: Template)
        ensures
            r@ == (TemplateV { path: path@, template: template@ }),
    {
        Template { path, template }
    }
}

/// View of a [`Templates`] bundle.
pub ghost struct TemplatesV {
    pub build_template: TemplateV,
    pub source_templates: Seq<TemplateV>,
    pub shell_template: Option<TemplateV>,
}

/// The rendered output of one render pass: the build manifest, the
/// source files and the optional shell launcher.
#[derive(Clone, Debug, PartialEq, Eq)]
pub struct Templates {
    pub build_template: Template,
    pub source_templates: Vec<Template>,
    pub shell_template: Option<Template>,
}

impl View for Templates {
    type V = TemplatesV;

    open spec fn view(&self) -> TemplatesV {
        TemplatesV {
            build_template: self.build_template@,
            source_templates: self.source_templates.deep_view(),
            shell_template: match self.shell_template {
                Some(t) => Some(t@),
                None => None,
            },
        }
    }
}

impl DeepView for Template {
    type V = TemplateV;

    open spec fn deep_view(&self) -> TemplateV {
        self.view()
    }
}

impl Templates {
    /// A bundle holding only the given build manifest.
    pub fn new(build_template: Template) -> (r: Templates)
        ensures
            r@ == (TemplatesV {
                build_template: build_template@,
                source_templates: Seq::<TemplateV>::empty(),
                shell_template: None::<TemplateV>,
            }),
    {
        let r = Templates {
            build_template,
            source_templates: Vec::new(),
            shell_template: None,
        };
        assert(r.source_templates.deep_view() =~= Seq::<TemplateV>::empty());
        r
    }

    /// Adds a rendered source file at the given path.
    pub fn add_source_template(&mut self, path: String, template: String)
        ensures
            final(self)@ == (TemplatesV {
                source_templates: old(self)@.source_templates.push(
                    TemplateV { path: path@, template: template@ },
                ),
                ..old(self)@
            }),
    {
        self.source_templates.push(Template { path, template });
        assert(self.source_templates.deep_view() =~= old(self).source_templates.deep_view().push(
            TemplateV { path: path@, template: template@ },
        ));
    }

    /// Adds the rendered shell launcher, written as `shell.sh`.
    pub fn add_shell_template(&mut self, template: String)
        ensures
            final(self)@ == (TemplatesV {
                shell_template: Some(TemplateV { path: "shell.sh"@, template: template@ }),
                ..old(self)@
            }),
    {
        self.shell_template = Some(Template::new(String::from_str("shell.sh"), template));
    }
}

/// View of a [`DefaultTarget`].
pub ghost struct DefaultTargetV {
    pub language: SupportedLanguage,
    pub name: Seq<char>,
    pub deps: Seq<DepView>,
}

/// An internal target: a named language-and-dependency pairing that is
/// templated and built locally.
#[derive(Clone, Debug, PartialEq, Eq)]
pub struct DefaultTarget {
    pub language: SupportedLanguage,
    pub name: String,
    pub deps: Dependencies,
}

impl View for DefaultTarget {
    type V = DefaultTargetV;

    open spec fn view(&self) -> DefaultTargetV {
        DefaultTargetV { language: self.language, name: self.name@, deps: self.deps.deep_view() }
    }
}

impl DefaultTarget {
    /// An internal target for `language` with the given dependencies.
    pub fn new(name: String, language: SupportedLanguage, deps: Dependencies) -> (r: DefaultTarget)
        ensures
            r@ == (DefaultTargetV { language, name: name@, deps: deps.deep_view() }),
    {
        DefaultTarget { deps, language, name }
    }
}

/// View of a [`RemoteTarget`].
pub ghost struct RemoteTargetV {
    pub build_args: Seq<Seq<char>>,
    pub build_command: Seq<char>,
    pub path: Seq<char>,
    pub shell: Option<ProgramCommandV>,
}

/// A repository- or directory-backed target: a source location, a build
/// command and an optional interactive shell command.
#[derive(Clone, Debug, PartialEq, Eq)]
pub struct RemoteTarget {
    build_args: Vec<String>,
    build_command: String,
    path: String,
    shell: Option<ProgramCommand>,
}

impl View for RemoteTarget {
    type V = RemoteTargetV;

    closed spec fn view(&self) -> RemoteTargetV {
        RemoteTargetV {
            build_args: self.build_args.deep_view(),
            build_command: self.build_command@,
            path: self.path@,
            shell: match self.shell {
                Some(c) => Some(c@),
                None => None,
            },
        }
    }
}

impl RemoteTarget {
    /// The source location: a repository URL or a directory path.
    pub fn path(&self) -> (r: &String)
        ensures
            r@ == self@.path,
    {
        &self.path
    }

    /// The build command's program name.
    pub fn build_command(&self) -> (r: &String)
        ensures
            r@ == self@.build_command,
    {
        &self.build_command
    }

    /// The build command's arguments.
    pub fn build_args(&self) -> (r: &Vec<String>)
        ensures
            r.deep_view() == self@.build_args,
    {
        &self.build_args
    }

    /// The configured interactive shell command, if any.
    pub fn shell(&self) -> (r: &Option<ProgramCommand>)
        ensures
            match r {
                Some(c) => self@.shell == Some(c@),
                None => self@.shell is None,
            },
    {
        &self.shell
    }

    /// A target backed by the repository or directory at `path`, built
    /// with the given command.
    pub fn new(
        path: String,
        build_command: String,
        build_args: Vec<String>,
        shell: Option<ProgramCommand>,
    ) -> (r: RemoteTarget)
        ensures
            r@ == (RemoteTargetV {
                build_args: build_args.deep_view(),
                build_command: build_command@,
                path: path@,
                shell: match shell {
                    Some(c) => Some(c@),
                    None => None::<ProgramCommandV>,
                },
            }),
    {
        RemoteTarget { build_args, build_command, path, shell }
    }
}

/// A configured target, with exactly one active variant.
#[derive(Clone, Debug, PartialEq, Eq)]
pub enum Target {
    /// An internal language-and-dependency pairing.
    Internal(DefaultTarget),
    /// A local directory tree to copy and build.
    Directory(RemoteTarget),
    /// A remote git repository to clone and build.
    Repo(RemoteTarget),
}

/// View of a [`Target`].
pub ghost enum TargetV {
    Internal(DefaultTargetV),
    Directory(RemoteTargetV),
    Repo(RemoteTargetV),
}

impl View for Target {
    type V = TargetV;

    open spec fn view(&self) -> TargetV {
        match self {
            Target::Internal(t) => TargetV::Internal(t@),
            Target::Directory(t) => TargetV::Directory(t@),
            Target::Repo(t) => TargetV::Repo(t@),
        }
    }
}

impl DeepView for Target {
    type V = TargetV;

    open spec fn deep_view(&self) -> TargetV {
        self.view()
    }
}

/// View of a [`TemplateSet`].
pub ghost struct TemplateSetV {
    pub build_template: Seq<char>,
    pub source_template: Seq<char>,
    pub shell_template: Seq<char>,
}

/// The template bodies of one language provider: the build manifest,
/// the source stub and the shell launcher.  The literal bodies are
/// per-ecosystem configuration that the embedding application supplies;
/// the engine never inspects their syntax, it only renders them.
#[derive(Clone, Debug, PartialEq, Eq)]
pub struct TemplateSet {
    pub build_template: String,
    pub source_template: String,
    pub shell_template: String,
}

impl View for TemplateSet {
    type V = TemplateSetV;

    open spec fn view(&self) -> TemplateSetV {
        TemplateSetV {
            build_template: self.build_template@,
            source_template: self.source_template@,
            shell_template: self.shell_template@,
        }
    }
}

impl TemplateSet {
    /// A set holding the three given template bodies.
    pub fn new(build_template: String, source_template: String, shell_template: String) -> (r:
        TemplateSet)
        ensures
            r@ == (TemplateSetV {
                build_template: build_template@,
                source_template: source_template@,
                shell_template: shell_template@,
            }),
    {
        TemplateSet { build_template, source_template, shell_template }
    }
}

/// View of a [`LanguageTemplates`].
pub ghost struct LanguageTemplatesV {
    pub elixir: TemplateSetV,
    pub node: TemplateSetV,
}

/// The template bodies of every language provider, keyed by language.
#[derive(Clone, Debug, PartialEq, Eq)]
pub struct LanguageTemplates {
    pub elixir: TemplateSet,
    pub node: TemplateSet,
}

impl View for LanguageTemplates {
    type V = LanguageTemplatesV;

    open spec fn view(&self) -> LanguageTemplatesV {
        LanguageTemplatesV { elixir: self.elixir@, node: self.node@ }
    }
}

impl LanguageTemplates {
    /// Template bodies for the two working providers.
    pub fn new(elixir: TemplateSet, node: TemplateSet) -> (r: LanguageTemplates)
        ensures
            r@ == (LanguageTemplatesV { elixir: elixir@, node: node@ }),
    {
        LanguageTemplates { elixir, node }
    }
}

/// The failure of a plan computation, stated over what the engine can
/// pin down.  A rendering failure is identified by the failing template's
/// name; the accompanying message comes from the template engine and is
/// not specified here.
pub ghost enum PlanErrV {
    UnsupportedLanguage { language: Seq<char> },
    MissingShellCommand { place: Seq<char> },
    Render { template: Seq<char> },
    MissingSource { name: Seq<char> },
}

/// Whether the reported error `e` is the one that the plan failure `p`
/// calls for.
pub open spec fn spec_err_matches(e: ResolveErrorV, p: PlanErrV) -> bool {
    match p {
        PlanErrV::UnsupportedLanguage { language } => e == (ResolveErrorV::UnsupportedLanguage {
            language,
        }),
        PlanErrV::MissingShellCommand { place } => e == (ResolveErrorV::MissingShellCommand {
            place,
        }),
        PlanErrV::Render { template } => e matches ResolveErrorV::RenderFailed {
            template: t,
            message: _,
        } && t == template,
        PlanErrV::MissingSource { name } => e == (ResolveErrorV::MissingSourceTemplate { name }),
    }
}

/// Where the persisted hash of an internal target lives: the file
/// `<name>.hash` inside the configured build directory.
pub open spec fn spec_hash_path(name: Seq<char>, build_dir: Seq<char>) -> Seq<char> {
    crate::strutil::spec_join_path(build_dir, name + ".hash"@)
}

/// The path of the hash sidecar file for the named target.
pub fn hash_file_path(name: &str, build_dir: &str) -> (r: String)
    ensures
        r@ == spec_hash_path(name@, build_dir@),
{
    let mut file_name = String::from_str(name);
    file_name.append(".hash");
    crate::strutil::join_path(build_dir, file_name.as_str())
}

/// View of a [`LanguageTarget`].
pub ghost struct LanguageTargetV {
    pub build_template: TemplateV,
    pub context_json: Seq<char>,
    pub hash: Seq<char>,
    pub run_command: ProgramCommandV,
    pub shell: Option<ShellV>,
    pub source_directory: Seq<char>,
    pub source_templates: Seq<TemplateV>,
}

/// The generic orchestrator of an internal target: a build-manifest
/// template, a serialized context, a precomputed build hash, a run
/// command, an optional shell, a source subdirectory name and the named
/// source templates.
#[derive(Clone, Debug, PartialEq, Eq)]
pub struct LanguageTarget {
    build_template: Template,
    context_json: String,
    hash: String,
    run_command: ProgramCommand,
    shell: Option<Shell>,
    source_directory: String,
    source_templates: Vec<Template>,
}

impl View for LanguageTarget {
    type V = LanguageTargetV;

    closed spec fn view(&self) -> LanguageTargetV {
        LanguageTargetV {
            build_template: self.build_template@,
            context_json: self.context_json@,
            hash: self.hash@,
            run_command: self.run_command@,
            shell: match self.shell {
                Some(s) => Some(s@),
                None => None,
            },
            source_directory: self.source_directory@,
            source_templates: self.source_templates.deep_view(),
        }
    }
}

impl LanguageTarget {
    /// An orchestrator over the given templates, context and commands.
    pub fn new(
        build_template: Template,
        context_json: String,
        hash: String,
        run_command: ProgramCommand,
        shell: Option<Shell>,
        source_directory: String,
        source_templates: Vec<Template>,
    ) -> (r: LanguageTarget)
        ensures
            r@ == (LanguageTargetV {
                build_template: build_template@,
                context_json: context_json@,
                hash: hash@,
                run_command: run_command@,
                shell: match shell {
                    Some(s) => Some(s@),
                    None => None::<ShellV>,
                },
                source_directory: source_directory@,
                source_templates: source_templates.deep_view(),
            }),
    {
        LanguageTarget {
            build_template,
            context_json,
            hash,
            run_command,
            shell,
            source_directory,
            source_templates,
        }
    }

    /// The path of this target's hash sidecar file.
    pub fn hash_path(&self, name: &str, build_dir: &str) -> (r: String)
        ensures
            r@ == spec_hash_path(name@, build_dir@),
    {
        hash_file_path(name, build_dir)
    }

    /// Whether the persisted hash (the contents of the sidecar file, if
    /// it could be read) exactly equals this target's fresh hash.  A
    /// missing or unreadable file arrives as `None` and never counts as
    /// cached.
    pub fn is_cached(&self, stored: &Option<String>) -> (r: bool)
        ensures
            r == (stored.deep_view() == Some(self@.hash)),
    {
        match stored {
            Some(s) => *s == self.hash,
            None => false,
        }
    }
}

/// The rendered source files of an internal target: each template body
/// rendered against the context, placed under the source subdirectory,
/// stopping at the first template that fails to render.
pub open spec fn spec_rendered_sources(
    templates: Seq<TemplateV>,
    dir: Seq<char>,
    ctx: Seq<char>,
) -> Result<Seq<TemplateV>, PlanErrV>
    decreases templates.len(),
{
    if templates.len() == 0 {
        Ok(Seq::<TemplateV>::empty())
    } else {
        match spec_rendered_sources(templates.drop_last(), dir, ctx) {
            Err(e) => Err(e),
            Ok(rs) => match spec_rendering_outcome(templates.last().template, ctx) {
                Some(s) => Ok(
                    rs.push(
                        TemplateV {
                            path: crate::strutil::spec_join_path(dir, templates.last().path),
                            template: s,
                        },
                    ),
                ),
                None => Err(PlanErrV::Render { template: templates.last().path }),
            },
        }
    }
}

proof fn lemma_rendered_sources_err(templates: Seq<TemplateV>, dir: Seq<char>, ctx: Seq<char>, k: int)
    requires
        0 <= k <= templates.len(),
        spec_rendered_sources(templates.take(k), dir, ctx) is Err,
    ensures
        spec_rendered_sources(templates, dir, ctx) == spec_rendered_sources(
            templates.take(k),
            dir,
            ctx,
        ),
    decreases templates.len() - k,
{
    if k == templates.len() {
        assert(templates.take(k) =~= templates);
    } else {
        assert(templates.take(k + 1).drop_last() =~= templates.take(k));
        lemma_rendered_sources_err(templates, dir, ctx, k + 1);
    }
}

/// The output of one full render pass over an internal target: the
/// build manifest, every source file and, when a shell is configured,
/// the `shell.sh` launcher, or the first rendering failure.
pub open spec fn spec_generate_templates(t: LanguageTargetV) -> Result<TemplatesV, PlanErrV> {
    match spec_rendering_outcome(t.build_template.template, t.context_json) {
        None => Err(PlanErrV::Render { template: t.build_template.path }),
        Some(b) => match spec_rendered_sources(t.source_templates, t.source_directory, t.context_json) {
            Err(e) => Err(e),
            Ok(srcs) => match t.shell {
                None => Ok(
                    TemplatesV {
                        build_template: TemplateV { path: t.build_template.path, template: b },
                        source_templates: srcs,
                        shell_template: None,
                    },
                ),
                Some(sh) => match spec_rendering_outcome(sh.template, t.context_json) {
                    None => Err(PlanErrV::Render { template: "shell.sh"@ }),
                    Some(s) => Ok(
                        TemplatesV {
                            build_template: TemplateV { path: t.build_template.path, template: b },
                            source_templates: srcs,
                            shell_template: Some(TemplateV { path: "shell.sh"@, template: s }),
                        },
                    ),
                },
            },
        },
    }
}

impl LanguageTarget {
    /// Renders every template of this target against its context in one
    /// pass.  A failure for any individual template aborts the whole
    /// operation and reports the failing template's name.
    pub fn generate_templates(&self) -> (r: Result<Templates, ResolveError>)
        ensures
            r is Ok <==> spec_generate_templates(self@) is Ok,
            r is Ok ==> r->Ok_0@ == spec_generate_templates(self@)->Ok_0,
            r is Err ==> spec_err_matches(r->Err_0@, spec_generate_templates(self@)->Err_0),
    {
        let built = match crate::render::render_named(
            self.build_template.path.as_str(),
            self.build_template.template.as_str(),
            self.context_json.as_str(),
        ) {
            Ok(s) => s,
            Err(e) => {
                return Err(e);
            },
        };
        let ghost built_view = built@;
        let mut ts = Templates::new(Template::new(self.build_template.path.clone(), built));
        let n = self.source_templates.len();
        let mut i: usize = 0;
        proof {
            assert(self@.source_templates.take(0) =~= Seq::<TemplateV>::empty());
            assert(ts@.source_templates =~= Seq::<TemplateV>::empty());
        }
        while i < n
            invariant
                n == self.source_templates@.len(),
                i <= n,
                self@.source_templates.len() == n,
                forall|j: int|
                    0 <= j < n ==> self@.source_templates[j] == self.source_templates@[j]@,
                spec_rendering_outcome(self@.build_template.template, self@.context_json)
                    == Some(built_view),
                spec_rendered_sources(
                    self@.source_templates.take(i as int),
                    self@.source_directory,
                    self@.context_json,
                ) == Ok::<_, PlanErrV>(ts@.source_templates),
                ts@.build_template == (TemplateV {
                    path: self@.build_template.path,
                    template: built_view,
                }),
                ts@.shell_template is None,
            decreases n - i,
        {
            let st = &self.source_templates[i];
            match crate::render::render_named(
                st.path.as_str(),
                st.template.as_str(),
                self.context_json.as_str(),
            ) {
                Ok(s) => {
                    let p = crate::strutil::join_path(self.source_directory.as_str(), st.path.as_str());
                    ts.add_source_template(p, s);
                    proof {
                        let t1 = self@.source_templates.take(i + 1);
                        assert(t1.drop_last() =~= self@.source_templates.take(i as int));
                        assert(t1.last() == self@.source_templates[i as int]);
                    }
                },
                Err(e) => {
                    proof {
                        let t1 = self@.source_templates.take(i + 1);
                        assert(t1.drop_last() =~= self@.source_templates.take(i as int));
                        assert(t1.last() == self@.source_templates[i as int]);
                        lemma_rendered_sources_err(
                            self@.source_templates,
                            self@.source_directory,
                            self@.context_json,
                            i + 1,
                        );
                    }
                    return Err(e);
                },
            }
            i = i + 1;
        }
        proof {
            assert(self@.source_templates.take(n as int) =~= self@.source_templates);
        }
        match &self.shell {
            None => Ok(ts),
            Some(sh) => {
                match crate::render::render_named(
                    "shell.sh",
                    sh.template.as_str(),
                    self.context_json.as_str(),
                ) {
                    Ok(s) => {
                        ts.add_shell_template(s);
                        Ok(ts)
                    },
                    Err(e) => Err(e),
                }
            },
        }
    }
}

/// The write actions for a sequence of rendered source files, one
/// `WriteFile` under the destination per rendered template.
pub open spec fn spec_source_write_actions(path: Seq<char>, srcs: Seq<TemplateV>) -> Seq<ActionV> {
    Seq::new(
        srcs.len(),
        |i: int|
            ActionV::WriteFile {
                path: crate::strutil::spec_join_path(path, srcs[i].path),
                contents: srcs[i].template,
            },
    )
}

/// The plan that writes an internal target's project below `path`:
/// create the destination, write the rendered build manifest at its
/// root, create the source subdirectory, write each rendered source
/// file under it, and, when a shell is configured, write the rendered
/// launcher as an executable file.
pub open spec fn spec_write_plan(t: LanguageTargetV, path: Seq<char>) -> Result<
    Seq<ActionV>,
    PlanErrV,
> {
    match spec_generate_templates(t) {
        Err(e) => Err(e),
        Ok(tpl) => Ok(
            seq![
                ActionV::CreateDirAll { path: path },
                ActionV::WriteFile {
                    path: crate::strutil::spec_join_path(path, tpl.build_template.path),
                    contents: tpl.build_template.template,
                },
                ActionV::CreateDir {
                    path: crate::strutil::spec_join_path(path, t.source_directory),
                },
            ] + spec_source_write_actions(path, tpl.source_templates) + (match tpl.shell_template {
                None => Seq::<ActionV>::empty(),
                Some(sh) => seq![
                    ActionV::WriteExecutable {
                        path: crate::strutil::spec_join_path(path, sh.path),
                        contents: sh.template,
                    },
                ],
            }),
        ),
    }
}

impl LanguageTarget {
    /// Computes the plan that writes this target's project below
    /// `path`.  Running the same plan against an empty destination
    /// again produces identical file contents: the plan is a function
    /// of the target and the destination alone.
    pub fn write_project(&self, path: &str) -> (r: Result<Vec<Action>, ResolveError>)
        ensures
            r is Ok <==> spec_write_plan(self@, path@) is Ok,
            r is Ok ==> r->Ok_0.deep_view() == spec_write_plan(self@, path@)->Ok_0,
            r is Err ==> spec_err_matches(r->Err_0@, spec_write_plan(self@, path@)->Err_0),
    {
        let templates = match self.generate_templates() {
            Ok(t) => t,
            Err(e) => {
                return Err(e);
            },
        };
        let ghost tplv = spec_generate_templates(self@)->Ok_0;
        let mut plan: Vec<Action> = Vec::new();
        plan.push(Action::CreateDirAll { path: String::from_str(path) });
        plan.push(
            Action::WriteFile {
                path: crate::strutil::join_path(path, templates.build_template.path.as_str()),
                contents: templates.build_template.template.clone(),
            },
        );
        plan.push(
            Action::CreateDir {
                path: crate::strutil::join_path(path, self.source_directory.as_str()),
            },
        );
        let ghost head = seq![
            ActionV::CreateDirAll { path: path@ },
            ActionV::WriteFile {
                path: crate::strutil::spec_join_path(path@, tplv.build_template.path),
                contents: tplv.build_template.template,
            },
            ActionV::CreateDir {
                path: crate::strutil::spec_join_path(path@, self@.source_directory),
            },
        ];
        proof {
            assert(plan.deep_view() =~= head + spec_source_write_actions(
                path@,
                tplv.source_templates.take(0),
            ));
        }
        let n = templates.source_templates.len();
        let mut i: usize = 0;
        while i < n
            invariant
                n == templates.source_templates@.len(),
                i <= n,
                templates@.source_templates.len() == n,
                forall|j: int|
                    0 <= j < n ==> templates@.source_templates[j]
                        == templates.source_templates@[j]@,
                templates@.source_templates == tplv.source_templates,
                plan.deep_view() == head + spec_source_write_actions(
                    path@,
                    tplv.source_templates.take(i as int),
                ),
            decreases n - i,
        {
            let st = &templates.source_templates[i];
            let ghost pre = plan.deep_view();
            plan.push(
                Action::WriteFile {
                    path: crate::strutil::join_path(path, st.path.as_str()),
                    contents: st.template.clone(),
                },
            );
            proof {
                let av = ActionV::WriteFile {
                    path: crate::strutil::spec_join_path(path@, tplv.source_templates[i as int].path),
                    contents: tplv.source_templates[i as int].template,
                };
                assert(plan.deep_view() =~= pre.push(av));
                assert(spec_source_write_actions(path@, tplv.source_templates.take(i + 1))
                    =~= spec_source_write_actions(path@, tplv.source_templates.take(i as int)).push(
                    av,
                ));
                assert(plan.deep_view() =~= head + spec_source_write_actions(
                    path@,
                    tplv.source_templates.take(i + 1),
                ));
            }
            i = i + 1;
        }
        proof {
            assert(tplv.source_templates.take(n as int) =~= tplv.source_templates);
        }
        match &templates.shell_template {
            None => {
                proof {
                    assert(plan.deep_view() =~= spec_write_plan(self@, path@)->Ok_0);
                }
                Ok(plan)
            },
            Some(sh) => {
                plan.push(
                    Action::WriteExecutable {
                        path: crate::strutil::join_path(path, sh.path.as_str()),
                        contents: sh.template.clone(),
                    },
                );
                proof {
                    assert(plan.deep_view() =~= spec_write_plan(self@, path@)->Ok_0);
                }
                Ok(plan)
            },
        }
    }
}

/// Writing a project is idempotent for unchanged inputs: the write
/// plan is a function of the target and the destination alone, so two
/// runs over the same target and destination produce identical file
/// contents.
pub proof fn lemma_write_plan_deterministic(
    t1: LanguageTargetV,
    t2: LanguageTargetV,
    path1: Seq<char>,
    path2: Seq<char>,
)
    requires
        t1 == t2,
        path1 == path2,
    ensures
        spec_write_plan(t1, path1) == spec_write_plan(t2, path2),
{
}

impl ProgramCommand {
    /// A copy of this command with the same program name and arguments.
    pub fn duplicate(&self) -> (r: ProgramCommand)
        ensures
            r@ == self@,
    {
        let r = ProgramCommand {
            command: self.command.clone(),
            args: crate::strutil::clone_string_vec(&self.args),
        };
        proof {
            assert(r@.args =~= self@.args);
        }
        r
    }
}

/// The first template in the list whose path equals `name`.
pub open spec fn spec_find_template(templates: Seq<TemplateV>, name: Seq<char>) -> Option<
    TemplateV,
>
    decreases templates.len(),
{
    if templates.len() == 0 {
        None
    } else if templates[0].path == name {
        Some(templates[0])
    } else {
        spec_find_template(templates.drop_first(), name)
    }
}

fn find_template<'a>(templates: &'a Vec<Template>, name: &str) -> (r: Option<&'a Template>)
    ensures
        match r {
            Some(t) => spec_find_template(templates.deep_view(), name@) == Some(t@),
            None => spec_find_template(templates.deep_view(), name@) is None,
        },
{
    let n = templates.len();
    let mut i: usize = 0;
    proof {
        assert(templates.deep_view().skip(0) =~= templates.deep_view());
    }
    while i < n
        invariant
            n == templates@.len(),
            i <= n,
            templates.deep_view().len() == n,
            forall|j: int| 0 <= j < n ==> templates.deep_view()[j] == templates@[j]@,
            spec_find_template(templates.deep_view(), name@) == spec_find_template(
                templates.deep_view().skip(i as int),
                name@,
            ),
        decreases n - i,
    {
        let t = &templates[i];
        if crate::strutil::str_eq(t.path.as_str(), name) {
            proof {
                assert(templates.deep_view().skip(i as int)[0] == templates.deep_view()[i as int]);
            }
            return Some(t);
        }
        proof {
            assert(templates.deep_view().skip(i as int).drop_first() =~= templates.deep_view().skip(
                i + 1,
            ));
            assert(templates.deep_view().skip(i as int)[0] == templates.deep_view()[i as int]);
        }
        i = i + 1;
    }
    proof {
        assert(templates.deep_view().skip(n as int) =~= Seq::<TemplateV>::empty());
    }
    None
}

/// The optional interactive-shell step of an internal target: nothing
/// when no shell is configured, and otherwise a `RunWithStdin` step
/// whose command follows the shell recipe.  A recipe that depends on a
/// rendered source re-renders that source template, which by
/// determinism of rendering equals the file written during the write
/// phase.
pub open spec fn spec_shell_action(t: LanguageTargetV, dir: Seq<char>) -> Result<
    Option<ActionV>,
    PlanErrV,
> {
    match t.shell {
        None => Ok(None),
        Some(sh) => match sh.recipe {
            ShellRecipeV::Fixed { command } => Ok(
                Some(ActionV::RunWithStdin { dir: Some(dir), command }),
            ),
            ShellRecipeV::WithRenderedSource { program, args, source_name } => match spec_find_template(
                t.source_templates,
                source_name,
            ) {
                None => Err(PlanErrV::MissingSource { name: source_name }),
                Some(tpl) => match spec_rendering_outcome(tpl.template, t.context_json) {
                    None => Err(PlanErrV::Render { template: source_name }),
                    Some(body) => Ok(
                        Some(
                            ActionV::RunWithStdin {
                                dir: Some(dir),
                                command: ProgramCommandV { command: program, args: args.push(body) },
                            },
                        ),
                    ),
                },
            },
        },
    }
}

/// The run plan of an internal target: the build command in the project
/// directory, followed by the interactive shell when one is configured.
pub open spec fn spec_run_plan(t: LanguageTargetV, dir: Seq<char>) -> Result<
    Seq<ActionV>,
    PlanErrV,
> {
    match spec_shell_action(t, dir) {
        Err(e) => Err(e),
        Ok(None) => Ok(seq![ActionV::Run { dir: Some(dir), command: t.run_command }]),
        Ok(Some(a)) => Ok(seq![ActionV::Run { dir: Some(dir), command: t.run_command }, a]),
    }
}

impl LanguageTarget {
    fn shell_action(&self, dir: &str) -> (r: Result<Option<Action>, ResolveError>)
        ensures
            r is Ok <==> spec_shell_action(self@, dir@) is Ok,
            r is Ok ==> (match (r->Ok_0, spec_shell_action(self@, dir@)->Ok_0) {
                (Some(a), Some(av)) => a@ == av,
                (None, None) => true,
                _ => false,
            }),
            r is Err ==> spec_err_matches(r->Err_0@, spec_shell_action(self@, dir@)->Err_0),
    {
        match &self.shell {
            None => Ok(None),
            Some(sh) => match &sh.recipe {
                ShellRecipe::Fixed { command } => Ok(
                    Some(
                        Action::RunWithStdin {
                            dir: Some(String::from_str(dir)),
                            command: command.duplicate(),
                        },
                    ),
                ),
                ShellRecipe::WithRenderedSource { program, args, source_name } => {
                    let tpl = match find_template(&self.source_templates, source_name.as_str()) {
                        Some(t) => t,
                        None => {
                            return Err(
                                ResolveError::MissingSourceTemplate { name: source_name.clone() },
                            );
                        },
                    };
                    let body = match crate::render::render_named(
                        source_name.as_str(),
                        tpl.template.as_str(),
                        self.context_json.as_str(),
                    ) {
                        Ok(s) => s,
                        Err(e) => {
                            return Err(e);
                        },
                    };
                    let ghost bv = body@;
                    let mut full_args = crate::strutil::clone_string_vec(args);
                    full_args.push(body);
                    proof {
                        assert(full_args.deep_view() =~= args.deep_view().push(bv));
                    }
                    Ok(
                        Some(
                            Action::RunWithStdin {
                                dir: Some(String::from_str(dir)),
                                command: ProgramCommand::new(program.clone(), full_args),
                            },
                        ),
                    )
                },
            },
        }
    }

    /// Computes the plan that builds this target and, when configured,
    /// drops into its interactive shell: spawn the run command in `dir`,
    /// then the shell command with standard input forwarded.
    pub fn run(&self, dir: &str) -> (r: Result<Vec<Action>, ResolveError>)
        ensures
            r is Ok <==> spec_run_plan(self@, dir@) is Ok,
            r is Ok ==> r->Ok_0.deep_view() == spec_run_plan(self@, dir@)->Ok_0,
            r is Err ==> spec_err_matches(r->Err_0@, spec_run_plan(self@, dir@)->Err_0),
    {
        let sa = match self.shell_action(dir) {
            Ok(a) => a,
            Err(e) => {
                return Err(e);
            },
        };
        let mut plan: Vec<Action> = Vec::new();
        plan.push(
            Action::Run {
                dir: Some(String::from_str(dir)),
                command: self.run_command.duplicate(),
            },
        );
        match sa {
            None => {
                proof {
                    assert(plan.deep_view() =~= spec_run_plan(self@, dir@)->Ok_0);
                }
                Ok(plan)
            },
            Some(a) => {
                plan.push(a);
                proof {
                    assert(plan.deep_view() =~= spec_run_plan(self@, dir@)->Ok_0);
                }
                Ok(plan)
            },
        }
    }
}

/// The plan that resolves a repository-backed target: clone the source
/// into the destination, run the build command there, and, when a shell
/// was requested, run the configured shell command with standard input
/// forwarded.  Requesting a shell on a target that configures none
/// fails before anything is cloned.
pub open spec fn spec_pull_git_repo(
    project_path: Seq<char>,
    repo: RemoteTargetV,
    shell: bool,
) -> Result<Seq<ActionV>, PlanErrV> {
    if shell && repo.shell is None {
        Err(PlanErrV::MissingShellCommand { place: "git repo"@ })
    } else {
        Ok(
            seq![
                ActionV::Run {
                    dir: None,
                    command: ProgramCommandV {
                        command: "git"@,
                        args: seq!["clone"@, repo.path, project_path],
                    },
                },
                ActionV::Run {
                    dir: Some(project_path),
                    command: ProgramCommandV {
                        command: repo.build_command,
                        args: repo.build_args,
                    },
                },
            ] + (if shell {
                seq![ActionV::RunWithStdin { dir: Some(project_path), command: repo.shell->0 }]
            } else {
                Seq::<ActionV>::empty()
            }),
        )
    }
}

/// Computes the plan that clones and builds a repository-backed target.
pub fn pull_git_repo(project_path: String, repo: &RemoteTarget, shell: bool) -> (r: Result<
    Vec<Action>,
    ResolveError,
>)
    ensures
        r is Ok <==> spec_pull_git_repo(project_path@, repo@, shell) is Ok,
        r is Ok ==> r->Ok_0.deep_view() == spec_pull_git_repo(project_path@, repo@, shell)->Ok_0,
        r is Err ==> spec_err_matches(
            r->Err_0@,
            spec_pull_git_repo(project_path@, repo@, shell)->Err_0,
        ),
{
    if shell && repo.shell.is_none() {
        return Err(ResolveError::MissingShellCommand { place: String::from_str("git repo") });
    }
    let mut plan: Vec<Action> = Vec::new();
    let mut clone_args: Vec<String> = Vec::new();
    clone_args.push(String::from_str("clone"));
    clone_args.push(repo.path.clone());
    clone_args.push(project_path.clone());
    proof {
        assert(clone_args.deep_view() =~= seq!["clone"@, repo@.path, project_path@]);
    }
    plan.push(
        Action::Run {
            dir: None,
            command: ProgramCommand::new(String::from_str("git"), clone_args),
        },
    );
    plan.push(
        Action::Run {
            dir: Some(project_path.clone()),
            command: ProgramCommand::new(
                repo.build_command.clone(),
                crate::strutil::clone_string_vec(&repo.build_args),
            ),
        },
    );
    proof {
        assert(plan.deep_view()[1]->Run_command.args =~= repo@.build_args);
    }
    if shell {
        if let Some(c) = &repo.shell {
            plan.push(
                Action::RunWithStdin { dir: Some(project_path), command: c.duplicate() },
            );
        }
    }
    proof {
        assert(plan.deep_view() =~= spec_pull_git_repo(project_path@, repo@, shell)->Ok_0);
    }
    Ok(plan)
}

/// Whether the `/`-separated relative path holds `name` as one of its
/// components.
pub open spec fn spec_has_component(rel: Seq<char>, name: Seq<char>) -> bool {
    ||| rel == name
    ||| crate::strutil::spec_is_prefix(name + "/"@, rel)
    ||| crate::strutil::spec_is_suffix("/"@ + name, rel)
    ||| crate::strutil::spec_has_substring("/"@ + name + "/"@, rel)
}

/// Whether a relative path falls under the fixed ignore list of the
/// directory copy: any path with a `node_modules` component (a
/// dependency-cache folder) is excluded from the copied output.
pub open spec fn spec_entry_ignored(rel: Seq<char>) -> bool {
    spec_has_component(rel, "node_modules"@)
}

/// Whether the entry at this relative path is excluded from the copy.
pub fn is_ignored_path(rel: &str) -> (r: bool)
    ensures
        r == spec_entry_ignored(rel@),
{
    proof {
        reveal_strlit("/");
        reveal_strlit("node_modules");
        reveal_strlit("node_modules/");
        reveal_strlit("/node_modules");
        reveal_strlit("/node_modules/");
        assert("node_modules/"@ =~= "node_modules"@ + "/"@);
        assert("/node_modules"@ =~= "/"@ + "node_modules"@);
        assert("/node_modules/"@ =~= "/"@ + "node_modules"@ + "/"@);
    }
    if crate::strutil::str_eq(rel, "node_modules") {
        return true;
    }
    if crate::strutil::str_is_prefix(rel, "node_modules/") {
        return true;
    }
    if crate::strutil::str_is_suffix(rel, "/node_modules") {
        return true;
    }
    crate::strutil::str_has_substring(rel, "/node_modules/")
}

/// The copy steps for a directory listing: ignored entries contribute
/// nothing; a directory is recreated below the destination; a file is
/// copied from the source tree to the matching relative path below the
/// destination.
pub open spec fn spec_copy_actions(
    entries: Seq<FsEntryV>,
    src_root: Seq<char>,
    dst: Seq<char>,
) -> Seq<ActionV>
    decreases entries.len(),
{
    if entries.len() == 0 {
        Seq::<ActionV>::empty()
    } else {
        let rest = spec_copy_actions(entries.drop_last(), src_root, dst);
        let e = entries.last();
        if spec_entry_ignored(e.rel_path) {
            rest
        } else if e.is_dir {
            rest + seq![
                ActionV::CreateDirAll { path: crate::strutil::spec_join_path(dst, e.rel_path) },
            ]
        } else {
            rest + seq![
                ActionV::CopyFile {
                    from: crate::strutil::spec_join_path(src_root, e.rel_path),
                    to: crate::strutil::spec_join_path(dst, e.rel_path),
                },
            ]
        }
    }
}

/// Entries with an ignored component contribute nothing to the copy:
/// the copy steps of a listing equal the copy steps of the listing with
/// every ignored entry removed.
pub proof fn lemma_copy_actions_skip_ignored(
    entries: Seq<FsEntryV>,
    src_root: Seq<char>,
    dst: Seq<char>,
)
    ensures
        spec_copy_actions(entries, src_root, dst) == spec_copy_actions(
            entries.filter(|e: FsEntryV| !spec_entry_ignored(e.rel_path)),
            src_root,
            dst,
        ),
    decreases entries.len(),
{
    reveal(Seq::filter);
    let pred = |e: FsEntryV| !spec_entry_ignored(e.rel_path);
    if entries.len() == 0 {
        assert(entries.filter(pred) =~= entries);
    } else {
        lemma_copy_actions_skip_ignored(entries.drop_last(), src_root, dst);
        let e = entries.last();
        if pred(e) {
            assert(entries.filter(pred) == entries.drop_last().filter(pred).push(e));
            assert(entries.filter(pred).drop_last() =~= entries.drop_last().filter(pred));
            assert(entries.filter(pred).last() == e);
        } else {
            assert(entries.filter(pred) == entries.drop_last().filter(pred));
        }
    }
}

/// The plan that resolves a directory-backed target: create the
/// destination, copy the listed entries (skipping the ignore list),
/// run the build command in the destination, and, when a shell was
/// requested, run the configured shell command with standard input
/// forwarded.  Requesting a shell on a target that configures none
/// fails before anything is copied.
pub open spec fn spec_copy_build_directory(
    project_path: Seq<char>,
    build: RemoteTargetV,
    shell: bool,
    entries: Seq<FsEntryV>,
) -> Result<Seq<ActionV>, PlanErrV> {
    if shell && build.shell is None {
        Err(PlanErrV::MissingShellCommand { place: "build folder"@ })
    } else {
        Ok(
            seq![ActionV::CreateDirAll { path: project_path }] + spec_copy_actions(
                entries,
                build.path,
                project_path,
            ) + seq![
                ActionV::Run {
                    dir: Some(project_path),
                    command: ProgramCommandV {
                        command: build.build_command,
                        args: build.build_args,
                    },
                },
            ] + (if shell {
                seq![ActionV::RunWithStdin { dir: Some(project_path), command: build.shell->0 }]
            } else {
                Seq::<ActionV>::empty()
            }),
        )
    }
}

/// Computes the plan that copies and builds a directory-backed target.
/// `entries` is the recursive listing of the source tree, by relative
/// path, as gathered by the embedding application.
pub fn copy_build_directory(
    project_path: String,
    build: &RemoteTarget,
    shell: bool,
    entries: &Vec<FsEntry>,
) -> (r: Result<Vec<Action>, ResolveError>)
    ensures
        r is Ok <==> spec_copy_build_directory(project_path@, build@, shell, entries.deep_view())
            is Ok,
        r is Ok ==> r->Ok_0.deep_view() == spec_copy_build_directory(
            project_path@,
            build@,
            shell,
            entries.deep_view(),
        )->Ok_0,
        r is Err ==> spec_err_matches(
            r->Err_0@,
            spec_copy_build_directory(project_path@, build@, shell, entries.deep_view())->Err_0,
        ),
{
    if shell && build.shell.is_none() {
        return Err(ResolveError::MissingShellCommand { place: String::from_str("build folder") });
    }
    let mut plan: Vec<Action> = Vec::new();
    plan.push(Action::CreateDirAll { path: project_path.clone() });
    let ghost head = seq![ActionV::CreateDirAll { path: project_path@ }];
    proof {
        assert(entries.deep_view().take(0) =~= Seq::<FsEntryV>::empty());
        assert(plan.deep_view() =~= head + spec_copy_actions(
            entries.deep_view().take(0),
            build@.path,
            project_path@,
        ));
    }
    let n = entries.len();
    let mut i: usize = 0;
    while i < n
        invariant
            n == entries@.len(),
            i <= n,
            entries.deep_view().len() == n,
            forall|j: int| 0 <= j < n ==> entries.deep_view()[j] == entries@[j]@,
            plan.deep_view() == head + spec_copy_actions(
                entries.deep_view().take(i as int),
                build@.path,
                project_path@,
            ),
        decreases n - i,
    {
        let e = &entries[i];
        let ghost pre = plan.deep_view();
        let ghost ev = entries.deep_view()[i as int];
        if !is_ignored_path(e.rel_path.as_str()) {
            if e.is_dir {
                plan.push(
                    Action::CreateDirAll {
                        path: crate::strutil::join_path(project_path.as_str(), e.rel_path.as_str()),
                    },
                );
                proof {
                    assert(plan.deep_view() =~= pre + seq![
                        ActionV::CreateDirAll {
                            path: crate::strutil::spec_join_path(project_path@, ev.rel_path),
                        },
                    ]);
                }
            } else {
                plan.push(
                    Action::CopyFile {
                        from: crate::strutil::join_path(build.path.as_str(), e.rel_path.as_str()),
                        to: crate::strutil::join_path(project_path.as_str(), e.rel_path.as_str()),
                    },
                );
                proof {
                    assert(plan.deep_view() =~= pre + seq![
                        ActionV::CopyFile {
                            from: crate::strutil::spec_join_path(build@.path, ev.rel_path),
                            to: crate::strutil::spec_join_path(project_path@, ev.rel_path),
                        },
                    ]);
                }
            }
        }
        proof {
            let t1 = entries.deep_view().take(i + 1);
            assert(t1.drop_last() =~= entries.deep_view().take(i as int));
            assert(t1.last() == ev);
            assert(plan.deep_view() =~= head + spec_copy_actions(t1, build@.path, project_path@));
        }
        i = i + 1;
    }
    proof {
        assert(entries.deep_view().take(n as int) =~= entries.deep_view());
    }
    plan.push(
        Action::Run {
            dir: Some(project_path.clone()),
            command: ProgramCommand::new(
                build.build_command.clone(),
                crate::strutil::clone_string_vec(&build.build_args),
            ),
        },
    );
    if shell {
        if let Some(c) = &build.shell {
            plan.push(
                Action::RunWithStdin { dir: Some(project_path), command: c.duplicate() },
            );
        }
    }
    proof {
        assert(plan.deep_view() =~= spec_copy_build_directory(
            project_path@,
            build@,
            shell,
            entries.deep_view(),
        )->Ok_0);
    }
    Ok(plan)
}

/// The plan that builds an internal target below `path`: write the
/// project, run the build command there, persist the fresh hash into
/// the build directory (so the cache is effective across invocations),
/// and, when a shell is configured, drop into it.
pub open spec fn spec_execute_plan(
    lt: LanguageTargetV,
    path: Seq<char>,
    name: Seq<char>,
    build_dir: Seq<char>,
) -> Result<Seq<ActionV>, PlanErrV> {
    match spec_write_plan(lt, path) {
        Err(e) => Err(e),
        Ok(wp) => match spec_shell_action(lt, path) {
            Err(e) => Err(e),
            Ok(sa) => Ok(
                wp + seq![
                    ActionV::Run { dir: Some(path), command: lt.run_command },
                    ActionV::WriteFile {
                        path: spec_hash_path(name, build_dir),
                        contents: lt.hash,
                    },
                ] + (match sa {
                    None => Seq::<ActionV>::empty(),
                    Some(a) => seq![a],
                }),
            ),
        },
    }
}

/// The resolution of an internal target: a `rust` target fails
/// explicitly; otherwise the matching provider is built, and on a cache
/// hit (unless the cache is bypassed) the plan is empty, else it is the
/// full build plan.
pub open spec fn spec_execute(
    t: DefaultTargetV,
    path: Seq<char>,
    want_shell: bool,
    no_cache: bool,
    build_dir: Seq<char>,
    stored: Option<Seq<char>>,
    tpls: LanguageTemplatesV,
) -> Result<Seq<ActionV>, PlanErrV> {
    if t.language == SupportedLanguage::Rust {
        Err(PlanErrV::UnsupportedLanguage { language: "rust"@ })
    } else {
        let lt = if t.language == SupportedLanguage::Elixir {
            crate::elixir::spec_elixir_target(t.deps, want_shell, tpls.elixir)
        } else {
            crate::node::spec_node_target(t.deps, want_shell, tpls.node)
        };
        if !no_cache && stored == Some(lt.hash) {
            Ok(Seq::<ActionV>::empty())
        } else {
            spec_execute_plan(lt, path, t.name, build_dir)
        }
    }
}

impl DefaultTarget {
    /// Resolves this internal target.  The language provider is
    /// selected, the build cache consulted against the stored hash the
    /// caller read from disk; on a cache miss, or when the cache is
    /// bypassed, the plan writes the project, runs the build command,
    /// persists the fresh hash and optionally drops into the shell.  On
    /// a cache hit the plan is empty: the cache only detects that a
    /// rebuild can be skipped; restoring a previously built tree is not
    /// implemented.  Selecting `rust` fails explicitly, since the
    /// language is recognized but has no working provider.
    pub fn execute(
        &self,
        opts: &crate::opts::Opts,
        build_dir: &str,
        stored_hash: &Option<String>,
        templates: &LanguageTemplates,
    ) -> (r: Result<Vec<Action>, ResolveError>)
        ensures
            ({
                let s = spec_execute(
                    self@,
                    opts@.path,
                    opts@.shell,
                    opts@.no_cache,
                    build_dir@,
                    stored_hash.deep_view(),
                    templates@,
                );
                &&& (r is Ok <==> s is Ok)
                &&& (r is Ok ==> r->Ok_0.deep_view() == s->Ok_0)
                &&& (r is Err ==> spec_err_matches(r->Err_0@, s->Err_0))
            }),
    {
        let lt = match self.language {
            SupportedLanguage::Rust => {
                return Err(
                    ResolveError::UnsupportedLanguage { language: String::from_str("rust") },
                );
            },
            SupportedLanguage::Elixir => crate::elixir::new(
                &self.deps,
                opts.get_shell(),
                &templates.elixir,
            ),
            SupportedLanguage::Node => crate::node::new(
                &self.deps,
                opts.get_shell(),
                &templates.node,
            ),
        };
        let cached = lt.is_cached(stored_hash);
        if !opts.get_no_cache() && cached {
            let empty: Vec<Action> = Vec::new();
            proof {
                assert(empty.deep_view() =~= Seq::<ActionV>::empty());
            }
            return Ok(empty);
        }
        let path = opts.get_path();
        let mut plan = match lt.write_project(path.as_str()) {
            Ok(p) => p,
            Err(e) => {
                return Err(e);
            },
        };
        let sa = match lt.shell_action(path.as_str()) {
            Ok(a) => a,
            Err(e) => {
                return Err(e);
            },
        };
        let ghost wpv = spec_write_plan(lt@, path@)->Ok_0;
        plan.push(Action::Run { dir: Some(path.clone()), command: lt.run_command.duplicate() });
        plan.push(
            Action::WriteFile {
                path: hash_file_path(self.name.as_str(), build_dir),
                contents: lt.hash.clone(),
            },
        );
        proof {
            assert(plan.deep_view() =~= wpv + seq![
                ActionV::Run { dir: Some(path@), command: lt@.run_command },
                ActionV::WriteFile {
                    path: spec_hash_path(self@.name, build_dir@),
                    contents: lt@.hash,
                },
            ]);
        }
        match sa {
            None => {
                proof {
                    assert(plan.deep_view() =~= spec_execute_plan(
                        lt@,
                        path@,
                        self@.name,
                        build_dir@,
                    )->Ok_0);
                }
                Ok(plan)
            },
            Some(a) => {
                plan.push(a);
                proof {
                    assert(plan.deep_view() =~= spec_execute_plan(
                        lt@,
                        path@,
                        self@.name,
                        build_dir@,
                    )->Ok_0);
                }
                Ok(plan)
            },
        }
    }
}

/// The top-level resolution of a configured target: an internal target
/// goes through its language provider and the build cache; a
/// repository-backed target is cloned and built; a directory-backed
/// target is copied (under the ignore list) and built.
pub open spec fn spec_resolve(
    target: TargetV,
    path: Seq<char>,
    want_shell: bool,
    no_cache: bool,
    build_dir: Seq<char>,
    stored: Option<Seq<char>>,
    entries: Seq<FsEntryV>,
    tpls: LanguageTemplatesV,
) -> Result<Seq<ActionV>, PlanErrV> {
    match target {
        TargetV::Internal(t) => spec_execute(
            t,
            path,
            want_shell,
            no_cache,
            build_dir,
            stored,
            tpls,
        ),
        TargetV::Repo(rt) => spec_pull_git_repo(path, rt, want_shell),
        TargetV::Directory(dt) => spec_copy_build_directory(path, dt, want_shell, entries),
    }
}

/// Resolves a configured target into the plan that scaffolds and
/// builds it.  `stored_hash` is the contents of the target's hash
/// sidecar file, if it could be read; `entries` is the recursive
/// listing of the source tree of a directory-backed target (and is
/// ignored for the other variants); `templates` holds the provider
/// template bodies.
pub fn resolve(
    target: &Target,
    opts: &crate::opts::Opts,
    build_dir: &str,
    stored_hash: &Option<String>,
    entries: &Vec<FsEntry>,
    templates: &LanguageTemplates,
) -> (r: Result<Vec<Action>, ResolveError>)
    ensures
        ({
            let s = spec_resolve(
                target@,
                opts@.path,
                opts@.shell,
                opts@.no_cache,
                build_dir@,
                stored_hash.deep_view(),
                entries.deep_view(),
                templates@,
            );
            &&& (r is Ok <==> s is Ok)
            &&& (r is Ok ==> r->Ok_0.deep_view() == s->Ok_0)
            &&& (r is Err ==> spec_err_matches(r->Err_0@, s->Err_0))
        }),
{
    match target {
        Target::Internal(t) => t.execute(opts, build_dir, stored_hash, templates),
        Target::Repo(rt) => pull_git_repo(opts.get_path(), rt, opts.get_shell()),
        Target::Directory(dt) => copy_build_directory(
            opts.get_path(),
            dt,
            opts.get_shell(),
            entries,
        ),
    }
}

} // verus!
