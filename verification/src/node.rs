//! The Node language provider.
//!
//! Supplies the template wiring of an internal Node target: a
//! `package.json` build manifest, an `index.js` source stub under
//! `src`, an `npm i` build command and an optional interactive `node`
//! REPL whose final argument is the rendered source stub.  The literal
//! template bodies are configuration handed in by the caller.

use vstd::prelude::*;

use crate::hashing::generate_hash;
use crate::hashing::spec_generate_hash;
use crate::jsonenc::push_json_dep_array;
use crate::jsonenc::push_json_string;
use crate::jsonenc::push_json_string_array;
use crate::jsonenc::spec_json_dep_array;
use crate::jsonenc::spec_json_string;
use crate::jsonenc::spec_json_string_array;
use crate::target::DepView;
use crate::target::Dependencies;
use crate::target::LanguageTarget;
use crate::target::LanguageTargetV;
use crate::target::ProgramCommand;
use crate::target::ProgramCommandV;
use crate::target::Shell;
use crate::target::ShellRecipe;
use crate::target::ShellRecipeV;
use crate::target::ShellV;
use crate::target::SupportedLanguage;
use crate::target::Template;
use crate::target::TemplateSet;
use crate::target::TemplateSetV;
use crate::target::TemplateV;
use crate::target::clone_dependencies;

verus! {

/// View of a [`Context`].
pub ghost struct ContextV {
    pub deps: Seq<DepView>,
    pub dep_string: Seq<char>,
    pub packages: Seq<Seq<char>>,
}

/// The template context of a Node project: the dependency list, the
/// rendered dependency string and the package names.
#[derive(Clone, Debug, PartialEq, Eq)]
pub struct Context {
    pub deps: Dependencies,
    pub dep_string: String,
    pub packages: Vec<String>,
}

impl View for Context {
    type V = ContextV;

    open spec fn view(&self) -> ContextV {
        ContextV {
            deps: self.deps.deep_view(),
            dep_string: self.dep_string@,
            packages: self.packages.deep_view(),
        }
    }
}

/// The `package.json` entry for one dependency.
pub open spec fn spec_dep_entry(d: DepView) -> Seq<char> {
    "\""@ + d.name + "\": \"^"@ + d.version + "\""@
}

/// The full `package.json` dependency string: entries joined by a
/// comma and a newline.
pub open spec fn spec_dep_string(deps: Seq<DepView>) -> Seq<char>
    decreases deps.len(),
{
    if deps.len() == 0 {
        Seq::<char>::empty()
    } else if deps.len() == 1 {
        spec_dep_entry(deps[0])
    } else {
        spec_dep_string(deps.drop_last()) + ",\n"@ + spec_dep_entry(deps.last())
    }
}

/// Renders the dependency list the way `package.json` declares it.
pub fn generate_dep_string(deps: &Dependencies) -> (r: String)
    ensures
        r@ == spec_dep_string(deps.deep_view()),
{
    let mut s = String::new();
    let n = deps.len();
    let mut i: usize = 0;
    proof {
        assert(deps.deep_view().take(0) =~= Seq::<DepView>::empty());
    }
    while i < n
        invariant
            n == deps@.len(),
            i <= n,
            deps.deep_view().len() == n,
            forall|j: int| 0 <= j < n ==> deps.deep_view()[j] == deps@[j].deep_view(),
            s@ == spec_dep_string(deps.deep_view().take(i as int)),
        decreases n - i,
    {
        if i > 0 {
            s.append(",\n");
        }
        let d = &deps[i];
        s.append("\"");
        s.append(d.name.as_str());
        s.append("\": \"^");
        s.append(d.version.as_str());
        s.append("\"");
        proof {
            let t1 = deps.deep_view().take(i + 1);
            assert(t1.drop_last() =~= deps.deep_view().take(i as int));
            assert(t1.last() == deps.deep_view()[i as int]);
            assert(s@ =~= spec_dep_string(t1));
        }
        i = i + 1;
    }
    proof {
        assert(deps.deep_view().take(n as int) =~= deps.deep_view());
    }
    s
}

/// The package names of a dependency list: each dependency's name, in
/// order.
pub open spec fn spec_packages(deps: Seq<DepView>) -> Seq<Seq<char>> {
    deps.map_values(|d: DepView| d.name)
}

/// Lists the packages that the generated project depends on.
pub fn generate_packages(deps: &Dependencies) -> (r: Vec<String>)
    ensures
        r.deep_view() == spec_packages(deps.deep_view()),
{
    let mut r: Vec<String> = Vec::new();
    let n = deps.len();
    let mut i: usize = 0;
    while i < n
        invariant
            n == deps@.len(),
            i <= n,
            deps.deep_view().len() == n,
            forall|j: int| 0 <= j < n ==> deps.deep_view()[j] == deps@[j].deep_view(),
            r.deep_view() == spec_packages(deps.deep_view().take(i as int)),
        decreases n - i,
    {
        r.push(deps[i].name.clone());
        proof {
            let t1 = deps.deep_view().take(i + 1);
            assert(spec_packages(t1) =~= spec_packages(deps.deep_view().take(i as int)).push(
                deps.deep_view()[i as int].name,
            ));
            assert(r.deep_view() =~= spec_packages(t1));
        }
        i = i + 1;
    }
    proof {
        assert(deps.deep_view().take(n as int) =~= deps.deep_view());
    }
    r
}

/// The context built for a dependency list.
pub open spec fn spec_context(deps: Seq<DepView>) -> ContextV {
    ContextV { deps: deps, dep_string: spec_dep_string(deps), packages: spec_packages(deps) }
}

/// The JSON document handed to the template engine for a context.
pub open spec fn spec_context_json(c: ContextV) -> Seq<char> {
    "{\"deps\":"@ + spec_json_dep_array(c.deps) + ",\"dep_string\":"@ + spec_json_string(
        c.dep_string,
    ) + ",\"packages\":"@ + spec_json_string_array(c.packages) + "}"@
}

impl Context {
    /// Serializes this context as the JSON document the template
    /// engine renders against.
    pub fn to_json(&self) -> (r: String)
        ensures
            r@ == spec_context_json(self@),
    {
        let mut s = String::from_str("{\"deps\":");
        push_json_dep_array(&mut s, &self.deps);
        s.append(",\"dep_string\":");
        push_json_string(&mut s, self.dep_string.as_str());
        s.append(",\"packages\":");
        push_json_string_array(&mut s, &self.packages);
        s.append("}");
        s
    }
}

/// The fully constructed Node target for a dependency list: its
/// templates, context, build hash, `npm i` build command and optional
/// interactive `node` REPL fed with the rendered source stub.
pub open spec fn spec_node_target(
    deps: Seq<DepView>,
    shell: bool,
    tpl: TemplateSetV,
) -> LanguageTargetV {
    LanguageTargetV {
        build_template: TemplateV { path: "package.json"@, template: tpl.build_template },
        context_json: spec_context_json(spec_context(deps)),
        hash: spec_generate_hash(SupportedLanguage::Node, deps),
        run_command: ProgramCommandV { command: "npm"@, args: seq!["i"@] },
        shell: if shell {
            Some(
                ShellV {
                    recipe: ShellRecipeV::WithRenderedSource {
                        program: "node"@,
                        args: seq!["-i"@, "--experimental-repl-await"@, "-e"@],
                        source_name: "index.js"@,
                    },
                    template: tpl.shell_template,
                },
            )
        } else {
            None
        },
        source_directory: "src"@,
        source_templates: seq![TemplateV { path: "index.js"@, template: tpl.source_template }],
    }
}

/// Builds the Node language target for the given dependencies,
/// requesting a shell when asked, over the supplied template bodies.
pub fn new(deps: &Dependencies, shell: bool, templates: &TemplateSet) -> (r: LanguageTarget)
    ensures
        r@ == spec_node_target(deps.deep_view(), shell, templates@),
{
    let context = Context {
        deps: clone_dependencies(deps),
        dep_string: generate_dep_string(deps),
        packages: generate_packages(deps),
    };
    let context_json = context.to_json();
    let mut run_args: Vec<String> = Vec::new();
    run_args.push(String::from_str("i"));
    proof {
        assert(run_args.deep_view() =~= seq!["i"@]);
    }
    let run_command = ProgramCommand::new(String::from_str("npm"), run_args);
    let shell_opt: Option<Shell> = if shell {
        let mut node_args: Vec<String> = Vec::new();
        node_args.push(String::from_str("-i"));
        node_args.push(String::from_str("--experimental-repl-await"));
        node_args.push(String::from_str("-e"));
        proof {
            assert(node_args.deep_view() =~= seq!["-i"@, "--experimental-repl-await"@, "-e"@]);
        }
        Some(
            Shell::new(
                ShellRecipe::WithRenderedSource {
                    program: String::from_str("node"),
                    args: node_args,
                    source_name: String::from_str("index.js"),
                },
                templates.shell_template.clone(),
            ),
        )
    } else {
        None
    };
    let mut sources: Vec<Template> = Vec::new();
    sources.push(Template::new(String::from_str("index.js"), templates.source_template.clone()));
    proof {
        assert(sources.deep_view() =~= seq![
            TemplateV { path: "index.js"@, template: templates@.source_template },
        ]);
    }
    LanguageTarget::new(
        Template::new(String::from_str("package.json"), templates.build_template.clone()),
        context_json,
        generate_hash(deps, SupportedLanguage::Node),
        run_command,
        shell_opt,
        String::from_str("src"),
        sources,
    )
}

} // verus!
