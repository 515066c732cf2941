//! The configuration model and the built-in default configuration.

use vstd::prelude::*;

use crate::target::DefaultTarget;
use crate::target::DefaultTargetV;
use crate::target::DepView;
use crate::target::Dependencies;
use crate::target::Dependency;
use crate::target::ProgramCommand;
use crate::target::ProgramCommandV;
use crate::target::RemoteTarget;
use crate::target::RemoteTargetV;
use crate::target::SupportedLanguage;
use crate::target::Target;
use crate::target::TargetV;

verus! {

/// View of a [`Config`].
pub ghost struct ConfigV {
    pub build_dir: Seq<char>,
    pub cache: Option<bool>,
    pub default_target: Seq<char>,
    pub targets: Seq<(Seq<char>, TargetV)>,
}

/// The tool's configuration: the build-cache directory, whether the
/// cache is enabled, the target resolved when none is named, and the
/// named targets in declaration order.
#[derive(Clone, Debug, PartialEq, Eq)]
pub struct Config {
    pub build_dir: String,
    pub cache: Option<bool>,
    pub default_target: String,
    pub targets: Vec<(String, Target)>,
}

impl View for Config {
    type V = ConfigV;

    open spec fn view(&self) -> ConfigV {
        ConfigV {
            build_dir: self.build_dir@,
            cache: self.cache,
            default_target: self.default_target@,
            targets: self.targets.deep_view(),
        }
    }
}

/// The first configured target under the given name.
pub open spec fn spec_lookup(targets: Seq<(Seq<char>, TargetV)>, name: Seq<char>) -> Option<
    TargetV,
>
    decreases targets.len(),
{
    if targets.len() == 0 {
        None
    } else if targets[0].0 == name {
        Some(targets[0].1)
    } else {
        spec_lookup(targets.drop_first(), name)
    }
}

impl Config {
    /// The configured target of the given name, if any.
    pub fn lookup<'a>(&'a self, name: &str) -> (r: Option<&'a Target>)
        ensures
            match r {
                Some(t) => spec_lookup(self@.targets, name@) == Some(t@),
                None => spec_lookup(self@.targets, name@) is None,
            },
    {
        let n = self.targets.len();
        let mut i: usize = 0;
        proof {
            assert(self@.targets.skip(0) =~= self@.targets);
        }
        while i < n
            invariant
                n == self.targets@.len(),
                i <= n,
                self@.targets.len() == n,
                forall|j: int| 0 <= j < n ==> self@.targets[j] == self.targets@[j].deep_view(),
                spec_lookup(self@.targets, name@) == spec_lookup(
                    self@.targets.skip(i as int),
                    name@,
                ),
            decreases n - i,
        {
            let entry = &self.targets[i];
            if crate::strutil::str_eq(entry.0.as_str(), name) {
                proof {
                    assert(self@.targets.skip(i as int)[0] == self@.targets[i as int]);
                }
                return Some(&entry.1);
            }
            proof {
                assert(self@.targets.skip(i as int).drop_first() =~= self@.targets.skip(i + 1));
                assert(self@.targets.skip(i as int)[0] == self@.targets[i as int]);
            }
            i = i + 1;
        }
        proof {
            assert(self@.targets.skip(n as int) =~= Seq::<(Seq<char>, TargetV)>::empty());
        }
        None
    }
}

/// The dependencies of the default Elixir target.
pub open spec fn spec_default_elixir_deps() -> Seq<DepView> {
    seq![
        DepView { name: "httpoison"@, version: "1.7"@ },
        DepView { name: "jason"@, version: "1.2"@ },
        DepView { name: "nimble_csv"@, version: "1.1"@ },
        DepView { name: "floki"@, version: "0.29"@ },
    ]
}

/// The dependencies of the default Node target.
pub open spec fn spec_default_node_deps() -> Seq<DepView> {
    seq![
        DepView { name: "axios"@, version: "0.20.0"@ },
        DepView { name: "cheerio"@, version: "1.0.0-rc.3"@ },
        DepView { name: "papaparse"@, version: "5.3.0"@ },
    ]
}

/// The dependencies of the default Rust target (present although the
/// language has no working provider: selecting it fails explicitly).
pub open spec fn spec_default_rust_deps() -> Seq<DepView> {
    seq![DepView { name: "clap"@, version: "1.0"@ }, DepView { name: "tokio"@, version: "0.9"@ }]
}

/// The configuration written when none exists yet: one internal target
/// per language, plus two repository-backed examples, caching into
/// `/tmp/shelly`, with `elixir` as the default target.
pub open spec fn spec_default_config() -> ConfigV {
    ConfigV {
        build_dir: "/tmp/shelly"@,
        cache: Some(true),
        default_target: "elixir"@,
        targets: seq![
            (
                "elixir"@,
                TargetV::Internal(
                    DefaultTargetV {
                        language: SupportedLanguage::Elixir,
                        name: "elixir"@,
                        deps: spec_default_elixir_deps(),
                    },
                ),
            ),
            (
                "node"@,
                TargetV::Internal(
                    DefaultTargetV {
                        language: SupportedLanguage::Node,
                        name: "node"@,
                        deps: spec_default_node_deps(),
                    },
                ),
            ),
            (
                "rust"@,
                TargetV::Internal(
                    DefaultTargetV {
                        language: SupportedLanguage::Rust,
                        name: "rust"@,
                        deps: spec_default_rust_deps(),
                    },
                ),
            ),
            (
                "react"@,
                TargetV::Repo(
                    RemoteTargetV {
                        build_args: seq!["install"@],
                        build_command: "npm"@,
                        path: "https://github.com/rawhat/serve-react.git"@,
                        shell: Some(
                            ProgramCommandV {
                                command: "./serve.sh"@,
                                args: Seq::<Seq<char>>::empty(),
                            },
                        ),
                    },
                ),
            ),
            (
                "phoenix_react"@,
                TargetV::Repo(
                    RemoteTargetV {
                        build_args: seq!["build"@],
                        build_command: "docker-compose"@,
                        path: "https://github.com/rawhat/phoenix-react.git"@,
                        shell: Some(
                            ProgramCommandV { command: "docker-compose"@, args: seq!["up"@] },
                        ),
                    },
                ),
            ),
        ],
    }
}

/// Builds the default configuration.
pub fn default() -> (r: Config)
    ensures
        r@ == spec_default_config(),
{
    let mut targets: Vec<(String, Target)> = Vec::new();

    let mut elixir_deps: Dependencies = Vec::new();
    elixir_deps.push(Dependency::new("httpoison", "1.7"));
    elixir_deps.push(Dependency::new("jason", "1.2"));
    elixir_deps.push(Dependency::new("nimble_csv", "1.1"));
    elixir_deps.push(Dependency::new("floki", "0.29"));
    proof {
        assert(elixir_deps.deep_view() =~= spec_default_elixir_deps());
    }
    let elixir_target = DefaultTarget::new(
        String::from_str("elixir"),
        SupportedLanguage::Elixir,
        elixir_deps,
    );
    targets.push((String::from_str("elixir"), Target::Internal(elixir_target)));

    let mut node_deps: Dependencies = Vec::new();
    node_deps.push(Dependency::new("axios", "0.20.0"));
    node_deps.push(Dependency::new("cheerio", "1.0.0-rc.3"));
    node_deps.push(Dependency::new("papaparse", "5.3.0"));
    proof {
        assert(node_deps.deep_view() =~= spec_default_node_deps());
    }
    let node_target = DefaultTarget::new(
        String::from_str("node"),
        SupportedLanguage::Node,
        node_deps,
    );
    targets.push((String::from_str("node"), Target::Internal(node_target)));

    let mut rust_deps: Dependencies = Vec::new();
    rust_deps.push(Dependency::new("clap", "1.0"));
    rust_deps.push(Dependency::new("tokio", "0.9"));
    proof {
        assert(rust_deps.deep_view() =~= spec_default_rust_deps());
    }
    let rust_target = DefaultTarget::new(
        String::from_str("rust"),
        SupportedLanguage::Rust,
        rust_deps,
    );
    targets.push((String::from_str("rust"), Target::Internal(rust_target)));

    let mut react_args: Vec<String> = Vec::new();
    react_args.push(String::from_str("install"));
    let serve_args: Vec<String> = Vec::new();
    proof {
        assert(react_args.deep_view() =~= seq!["install"@]);
        assert(serve_args.deep_view() =~= Seq::<Seq<char>>::empty());
    }
    let serve_react_git = RemoteTarget::new(
        String::from_str("https://github.com/rawhat/serve-react.git"),
        String::from_str("npm"),
        react_args,
        Some(ProgramCommand::new(String::from_str("./serve.sh"), serve_args)),
    );
    targets.push((String::from_str("react"), Target::Repo(serve_react_git)));

    let mut phoenix_args: Vec<String> = Vec::new();
    phoenix_args.push(String::from_str("build"));
    let mut up_args: Vec<String> = Vec::new();
    up_args.push(String::from_str("up"));
    proof {
        assert(phoenix_args.deep_view() =~= seq!["build"@]);
        assert(up_args.deep_view() =~= seq!["up"@]);
    }
    let phoenix_react_git = RemoteTarget::new(
        String::from_str("https://github.com/rawhat/phoenix-react.git"),
        String::from_str("docker-compose"),
        phoenix_args,
        Some(ProgramCommand::new(String::from_str("docker-compose"), up_args)),
    );
    targets.push((String::from_str("phoenix_react"), Target::Repo(phoenix_react_git)));

    proof {
        assert(targets.deep_view() =~= spec_default_config().targets);
    }
    Config {
        build_dir: String::from_str("/tmp/shelly"),
        cache: Some(true),
        default_target: String::from_str("elixir"),
        targets,
    }
}

} // verus!

