use shelly::errors::ResolveError;
use shelly::hashing::generate_hash;
use shelly::opts::Opts;
use shelly::plan::Action;
use shelly::target::DefaultTarget;
use shelly::target::Dependency;
use shelly::target::LanguageTemplates;
use shelly::target::SupportedLanguage;
use shelly::target::TemplateSet;

fn node_templates() -> TemplateSet {
    TemplateSet::new(
        "\\{\n  \"dependencies\": \\{\n{dep_string}\n  }\n}".to_string(),
        "const answer = 42;\n".to_string(),
        "#!/bin/sh\nnode\n".to_string(),
    )
}

fn elixir_templates() -> TemplateSet {
    TemplateSet::new(
        "defp deps do\n  [{dep_string}]\nend\n".to_string(),
        "defmodule Parser do\nend\n".to_string(),
        "#!/bin/sh\niex -S mix\n".to_string(),
    )
}

fn all_templates() -> LanguageTemplates {
    LanguageTemplates::new(elixir_templates(), node_templates())
}

fn node_target() -> DefaultTarget {
    DefaultTarget::new(
        "node".to_string(),
        SupportedLanguage::Node,
        vec![Dependency::new("axios", "0.20.0")],
    )
}

fn opts(shell: bool, no_cache: bool) -> Opts {
    Opts::new(".".to_string(), shell, None, None, no_cache)
}

#[test]
fn internal_node_target_without_shell() {
    let plan = node_target()
        .execute(&opts(false, false), "/tmp/shelly", &None, &all_templates())
        .unwrap();
    assert_eq!(plan.len(), 6);
    assert_eq!(plan[0], Action::CreateDirAll { path: ".".to_string() });
    match &plan[1] {
        Action::WriteFile { path, contents } => {
            assert_eq!(path, "./package.json");
            assert!(contents.contains("\"axios\": \"^0.20.0\""), "{}", contents);
        },
        other => panic!("expected the build manifest write, got {:?}", other),
    }
    assert_eq!(plan[2], Action::CreateDir { path: "./src".to_string() });
    assert_eq!(
        plan[3],
        Action::WriteFile {
            path: "./src/index.js".to_string(),
            contents: "const answer = 42;\n".to_string(),
        }
    );
    match &plan[4] {
        Action::Run { dir, command } => {
            assert_eq!(dir.as_deref(), Some("."));
            assert_eq!(command.command(), "npm");
            assert_eq!(command.args(), &vec!["i".to_string()]);
        },
        other => panic!("expected the build command, got {:?}", other),
    }
    match &plan[5] {
        Action::WriteFile { path, contents } => {
            assert_eq!(path, "/tmp/shelly/node.hash");
            assert_eq!(
                contents,
                &generate_hash(&vec![Dependency::new("axios", "0.20.0")], SupportedLanguage::Node)
            );
        },
        other => panic!("expected the hash write-back, got {:?}", other),
    }
    assert!(!plan.iter().any(|a| matches!(a, Action::WriteExecutable { .. })));
    assert!(!plan.iter().any(|a| matches!(a, Action::RunWithStdin { .. })));
}

#[test]
fn internal_node_target_with_shell() {
    let plan = node_target()
        .execute(&opts(true, false), "/tmp/shelly", &None, &all_templates())
        .unwrap();
    assert_eq!(plan.len(), 8);
    assert_eq!(
        plan[4],
        Action::WriteExecutable {
            path: "./shell.sh".to_string(),
            contents: "#!/bin/sh\nnode\n".to_string(),
        }
    );
    let build_at = plan
        .iter()
        .position(|a| matches!(a, Action::Run { .. }))
        .expect("the build command is part of the plan");
    match &plan[7] {
        Action::RunWithStdin { dir, command } => {
            assert!(build_at < 7, "the shell comes after the build command");
            assert_eq!(dir.as_deref(), Some("."));
            assert_eq!(command.command(), "node");
            assert_eq!(
                command.args(),
                &vec![
                    "-i".to_string(),
                    "--experimental-repl-await".to_string(),
                    "-e".to_string(),
                    "const answer = 42;\n".to_string(),
                ]
            );
        },
        other => panic!("expected the interactive shell, got {:?}", other),
    }
}

#[test]
fn internal_rust_target_fails_before_doing_anything() {
    let target = DefaultTarget::new(
        "rust".to_string(),
        SupportedLanguage::Rust,
        vec![Dependency::new("tokio", "0.9")],
    );
    match target.execute(&opts(false, false), "/tmp/shelly", &None, &all_templates()) {
        Err(ResolveError::UnsupportedLanguage { language }) => {
            assert_eq!(language, "rust");
        },
        other => panic!("expected an unsupported-language failure, got {:?}", other),
    }
}

#[test]
fn unsupported_language_message() {
    let err = ResolveError::UnsupportedLanguage { language: "rust".to_string() };
    assert_eq!(err.message(), "rust is not a supported language");
}

#[test]
fn cache_hit_skips_the_rebuild() {
    let stored = Some(generate_hash(
        &vec![Dependency::new("axios", "0.20.0")],
        SupportedLanguage::Node,
    ));
    let plan = node_target()
        .execute(&opts(false, false), "/tmp/shelly", &stored, &all_templates())
        .unwrap();
    assert!(plan.is_empty());
}

#[test]
fn no_cache_flag_bypasses_a_cache_hit() {
    let stored = Some(generate_hash(
        &vec![Dependency::new("axios", "0.20.0")],
        SupportedLanguage::Node,
    ));
    let plan = node_target()
        .execute(&opts(false, true), "/tmp/shelly", &stored, &all_templates())
        .unwrap();
    assert!(!plan.is_empty());
}

#[test]
fn stale_stored_hash_triggers_a_rebuild() {
    let stored = Some("not the current hash".to_string());
    let plan = node_target()
        .execute(&opts(false, false), "/tmp/shelly", &stored, &all_templates())
        .unwrap();
    assert!(!plan.is_empty());
}

#[test]
fn writing_a_project_is_idempotent() {
    let t = shelly::node::new(
        &vec![Dependency::new("axios", "0.20.0")],
        true,
        &node_templates(),
    );
    let first = t.write_project(".").unwrap();
    let second = t.write_project(".").unwrap();
    assert_eq!(first, second);
}

#[test]
fn internal_elixir_target_renders_mix_manifest() {
    let target = DefaultTarget::new(
        "elixir".to_string(),
        SupportedLanguage::Elixir,
        vec![Dependency::new("httpoison", "1.7")],
    );
    let plan = target
        .execute(&opts(false, false), "/tmp/shelly", &None, &all_templates())
        .unwrap();
    match &plan[1] {
        Action::WriteFile { path, contents } => {
            assert_eq!(path, "./mix.exs");
            assert!(contents.contains("{:httpoison, \"~> 1.7\"}"), "{}", contents);
        },
        other => panic!("expected the build manifest write, got {:?}", other),
    }
    assert_eq!(plan[2], Action::CreateDir { path: "./lib".to_string() });
    match &plan[3] {
        Action::WriteFile { path, .. } => assert_eq!(path, "./lib/parser.ex"),
        other => panic!("expected the source write, got {:?}", other),
    }
}

#[test]
fn elixir_shell_command_is_iex() {
    let plan = DefaultTarget::new(
        "elixir".to_string(),
        SupportedLanguage::Elixir,
        vec![Dependency::new("jason", "1.2")],
    )
    .execute(&opts(true, false), "/tmp/shelly", &None, &all_templates())
    .unwrap();
    match plan.last().unwrap() {
        Action::RunWithStdin { command, .. } => {
            assert_eq!(command.command(), "iex");
            assert_eq!(command.args(), &vec!["-S".to_string(), "mix".to_string()]);
        },
        other => panic!("expected the interactive shell, got {:?}", other),
    }
}
