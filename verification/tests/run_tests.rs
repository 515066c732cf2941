use shelly::errors::ResolveError;
use shelly::plan::Action;
use shelly::target::Dependency;
use shelly::target::LanguageTarget;
use shelly::target::ProgramCommand;
use shelly::target::Shell;
use shelly::target::ShellRecipe;
use shelly::target::Template;
use shelly::target::TemplateSet;

#[test]
fn run_plan_without_shell_is_the_build_command_alone() {
    let deps = vec![Dependency::new("axios", "0.20.0")];
    let t = shelly::node::new(
        &deps,
        false,
        &TemplateSet::new("m".to_string(), "s".to_string(), "sh".to_string()),
    );
    let plan = t.run("proj").unwrap();
    assert_eq!(plan.len(), 1);
    match &plan[0] {
        Action::Run { dir, command } => {
            assert_eq!(dir.as_deref(), Some("proj"));
            assert_eq!(command.command(), "npm");
        },
        other => panic!("expected the build command, got {:?}", other),
    }
}

#[test]
fn run_plan_feeds_the_rendered_source_to_the_shell() {
    let deps = vec![Dependency::new("axios", "0.20.0")];
    let t = shelly::node::new(
        &deps,
        true,
        &TemplateSet::new(
            "m".to_string(),
            "require('{dep_string}');".to_string(),
            "sh".to_string(),
        ),
    );
    let plan = t.run("proj").unwrap();
    assert_eq!(plan.len(), 2);
    match &plan[1] {
        Action::RunWithStdin { command, .. } => {
            assert_eq!(command.command(), "node");
            assert_eq!(
                command.args().last().unwrap(),
                "require('\"axios\": \"^0.20.0\"');"
            );
        },
        other => panic!("expected the interactive shell, got {:?}", other),
    }
}

#[test]
fn run_plan_reports_a_missing_source_template() {
    let shell = Shell::new(
        ShellRecipe::WithRenderedSource {
            program: "node".to_string(),
            args: Vec::new(),
            source_name: "absent.js".to_string(),
        },
        "sh".to_string(),
    );
    let t = LanguageTarget::new(
        Template::new("manifest".to_string(), "body".to_string()),
        "{}".to_string(),
        "0".to_string(),
        ProgramCommand::new("make".to_string(), Vec::new()),
        Some(shell),
        "src".to_string(),
        Vec::new(),
    );
    match t.run("proj") {
        Err(ResolveError::MissingSourceTemplate { name }) => assert_eq!(name, "absent.js"),
        other => panic!("expected a missing-source failure, got {:?}", other),
    }
}
