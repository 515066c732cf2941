use shelly::errors::ResolveError;
use shelly::target::LanguageTarget;
use shelly::target::ProgramCommand;
use shelly::target::Template;

fn target_with(build_body: &str, context_json: &str) -> LanguageTarget {
    LanguageTarget::new(
        Template::new("out.txt".to_string(), build_body.to_string()),
        context_json.to_string(),
        "0000".to_string(),
        ProgramCommand::new("true".to_string(), Vec::new()),
        None,
        "src".to_string(),
        Vec::new(),
    )
}

#[test]
fn rendering_substitutes_context_values() {
    let t = target_with("Hello {dep_string}!", "{\"dep_string\":\"World\"}");
    let templates = t.generate_templates().unwrap();
    assert_eq!(templates.build_template.template, "Hello World!");
    assert_eq!(templates.build_template.path, "out.txt");
}

#[test]
fn rendering_is_deterministic() {
    let t = target_with("v = { dep_string }", "{\"dep_string\":\"1.0\"}");
    let first = t.generate_templates().unwrap();
    let second = t.generate_templates().unwrap();
    assert_eq!(first, second);
}

#[test]
fn rendering_failure_names_the_failing_template() {
    let t = target_with("{{ if broken }", "{\"dep_string\":\"x\"}");
    match t.generate_templates() {
        Err(ResolveError::RenderFailed { template, .. }) => {
            assert_eq!(template, "out.txt");
        },
        other => panic!("expected a rendering failure, got {:?}", other),
    }
}

#[test]
fn rendering_failure_on_a_bad_context_document() {
    let t = target_with("plain text", "this is not a context document");
    assert!(t.generate_templates().is_err());
}

#[test]
fn rendering_failure_message_names_the_template() {
    let t = target_with("{ missing_value }", "{\"dep_string\":\"x\"}");
    let err = t.generate_templates().unwrap_err();
    let message = err.message();
    assert!(message.starts_with("Failed to render out.txt:"), "{}", message);
}

#[test]
fn bare_negation_tag_is_refused_not_rendered() {
    let t = target_with("{{ if not }}x{{ endif }}", "{\"dep_string\":\"x\"}");
    match t.generate_templates() {
        Err(ResolveError::RenderFailed { template, .. }) => assert_eq!(template, "out.txt"),
        other => panic!("expected a rendering failure, got {:?}", other),
    }
}

#[test]
fn overlapping_comment_tag_is_refused() {
    let t = target_with("a{#}b", "{\"dep_string\":\"x\"}");
    assert!(t.generate_templates().is_err());
}

#[test]
fn trailing_backslash_is_refused() {
    let t = target_with("plain text\\", "{\"dep_string\":\"x\"}");
    assert!(t.generate_templates().is_err());
}

#[test]
fn negation_of_a_real_value_still_renders() {
    let t = target_with(
        "{{ if not dep_string }}empty{{ else }}set{{ endif }}",
        "{\"dep_string\":\"x\"}",
    );
    let templates = t.generate_templates().unwrap();
    assert_eq!(templates.build_template.template, "set");
}

#[test]
fn block_tags_still_render() {
    let t = target_with(
        "{{ if dep_string }}has deps{{ endif }}",
        "{\"dep_string\":\"x\"}",
    );
    let templates = t.generate_templates().unwrap();
    assert_eq!(templates.build_template.template, "has deps");
}
