use shelly::target::Dependency;

fn deps(pairs: &[(&str, &str)]) -> Vec<Dependency> {
    pairs.iter().map(|(n, v)| Dependency::new(n, v)).collect()
}

#[test]
fn elixir_dep_string_format() {
    let d = deps(&[("httpoison", "1.7"), ("jason", "1.2")]);
    assert_eq!(
        shelly::elixir::generate_dep_string(&d),
        "{:httpoison, \"~> 1.7\"}, {:jason, \"~> 1.2\"}"
    );
}

#[test]
fn elixir_applications_are_the_dependency_names() {
    let d = deps(&[("httpoison", "1.7"), ("floki", "0.29")]);
    assert_eq!(
        shelly::elixir::generate_applications(&d),
        vec!["httpoison".to_string(), "floki".to_string()]
    );
}

#[test]
fn node_dep_string_format() {
    let d = deps(&[("axios", "0.20.0"), ("cheerio", "1.0.0-rc.3")]);
    assert_eq!(
        shelly::node::generate_dep_string(&d),
        "\"axios\": \"^0.20.0\",\n\"cheerio\": \"^1.0.0-rc.3\""
    );
}

#[test]
fn node_packages_are_the_dependency_names() {
    let d = deps(&[("axios", "0.20.0"), ("papaparse", "5.3.0")]);
    assert_eq!(
        shelly::node::generate_packages(&d),
        vec!["axios".to_string(), "papaparse".to_string()]
    );
}

#[test]
fn elixir_context_serializes_with_escaping() {
    let ctx = shelly::elixir::Context {
        applications: vec!["a\"b".to_string()],
        deps: deps(&[("x", "1")]),
        dep_string: "p\\q".to_string(),
    };
    assert_eq!(
        ctx.to_json(),
        "{\"applications\":[\"a\\\"b\"],\"deps\":[{\"name\":\"x\",\"version\":\"1\"}],\"dep_string\":\"p\\\\q\"}"
    );
}

#[test]
fn node_context_serializes_with_escaping() {
    let ctx = shelly::node::Context {
        deps: deps(&[("axios", "0.20.0")]),
        dep_string: "line1\nline2".to_string(),
        packages: vec!["axios".to_string()],
    };
    assert_eq!(
        ctx.to_json(),
        "{\"deps\":[{\"name\":\"axios\",\"version\":\"0.20.0\"}],\"dep_string\":\"line1\\u000Aline2\",\"packages\":[\"axios\"]}"
    );
}

#[test]
fn empty_context_arrays_serialize_as_empty() {
    let ctx = shelly::node::Context {
        deps: Vec::new(),
        dep_string: String::new(),
        packages: Vec::new(),
    };
    assert_eq!(ctx.to_json(), "{\"deps\":[],\"dep_string\":\"\",\"packages\":[]}");
}
