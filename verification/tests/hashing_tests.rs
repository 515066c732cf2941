use shelly::hashing::dep_string;
use shelly::hashing::generate_hash;
use shelly::target::Dependency;
use shelly::target::SupportedLanguage;
use shelly::target::hash_file_path;

fn deps(pairs: &[(&str, &str)]) -> Vec<Dependency> {
    pairs.iter().map(|(n, v)| Dependency::new(n, v)).collect()
}

#[test]
fn hash_is_deterministic_for_equal_inputs() {
    let d1 = deps(&[("axios", "0.20.0"), ("cheerio", "1.0.0-rc.3")]);
    let d2 = deps(&[("axios", "0.20.0"), ("cheerio", "1.0.0-rc.3")]);
    let h1 = generate_hash(&d1, SupportedLanguage::Node);
    let h2 = generate_hash(&d2, SupportedLanguage::Node);
    assert_eq!(h1, h2);
}

#[test]
fn hash_differs_when_a_version_changes() {
    let d1 = deps(&[("axios", "0.20.0")]);
    let d2 = deps(&[("axios", "0.21.0")]);
    let h1 = generate_hash(&d1, SupportedLanguage::Node);
    let h2 = generate_hash(&d2, SupportedLanguage::Node);
    assert_ne!(h1, h2);
}

#[test]
fn hash_differs_when_a_name_changes() {
    let d1 = deps(&[("axios", "0.20.0")]);
    let d2 = deps(&[("cheerio", "0.20.0")]);
    assert_ne!(
        generate_hash(&d1, SupportedLanguage::Node),
        generate_hash(&d2, SupportedLanguage::Node)
    );
}

#[test]
fn hash_differs_across_languages() {
    let d = deps(&[("jason", "1.2")]);
    assert_ne!(
        generate_hash(&d, SupportedLanguage::Elixir),
        generate_hash(&d, SupportedLanguage::Node)
    );
}

#[test]
fn hash_is_upper_hex_of_a_sha256_digest() {
    let h = generate_hash(&Vec::new(), SupportedLanguage::Elixir);
    assert_eq!(h.len(), 64);
    assert!(h.chars().all(|c| c.is_ascii_digit() || ('A'..='F').contains(&c)));
}

#[test]
fn hash_depends_on_dependency_order() {
    let d1 = deps(&[("a", "1"), ("b", "2")]);
    let d2 = deps(&[("b", "2"), ("a", "1")]);
    assert_ne!(
        generate_hash(&d1, SupportedLanguage::Node),
        generate_hash(&d2, SupportedLanguage::Node)
    );
}

#[test]
fn dep_string_joins_name_version_pairs() {
    let d = deps(&[("httpoison", "1.7"), ("jason", "1.2"), ("floki", "0.29")]);
    assert_eq!(dep_string(&d), "httpoison,1.7:jason,1.2:floki,0.29");
}

#[test]
fn dep_string_of_no_dependencies_is_empty() {
    assert_eq!(dep_string(&Vec::new()), "");
}

#[test]
fn hash_sidecar_file_lives_in_the_build_directory() {
    assert_eq!(hash_file_path("node", "/tmp/shelly"), "/tmp/shelly/node.hash");
}
