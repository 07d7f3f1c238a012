use ghpr::config_reader::{resolve, CliValues, ConfigReader};

fn pair(key: &str, value: &str) -> (String, String) {
    (key.to_string(), value.to_string())
}

fn nothing_given() -> CliValues {
    CliValues {
        repo: None,
        dest: None,
        src: None,
        title: None,
        body: None,
        labels: None,
        milestone: None,
        assignees: None,
        projects: None,
        template: None,
        open: false,
    }
}

const KEYS: [&str; 10] = [
    "repo",
    "dest",
    "src",
    "title",
    "body",
    "labels",
    "milestone",
    "assignees",
    "projects",
    "template",
];

#[test]
fn explicit_value_wins_over_the_default() {
    let with_defaults = ConfigReader::new(Some(
        KEYS.iter().map(|key| pair(key, "from-config")).collect(),
    ));
    let without = ConfigReader::new(None);
    let explicit = "from-cli".to_string();
    for key in KEYS {
        assert_eq!(
            with_defaults.get_config_value(Some(&explicit), key),
            "from-cli"
        );
        assert_eq!(without.get_config_value(Some(&explicit), key), "from-cli");
    }
}

#[test]
fn default_is_used_where_nothing_was_given() {
    let reader = ConfigReader::new(Some(
        KEYS.iter()
            .map(|key| pair(key, &format!("default-{}", key)))
            .collect(),
    ));
    for key in KEYS {
        assert_eq!(
            reader.get_config_value(None, key),
            format!("default-{}", key)
        );
    }
}

#[test]
fn empty_string_where_neither_is_present() {
    let empty = ConfigReader::new(None);
    let other = ConfigReader::new(Some(vec![pair("dest", "main")]));
    for key in KEYS {
        assert_eq!(empty.get_config_value(None, key), "");
        if key != "dest" {
            assert_eq!(other.get_config_value(None, key), "");
        }
    }
    assert_eq!(ConfigReader::new(Some(Vec::new())).get_config_value(None, "repo"), "");
}

#[test]
fn explicit_empty_value_still_wins() {
    let reader = ConfigReader::new(Some(vec![pair("title", "from-config")]));
    let explicit = String::new();
    assert_eq!(reader.get_config_value(Some(&explicit), "title"), "");
}

#[test]
fn keys_are_matched_exactly() {
    let reader = ConfigReader::new(Some(vec![pair("dest", "main")]));
    assert_eq!(reader.get_config_value(None, "dest"), "main");
    assert_eq!(reader.get_config_value(None, "Dest"), "");
    assert_eq!(reader.get_config_value(None, "des"), "");
    assert_eq!(reader.get_config_value(None, "dest "), "");
}

#[test]
fn last_pair_of_a_key_counts() {
    let reader = ConfigReader::new(Some(vec![
        pair("dest", "first"),
        pair("repo", "owner/repo"),
        pair("dest", "second"),
    ]));
    assert_eq!(reader.get_config_value(None, "dest"), "second");
    assert_eq!(reader.get_config_value(None, "repo"), "owner/repo");
}

#[test]
fn stored_defaults_can_be_looked_up() {
    let reader = ConfigReader::new(Some(vec![pair("dest", "main"), pair("extra", "ignored")]));
    let store = reader.get_file_config();
    assert_eq!(store.get("dest"), Some(&"main".to_string()));
    assert_eq!(store.get("extra"), Some(&"ignored".to_string()));
    assert_eq!(store.get("repo"), None);
    assert_eq!(store.len(), 2);
    assert!(ConfigReader::new(None).get_file_config().is_empty());
}

#[test]
fn reading_again_replaces_or_keeps() {
    let mut reader = ConfigReader::new(Some(vec![pair("dest", "main"), pair("repo", "a/b")]));
    reader.read_config_file(None);
    assert_eq!(reader.get_config_value(None, "dest"), "main");
    assert_eq!(reader.get_config_value(None, "repo"), "a/b");
    reader.read_config_file(Some(vec![pair("dest", "develop")]));
    assert_eq!(reader.get_config_value(None, "dest"), "develop");
    assert_eq!(reader.get_config_value(None, "repo"), "");
}

#[test]
fn first_source_with_a_value_is_taken() {
    let a = "a".to_string();
    let b = "b".to_string();
    assert_eq!(resolve(&[]), "");
    assert_eq!(resolve(&[None]), "");
    assert_eq!(resolve(&[None, None, None]), "");
    assert_eq!(resolve(&[Some(&a)]), "a");
    assert_eq!(resolve(&[Some(&a), Some(&b)]), "a");
    assert_eq!(resolve(&[None, Some(&b)]), "b");
    assert_eq!(resolve(&[None, None, Some(&b), Some(&a)]), "b");
}

#[test]
fn each_parameter_is_resolved_under_its_own_key() {
    let reader = ConfigReader::new(Some(
        KEYS.iter()
            .map(|key| pair(key, &format!("default-{}", key)))
            .collect(),
    ));
    let args = reader.read_cli_args(&nothing_given());
    assert_eq!(args.repo, "default-repo");
    assert_eq!(args.dest, "default-dest");
    assert_eq!(args.src, "default-src");
    assert_eq!(args.title, "default-title");
    assert_eq!(args.body, "default-body");
    assert_eq!(args.labels, "default-labels");
    assert_eq!(args.milestone, "default-milestone");
    assert_eq!(args.assignees, "default-assignees");
    assert_eq!(args.projects, "default-projects");
    assert_eq!(args.template, "default-template");

    let given = CliValues {
        repo: Some("cli-repo".to_string()),
        dest: Some("cli-dest".to_string()),
        src: Some("cli-src".to_string()),
        title: Some("cli-title".to_string()),
        body: Some("cli-body".to_string()),
        labels: Some("cli-labels".to_string()),
        milestone: Some("cli-milestone".to_string()),
        assignees: Some("cli-assignees".to_string()),
        projects: Some("cli-projects".to_string()),
        template: Some("cli-template".to_string()),
        open: true,
    };
    let args = reader.read_cli_args(&given);
    assert_eq!(args.repo, "cli-repo");
    assert_eq!(args.dest, "cli-dest");
    assert_eq!(args.src, "cli-src");
    assert_eq!(args.title, "cli-title");
    assert_eq!(args.body, "cli-body");
    assert_eq!(args.labels, "cli-labels");
    assert_eq!(args.milestone, "cli-milestone");
    assert_eq!(args.assignees, "cli-assignees");
    assert_eq!(args.projects, "cli-projects");
    assert_eq!(args.template, "cli-template");
}

#[test]
fn given_values_and_defaults_mix() {
    let reader = ConfigReader::new(Some(vec![pair("repo", "owner/repo"), pair("dest", "main")]));
    let mut given = nothing_given();
    given.dest = Some("release".to_string());
    given.src = Some("feature-branch".to_string());
    let args = reader.read_cli_args(&given);
    assert_eq!(args.repo, "owner/repo");
    assert_eq!(args.dest, "release");
    assert_eq!(args.src, "feature-branch");
    assert_eq!(args.title, "");
    assert_eq!(args.template, "");
}
