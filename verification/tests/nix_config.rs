use nix_installer::action::base::create_or_merge_nix_config::CreateOrMergeNixConfig;
use nix_installer::action::{Action, StatefulAction};
use nix_installer::command::Operation;
use nix_installer::error::{CreateOrMergeNixConfigError, PlanningError};
use nix_installer::facts::{PathFact, PathKind};
use nix_installer::nix_config::{
    is_blank, line_names_file, merge, parts_words, render, text_names_other_files, NixSettings,
};
use nix_installer::state::ActionState;

fn config(pairs: &[(&str, &str)]) -> NixSettings {
    let mut config = NixSettings::new();
    for (name, value) in pairs {
        config.insert(name.to_string(), value.to_string());
    }
    config
}

fn file(path: &str, contents: &str, mode: u32) -> PathFact {
    PathFact {
        path: path.to_string(),
        kind: PathKind::File,
        mode,
        user: "root".to_string(),
        group: "root".to_string(),
        contents: Some(contents.to_string()),
        settings: None,
    }
}

fn action_of(node: &StatefulAction) -> &CreateOrMergeNixConfig {
    match &node.action {
        Action::CreateOrMergeNixConfig(action) => action,
        other => panic!("unexpected action {:?}", other),
    }
}

fn written(action: &CreateOrMergeNixConfig) -> String {
    let operations = action.execute_operations("0.1.0", 7);
    assert_eq!(operations.len(), 1);
    match &operations[0] {
        Operation::WriteFile { path, temporary, contents, mode, user, group } => {
            assert_eq!(path, &action.path);
            assert!(temporary.ends_with("/nix-installer-tmp.7"));
            assert_eq!(*mode, Some(0o644));
            assert_eq!(*user, None);
            assert_eq!(*group, None);
            contents.clone()
        },
        other => panic!("unexpected operation {:?}", other),
    }
}

fn parses(text: &str) -> bool {
    nix_config_parser::NixConfig::parse_string(text.to_string(), None).is_ok()
}

fn deletes(action: &CreateOrMergeNixConfig) {
    assert_eq!(
        action.revert_operations(),
        vec![Operation::RemoveFile { path: action.path.clone() }]
    );
}

#[test]
fn creates_and_deletes_file() {
    let path = "/tmp/creates_and_deletes_file".to_string();
    let pending = config(&[("experimental-features", "ca-references")]);
    let node = CreateOrMergeNixConfig::plan(path, pending, None).unwrap();
    assert_eq!(node.state, ActionState::Uncompleted);
    let s = written(action_of(&node));
    assert!(s.contains("# Generated by"));
    assert!(s.contains("ca-references"));
    assert!(parses(&s));
    deletes(action_of(&node));
}

#[test]
fn creates_and_deletes_file_even_if_edited() {
    let path = "/tmp/creates_and_deletes_file_even_if_edited".to_string();
    let pending = config(&[("experimental-features", "ca-references")]);
    let node = CreateOrMergeNixConfig::plan(path, pending, None).unwrap();
    let _ = written(action_of(&node));
    deletes(action_of(&node));
}

#[test]
fn recognizes_existing_exact_files_and_reverts_them() {
    let path = "/tmp/recognizes_existing_exact_files_and_reverts_them";
    let found = file(path, "experimental-features = flakes", 0o644);
    let pending = config(&[("experimental-features", "flakes")]);
    let node = CreateOrMergeNixConfig::plan(path.to_string(), pending, Some(&found)).unwrap();
    assert_eq!(node.state, ActionState::Completed);
    assert!(action_of(&node).merged.is_empty());
    deletes(action_of(&node));
}

#[test]
fn recognizes_existing_different_files_and_merges() {
    let path = "/tmp/recognizes_existing_different_files_and_merges";
    let found = file(path, "experimental-features = flakes\nwarn-dirty = true\n", 0o644);
    let pending = config(&[("experimental-features", "nix-command flakes"), ("allow-dirty", "false")]);
    let node = CreateOrMergeNixConfig::plan(path.to_string(), pending, Some(&found)).unwrap();
    assert_eq!(node.state, ActionState::Uncompleted);
    let s = written(action_of(&node));
    assert!(s.contains("# Generated by"));
    assert!(s.contains("flakes"));
    assert!(s.contains("nix-command"));
    assert_eq!(s.matches("flakes").count(), 1, "we should not duplicate strings");
    assert!(s.contains("allow-dirty = false"));
    assert!(s.contains("warn-dirty = true"));
    assert!(parses(&s));
    assert_eq!(
        s,
        "warn-dirty = true\n\n# Generated by https://github.com/DeterminateSystems/nix-installer, version 0.1.0.\nexperimental-features = nix-command flakes\nallow-dirty = false\n"
    );
    deletes(action_of(&node));
}

#[test]
fn recognizes_existing_different_files_and_fails_to_merge() {
    let path = "/tmp/recognizes_existing_different_files_and_fails_to_merge";
    let found = file(path, "experimental-features = flakes\nwarn-dirty = true\n", 0o644);
    let pending = config(&[("experimental-features", "nix-command flakes"), ("warn-dirty", "false")]);
    match CreateOrMergeNixConfig::plan(path.to_string(), pending, Some(&found)) {
        Err(PlanningError::NixConfig(CreateOrMergeNixConfigError::UnmergeableConfig(names, at))) => {
            assert_eq!(names, vec!["warn-dirty".to_string()]);
            assert_eq!(at, path);
        },
        other => panic!("Should have returned CreateOrMergeNixConfigError::UnmergeableConfig, got {:?}", other),
    }
}

#[test]
fn unmergeable_settings_at_the_usual_path() {
    let found = file("/etc/nix/nix.conf", "experimental-features = flakes\nwarn-dirty = true\n", 0o644);
    let pending = config(&[("warn-dirty", "false"), ("allow-dirty", "false")]);
    let plan = CreateOrMergeNixConfig::plan("/etc/nix/nix.conf".to_string(), pending, Some(&found));
    assert_eq!(
        plan,
        Err(PlanningError::NixConfig(CreateOrMergeNixConfigError::UnmergeableConfig(
            vec!["warn-dirty".to_string()],
            "/etc/nix/nix.conf".to_string()
        )))
    );
}

#[test]
fn merged_tokens_occur_once_each_wherever_they_stand() {
    let existing = config(&[("experimental-features", "flakes")]);
    let pending = config(&[("experimental-features", "flakes nix-command")]);
    let (to_write, conflicts) = merge(&existing, &pending);
    assert!(conflicts.is_empty());
    assert_eq!(to_write.get("experimental-features"), Some(&"flakes nix-command".to_string()));
    let existing = config(&[("experimental-features", "a b a")]);
    let pending = config(&[("experimental-features", "c a")]);
    let (to_write, _) = merge(&existing, &pending);
    assert_eq!(to_write.get("experimental-features"), Some(&"c a b".to_string()));
}

#[test]
fn satisfied_settings_write_nothing() {
    let existing = config(&[("experimental-features", "nix-command flakes"), ("cores", "4")]);
    let pending = config(&[("experimental-features", "flakes"), ("cores", "4")]);
    let (to_write, conflicts) = merge(&existing, &pending);
    assert!(to_write.is_empty());
    assert!(conflicts.is_empty());
}

#[test]
fn conflicts_come_in_the_order_of_the_wanted_settings() {
    let existing = config(&[("a", "1"), ("b", "2"), ("c", "3")]);
    let pending = config(&[("c", "x"), ("d", "4"), ("a", "y"), ("b", "2")]);
    let (to_write, conflicts) = merge(&existing, &pending);
    assert_eq!(conflicts, vec!["c".to_string(), "a".to_string()]);
    assert_eq!(to_write.len(), 1);
    assert_eq!(to_write.get("d"), Some(&"4".to_string()));
}

#[test]
fn merging_settles() {
    let existing = config(&[("experimental-features", "flakes"), ("warn-dirty", "true")]);
    let pending = config(&[("experimental-features", "nix-command flakes"), ("allow-dirty", "false")]);
    let (to_write, conflicts) = merge(&existing, &pending);
    assert!(conflicts.is_empty());
    let text = render(&Some(existing), &to_write, "1");
    let parsed = nix_config_parser::NixConfig::parse_string(text, None).unwrap();
    let held = NixSettings::from_pairs(parsed.into_settings().into_iter().collect());
    let (again, conflicts) = merge(&held, &pending);
    assert!(again.is_empty());
    assert!(conflicts.is_empty());
}

#[test]
fn insert_keeps_the_place_of_a_name() {
    let mut settings = config(&[("a", "1"), ("b", "2")]);
    settings.insert("a".to_string(), "3".to_string());
    assert_eq!(settings.len(), 2);
    assert_eq!(settings.get_index(0), Some((&"a".to_string(), &"3".to_string())));
    assert_eq!(settings.get_index(1), Some((&"b".to_string(), &"2".to_string())));
    assert_eq!(settings.get_index(2), None);
    assert_eq!(settings.get("c"), None);
    let pairs = vec![
        ("x".to_string(), "1".to_string()),
        ("y".to_string(), "2".to_string()),
        ("x".to_string(), "3".to_string()),
    ];
    assert_eq!(NixSettings::from_pairs(pairs), config(&[("x", "3"), ("y", "2")]));
}

#[test]
fn renders_a_new_file() {
    let text = render(&None, &config(&[("cores", "4"), ("max-jobs", "2")]), "9.9.9");
    assert_eq!(
        text,
        "# Generated by https://github.com/DeterminateSystems/nix-installer, version 9.9.9.\ncores = 4\nmax-jobs = 2\n"
    );
}

#[test]
fn what_is_no_file_cannot_be_merged() {
    let mut found = file("/etc/nix/nix.conf", "", 0o644);
    found.kind = PathKind::Directory;
    let plan = CreateOrMergeNixConfig::plan("/etc/nix/nix.conf".to_string(), config(&[]), Some(&found));
    assert_eq!(plan, Err(PlanningError::PathWasNotFile("/etc/nix/nix.conf".to_string())));
}

#[test]
fn other_permission_bits_cannot_be_merged() {
    let found = file("/etc/nix/nix.conf", "cores = 4\n", 0o100600);
    let plan = CreateOrMergeNixConfig::plan("/etc/nix/nix.conf".to_string(), config(&[]), Some(&found));
    assert_eq!(
        plan,
        Err(PlanningError::PathModeMismatch {
            path: "/etc/nix/nix.conf".to_string(),
            found: 0o600,
            planned: 0o644
        })
    );
    let found = file("/etc/nix/nix.conf", "cores = 4\n", 0o100644);
    assert!(CreateOrMergeNixConfig::plan("/etc/nix/nix.conf".to_string(), config(&[]), Some(&found)).is_ok());
}

#[test]
fn files_that_do_not_parse_cannot_be_merged() {
    for contents in ["include /etc/nix/other.conf\n", "bad config\n", "include\n", "cores 4\n"] {
        let found = file("/etc/nix/nix.conf", contents, 0o644);
        let plan = CreateOrMergeNixConfig::plan("/etc/nix/nix.conf".to_string(), config(&[]), Some(&found));
        assert!(matches!(
            plan,
            Err(PlanningError::NixConfig(CreateOrMergeNixConfigError::ParseNixConfig(_)))
        ));
    }
    let mut unread = file("/etc/nix/nix.conf", "", 0o644);
    unread.contents = None;
    let plan = CreateOrMergeNixConfig::plan("/etc/nix/nix.conf".to_string(), config(&[]), Some(&unread));
    assert!(matches!(
        plan,
        Err(PlanningError::NixConfig(CreateOrMergeNixConfigError::ParseNixConfig(_)))
    ));
}

#[test]
fn a_line_names_another_file_by_its_first_word() {
    for text in [
        "include /etc/nix/other.conf",
        "!include /etc/nix/other.conf",
        "cores = 4\n  include\tother.conf # the rest\n",
        "cores = 4\r\n\u{a0}!include other.conf\r\n",
        "include",
        "include\u{a0}",
        "include#other.conf",
    ] {
        assert!(text_names_other_files(text), "{:?}", text);
    }
    for text in [
        "",
        "# include /etc/nix/other.conf",
        "cores = 4 # include other.conf\n",
        "extra-substituters = include\n",
        "included = 1\n",
        "!!include x\n",
        "Include x\n",
        "include\u{a0}x = 1\n",
        "! include x\n",
    ] {
        assert!(!text_names_other_files(text), "{:?}", text);
    }
    let line: Vec<char> = "  !include x".chars().collect();
    assert!(line_names_file(&line));
    assert!(is_blank('\u{3000}') && is_blank('\t') && !is_blank('x') && !is_blank('\u{200b}'));
    assert!(parts_words(' ') && parts_words('\r') && !parts_words('\u{a0}'));
}

#[test]
fn a_comment_that_holds_the_word_is_no_obstacle() {
    let found = file("/etc/nix/nix.conf", "# do not include other files here\ncores = 4 # include\n", 0o644);
    let plan = CreateOrMergeNixConfig::plan(
        "/etc/nix/nix.conf".to_string(),
        config(&[("cores", "4"), ("max-jobs", "2")]),
        Some(&found),
    )
    .unwrap();
    assert_eq!(plan.state, ActionState::Uncompleted);
    match &plan.action {
        Action::CreateOrMergeNixConfig(merge) => {
            assert_eq!(merge.existing, Some(config(&[("cores", "4")])));
            assert_eq!(merge.merged, config(&[("max-jobs", "2")]));
        },
        other => panic!("unexpected action {:?}", other),
    }
}

#[test]
fn a_file_that_names_other_files_is_merged_by_what_was_read() {
    let mut found = file("/etc/nix/nix.conf", "cores = 4\ninclude /etc/nix/other.conf\n", 0o644);
    let path = || "/etc/nix/nix.conf".to_string();
    assert!(matches!(
        CreateOrMergeNixConfig::plan(path(), config(&[("cores", "4")]), Some(&found)),
        Err(PlanningError::NixConfig(CreateOrMergeNixConfigError::ParseNixConfig(_)))
    ));
    found.settings = Some(vec![
        ("cores".to_string(), "4".to_string()),
        ("warn-dirty".to_string(), "true".to_string()),
    ]);
    let plan = CreateOrMergeNixConfig::plan(path(), config(&[("cores", "4"), ("max-jobs", "2")]), Some(&found))
        .unwrap();
    let by_hand = CreateOrMergeNixConfig::plan_merge(
        path(),
        config(&[("cores", "4"), ("max-jobs", "2")]),
        Some(config(&[("cores", "4"), ("warn-dirty", "true")])),
    )
    .unwrap();
    assert_eq!(plan, by_hand);
    assert_eq!(
        CreateOrMergeNixConfig::plan(path(), config(&[("warn-dirty", "false")]), Some(&found)),
        Err(PlanningError::NixConfig(CreateOrMergeNixConfigError::UnmergeableConfig(
            vec!["warn-dirty".to_string()],
            path()
        )))
    );
    let mut plain = file("/etc/nix/nix.conf", "cores = 4\n", 0o644);
    plain.settings = Some(vec![("cores".to_string(), "8".to_string())]);
    match &CreateOrMergeNixConfig::plan(path(), config(&[("max-jobs", "2")]), Some(&plain)).unwrap().action {
        Action::CreateOrMergeNixConfig(merge) => assert_eq!(merge.existing, Some(config(&[("cores", "4")]))),
        other => panic!("unexpected action {:?}", other),
    }
}

#[test]
fn the_parser_is_asked_for_the_existing_settings() {
    let found = file("/etc/nix/nix.conf", " cores   =  4242 # a comment\n\nsubstituters = a   b\n", 0o644);
    let node =
        CreateOrMergeNixConfig::plan("/etc/nix/nix.conf".to_string(), config(&[("x", "1")]), Some(&found))
            .unwrap();
    let existing = action_of(&node).existing.as_ref().unwrap();
    assert_eq!(existing.len(), 2);
    assert_eq!(existing.get("cores"), Some(&"4242".to_string()));
    assert_eq!(existing.get("substituters"), Some(&"a b".to_string()));
}

#[test]
fn a_temporary_file_with_a_random_number_is_beside_the_file() {
    let node =
        CreateOrMergeNixConfig::plan("/etc/nix/nix.conf".to_string(), config(&[("x", "1")]), None).unwrap();
    let operations = action_of(&node).execute_plan("0.1.0");
    match &operations[0] {
        Operation::WriteFile { temporary, .. } => {
            let number = temporary.strip_prefix("/etc/nix/nix-installer-tmp.").unwrap();
            assert!(!number.is_empty());
            assert!(number.parse::<u32>().is_ok());
        },
        other => panic!("unexpected operation {:?}", other),
    }
}
