use nix_installer::action::base::create_or_insert_into_file::{CreateOrInsertIntoFile, Position};
use nix_installer::action::common::configure_shell_profile::ConfigureShellProfile;
use nix_installer::action::Action;
use nix_installer::command::Operation;
use nix_installer::facts::{HostFacts, PathFact, PathKind};
use nix_installer::state::ActionState;

fn insertion(position: Position) -> CreateOrInsertIntoFile {
    CreateOrInsertIntoFile {
        path: "/etc/profile".to_string(),
        user: None,
        group: None,
        mode: Some(0o644),
        buf: "# Nix\n".to_string(),
        position,
    }
}

#[test]
fn text_goes_where_the_position_says() {
    let existing = "one\ntwo marker\nthree\n";
    assert_eq!(insertion(Position::Start).insert_into(Some(existing)), "# Nix\none\ntwo marker\nthree\n");
    assert_eq!(insertion(Position::End).insert_into(Some(existing)), "one\ntwo marker\nthree\n# Nix\n");
    assert_eq!(
        insertion(Position::Beneath("marker".to_string())).insert_into(Some(existing)),
        "one\ntwo marker\n# Nix\nthree\n"
    );
    assert_eq!(
        insertion(Position::Beneath("absent".to_string())).insert_into(Some(existing)),
        "one\ntwo marker\nthree\n# Nix\n"
    );
    assert_eq!(
        insertion(Position::Beneath("three".to_string())).insert_into(Some("one\nthree")),
        "one\nthree# Nix\n"
    );
    assert_eq!(insertion(Position::End).insert_into(None), "# Nix\n");
    assert_eq!(insertion(Position::Start).insert_into(Some("")), "# Nix\n");
}

#[test]
fn the_first_occurrence_is_removed() {
    let action = insertion(Position::End);
    assert_eq!(action.remove_from("a\n# Nix\nb\n# Nix\n"), "a\nb\n# Nix\n");
    assert_eq!(action.remove_from("a\nb\n"), "a\nb\n");
    assert_eq!(action.remove_from("# Nix\n"), "");
}

#[test]
fn inserting_and_removing_gives_the_file_back() {
    let existing = "export PATH=/bin\nalias ll='ls -l'\n";
    for position in [Position::Start, Position::End, Position::Beneath("PATH".to_string())] {
        let action = insertion(position);
        let after = action.insert_into(Some(existing));
        assert_ne!(after, existing);
        assert_eq!(action.remove_from(&after), existing);
    }
}

#[test]
fn the_file_is_written_in_one_step() {
    let action = insertion(Position::End);
    assert_eq!(
        action.execute_operations(Some("x\n"), 5),
        vec![Operation::WriteFile {
            path: "/etc/profile".to_string(),
            temporary: "/etc/nix-installer-tmp.5".to_string(),
            contents: "x\n# Nix\n".to_string(),
            mode: Some(0o644),
            user: None,
            group: None,
        }]
    );
    assert_eq!(
        action.revert_operations(Some("x\n# Nix\n"), 6),
        vec![Operation::WriteFile {
            path: "/etc/profile".to_string(),
            temporary: "/etc/nix-installer-tmp.6".to_string(),
            contents: "x\n".to_string(),
            mode: Some(0o644),
            user: None,
            group: None,
        }]
    );
    assert!(action.revert_operations(None, 6).is_empty());
}

fn profile(path: &str) -> PathFact {
    PathFact {
        path: path.to_string(),
        kind: PathKind::File,
        mode: 0o644,
        user: "root".to_string(),
        group: "root".to_string(),
        contents: None,
        settings: None,
    }
}

#[test]
fn shell_profiles_that_exist_are_changed_and_changed_back() {
    let mut facts = HostFacts::empty();
    facts.paths.push(profile("/etc/zsh/zshrc"));
    facts.paths.push(profile("/etc/bashrc"));
    facts.paths.push(profile("/etc/profile.d/nix.sh"));
    facts.paths.push(profile("/etc/unrelated"));
    let tree = ConfigureShellProfile::plan(&facts).unwrap();
    assert_eq!(tree.state, ActionState::Uncompleted);
    let paths: Vec<String> = tree
        .children
        .iter()
        .map(|child| match &child.action {
            Action::CreateOrInsertIntoFile(file) => file.path.clone(),
            other => panic!("unexpected action {:?}", other),
        })
        .collect();
    assert_eq!(paths, vec!["/etc/bashrc", "/etc/profile.d/nix.sh", "/etc/zsh/zshrc"]);
    let contents = ["# bash\n", "", "autoload compinit\ncompinit\n"];
    for (child, before) in tree.children.iter().zip(contents) {
        let file = match &child.action {
            Action::CreateOrInsertIntoFile(file) => file,
            other => panic!("unexpected action {:?}", other),
        };
        assert_eq!(file.position, Position::End);
        assert_eq!(file.mode, Some(0o644));
        let after = file.insert_into(Some(before));
        assert!(after.starts_with(before));
        assert!(after.contains("# Nix\n"));
        assert!(after.contains(". '/nix/var/nix/profiles/default/etc/profile.d/nix-daemon.sh'\n"));
        assert!(after.ends_with("# End Nix\n\n"));
        assert_eq!(file.remove_from(&after), before);
    }
    let none = ConfigureShellProfile::plan(&HostFacts::empty()).unwrap();
    assert!(none.children.is_empty());
}
