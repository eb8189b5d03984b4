use nix_installer::action::base::create_group::CreateGroup;
use nix_installer::action::common::create_users_and_groups::CreateUsersAndGroups;
use nix_installer::action::describe::ActionDescription;
use nix_installer::action::{Action, StatefulAction};
use nix_installer::facts::HostFacts;
use nix_installer::host::{Architecture, OperatingSystem};
use nix_installer::settings::CommonSettings;
use nix_installer::state::{ActionState, Direction};

fn group(state: ActionState) -> StatefulAction {
    StatefulAction {
        action: Action::CreateGroup(CreateGroup { name: "nixbld".to_string(), gid: 3000 }),
        state,
        children: vec![],
        failure: None,
    }
}

#[test]
fn a_completed_action_has_nothing_to_say_of_carrying_it_out() {
    assert!(group(ActionState::Completed).describe_execute().is_empty());
    assert_eq!(
        group(ActionState::Uncompleted).describe_execute(),
        vec![ActionDescription::new(
            "Create group nixbld with GID 3000".to_string(),
            vec!["The nix daemon requires a system user group its system users can be part of".to_string()]
        )]
    );
    assert_eq!(group(ActionState::Progress).describe_execute().len(), 1);
}

#[test]
fn an_uncompleted_action_has_nothing_to_say_of_undoing_it() {
    assert!(group(ActionState::Uncompleted).describe_revert().is_empty());
    assert_eq!(
        group(ActionState::Completed).describe_revert(),
        vec![ActionDescription::new(
            "Delete group nixbld".to_string(),
            vec!["The nix daemon requires a system user group its system users can be part of".to_string()]
        )]
    );
    assert_eq!(group(ActionState::Progress).describe(Direction::Reverse).len(), 1);
}

#[test]
fn a_composite_explains_itself_by_its_children() {
    let mut settings = CommonSettings::default_for(Architecture::X86_64, OperatingSystem::Linux).unwrap();
    settings.nix_build_user_count = 2;
    let mut tree = CreateUsersAndGroups::plan(&settings, &HostFacts::empty()).unwrap();
    tree.children[1].state = ActionState::Completed;
    let described = tree.describe_execute();
    assert_eq!(described.len(), 1);
    assert_eq!(described[0].description, "Create 2 build users (UID 3000 and up) and group (GID 3000)");
    assert_eq!(
        described[0].explanation,
        vec![
            "The Nix daemon requires system users (and a group they share) which it can act as in order to build",
            "Create group nixbld with GID 3000",
            "Create user `nixbld1` (UID 3001) in group `nixbld` (GID 3000)",
        ]
    );
    let undone = tree.describe_revert();
    assert!(undone.is_empty());
    tree.state = ActionState::Completed;
    let undone = tree.describe_revert();
    assert_eq!(undone[0].description, "Remove Nix users and group");
    assert_eq!(undone[0].explanation.len(), 2);
    assert_eq!(undone[0].explanation[1], "Delete user `nixbld0` (UID 3000) in group nixbld (GID 3000)");
}
