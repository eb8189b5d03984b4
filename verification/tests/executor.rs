use nix_installer::action::base::create_group::CreateGroup;
use nix_installer::action::base::create_user::CreateUser;
use nix_installer::action::common::configure_shell_profile::ConfigureShellProfile;
use nix_installer::action::common::create_users_and_groups::CreateUsersAndGroups;
use nix_installer::action::macos::create_nix_volume::CreateNixVolume;
use nix_installer::action::run::Step;
use nix_installer::action::{Action, ActionTag, StatefulAction};
use nix_installer::error::ActionError;
use nix_installer::host::{Architecture, OperatingSystem};
use nix_installer::plan::{Compatibility, Executor, InstallError, InstallPlan, Phase, Task};
use nix_installer::planner::{BuiltinPlanner, DarwinMulti, LinuxMulti, SteamDeck};
use nix_installer::state::{ActionState, Direction};

fn leaf(name: &str) -> StatefulAction {
    StatefulAction {
        action: Action::CreateGroup(CreateGroup { name: name.to_string(), gid: 1 }),
        state: ActionState::Uncompleted,
        children: vec![],
        failure: None,
    }
}

fn user(name: &str) -> StatefulAction {
    StatefulAction {
        action: Action::CreateUser(CreateUser {
            name: name.to_string(),
            uid: 1,
            groupname: "g".to_string(),
            gid: 1,
        }),
        state: ActionState::Uncompleted,
        children: vec![],
        failure: None,
    }
}

fn users_and_group(users: &[&str]) -> StatefulAction {
    let mut children = vec![leaf("g")];
    children.extend(users.iter().map(|name| user(name)));
    StatefulAction {
        action: Action::CreateUsersAndGroups(CreateUsersAndGroups {
            nix_build_user_count: users.len() as u32,
            nix_build_group_name: "g".to_string(),
            nix_build_group_id: 1,
            nix_build_user_prefix: "u".to_string(),
            nix_build_user_id_base: 1,
        }),
        state: ActionState::Uncompleted,
        children,
        failure: None,
    }
}

fn profiles(names: &[&str]) -> StatefulAction {
    StatefulAction {
        action: Action::ConfigureShellProfile(ConfigureShellProfile {}),
        state: ActionState::Uncompleted,
        children: names.iter().map(|name| leaf(name)).collect(),
        failure: None,
    }
}

fn volume(names: &[&str]) -> StatefulAction {
    StatefulAction {
        action: Action::CreateNixVolume(CreateNixVolume {
            disk: "disk1".to_string(),
            name: "Nix Store".to_string(),
            case_sensitive: false,
            encrypt: false,
        }),
        state: ActionState::Uncompleted,
        children: names.iter().map(|name| leaf(name)).collect(),
        failure: None,
    }
}

fn name_of(node: &StatefulAction) -> String {
    match &node.action {
        Action::CreateGroup(group) => group.name.clone(),
        Action::CreateUser(user) => user.name.clone(),
        other => format!("{:?}", other.kind()),
    }
}

fn failure(name: &str) -> ActionError {
    ActionError::Command(format!("{} failed", name))
}

/// Drives one tree until it asks for nothing more; the leaves named in
/// `failing` fail. Gives the names of the leaves in the order in which
/// they were worked on, and what the tree came to.
fn drive(
    tree: &mut StatefulAction,
    host: OperatingSystem,
    direction: Direction,
    failing: &[&str],
) -> (Vec<String>, Step) {
    let mut worked = vec![];
    loop {
        match tree.next_step(host, direction) {
            Step::Work(path) => {
                let leaf = tree.node_at(&path).unwrap();
                assert_eq!(leaf.state, ActionState::Progress);
                assert!(!leaf.action.is_composite());
                let name = name_of(leaf);
                assert_eq!(tree.next_step(host, direction), Step::Work(path.clone()));
                let outcome = if failing.contains(&name.as_str()) { Err(failure(&name)) } else { Ok(()) };
                worked.push(name);
                tree.record(&path, direction, outcome);
            },
            other => return (worked, other),
        }
    }
}

fn states(tree: &StatefulAction) -> Vec<ActionState> {
    tree.children.iter().map(|child| child.state).collect()
}

#[test]
fn a_leaf_goes_forward_and_back() {
    let mut tree = leaf("a");
    assert_eq!(tree.next_step(OperatingSystem::Linux, Direction::Reverse), Step::Done);
    assert_eq!(tree.state, ActionState::Uncompleted);
    assert_eq!(tree.next_step(OperatingSystem::Linux, Direction::Forward), Step::Work(vec![]));
    assert_eq!(tree.state, ActionState::Progress);
    tree.record(&vec![], Direction::Forward, Ok(()));
    assert_eq!(tree.state, ActionState::Completed);
    assert_eq!(tree.next_step(OperatingSystem::Linux, Direction::Forward), Step::Done);
    assert_eq!(tree.state, ActionState::Completed);
    assert_eq!(tree.next_step(OperatingSystem::Linux, Direction::Reverse), Step::Work(vec![]));
    assert_eq!(tree.state, ActionState::Progress);
    tree.record(&vec![], Direction::Reverse, Ok(()));
    assert_eq!(tree.state, ActionState::Uncompleted);
    assert_eq!(tree, leaf("a"));
}

#[test]
fn a_failed_leaf_stays_in_progress() {
    let mut tree = leaf("a");
    assert_eq!(tree.next_step(OperatingSystem::Linux, Direction::Forward), Step::Work(vec![]));
    tree.record(&vec![], Direction::Forward, Err(failure("a")));
    assert_eq!(tree.state, ActionState::Progress);
    assert_eq!(tree.next_step(OperatingSystem::Linux, Direction::Forward), Step::Failed);
    assert_eq!(tree.state, ActionState::Progress);
    assert_eq!(tree.take_failure(OperatingSystem::Linux, Direction::Forward), Some(failure("a")));
    assert_eq!(tree.failure, None);
    assert_eq!(tree.next_step(OperatingSystem::Linux, Direction::Reverse), Step::Work(vec![]));
}

#[test]
fn children_run_in_declared_order_and_back_in_reverse() {
    let mut tree = users_and_group(&["u0", "u1", "u2"]);
    let (worked, end) = drive(&mut tree, OperatingSystem::Linux, Direction::Forward, &[]);
    assert_eq!(worked, vec!["g", "u0", "u1", "u2"]);
    assert_eq!(end, Step::Done);
    assert_eq!(tree.state, ActionState::Completed);
    assert_eq!(states(&tree), vec![ActionState::Completed; 4]);
    let (again, end) = drive(&mut tree, OperatingSystem::Linux, Direction::Forward, &[]);
    assert!(again.is_empty());
    assert_eq!(end, Step::Done);
    let (back, end) = drive(&mut tree, OperatingSystem::Linux, Direction::Reverse, &[]);
    assert_eq!(back, vec!["u2", "u1", "u0", "g"]);
    assert_eq!(end, Step::Done);
    assert_eq!(tree, users_and_group(&["u0", "u1", "u2"]));
    let (again, end) = drive(&mut tree, OperatingSystem::Linux, Direction::Reverse, &[]);
    assert!(again.is_empty());
    assert_eq!(end, Step::Done);
}

#[test]
fn children_that_are_done_are_passed_over() {
    let mut tree = users_and_group(&["u0", "u1"]);
    tree.children[0].state = ActionState::Completed;
    tree.children[2].state = ActionState::Completed;
    let (worked, _) = drive(&mut tree, OperatingSystem::Linux, Direction::Forward, &[]);
    assert_eq!(worked, vec!["u0"]);
    assert_eq!(tree.state, ActionState::Completed);
    let (back, _) = drive(&mut tree, OperatingSystem::Linux, Direction::Reverse, &[]);
    assert_eq!(back, vec!["u1", "u0", "g"]);
}

#[test]
fn parallel_children_are_all_tried_and_their_failures_gathered() {
    let mut tree = profiles(&["a", "b", "c", "d"]);
    let (worked, end) = drive(&mut tree, OperatingSystem::Linux, Direction::Forward, &["b", "d"]);
    assert_eq!(worked, vec!["a", "b", "c", "d"]);
    assert_eq!(end, Step::Failed);
    assert_eq!(tree.state, ActionState::Progress);
    assert_eq!(
        states(&tree),
        vec![ActionState::Completed, ActionState::Progress, ActionState::Completed, ActionState::Progress]
    );
    assert_eq!(
        tree.take_failure(OperatingSystem::Linux, Direction::Forward),
        Some(ActionError::Children(vec![failure("b"), failure("d")]))
    );
}

#[test]
fn a_single_failure_of_parallel_children_stands_alone() {
    let mut tree = profiles(&["a", "b", "c"]);
    let (worked, end) = drive(&mut tree, OperatingSystem::Linux, Direction::Forward, &["b"]);
    assert_eq!(worked, vec!["a", "b", "c"]);
    assert_eq!(end, Step::Failed);
    assert_eq!(tree.take_failure(OperatingSystem::Linux, Direction::Forward), Some(failure("b")));
    assert_eq!(tree.take_failure(OperatingSystem::Linux, Direction::Forward), None);
}

#[test]
fn users_are_gathered_on_linux_and_one_after_another_on_macos() {
    let mut tree = users_and_group(&["u0", "u1", "u2"]);
    let (worked, end) = drive(&mut tree, OperatingSystem::Linux, Direction::Forward, &["u0", "u1"]);
    assert_eq!(worked, vec!["g", "u0", "u1", "u2"]);
    assert_eq!(end, Step::Failed);
    assert_eq!(
        tree.take_failure(OperatingSystem::Linux, Direction::Forward),
        Some(ActionError::Children(vec![failure("u0"), failure("u1")]))
    );

    let mut tree = users_and_group(&["u0", "u1", "u2"]);
    let (worked, end) = drive(&mut tree, OperatingSystem::Darwin, Direction::Forward, &["u0", "u1"]);
    assert_eq!(worked, vec!["g", "u0"]);
    assert_eq!(end, Step::Failed);
    assert_eq!(tree.take_failure(OperatingSystem::Darwin, Direction::Forward), Some(failure("u0")));
    assert_eq!(tree.children[2].state, ActionState::Uncompleted);

    let mut tree = users_and_group(&["u0", "u1", "u2"]);
    let (worked, end) = drive(&mut tree, OperatingSystem::Linux, Direction::Forward, &["g"]);
    assert_eq!(worked, vec!["g"]);
    assert_eq!(end, Step::Failed);
}

#[test]
fn the_group_is_not_undone_while_a_user_is_left() {
    let mut tree = users_and_group(&["u0", "u1"]);
    drive(&mut tree, OperatingSystem::Darwin, Direction::Forward, &[]);
    let (back, end) = drive(&mut tree, OperatingSystem::Darwin, Direction::Reverse, &["u1"]);
    assert_eq!(back, vec!["u1", "u0"]);
    assert_eq!(end, Step::Failed);
    assert_eq!(tree.children[0].state, ActionState::Completed);
    assert_eq!(tree.take_failure(OperatingSystem::Darwin, Direction::Reverse), Some(failure("u1")));
}

#[test]
fn a_failure_to_unmount_is_passed_over() {
    let names = ["synthetic", "objects", "unmount", "create", "fstab"];
    let mut tree = volume(&names);
    let (worked, end) = drive(&mut tree, OperatingSystem::Darwin, Direction::Forward, &["unmount"]);
    assert_eq!(worked, names);
    assert_eq!(end, Step::Done);
    assert_eq!(tree.state, ActionState::Completed);
    assert_eq!(tree.children[2].state, ActionState::Progress);
    let (back, end) = drive(&mut tree, OperatingSystem::Darwin, Direction::Reverse, &[]);
    assert_eq!(back, vec!["fstab", "create", "unmount", "objects", "synthetic"]);
    assert_eq!(end, Step::Done);
    assert_eq!(tree, volume(&names));

    let mut tree = volume(&names);
    let (worked, end) = drive(&mut tree, OperatingSystem::Darwin, Direction::Forward, &["create"]);
    assert_eq!(worked, vec!["synthetic", "objects", "unmount", "create"]);
    assert_eq!(end, Step::Failed);
    let mut tree = volume(&names);
    drive(&mut tree, OperatingSystem::Darwin, Direction::Forward, &[]);
    let (back, end) = drive(&mut tree, OperatingSystem::Darwin, Direction::Reverse, &["unmount"]);
    assert_eq!(back, vec!["fstab", "create", "unmount"]);
    assert_eq!(end, Step::Failed);
}

#[test]
fn a_composite_without_children_completes() {
    let mut tree = profiles(&[]);
    assert_eq!(tree.next_step(OperatingSystem::Linux, Direction::Forward), Step::Done);
    assert_eq!(tree.state, ActionState::Completed);
    assert_eq!(tree.next_step(OperatingSystem::Linux, Direction::Reverse), Step::Done);
    assert_eq!(tree.state, ActionState::Uncompleted);
}

#[test]
fn paths_that_lead_nowhere_change_nothing() {
    let mut tree = users_and_group(&["u0"]);
    let before = users_and_group(&["u0"]);
    tree.record(&vec![5], Direction::Forward, Ok(()));
    tree.record(&vec![0, 0], Direction::Forward, Ok(()));
    tree.record(&vec![], Direction::Forward, Ok(()));
    assert_eq!(tree, before);
    assert!(tree.node_at(&vec![2]).is_none());
    assert!(tree.node_at(&vec![1, 0]).is_none());
    assert_eq!(tree.node_at(&vec![1]).map(name_of), Some("u0".to_string()));
    assert_eq!(tree.node_at(&vec![]).map(|n| n.action.kind()), Some(ActionTag::CreateUsersAndGroups));
}

fn plan_of(actions: Vec<StatefulAction>) -> InstallPlan {
    InstallPlan {
        version: "0.1.0".to_string(),
        planner: BuiltinPlanner::LinuxMulti(LinuxMulti::default_for(Architecture::X86_64).unwrap()),
        actions,
    }
}

/// Runs an attempt to its end; gives the tasks in words.
fn run(
    executor: &mut Executor,
    plan: &mut InstallPlan,
    failing: &[&str],
    cancel_after: Option<usize>,
) -> Vec<String> {
    let mut log = vec![];
    loop {
        let cancelled = cancel_after.map_or(false, |n| log.len() >= n);
        let (forward, action, path) = match executor.next(plan, cancelled) {
            Task::Execute { action, path } => (true, action, path),
            Task::Revert { action, path } => (false, action, path),
            Task::Finished => return log,
        };
        let name = name_of(plan.actions[action].node_at(&path).unwrap());
        let outcome = if failing.contains(&name.as_str()) { Err(failure(&name)) } else { Ok(()) };
        log.push(format!("{}{}", if forward { "+" } else { "-" }, name));
        executor.record(plan, action, &path, outcome);
    }
}

#[test]
fn a_plan_is_carried_out_in_order() {
    let mut plan = plan_of(vec![leaf("a"), users_and_group(&["u0", "u1"]), leaf("z")]);
    let mut executor = Executor::install(OperatingSystem::Linux);
    let log = run(&mut executor, &mut plan, &[], None);
    assert_eq!(log, vec!["+a", "+g", "+u0", "+u1", "+z"]);
    assert_eq!(executor.phase, Phase::Finished);
    assert!(plan.is_completed());
    assert_eq!(executor.into_result(), Ok(()));
    let mut again = Executor::install(OperatingSystem::Linux);
    assert!(run(&mut again, &mut plan, &[], None).is_empty());
    assert_eq!(again.into_result(), Ok(()));
}

#[test]
fn a_plan_is_undone_in_reverse_order() {
    let mut plan = plan_of(vec![leaf("a"), users_and_group(&["u0", "u1"]), leaf("z")]);
    run(&mut Executor::install(OperatingSystem::Linux), &mut plan, &[], None);
    let mut executor = Executor::uninstall(OperatingSystem::Linux, &plan);
    let log = run(&mut executor, &mut plan, &[], None);
    assert_eq!(log, vec!["-z", "-u1", "-u0", "-g", "-a"]);
    assert_eq!(executor.into_result(), Ok(()));
    assert_eq!(plan, plan_of(vec![leaf("a"), users_and_group(&["u0", "u1"]), leaf("z")]));
    let mut again = Executor::uninstall(OperatingSystem::Linux, &plan);
    assert!(run(&mut again, &mut plan, &[], None).is_empty());
}

#[test]
fn a_failure_undoes_what_came_before_and_spares_what_failed() {
    let mut plan = plan_of(vec![leaf("a"), leaf("b"), users_and_group(&["u0", "u1"]), leaf("z")]);
    let mut executor = Executor::install(OperatingSystem::Darwin);
    let log = run(&mut executor, &mut plan, &["u0"], None);
    assert_eq!(log, vec!["+a", "+b", "+g", "+u0", "-b", "-a"]);
    assert_eq!(plan.actions[0].state, ActionState::Uncompleted);
    assert_eq!(plan.actions[1].state, ActionState::Uncompleted);
    assert_eq!(plan.actions[2].state, ActionState::Progress);
    assert_eq!(plan.actions[2].children[0].state, ActionState::Completed);
    assert_eq!(plan.actions[2].children[1].state, ActionState::Progress);
    assert_eq!(plan.actions[3].state, ActionState::Uncompleted);
    assert_eq!(
        executor.into_result(),
        Err(InstallError::Failed { error: failure("u0"), reverts: vec![] })
    );
}

#[test]
fn failures_to_undo_are_kept_beside_the_first_failure() {
    let mut plan = plan_of(vec![leaf("a"), leaf("b"), leaf("c"), leaf("d")]);
    let mut executor = Executor::install(OperatingSystem::Linux);
    let mut log = vec![];
    loop {
        let task = executor.next(&mut plan, false);
        let (forward, action, path) = match task {
            Task::Execute { action, path } => (true, action, path),
            Task::Revert { action, path } => (false, action, path),
            Task::Finished => break,
        };
        let name = name_of(&plan.actions[action]);
        log.push(format!("{}{}", if forward { "+" } else { "-" }, name));
        let fails = (forward && name == "d") || (!forward && (name == "c" || name == "a"));
        executor.record(&mut plan, action, &path, if fails { Err(failure(&name)) } else { Ok(()) });
    }
    assert_eq!(log, vec!["+a", "+b", "+c", "+d", "-c", "-b", "-a"]);
    assert_eq!(
        executor.into_result(),
        Err(InstallError::Failed { error: failure("d"), reverts: vec![failure("c"), failure("a")] })
    );
    assert_eq!(
        plan.actions.iter().map(|a| a.state).collect::<Vec<_>>(),
        vec![ActionState::Progress, ActionState::Uncompleted, ActionState::Progress, ActionState::Progress]
    );
}

#[test]
fn cancellation_counts_between_actions() {
    let mut plan = plan_of(vec![leaf("a"), users_and_group(&["u0", "u1"]), leaf("z")]);
    let mut executor = Executor::install(OperatingSystem::Linux);
    let log = run(&mut executor, &mut plan, &[], Some(2));
    assert_eq!(log, vec!["+a", "+g", "+u0", "+u1", "-u1", "-u0", "-g", "-a"]);
    assert_eq!(plan.actions[2].state, ActionState::Uncompleted);
    assert_eq!(
        executor.into_result(),
        Err(InstallError::Failed { error: ActionError::Cancelled, reverts: vec![] })
    );

    let mut plan = plan_of(vec![leaf("a"), leaf("b")]);
    let mut executor = Executor::install(OperatingSystem::Linux);
    assert!(run(&mut executor, &mut plan, &[], Some(0)).is_empty());
    assert_eq!(
        executor.into_result(),
        Err(InstallError::Failed { error: ActionError::Cancelled, reverts: vec![] })
    );
    assert_eq!(plan, plan_of(vec![leaf("a"), leaf("b")]));
}

#[test]
fn failures_to_uninstall_are_gathered() {
    let mut plan = plan_of(vec![leaf("a"), leaf("b"), leaf("c")]);
    run(&mut Executor::install(OperatingSystem::Linux), &mut plan, &[], None);
    let mut executor = Executor::uninstall(OperatingSystem::Linux, &plan);
    let log = run(&mut executor, &mut plan, &["c", "a"], None);
    assert_eq!(log, vec!["-c", "-b", "-a"]);
    assert_eq!(
        executor.into_result(),
        Err(InstallError::RevertsFailed(vec![failure("c"), failure("a")]))
    );
}

#[test]
fn an_installation_is_taken_up_again() {
    let mut plan = plan_of(vec![leaf("a"), leaf("b"), leaf("c")]);
    let mut executor = Executor::install(OperatingSystem::Linux);
    let Task::Execute { action, path } = executor.next(&mut plan, false) else { panic!("no task") };
    executor.record(&mut plan, action, &path, Ok(()));
    let Task::Execute { .. } = executor.next(&mut plan, false) else { panic!("no task") };
    assert_eq!(plan.actions[1].state, ActionState::Progress);
    let mut resumed = Executor::install(OperatingSystem::Linux);
    let log = run(&mut resumed, &mut plan, &[], None);
    assert_eq!(log, vec!["+b", "+c"]);
    assert!(plan.is_completed());
}

#[test]
fn repeat_install_refusal() {
    let chosen = BuiltinPlanner::LinuxMulti(LinuxMulti::default_for(Architecture::X86_64).unwrap());
    let mut receipt = plan_of(vec![leaf("a"), leaf("b")]);
    assert_eq!(receipt.check_compatibility(&chosen), Compatibility::Resume);
    assert_eq!(Compatibility::Resume.refusal(), None);
    run(&mut Executor::install(OperatingSystem::Linux), &mut receipt, &[], None);
    let found = receipt.check_compatibility(&chosen);
    assert_eq!(found, Compatibility::AlreadyCompleted);
    assert!(found.refusal().unwrap().contains("already completed"));
    assert_eq!(plan_of(vec![]).check_compatibility(&chosen), Compatibility::AlreadyCompleted);
}

#[test]
fn conflicting_settings_refusal() {
    let receipt = plan_of(vec![leaf("a")]);
    let mut planner = LinuxMulti::default_for(Architecture::X86_64).unwrap();
    assert_eq!(planner.settings.nix_build_user_count, 32);
    planner.settings.nix_build_user_count = 16;
    let found = receipt.check_compatibility(&BuiltinPlanner::LinuxMulti(planner));
    assert_eq!(found, Compatibility::DifferentSettings);
    assert!(found.refusal().unwrap().contains("different planner settings"));
}

#[test]
fn another_planner_is_refused() {
    let receipt = plan_of(vec![leaf("a")]);
    let chosen = BuiltinPlanner::DarwinMulti(DarwinMulti::default_for(Architecture::X86_64, None).unwrap());
    let found = receipt.check_compatibility(&chosen);
    assert_eq!(found, Compatibility::DifferentPlanner);
    assert!(found.refusal().unwrap().contains("a different planner"));
}

#[test]
fn a_whole_linux_plan_goes_forward_and_back() {
    let mut facts = nix_installer::facts::HostFacts::empty();
    facts.root_home = Some("/root".to_string());
    let planner = LinuxMulti::default_for(Architecture::X86_64).unwrap();
    let mut plan = planner.plan(&facts).unwrap();
    let untouched = LinuxMulti::default_for(Architecture::X86_64).unwrap().plan(&facts).unwrap();
    let mut executor = Executor::install(OperatingSystem::Linux);
    let forward = run(&mut executor, &mut plan, &[], None);
    assert_eq!(forward.len(), 42);
    assert_eq!(forward[0], "+CreateDirectory");
    assert_eq!(forward[1], "+nixbld");
    assert_eq!(forward[2], "+nixbld0");
    assert_eq!(forward[33], "+nixbld31");
    assert_eq!(forward[34], "+FetchAndUnpackNix");
    assert_eq!(forward[41], "+StartSystemdUnit");
    assert!(plan.is_completed());
    let mut executor = Executor::uninstall(OperatingSystem::Linux, &plan);
    let backward = run(&mut executor, &mut plan, &[], None);
    let mirrored: Vec<String> = forward.iter().rev().map(|t| t.replacen('+', "-", 1)).collect();
    assert_eq!(backward, mirrored);
    assert_eq!(plan, untouched);
}

#[test]
fn settings_that_read_alike_in_words_are_told_apart() {
    let receipt = plan_of(vec![leaf("a")]);
    let linux = || LinuxMulti::default_for(Architecture::X86_64).unwrap();
    assert!(receipt.planner.is_same(&BuiltinPlanner::LinuxMulti(linux())));
    let mut empty_proxy = linux();
    empty_proxy.settings.proxy = Some(String::new());
    assert_eq!(
        receipt.check_compatibility(&BuiltinPlanner::LinuxMulti(empty_proxy)),
        Compatibility::DifferentSettings
    );
    let mut one_line = linux();
    one_line.settings.extra_conf = vec!["a,b".to_string()];
    let mut two_lines = linux();
    two_lines.settings.extra_conf = vec!["a".to_string(), "b".to_string()];
    assert!(!one_line.settings.is_same(&two_lines.settings));
    assert!(one_line.settings.is_same(&one_line.settings));
    let mut held = plan_of(vec![leaf("a")]);
    held.planner = BuiltinPlanner::LinuxMulti(one_line);
    assert_eq!(
        held.check_compatibility(&BuiltinPlanner::LinuxMulti(two_lines)),
        Compatibility::DifferentSettings
    );
    let deck = BuiltinPlanner::SteamDeck(SteamDeck::default_for(Architecture::X86_64).unwrap());
    assert!(!receipt.planner.is_same(&deck));
    assert_eq!(receipt.check_compatibility(&deck), Compatibility::DifferentPlanner);
    let darwin = |disk: Option<&str>| {
        BuiltinPlanner::DarwinMulti(DarwinMulti::default_for(Architecture::Aarch64, disk.map(String::from)).unwrap())
    };
    assert!(darwin(Some("disk1")).is_same(&darwin(Some("disk1"))));
    assert!(!darwin(Some("")).is_same(&darwin(None)));
    let mut on_disk = plan_of(vec![leaf("a")]);
    on_disk.planner = darwin(None);
    assert_eq!(on_disk.check_compatibility(&darwin(Some(""))), Compatibility::DifferentSettings);
    assert_eq!(on_disk.check_compatibility(&darwin(None)), Compatibility::Resume);
}
