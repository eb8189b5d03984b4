use nix_installer::action::base::create_or_insert_into_file::{CreateOrInsertIntoFile, Position};
use nix_installer::action::base::create_or_merge_nix_config::CreateOrMergeNixConfig;
use nix_installer::action::{Action, StatefulAction};
use nix_installer::error::ActionError;
use nix_installer::facts::{HostFacts, PathFact, PathKind};
use nix_installer::host::{Architecture, Host, OperatingSystem};
use nix_installer::nix_config::NixSettings;
use nix_installer::plan::{Executor, InstallPlan, Task};
use nix_installer::planner::{BuiltinPlanner, DarwinMulti, LinuxMulti, SteamDeck};
use nix_installer::receipt::{ReceiptError, Value};
use nix_installer::state::{ActionState, Direction};

fn host_of(architecture: Architecture, os: OperatingSystem) -> Host {
    Host { architecture, os, steam_deck: false, name: "a-host".to_string() }
}

fn host() -> HostFacts {
    let mut facts = HostFacts::empty();
    facts.root_home = Some("/root".to_string());
    facts.root_disk = Some("disk1".to_string());
    facts.paths.push(PathFact {
        path: "/etc/nix/nix.conf".to_string(),
        kind: PathKind::File,
        mode: 0o644,
        user: "root".to_string(),
        group: "root".to_string(),
        contents: Some("experimental-features = flakes\nwarn-dirty = true\n".to_string()),
        settings: None,
    });
    facts.paths.push(PathFact {
        path: "/etc/zshrc".to_string(),
        kind: PathKind::File,
        mode: 0o644,
        user: "root".to_string(),
        group: "root".to_string(),
        contents: None,
        settings: None,
    });
    facts
}

fn plans() -> Vec<InstallPlan> {
    let mut darwin = DarwinMulti::default_for(Architecture::Aarch64, None).unwrap();
    darwin.volume_encrypt = true;
    darwin.settings.proxy = Some("http://proxy:3128".to_string());
    darwin.settings.extra_conf = vec!["cores = 2".to_string()];
    vec![
        LinuxMulti::default_for(Architecture::X86_64).unwrap().plan(&host()).unwrap(),
        SteamDeck::default_for(Architecture::X86_64).unwrap().plan(&host()).unwrap(),
        darwin.plan(&host()).unwrap(),
    ]
}

fn text(value: &str) -> Value {
    Value::Text(value.to_string())
}

fn named(entries: Vec<(&str, Value)>) -> Value {
    Value::Object(entries.into_iter().map(|(name, value)| (name.to_string(), value)).collect())
}

#[test]
fn receipt_round_trip() {
    for plan in plans() {
        let written = plan.to_receipt();
        let read = InstallPlan::from_receipt(&written).unwrap();
        assert_eq!(read, plan);
        assert_eq!(read.to_receipt(), written);
        assert_eq!(plan.duplicate().as_ref(), Ok(&plan));
    }
}

#[test]
fn receipts_keep_states_through_an_installation() {
    let mut plan = plans().remove(0);
    let mut executor = Executor::install(OperatingSystem::Linux);
    let mut steps = 0;
    loop {
        match executor.next(&mut plan, false) {
            Task::Execute { action, path } => {
                steps += 1;
                let outcome = if steps == 20 { Err(ActionError::Cancelled) } else { Ok(()) };
                let failed = outcome.is_err();
                executor.record(&mut plan, action, &path, outcome);
                if failed {
                    break;
                }
            },
            _ => break,
        }
    }
    let copy = plan.duplicate().unwrap();
    assert_eq!(copy.to_receipt(), plan.to_receipt());
    let states = |tree: &StatefulAction| tree.children.iter().map(|c| c.state).collect::<Vec<_>>();
    assert_eq!(states(&copy.actions[1].children[0]), states(&plan.actions[1].children[0]));
    assert_eq!(copy.actions[1].state, ActionState::Progress);
    assert_eq!(copy.actions[1].children[0].children[18].state, ActionState::Progress);
    assert_eq!(copy.actions[1].children[0].children[18].failure, None);
    assert_eq!(
        plan.actions[1].children[0].children[18].failure,
        Some((Direction::Forward, ActionError::Cancelled))
    );
}

#[test]
fn an_action_is_written_with_its_kind_state_values_and_children() {
    let action = StatefulAction {
        action: Action::CreateOrInsertIntoFile(CreateOrInsertIntoFile {
            path: "/etc/profile".to_string(),
            user: None,
            group: Some("wheel".to_string()),
            mode: Some(0o644),
            buf: "x".to_string(),
            position: Position::Beneath("# marker".to_string()),
        }),
        state: ActionState::Completed,
        children: vec![],
        failure: None,
    };
    let written = named(vec![
        ("action", text("create_or_insert_into_file")),
        ("state", text("Completed")),
        ("path", text("/etc/profile")),
        ("user", Value::Null),
        ("group", text("wheel")),
        ("mode", Value::Number(0o644)),
        ("buf", text("x")),
        ("position", named(vec![("Beneath", text("# marker"))])),
        ("children", Value::List(vec![])),
    ]);
    assert_eq!(action.to_receipt(), written);
    assert_eq!(StatefulAction::from_receipt(&written), Ok(action));
}

#[test]
fn settings_are_written_as_pairs() {
    let mut existing = NixSettings::new();
    existing.insert("a".to_string(), "1".to_string());
    let mut merged = NixSettings::new();
    merged.insert("b".to_string(), "2 3".to_string());
    merged.insert("c".to_string(), "".to_string());
    let action = StatefulAction {
        action: Action::CreateOrMergeNixConfig(CreateOrMergeNixConfig {
            path: "/etc/nix/nix.conf".to_string(),
            existing: Some(existing),
            merged,
        }),
        state: ActionState::Uncompleted,
        children: vec![],
        failure: None,
    };
    let pair = |name: &str, value: &str| Value::List(vec![text(name), text(value)]);
    let written = |merged: Vec<Value>| {
        named(vec![
            ("action", text("create_or_merge_nix_config")),
            ("state", text("Uncompleted")),
            ("path", text("/etc/nix/nix.conf")),
            ("existing", Value::List(vec![pair("a", "1")])),
            ("merged", Value::List(merged)),
            ("children", Value::List(vec![])),
        ])
    };
    assert_eq!(action.to_receipt(), written(vec![pair("b", "2 3"), pair("c", "")]));
    assert_eq!(StatefulAction::from_receipt(&written(vec![pair("b", "2 3"), pair("c", "")])), Ok(action));
    assert!(StatefulAction::from_receipt(&written(vec![pair("b", "2"), pair("b", "3")])).is_err());
    assert!(StatefulAction::from_receipt(&written(vec![Value::List(vec![text("b")])])).is_err());
}

#[test]
fn planners_are_written_with_their_kind_and_settings() {
    let planner = BuiltinPlanner::for_host(&host_of(Architecture::X86_64, OperatingSystem::Darwin), Some("disk3".to_string()))
        .unwrap();
    let written = planner.to_receipt();
    match &written {
        Value::Object(entries) => {
            let names: Vec<&str> = entries.iter().map(|(name, _)| name.as_str()).collect();
            assert_eq!(names, vec!["planner", "settings", "volume_encrypt", "volume_label", "root_disk"]);
            assert_eq!(entries[0].1, text("darwin-multi"));
            assert_eq!(entries[2].1, Value::Bool(false));
            assert_eq!(entries[3].1, text("Nix Store"));
            assert_eq!(entries[4].1, text("disk3"));
        },
        other => panic!("unexpected value {:?}", other),
    }
    assert_eq!(BuiltinPlanner::from_receipt(&written), Ok(planner));
    let linux = BuiltinPlanner::for_host(&host_of(Architecture::X86_64, OperatingSystem::Linux), None).unwrap();
    let written = linux.to_receipt();
    assert_eq!(BuiltinPlanner::from_receipt(&written), Ok(linux));
}

#[test]
fn what_is_no_receipt_is_not_read() {
    let malformed = |value: &Value| matches!(InstallPlan::from_receipt(value), Err(ReceiptError::Malformed(_)));
    assert!(malformed(&Value::Null));
    assert!(malformed(&named(vec![])));
    let plan = plans().remove(0);
    let Value::Object(entries) = plan.to_receipt() else { panic!("no object") };
    let with = |change: &dyn Fn(&mut Vec<(String, Value)>)| {
        let Value::Object(mut copy) = plan.to_receipt() else { panic!("no object") };
        change(&mut copy);
        Value::Object(copy)
    };
    assert_eq!(entries.len(), 3);
    assert!(malformed(&with(&|e| e.swap(0, 1))));
    assert!(malformed(&with(&|e| e[0].1 = Value::Number(1))));
    assert!(malformed(&with(&|e| e[0].0 = "Version".to_string())));
    assert!(malformed(&with(&|e| e.push(("more".to_string(), Value::Null)))));
    assert!(malformed(&with(&|e| e[2].1 = Value::List(vec![Value::Null]))));
    assert!(malformed(&with(&|e| e[1].1 = named(vec![("planner", text("windows"))]))));
    let action =
        |kind: &str, state: &str| named(vec![("action", text(kind)), ("state", text(state)), ("children", Value::List(vec![]))]);
    assert!(StatefulAction::from_receipt(&action("provision_nix", "Completed")).is_ok());
    assert!(StatefulAction::from_receipt(&action("provision_nix", "Skipped")).is_err());
    assert!(StatefulAction::from_receipt(&action("provision", "Completed")).is_err());
    assert!(StatefulAction::from_receipt(&action("create_group", "Completed")).is_err());
    let group = |gid: Value| {
        named(vec![
            ("action", text("create_group")),
            ("state", text("Progress")),
            ("name", text("nixbld")),
            ("gid", gid),
            ("children", Value::List(vec![])),
        ])
    };
    assert!(StatefulAction::from_receipt(&group(Value::Number(3000))).is_ok());
    assert!(StatefulAction::from_receipt(&group(Value::Number(1 << 32))).is_err());
    assert!(StatefulAction::from_receipt(&group(text("3000"))).is_err());
}

fn unmarked(node: &StatefulAction) -> bool {
    node.failure.is_none() && node.children.iter().all(unmarked)
}

#[test]
fn no_action_that_is_read_bears_a_mark_of_failure() {
    let mut plan = plans().remove(0);
    plan.actions[0].failure = Some((Direction::Forward, ActionError::Cancelled));
    plan.actions[1].children[0].failure = Some((Direction::Reverse, ActionError::Custom("x".to_string())));
    plan.actions[1].children[0].children[0].failure = Some((Direction::Forward, ActionError::Cancelled));
    assert!(!plan.actions.iter().all(unmarked));
    let read = InstallPlan::from_receipt(&plan.to_receipt()).unwrap();
    assert!(read.actions.iter().all(unmarked));
    assert_eq!(read.actions.len(), plan.actions.len());
    let node = StatefulAction::from_receipt(&plan.actions[1].to_receipt()).unwrap();
    assert!(unmarked(&node));
    assert!(plan.duplicate().unwrap().actions.iter().all(unmarked));
}
