use nix_installer::planner::PlannerTag;
use nix_installer::receipt::Value;
use nix_installer::{ActionState, InstallPlan};

const SETTINGS: &str = r#"{
    "channels": [["nixpkgs", "https://nixos.org/channels/nixpkgs-unstable"]],
    "modify_profile": true,
    "nix_build_user_count": 2,
    "nix_build_group_name": "nixbld",
    "nix_build_group_id": 3000,
    "nix_build_user_prefix": "nixbld",
    "nix_build_user_id_base": 3000,
    "nix_package_url": "https://releases.nixos.org/nix/nix-2.12.0/nix-2.12.0-x86_64-linux.tar.xz",
    "extra_conf": [],
    "force": false,
    "proxy": null,
    "ssl_cert_file": null
}"#;

const ACTIONS: &str = r#"[
    {
        "action": "create_directory",
        "state": "Completed",
        "path": "/nix",
        "user": null,
        "group": null,
        "mode": 493,
        "force": true,
        "created": true,
        "children": []
    },
    {
        "action": "create_users_and_group",
        "state": "Progress",
        "nix_build_user_count": 2,
        "nix_build_group_name": "nixbld",
        "nix_build_group_id": 3000,
        "nix_build_user_prefix": "nixbld",
        "nix_build_user_id_base": 3000,
        "children": [
            {"action": "create_group", "state": "Completed", "name": "nixbld", "gid": 3000, "children": []},
            {
                "action": "create_user",
                "state": "Progress",
                "name": "nixbld0",
                "uid": 3000,
                "groupname": "nixbld",
                "gid": 3000,
                "children": []
            },
            {
                "action": "create_user",
                "state": "Uncompleted",
                "name": "nixbld1",
                "uid": 3001,
                "groupname": "nixbld",
                "gid": 3000,
                "children": []
            }
        ]
    },
    {"action": "start_systemd_unit", "state": "Uncompleted", "unit": "nix-daemon.socket", "children": []}
]"#;

fn value_of(json: serde_json::Value) -> Value {
    match json {
        serde_json::Value::Null => Value::Null,
        serde_json::Value::Bool(on) => Value::Bool(on),
        serde_json::Value::Number(n) => Value::Number(n.as_u64().unwrap()),
        serde_json::Value::String(text) => Value::Text(text),
        serde_json::Value::Array(items) => Value::List(items.into_iter().map(value_of).collect()),
        serde_json::Value::Object(entries) => {
            Value::Object(entries.into_iter().map(|(name, value)| (name, value_of(value))).collect())
        },
    }
}

fn parse(planner: &str) -> InstallPlan {
    let text = format!(r#"{{"version": "0.1.0", "planner": {}, "actions": {}}}"#, planner, ACTIONS);
    let json: serde_json::Value = serde_json::from_str(&text).unwrap();
    InstallPlan::from_receipt(&value_of(json)).unwrap()
}

fn check(plan: &InstallPlan, kind: PlannerTag) {
    assert_eq!(plan.version, "0.1.0");
    assert_eq!(plan.planner.kind(), kind);
    assert_eq!(plan.actions.len(), 3);
    assert_eq!(plan.actions[0].state, ActionState::Completed);
    assert_eq!(plan.actions[1].children.len(), 3);
    assert_eq!(plan.actions[1].children[1].state, ActionState::Progress);
    assert_eq!(plan.actions[2].state, ActionState::Uncompleted);
    assert!(!plan.is_completed());
    assert_eq!(plan.duplicate().as_ref(), Ok(plan));
}

// Ensure existing plans still parse
#[test]
fn plan_compat_linux_multi() {
    let plan = parse(&format!(r#"{{"planner": "linux-multi", "settings": {}}}"#, SETTINGS));
    check(&plan, PlannerTag::LinuxMulti);
}

// Ensure existing plans still parse
#[test]
fn plan_compat_steam_deck() {
    let plan = parse(&format!(r#"{{"planner": "steam-deck", "settings": {}}}"#, SETTINGS));
    check(&plan, PlannerTag::SteamDeck);
}

// Ensure existing plans still parse
#[test]
fn plan_compat_darwin_multi() {
    let plan = parse(&format!(
        r#"{{"planner": "darwin-multi", "settings": {}, "volume_encrypt": false, "volume_label": "Nix Store", "root_disk": "disk1"}}"#,
        SETTINGS
    ));
    check(&plan, PlannerTag::DarwinMulti);
}
