//! Creating the build group and the build users.
use vstd::prelude::*;
use crate::action::base::create_group::CreateGroup;
use crate::action::base::create_user::CreateUser;
use crate::action::run::Node;
use crate::action::{Action, StatefulAction};
use crate::error::PlanningError;
use crate::facts::HostFacts;
use crate::settings::{build_user_name, CommonSettings};
use crate::state::ActionState;
use crate::text::lemma_numbered_names_differ;

verus! {

/// Create the group and the users that the Nix daemon builds as.
///
/// The group is the first child; the users follow, by number.
#[derive(Debug, PartialEq, Eq)]
pub struct CreateUsersAndGroups {
    pub nix_build_user_count: u32,
    pub nix_build_group_name: String,
    pub nix_build_group_id: u32,
    pub nix_build_user_prefix: String,
    pub nix_build_user_id_base: u32,
}

impl CreateUsersAndGroups {
    /// Whether the ids of all build users fit into 32 bits.
    pub open spec fn ids_fit(settings: CommonSettings) -> bool {
        settings.nix_build_user_id_base + settings.nix_build_user_count <= u32::MAX + 1
    }

    /// Whether the build group exists with another id than wanted.
    pub open spec fn group_fault(settings: CommonSettings, facts: HostFacts) -> bool {
        facts.gid_of(settings.nix_build_group_name@) matches Some(found) && found
            != settings.nix_build_group_id
    }

    /// Whether the build user with the number `i` exists with another id or
    /// group than wanted.
    pub open spec fn user_fault(settings: CommonSettings, facts: HostFacts, i: int) -> bool {
        facts.ids_of(
            build_user_name(settings.nix_build_user_prefix@, i as nat),
        ) matches Some((uid, gid)) && (uid != settings.nix_build_user_id_base + i || gid
            != settings.nix_build_group_id)
    }

    /// Whether the users and the group cannot be planned.
    pub open spec fn fails(settings: CommonSettings, facts: HostFacts) -> bool {
        ||| !Self::ids_fit(settings)
        ||| Self::group_fault(settings, facts)
        ||| exists|i: int|
            0 <= i < settings.nix_build_user_count && #[trigger] Self::user_fault(settings, facts, i)
    }

    /// Whether `node` is the planned build group: done already where a
    /// group of that name exists.
    pub open spec fn is_group(node: Node, settings: CommonSettings, facts: HostFacts) -> bool {
        &&& node.action matches Action::CreateGroup(group)
        &&& group.name@ == settings.nix_build_group_name@
        &&& group.gid == settings.nix_build_group_id
        &&& node.state == (if facts.gid_of(settings.nix_build_group_name@) is Some {
            ActionState::Completed
        } else {
            ActionState::Uncompleted
        })
        &&& node.children.len() == 0
        &&& node.failure is None
    }

    /// Whether `node` is the planned build user with the number `i`: named
    /// by the prefix and the number, with the id that lies `i` above the
    /// base, and done already where a user of that name exists.
    pub open spec fn is_user(node: Node, settings: CommonSettings, facts: HostFacts, i: int) -> bool {
        &&& node.action matches Action::CreateUser(user)
        &&& user.name@ == build_user_name(settings.nix_build_user_prefix@, i as nat)
        &&& user.uid == settings.nix_build_user_id_base + i
        &&& user.groupname@ == settings.nix_build_group_name@
        &&& user.gid == settings.nix_build_group_id
        &&& node.state == (if facts.ids_of(
            build_user_name(settings.nix_build_user_prefix@, i as nat),
        ) is Some {
            ActionState::Completed
        } else {
            ActionState::Uncompleted
        })
        &&& node.children.len() == 0
        &&& node.failure is None
    }

    /// Whether `error` is the failure of the build user with the number `i`.
    pub open spec fn is_user_error(
        error: PlanningError,
        settings: CommonSettings,
        facts: HostFacts,
        i: int,
    ) -> bool {
        let name = build_user_name(settings.nix_build_user_prefix@, i as nat);
        let found = facts.ids_of(name)->0;
        if found.0 != settings.nix_build_user_id_base + i {
            error matches PlanningError::UserUidMismatch { name: who, found: has, planned } && who@
                == name && has == found.0 && planned == settings.nix_build_user_id_base + i
        } else {
            error matches PlanningError::UserGidMismatch { name: who, found: has, planned } && who@
                == name && has == found.1 && planned == settings.nix_build_group_id
        }
    }

    /// Whether `node` holds the planned build group and then the planned
    /// build users by number.
    pub open spec fn shaped(node: Node, settings: CommonSettings, facts: HostFacts) -> bool {
        &&& node.action matches Action::CreateUsersAndGroups(action)
        &&& action.nix_build_user_count == settings.nix_build_user_count
        &&& action.nix_build_group_name@ == settings.nix_build_group_name@
        &&& action.nix_build_group_id == settings.nix_build_group_id
        &&& action.nix_build_user_prefix@ == settings.nix_build_user_prefix@
        &&& action.nix_build_user_id_base == settings.nix_build_user_id_base
        &&& node.state == ActionState::Uncompleted
        &&& node.failure is None
        &&& node.children.len() == settings.nix_build_user_count + 1
        &&& Self::is_group(node.children[0], settings, facts)
        &&& forall|k: int|
            1 <= k <= settings.nix_build_user_count ==> Self::is_user(
                #[trigger] node.children[k],
                settings,
                facts,
                k - 1,
            )
    }

    /// Whether `error` is why the users and the group cannot be planned:
    /// that an id does not fit, or else the failure of the group, or else
    /// that of the first user that fails.
    pub open spec fn is_error(error: PlanningError, settings: CommonSettings, facts: HostFacts) -> bool {
        if !Self::ids_fit(settings) {
            error is InvalidSettings
        } else if Self::group_fault(settings, facts) {
            error matches PlanningError::GroupGidMismatch { name, found, planned } && name@
                == settings.nix_build_group_name@ && Some(found) == facts.gid_of(
                settings.nix_build_group_name@,
            ) && planned == settings.nix_build_group_id
        } else {
            exists|i: int|
                {
                    &&& 0 <= i < settings.nix_build_user_count
                    &&& #[trigger] Self::user_fault(settings, facts, i)
                    &&& forall|j: int| 0 <= j < i ==> !Self::user_fault(settings, facts, j)
                    &&& Self::is_user_error(error, settings, facts, i)
                }
        }
    }

    /// Whether `plan` is the plan for the build group and the build users
    /// of `settings` on a host of which `facts` are known.
    pub open spec fn planned(
        plan: Result<StatefulAction, PlanningError>,
        settings: CommonSettings,
        facts: HostFacts,
    ) -> bool {
        match plan {
            Ok(tree) => !Self::fails(settings, facts) && Self::shaped(tree@, settings, facts),
            Err(error) => Self::fails(settings, facts) && Self::is_error(error, settings, facts),
        }
    }

    /// Plans the build group and the build users.
    pub fn plan(settings: &CommonSettings, facts: &HostFacts) -> (plan: Result<
        StatefulAction,
        PlanningError,
    >)
        ensures
            Self::planned(plan, *settings, *facts),
    {
        let count = settings.nix_build_user_count;
        let base = settings.nix_build_user_id_base;
        let gid = settings.nix_build_group_id;
        if base as u64 + count as u64 > 0x1_0000_0000u64 {
            return Err(
                PlanningError::InvalidSettings(
                    String::from_str("the ids of the build users do not fit into 32 bits"),
                ),
            );
        }
        let mut children: Vec<StatefulAction> = Vec::new();
        let existing_group = facts.group(&settings.nix_build_group_name);
        match CreateGroup::plan(settings.nix_build_group_name.clone(), gid, existing_group) {
            Ok(group) => {
                children.push(group);
            },
            Err(error) => {
                return Err(error);
            },
        }
        let mut i: u32 = 0;
        while i < count
            invariant
                i <= count,
                count == settings.nix_build_user_count,
                base == settings.nix_build_user_id_base,
                gid == settings.nix_build_group_id,
                Self::ids_fit(*settings),
                !Self::group_fault(*settings, *facts),
                children@.len() == i + 1,
                Self::is_group(children@[0]@, *settings, *facts),
                forall|k: int| 1 <= k <= i ==> Self::is_user((#[trigger] children@[k])@, *settings, *facts, k - 1),
                forall|j: int| 0 <= j < i ==> !Self::user_fault(*settings, *facts, j),
            decreases count - i,
        {
            let name = settings.user_name(i);
            let existing = facts.user(&name);
            match CreateUser::plan(name, base + i, settings.nix_build_group_name.clone(), gid, existing) {
                Ok(user) => {
                    children.push(user);
                },
                Err(error) => {
                    assert(Self::user_fault(*settings, *facts, i as int));
                    assert(Self::is_user_error(error, *settings, *facts, i as int));
                    return Err(error);
                },
            }
            i = i + 1;
        }
        let action = CreateUsersAndGroups {
            nix_build_user_count: count,
            nix_build_group_name: settings.nix_build_group_name.clone(),
            nix_build_group_id: gid,
            nix_build_user_prefix: settings.nix_build_user_prefix.clone(),
            nix_build_user_id_base: base,
        };
        let tree = StatefulAction::composed(Action::CreateUsersAndGroups(action), children);
        assert forall|k: int| 1 <= k <= count implies Self::is_user(
            #[trigger] tree@.children[k],
            *settings,
            *facts,
            k - 1,
        ) by {
            assert(tree@.children[k] == children@[k]@);
        }
        Ok(tree)
    }
}

/// The build users that run in parallel touch different things: no two of
/// them share a name or an id.
pub proof fn lemma_build_users_differ(
    tree: StatefulAction,
    settings: CommonSettings,
    facts: HostFacts,
    a: int,
    b: int,
)
    requires
        CreateUsersAndGroups::planned(Ok(tree), settings, facts),
        1 <= a < b <= settings.nix_build_user_count,
    ensures
        tree@.children[a].action matches Action::CreateUser(first),
        tree@.children[b].action matches Action::CreateUser(second),
        tree@.children[a].action->CreateUser_0.name@ != tree@.children[b].action->CreateUser_0.name@,
        tree@.children[a].action->CreateUser_0.uid != tree@.children[b].action->CreateUser_0.uid,
{
    let node = tree@;
    assert(CreateUsersAndGroups::is_user(node.children[a], settings, facts, a - 1));
    assert(CreateUsersAndGroups::is_user(node.children[b], settings, facts, b - 1));
    let prefix = settings.nix_build_user_prefix@;
    if build_user_name(prefix, (a - 1) as nat) == build_user_name(prefix, (b - 1) as nat) {
        lemma_numbered_names_differ(prefix, (a - 1) as nat, (b - 1) as nat);
    }
}

} // verus!
