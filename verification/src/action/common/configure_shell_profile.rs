//! Making the shells of the host load Nix.
use vstd::prelude::*;
use crate::action::base::create_or_insert_into_file::{CreateOrInsertIntoFile, Position};
use crate::action::run::Node;
use crate::action::{Action, StatefulAction};
use crate::error::PlanningError;
use crate::facts::HostFacts;
use crate::state::ActionState;
use crate::text::views;

verus! {

/// Configure any detected shell profiles to include Nix support.
///
/// There is one child for each profile file that exists on the host; the
/// children run in parallel.
#[derive(Debug, PartialEq, Eq)]
pub struct ConfigureShellProfile {
}

/// The profile files that are looked for, in the order of the children.
pub open spec fn profile_targets() -> Seq<Seq<char>> {
    seq![
        "/etc/bashrc"@,
        "/etc/zshrc"@,
        "/etc/profile.d/nix.sh"@,
        "/etc/bash.bashrc"@,
        "/etc/zsh/zshrc"@,
    ]
}

/// The lines that make a shell load Nix.
pub open spec fn profile_stanza() -> Seq<char> {
    "\n# Nix\nif [ -e '/nix/var/nix/profiles/default/etc/profile.d/nix-daemon.sh' ]; then\n. '/nix/var/nix/profiles/default/etc/profile.d/nix-daemon.sh'\nfi\n# End Nix\n\n"@
}

/// Those of `targets` at which something exists on the host, in order.
pub open spec fn present(facts: HostFacts, targets: Seq<Seq<char>>) -> Seq<Seq<char>>
    decreases targets.len(),
{
    if targets.len() == 0 {
        targets
    } else {
        let before = present(facts, targets.drop_last());
        if facts.place_of(targets.last()) is Some {
            before.push(targets.last())
        } else {
            before
        }
    }
}

impl ConfigureShellProfile {
    /// Whether `node` inserts the lines at the end of the profile file
    /// `path`.
    pub open spec fn is_insertion(node: Node, path: Seq<char>) -> bool {
        &&& node.action matches Action::CreateOrInsertIntoFile(file)
        &&& file.path@ == path
        &&& file.user is None
        &&& file.group is None
        &&& file.mode == Some(0o644u32)
        &&& file.buf@ == profile_stanza()
        &&& file.position is End
        &&& node.state == ActionState::Uncompleted
        &&& node.children.len() == 0
        &&& node.failure is None
    }

    /// Whether `node` holds one insertion for each profile file that exists
    /// on the host, in the order of `profile_targets`.
    pub open spec fn shaped(node: Node, facts: HostFacts) -> bool {
        let found = present(facts, profile_targets());
        &&& node.action is ConfigureShellProfile
        &&& node.state == ActionState::Uncompleted
        &&& node.failure is None
        &&& node.children.len() == found.len()
        &&& forall|k: int|
            0 <= k < found.len() ==> Self::is_insertion(#[trigger] node.children[k], found[k])
    }

    /// Plans one insertion for each profile file that exists on the host.
    pub fn plan(facts: &HostFacts) -> (plan: Result<StatefulAction, PlanningError>)
        ensures
            plan matches Ok(tree) && Self::shaped(tree@, *facts),
    {
        let mut targets: Vec<String> = Vec::new();
        targets.push(String::from_str("/etc/bashrc"));
        targets.push(String::from_str("/etc/zshrc"));
        targets.push(String::from_str("/etc/profile.d/nix.sh"));
        targets.push(String::from_str("/etc/bash.bashrc"));
        targets.push(String::from_str("/etc/zsh/zshrc"));
        assert(views(targets@) =~= profile_targets());
        let mut children: Vec<StatefulAction> = Vec::new();
        let mut i: usize = 0;
        assert(profile_targets().take(0) =~= Seq::<Seq<char>>::empty());
        while i < targets.len()
            invariant
                i <= targets@.len(),
                views(targets@) == profile_targets(),
                children@.len() == present(*facts, profile_targets().take(i as int)).len(),
                forall|k: int|
                    0 <= k < children@.len() ==> Self::is_insertion(
                        (#[trigger] children@[k])@,
                        present(*facts, profile_targets().take(i as int))[k],
                    ),
            decreases targets@.len() - i,
        {
            let ghost upto = profile_targets().take(i as int + 1);
            assert(upto.drop_last() =~= profile_targets().take(i as int));
            assert(upto.last() == targets@[i as int]@);
            if facts.path(&targets[i]).is_some() {
                let buf = String::from_str(
                    "\n# Nix\nif [ -e '/nix/var/nix/profiles/default/etc/profile.d/nix-daemon.sh' ]; then\n. '/nix/var/nix/profiles/default/etc/profile.d/nix-daemon.sh'\nfi\n# End Nix\n\n",
                );
                let child = CreateOrInsertIntoFile::plan(
                    targets[i].clone(),
                    None,
                    None,
                    Some(0o644),
                    buf,
                    Position::End,
                );
                match child {
                    Ok(node) => {
                        children.push(node);
                    },
                    Err(error) => {
                        return Err(error);
                    },
                }
            }
            i = i + 1;
        }
        assert(profile_targets().take(i as int) =~= profile_targets());
        let tree = StatefulAction::composed(
            Action::ConfigureShellProfile(ConfigureShellProfile {  }),
            children,
        );
        assert forall|k: int| 0 <= k < tree@.children.len() implies Self::is_insertion(
            #[trigger] tree@.children[k],
            present(*facts, profile_targets())[k],
        ) by {
            assert(tree@.children[k] == children@[k]@);
        }
        Ok(tree)
    }
}

/// What is kept of a list without repetition has no repetition, and holds
/// nothing but what the list holds.
pub proof fn lemma_present(facts: HostFacts, targets: Seq<Seq<char>>)
    requires
        targets.no_duplicates(),
    ensures
        present(facts, targets).no_duplicates(),
        forall|k: int|
            0 <= k < present(facts, targets).len() ==> targets.contains(
                #[trigger] present(facts, targets)[k],
            ),
    decreases targets.len(),
{
    if targets.len() > 0 {
        let init = targets.drop_last();
        lemma_present(facts, init);
        let before = present(facts, init);
        assert forall|k: int| 0 <= k < before.len() implies targets.contains(
            #[trigger] before[k],
        ) && before[k] != targets.last() by {
            assert(init.contains(before[k]));
            let j = choose|j: int| 0 <= j < init.len() && init[j] == before[k];
            assert(targets[j] == before[k]);
        }
        assert(targets[targets.len() - 1] == targets.last());
    }
}

/// The shell profiles that are changed in parallel are different files: no
/// two children of the plan share a path.
pub proof fn lemma_profiles_differ(tree: StatefulAction, facts: HostFacts, a: int, b: int)
    requires
        ConfigureShellProfile::shaped(tree@, facts),
        0 <= a < b < tree@.children.len(),
    ensures
        tree@.children[a].action matches Action::CreateOrInsertIntoFile(first),
        tree@.children[b].action matches Action::CreateOrInsertIntoFile(second),
        tree@.children[a].action->CreateOrInsertIntoFile_0.path@
            != tree@.children[b].action->CreateOrInsertIntoFile_0.path@,
{
    reveal_strlit("/etc/bashrc");
    reveal_strlit("/etc/zshrc");
    reveal_strlit("/etc/profile.d/nix.sh");
    reveal_strlit("/etc/bash.bashrc");
    reveal_strlit("/etc/zsh/zshrc");
    assert("/etc/bashrc"@.len() == 11);
    assert("/etc/zshrc"@.len() == 10);
    assert("/etc/profile.d/nix.sh"@.len() == 21);
    assert("/etc/bash.bashrc"@.len() == 16);
    assert("/etc/zsh/zshrc"@.len() == 14);
    assert(profile_targets().no_duplicates());
    lemma_present(facts, profile_targets());
    let found = present(facts, profile_targets());
    assert(ConfigureShellProfile::is_insertion(tree@.children[a], found[a]));
    assert(ConfigureShellProfile::is_insertion(tree@.children[b], found[b]));
}

} // verus!
