//! Plans are determined by what they are planned from: two plans of one
//! planner for one host are written the same.
use vstd::prelude::*;
use crate::action::base::create_directory::CreateDirectory;
use crate::action::base::create_or_merge_nix_config::{existing_settings, merge_shaped};
use crate::action::common::configure_nix::ConfigureNix;
use crate::action::common::configure_shell_profile::{present, profile_targets, ConfigureShellProfile};
use crate::action::common::create_users_and_groups::CreateUsersAndGroups;
use crate::action::common::place_channel_configuration::{channel_views, PlaceChannelConfiguration};
use crate::action::common::place_nix_configuration::{
    extra_settings, fact_at, wanted_settings, PlaceNixConfiguration, NIX_CONF, NIX_CONF_FOLDER,
};
use crate::action::common::provision_nix::ProvisionNix;
use crate::action::linux::create_systemd_sysext::{release_folder, CreateSystemdSysext};
use crate::action::macos::create_nix_volume::{pending_leaf, CreateNixVolume};
use crate::action::run::{nodes, Node};
use crate::action::StatefulAction;
use crate::facts::{HostFacts, PathFact};
use crate::nix_config::Settings;
use crate::plan::InstallPlan;
use crate::planner::specific::SYSEXT_DESTINATION;
use crate::planner::{BuiltinPlanner, DarwinMulti, LinuxMulti, SteamDeck};
use crate::receipt::plans::receipts;
use crate::receipt::{texts_form, Form};
use crate::settings::CommonSettings;
use crate::text::views;

verus! {

/// How the trees of a list are written.
pub open spec fn written_all(children: Seq<Node>) -> Seq<Form>
    decreases children,
{
    Seq::new(
        children.len(),
        |i: int|
            if 0 <= i < children.len() {
                children[i].written()
            } else {
                arbitrary()
            },
    )
}

impl Node {
    /// How the tree is written: as the action of which it is the plain
    /// value.
    pub open spec fn written(self) -> Form
        decreases self,
    {
        Form::Object(
            seq![
                ("action"@, Form::Text(self.action.tag().word())),
                ("state"@, Form::Text(self.state.word())),
            ] + self.action.fields() + seq![("children"@, Form::List(written_all(self.children)))],
        )
    }
}

/// An action is written as its plain value is.
pub proof fn lemma_written(tree: StatefulAction)
    ensures
        tree.receipt() == tree@.written(),
    decreases tree,
{
    StatefulAction::lemma_view_children(tree);
    assert forall|i: int| 0 <= i < tree.children@.len() implies receipts(tree.children@)[i]
        == written_all(tree@.children)[i] by {
        lemma_written(tree.children@[i]);
    }
    assert(receipts(tree.children@) =~= written_all(tree@.children));
}

/// Actions are written as their plain values are.
pub proof fn lemma_written_all(trees: Seq<StatefulAction>)
    ensures
        receipts(trees) == written_all(nodes(trees)),
{
    assert forall|i: int| 0 <= i < trees.len() implies receipts(trees)[i] == written_all(
        nodes(trees),
    )[i] by {
        lemma_written(trees[i]);
    }
    assert(receipts(trees) =~= written_all(nodes(trees)));
}

/// Trees without children that hold the same values in the same state are
/// written the same.
pub proof fn lemma_leaves(a: Node, b: Node)
    requires
        a.action.tag() == b.action.tag(),
        a.action.fields() == b.action.fields(),
        a.state == b.state,
        a.children.len() == 0,
        b.children.len() == 0,
    ensures
        a.written() == b.written(),
{
    assert(written_all(a.children) =~= written_all(b.children));
}

/// Trees that hold the same values in the same state, and whose children
/// are written the same, are written the same.
pub proof fn lemma_composites(a: Node, b: Node)
    requires
        a.action.tag() == b.action.tag(),
        a.action.fields() == b.action.fields(),
        a.state == b.state,
        a.children.len() == b.children.len(),
        forall|i: int| 0 <= i < a.children.len() ==> (#[trigger] a.children[i]).written() == b.children[i].written(),
    ensures
        a.written() == b.written(),
{
    assert(written_all(a.children) =~= written_all(b.children));
}

/// A directory is planned in one way.
pub proof fn lemma_directory(
    a: Node,
    b: Node,
    path: Seq<char>,
    user: Option<Seq<char>>,
    group: Option<Seq<char>>,
    mode: u32,
    force: bool,
    existing: Option<PathFact>,
)
    requires
        CreateDirectory::shaped(a, path, user, group, mode, force, existing),
        CreateDirectory::shaped(b, path, user, group, mode, force, existing),
    ensures
        a.written() == b.written(),
{
    assert(a.action.fields() =~= b.action.fields());
    lemma_leaves(a, b);
}

/// The merge of a configuration is planned in one way.
pub proof fn lemma_merge(a: Node, b: Node, path: Seq<char>, pending: Settings, existing: Option<Settings>)
    requires
        merge_shaped(a, path, pending, existing),
        merge_shaped(b, path, pending, existing),
    ensures
        a.written() == b.written(),
{
    assert(a.action.fields() =~= b.action.fields());
    lemma_leaves(a, b);
}

/// The build users and their group are planned in one way.
pub proof fn lemma_users(a: Node, b: Node, settings: CommonSettings, facts: HostFacts)
    requires
        CreateUsersAndGroups::shaped(a, settings, facts),
        CreateUsersAndGroups::shaped(b, settings, facts),
    ensures
        a.written() == b.written(),
{
    assert(a.action.fields() =~= b.action.fields());
    assert forall|i: int| 0 <= i < a.children.len() implies (#[trigger] a.children[i]).written()
        == b.children[i].written() by {
        let x = a.children[i];
        let y = b.children[i];
        if i == 0 {
            assert(CreateUsersAndGroups::is_group(x, settings, facts));
            assert(CreateUsersAndGroups::is_group(y, settings, facts));
        } else {
            assert(CreateUsersAndGroups::is_user(x, settings, facts, i - 1));
            assert(CreateUsersAndGroups::is_user(y, settings, facts, i - 1));
        }
        assert(x.action.fields() =~= y.action.fields());
        lemma_leaves(x, y);
    }
    lemma_composites(a, b);
}

/// The channel configuration is planned in one way.
pub proof fn lemma_channels(
    a: Node,
    b: Node,
    channels: Seq<(Seq<char>, Seq<char>)>,
    force: bool,
    facts: HostFacts,
)
    requires
        PlaceChannelConfiguration::shaped(a, channels, force, facts),
        PlaceChannelConfiguration::shaped(b, channels, force, facts),
    ensures
        a.written() == b.written(),
{
    assert(a.action.fields() =~= b.action.fields());
    assert(a.children[0].action.fields() =~= b.children[0].action.fields());
    lemma_leaves(a.children[0], b.children[0]);
    lemma_composites(a, b);
}

/// The provisioning of Nix is planned in one way.
pub proof fn lemma_provision(a: Node, b: Node, settings: CommonSettings, facts: HostFacts)
    requires
        ProvisionNix::shaped(a, settings, facts),
        ProvisionNix::shaped(b, settings, facts),
    ensures
        a.written() == b.written(),
{
    assert(a.action.fields() =~= b.action.fields());
    lemma_users(a.children[0], b.children[0], settings, facts);
    assert(a.children[1].action.fields() =~= b.children[1].action.fields());
    lemma_leaves(a.children[1], b.children[1]);
    assert(a.children[2].action.fields() =~= b.children[2].action.fields());
    lemma_leaves(a.children[2], b.children[2]);
    let x = a.children[3].action->SetupDefaultProfile_0.channels;
    let y = b.children[3].action->SetupDefaultProfile_0.channels;
    assert(views(x@) == views(y@));
    assert(views(x@).len() == x@.len());
    assert(views(y@).len() == y@.len());
    assert forall|i: int| 0 <= i < x@.len() implies x@[i]@ == y@[i]@ by {
        assert(views(x@)[i] == x@[i]@);
        assert(views(y@)[i] == y@[i]@);
    }
    assert(texts_form(x)->List_0 =~= texts_form(y)->List_0);
    assert(a.children[3].action.fields() =~= b.children[3].action.fields());
    lemma_leaves(a.children[3], b.children[3]);
    lemma_channels(
        a.children[4],
        b.children[4],
        channel_views(settings.channels@),
        settings.force,
        facts,
    );
    lemma_composites(a, b);
}

/// The changes to the shell profiles are planned in one way.
pub proof fn lemma_profiles(a: Node, b: Node, facts: HostFacts)
    requires
        ConfigureShellProfile::shaped(a, facts),
        ConfigureShellProfile::shaped(b, facts),
    ensures
        a.written() == b.written(),
{
    let found = present(facts, profile_targets());
    assert(a.action.fields() =~= b.action.fields());
    assert forall|i: int| 0 <= i < a.children.len() implies (#[trigger] a.children[i]).written()
        == b.children[i].written() by {
        let x = a.children[i];
        let y = b.children[i];
        assert(ConfigureShellProfile::is_insertion(x, found[i]));
        assert(ConfigureShellProfile::is_insertion(y, found[i]));
        assert(x.action.fields() =~= y.action.fields());
        lemma_leaves(x, y);
    }
    lemma_composites(a, b);
}

/// The placing of the Nix configuration is planned in one way.
pub proof fn lemma_configuration(
    a: Node,
    b: Node,
    group: Seq<char>,
    extra_conf: Seq<Seq<char>>,
    force: bool,
    facts: HostFacts,
)
    requires
        PlaceNixConfiguration::shaped(a, group, extra_conf, force, facts),
        PlaceNixConfiguration::shaped(b, group, extra_conf, force, facts),
    ensures
        a.written() == b.written(),
{
    assert(a.action.fields() =~= b.action.fields());
    lemma_directory(
        a.children[0],
        b.children[0],
        NIX_CONF_FOLDER@,
        None,
        None,
        0o755,
        force,
        fact_at(facts, NIX_CONF_FOLDER@),
    );
    let extra = extra_settings(extra_conf, facts)->0;
    let existing = existing_settings(fact_at(facts, NIX_CONF@))->Ok_0;
    lemma_merge(a.children[1], b.children[1], NIX_CONF@, wanted_settings(group, extra), existing);
    assert forall|i: int| 0 <= i < a.children.len() implies (#[trigger] a.children[i]).written()
        == b.children[i].written() by {
        if i == 0 {
        } else {
            assert(i == 1);
        }
    }
    lemma_composites(a, b);
}

/// The configuring of Nix is planned in one way.
pub proof fn lemma_configure(a: Node, b: Node, settings: CommonSettings, facts: HostFacts)
    requires
        ConfigureNix::shaped(a, settings, facts),
        ConfigureNix::shaped(b, settings, facts),
    ensures
        a.written() == b.written(),
{
    assert(a.action.fields() =~= b.action.fields());
    lemma_configuration(
        a.children[0],
        b.children[0],
        settings.nix_build_group_name@,
        views(settings.extra_conf@),
        settings.force,
        facts,
    );
    if settings.modify_profile {
        lemma_profiles(a.children[1], b.children[1], facts);
    }
    let last = a.children.len() - 1;
    assert(a.children[last].action.fields() =~= b.children[last].action.fields());
    lemma_leaves(a.children[last], b.children[last]);
    assert forall|i: int| 0 <= i < a.children.len() implies (#[trigger] a.children[i]).written()
        == b.children[i].written() by {
        if i == 0 {
        } else if i == last {
        } else {
            assert(i == 1 && settings.modify_profile);
        }
    }
    lemma_composites(a, b);
}

/// The system extension is planned in one way.
pub proof fn lemma_sysext(a: Node, b: Node, destination: Seq<char>, facts: HostFacts)
    requires
        CreateSystemdSysext::shaped(a, destination, facts),
        CreateSystemdSysext::shaped(b, destination, facts),
    ensures
        a.written() == b.written(),
{
    assert(a.action.fields() =~= b.action.fields());
    lemma_directory(
        a.children[0],
        b.children[0],
        release_folder(destination),
        None,
        None,
        0o755,
        false,
        fact_at(facts, release_folder(destination)),
    );
    assert(a.children[1].action.fields() =~= b.children[1].action.fields());
    lemma_leaves(a.children[1], b.children[1]);
    assert(a.children[2].action.fields() =~= b.children[2].action.fields());
    lemma_leaves(a.children[2], b.children[2]);
    assert forall|i: int| 0 <= i < a.children.len() implies (#[trigger] a.children[i]).written()
        == b.children[i].written() by {
        if i == 0 {
        } else if i == 1 {
        } else {
            assert(i == 2);
        }
    }
    lemma_composites(a, b);
}

/// The Nix volume is planned in one way.
pub proof fn lemma_volume(
    a: Node,
    b: Node,
    disk: Seq<char>,
    name: Seq<char>,
    case_sensitive: bool,
    encrypt: bool,
)
    requires
        CreateNixVolume::shaped(a, disk, name, case_sensitive, encrypt),
        CreateNixVolume::shaped(b, disk, name, case_sensitive, encrypt),
    ensures
        a.written() == b.written(),
{
    assert(a.action.fields() =~= b.action.fields());
    assert forall|i: int| 0 <= i < a.children.len() implies (#[trigger] a.children[i]).written()
        == b.children[i].written() by {
        let x = a.children[i];
        let y = b.children[i];
        assert(pending_leaf(x));
        assert(pending_leaf(y));
        assert(x.action.tag() == y.action.tag());
        assert(x.action.fields() =~= y.action.fields());
        lemma_leaves(x, y);
    }
    lemma_composites(a, b);
}

/// Plans that hold the same version and planner, and whose actions are
/// written the same, are written the same.
pub proof fn lemma_plans(a: InstallPlan, b: InstallPlan)
    requires
        a.version@ == b.version@,
        a.planner == b.planner,
        a.actions@.len() == b.actions@.len(),
        forall|i: int|
            0 <= i < a.actions@.len() ==> (#[trigger] nodes(a.actions@)[i]).written() == nodes(
                b.actions@,
            )[i].written(),
    ensures
        a.receipt() == b.receipt(),
{
    lemma_written_all(a.actions@);
    lemma_written_all(b.actions@);
    assert(written_all(nodes(a.actions@)) =~= written_all(nodes(b.actions@)));
    assert(a.entries() =~= b.entries());
}

/// A Linux installation is planned in one way.
pub proof fn lemma_linux(planner: LinuxMulti, facts: HostFacts, a: InstallPlan, b: InstallPlan)
    requires
        planner.shaped(a, facts),
        planner.shaped(b, facts),
    ensures
        a.receipt() == b.receipt(),
{
    let x = nodes(a.actions@);
    let y = nodes(b.actions@);
    lemma_directory(x[0], y[0], "/nix"@,
        Some("root"@),
        Some("root"@),
        0o755,
        true,
        fact_at(facts, "/nix"@),
    );
    lemma_provision(x[1], y[1], planner.settings, facts);
    lemma_configure(x[2], y[2], planner.settings, facts);
    assert(x[3].action.fields() =~= y[3].action.fields());
    lemma_leaves(x[3], y[3]);
    assert forall|i: int| 0 <= i < a.actions@.len() implies (#[trigger] x[i]).written()
        == y[i].written() by {
        if i == 0 {
        } else if i == 1 {
        } else if i == 2 {
        } else {
            assert(i == 3);
        }
    }
    lemma_plans(a, b);
}

/// An installation on the Steam Deck is planned in one way.
pub proof fn lemma_steam_deck(planner: SteamDeck, facts: HostFacts, a: InstallPlan, b: InstallPlan)
    requires
        planner.shaped(a, facts),
        planner.shaped(b, facts),
    ensures
        a.receipt() == b.receipt(),
{
    let x = nodes(a.actions@);
    let y = nodes(b.actions@);
    lemma_sysext(x[0], y[0], SYSEXT_DESTINATION@, facts);
    lemma_directory(x[1], y[1], "/nix"@,
        Some("root"@),
        Some("root"@),
        0o755,
        true,
        fact_at(facts, "/nix"@),
    );
    lemma_provision(x[2], y[2], planner.settings, facts);
    assert(x[3].action.fields() =~= y[3].action.fields());
    lemma_leaves(x[3], y[3]);
    assert forall|i: int| 0 <= i < a.actions@.len() implies (#[trigger] x[i]).written()
        == y[i].written() by {
        if i == 0 {
        } else if i == 1 {
        } else if i == 2 {
        } else {
            assert(i == 3);
        }
    }
    lemma_plans(a, b);
}

/// A macOS installation is planned in one way.
pub proof fn lemma_darwin(planner: DarwinMulti, facts: HostFacts, a: InstallPlan, b: InstallPlan)
    requires
        planner.shaped(a, facts),
        planner.shaped(b, facts),
    ensures
        a.receipt() == b.receipt(),
{
    let x = nodes(a.actions@);
    let y = nodes(b.actions@);
    let disk = planner.disk(facts)->0;
    lemma_volume(x[0], y[0], disk@, planner.volume_label@, false, planner.volume_encrypt);
    lemma_provision(x[1], y[1], planner.settings, facts);
    lemma_configure(x[2], y[2], planner.settings, facts);
    assert(x[3].action.fields() =~= y[3].action.fields());
    lemma_leaves(x[3], y[3]);
    assert forall|i: int| 0 <= i < a.actions@.len() implies (#[trigger] x[i]).written()
        == y[i].written() by {
        if i == 0 {
        } else if i == 1 {
        } else if i == 2 {
        } else {
            assert(i == 3);
        }
    }
    lemma_plans(a, b);
}

/// Planning is determined by the planner and by what is known of the host:
/// two plans that a planner makes for one host are written the same, with
/// the same actions in the same order, each with the same settings, the
/// same state and the same children.
pub proof fn lemma_planning_is_determined(
    planner: BuiltinPlanner,
    facts: HostFacts,
    a: InstallPlan,
    b: InstallPlan,
)
    requires
        planner.planned(Ok(a), facts),
        planner.planned(Ok(b), facts),
    ensures
        a.receipt() == b.receipt(),
{
    match planner {
        BuiltinPlanner::LinuxMulti(linux) => lemma_linux(linux, facts, a, b),
        BuiltinPlanner::DarwinMulti(darwin) => lemma_darwin(darwin, facts, a, b),
        BuiltinPlanner::SteamDeck(deck) => lemma_steam_deck(deck, facts, a, b),
    }
}

} // verus!
