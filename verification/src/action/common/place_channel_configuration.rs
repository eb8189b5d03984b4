//! Placing the channel configuration of the root user.
use vstd::prelude::*;
use crate::action::base::create_file::CreateFile;
use crate::action::run::Node;
use crate::action::{Action, StatefulAction};
use crate::error::{PlaceChannelConfigurationError, PlanningError};
use crate::facts::HostFacts;
use crate::state::ActionState;
use crate::text::{join, join_with, views};

verus! {

/// A channel: its name and where it is fetched from.
#[derive(Debug, PartialEq, Eq)]
pub struct ChannelValue {
    pub name: String,
    pub url: String,
}

/// Place a channel configuration containing `channels` to the
/// `.nix-channels` file in the home directory of the root user.
#[derive(Debug, PartialEq, Eq)]
pub struct PlaceChannelConfiguration {
    pub channels: Vec<ChannelValue>,
}

/// The channels as plain values: the name and the address of each.
pub open spec fn channel_views(channels: Seq<ChannelValue>) -> Seq<(Seq<char>, Seq<char>)> {
    channels.map_values(|c: ChannelValue| (c.name@, c.url@))
}

/// The lines of the channel configuration: for each channel its address, a
/// space and its name.
pub open spec fn channel_lines(channels: Seq<(Seq<char>, Seq<char>)>) -> Seq<Seq<char>> {
    channels.map_values(|c: (Seq<char>, Seq<char>)| c.1 + " "@ + c.0)
}

/// The path of the channel configuration in the home directory `home`.
pub open spec fn channels_path(home: Seq<char>) -> Seq<char> {
    home + "/.nix-channels"@
}

impl PlaceChannelConfiguration {
    /// Whether the channel configuration cannot be planned: the root user
    /// has no home, or the file exists and may not be overwritten.
    pub open spec fn fails(force: bool, facts: HostFacts) -> bool {
        match facts.root_home {
            None => true,
            Some(home) => facts.place_of(channels_path(home@)) is Some && !force,
        }
    }

    /// Whether `node` holds the one file that carries the lines of
    /// `channels`.
    pub open spec fn shaped(
        node: Node,
        channels: Seq<(Seq<char>, Seq<char>)>,
        force: bool,
        facts: HostFacts,
    ) -> bool {
        &&& node.action matches Action::PlaceChannelConfiguration(action)
        &&& channel_views(action.channels@) == channels
        &&& node.state == ActionState::Uncompleted
        &&& node.failure is None
        &&& node.children.len() == 1
        &&& node.children[0].action matches Action::CreateFile(file)
        &&& facts.root_home matches Some(home)
        &&& file.path@ == channels_path(home@)
        &&& file.user is None
        &&& file.group is None
        &&& file.mode == Some(0o644u32)
        &&& file.buf@ == join(channel_lines(channels), "\n"@)
        &&& file.force == force
        &&& node.children[0].state == ActionState::Uncompleted
        &&& node.children[0].children.len() == 0
        &&& node.children[0].failure is None
    }

    /// Whether `error` is why the channel configuration cannot be planned.
    pub open spec fn is_error(error: PlanningError, facts: HostFacts) -> bool {
        match facts.root_home {
            None => error == PlanningError::ChannelConfiguration(
                PlaceChannelConfigurationError::NoRootHome,
            ),
            Some(home) => error matches PlanningError::PathExists(path) && path@ == channels_path(
                home@,
            ),
        }
    }

    /// Plans to write the channel configuration of the root user.
    pub fn plan(channels: Vec<ChannelValue>, force: bool, facts: &HostFacts) -> (plan: Result<
        StatefulAction,
        PlanningError,
    >)
        ensures
            match plan {
                Ok(tree) => !Self::fails(force, *facts) && Self::shaped(
                    tree@,
                    channel_views(channels@),
                    force,
                    *facts,
                ),
                Err(error) => Self::fails(force, *facts) && Self::is_error(error, *facts),
            },
    {
        let home = match &facts.root_home {
            Some(home) => home,
            None => {
                return Err(
                    PlanningError::ChannelConfiguration(PlaceChannelConfigurationError::NoRootHome),
                );
            },
        };
        let mut lines: Vec<String> = Vec::new();
        let mut i: usize = 0;
        let ghost all = channel_lines(channel_views(channels@));
        assert(all.take(0) =~= views(lines@));
        while i < channels.len()
            invariant
                i <= channels@.len(),
                all == channel_lines(channel_views(channels@)),
                views(lines@) == all.take(i as int),
            decreases channels@.len() - i,
        {
            let ghost before = views(lines@);
            let line = channels[i].url.clone().concat(" ").concat(channels[i].name.as_str());
            let ghost text = line@;
            assert(text =~= channels@[i as int].url@ + " "@ + channels@[i as int].name@);
            assert(all[i as int] == text);
            lines.push(line);
            assert(views(lines@) =~= before.push(text));
            assert(views(lines@) =~= all.take(i as int + 1));
            i = i + 1;
        }
        assert(all.take(i as int) =~= all);
        let buf = join_with(&lines, "\n");
        let path = home.clone().concat("/.nix-channels");
        let exists = facts.path(&path).is_some();
        let file = CreateFile::plan(path, None, None, Some(0o644), buf, force, exists);
        match file {
            Ok(node) => {
                let mut children: Vec<StatefulAction> = Vec::new();
                children.push(node);
                let tree = StatefulAction::composed(
                    Action::PlaceChannelConfiguration(PlaceChannelConfiguration { channels }),
                    children,
                );
                assert(tree@.children[0] == children@[0]@);
                Ok(tree)
            },
            Err(error) => Err(error),
        }
    }
}

/// A copy of the channels.
pub fn copy_channels(channels: &Vec<ChannelValue>) -> (copy: Vec<ChannelValue>)
    ensures
        channel_views(copy@) == channel_views(channels@),
{
    let mut copy: Vec<ChannelValue> = Vec::new();
    let mut i: usize = 0;
    while i < channels.len()
        invariant
            i <= channels@.len(),
            channel_views(copy@) == channel_views(channels@).take(i as int),
        decreases channels@.len() - i,
    {
        let ghost before = channel_views(copy@);
        copy.push(ChannelValue { name: channels[i].name.clone(), url: channels[i].url.clone() });
        assert(channel_views(copy@) =~= before.push(channel_views(channels@)[i as int]));
        assert(channel_views(copy@) =~= channel_views(channels@).take(i as int + 1));
        i = i + 1;
    }
    assert(channel_views(channels@).take(i as int) =~= channel_views(channels@));
    copy
}

/// The names of the channels.
pub fn channel_names(channels: &Vec<ChannelValue>) -> (names: Vec<String>)
    ensures
        views(names@) == channel_views(channels@).map_values(|c: (Seq<char>, Seq<char>)| c.0),
{
    let ghost all = channel_views(channels@).map_values(|c: (Seq<char>, Seq<char>)| c.0);
    let mut names: Vec<String> = Vec::new();
    let mut i: usize = 0;
    assert(views(names@) =~= all.take(0));
    while i < channels.len()
        invariant
            i <= channels@.len(),
            all == channel_views(channels@).map_values(|c: (Seq<char>, Seq<char>)| c.0),
            views(names@) == all.take(i as int),
        decreases channels@.len() - i,
    {
        let ghost before = views(names@);
        names.push(channels[i].name.clone());
        assert(views(names@) =~= before.push(all[i as int]));
        assert(views(names@) =~= all.take(i as int + 1));
        i = i + 1;
    }
    assert(all.take(i as int) =~= all);
    names
}

} // verus!
