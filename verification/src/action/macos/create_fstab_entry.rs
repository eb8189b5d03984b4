//! Adding the volume to `/etc/fstab`.
use vstd::prelude::*;
use crate::action::base::create_or_insert_into_file::{removed, CreateOrInsertIntoFile, Position};
use crate::action::run::leaf;
use crate::action::{Action, StatefulAction};
use crate::command::{temporary_beside, Operation};
use crate::error::PlanningError;
use crate::state::ActionState;

verus! {

/// The table of file systems.
pub const FSTAB_PATH: &'static str = "/etc/fstab";

/// Create an `/etc/fstab` entry for the given volume.
#[derive(Debug, PartialEq, Eq)]
pub struct CreateFstabEntry {
    pub apfs_volume_label: String,
}

/// The line that has the volume with the label mounted at `/nix`.
pub open spec fn fstab_entry(label: Seq<char>) -> Seq<char> {
    "NAME=\""@ + label + "\" /nix apfs rw,noauto,nobrowse,suid,owners\n"@
}

/// Whether `operations` write `text` to the table in one step, by way of
/// the temporary file with the number `number`.
pub open spec fn writes_table(operations: Seq<Operation>, text: Seq<char>, number: nat) -> bool {
    &&& operations.len() == 1
    &&& operations[0] matches Operation::WriteFile { path, temporary, contents, mode, user, group }
    &&& path@ == FSTAB_PATH@
    &&& temporary@ == temporary_beside(FSTAB_PATH@, number)
    &&& contents@ == text
    &&& mode is None
    &&& user is None
    &&& group is None
}

impl CreateFstabEntry {
    /// Plans to add the volume with the label to the table.
    pub fn plan(apfs_volume_label: String) -> (plan: Result<StatefulAction, PlanningError>)
        ensures
            plan matches Ok(node) && node@ == leaf(
                Action::CreateFstabEntry(CreateFstabEntry { apfs_volume_label }),
                ActionState::Uncompleted,
            ),
    {
        Ok(
            StatefulAction::uncompleted(
                Action::CreateFstabEntry(CreateFstabEntry { apfs_volume_label }),
            ),
        )
    }

    fn insertion(&self) -> (file: CreateOrInsertIntoFile)
        ensures
            file.path@ == FSTAB_PATH@,
            file.user is None,
            file.group is None,
            file.mode is None,
            file.buf@ == fstab_entry(self.apfs_volume_label@),
            file.position is End,
    {
        let entry = String::from_str("NAME=\"").concat(self.apfs_volume_label.as_str()).concat(
            "\" /nix apfs rw,noauto,nobrowse,suid,owners\n",
        );
        CreateOrInsertIntoFile {
            path: String::from_str(FSTAB_PATH),
            user: None,
            group: None,
            mode: None,
            buf: entry,
            position: Position::End,
        }
    }

    /// What is to be done to carry the action out, given the text of the
    /// table, where there is a table: the table is written anew with the
    /// line of the volume at its end.
    pub fn execute_operations(&self, existing: Option<&str>, number: u32) -> (operations: Vec<
        Operation,
    >)
        ensures
            writes_table(
                operations@,
                match existing {
                    Some(found) => found@ + fstab_entry(self.apfs_volume_label@),
                    None => fstab_entry(self.apfs_volume_label@),
                },
                number as nat,
            ),
    {
        let file = self.insertion();
        let operations = file.execute_operations(existing, number);
        proof {
            match existing {
                Some(found) => {
                    let all = found@;
                    assert(all.take(all.len() as int) =~= all);
                    assert(all.skip(all.len() as int) =~= Seq::<char>::empty());
                    assert(all.take(all.len() as int) + file.buf@ + all.skip(all.len() as int) =~= all
                        + file.buf@);
                },
                None => {},
            }
        }
        operations
    }

    /// What is to be done to undo the action, given the text of the table
    /// now: the table is written anew without the first occurrence of the
    /// line of the volume. Where the table is gone, nothing is done.
    pub fn revert_operations(&self, current: Option<&str>, number: u32) -> (operations: Vec<
        Operation,
    >)
        ensures
            match current {
                Some(found) => writes_table(
                    operations@,
                    removed(found@, fstab_entry(self.apfs_volume_label@)),
                    number as nat,
                ),
                None => operations@.len() == 0,
            },
    {
        let file = self.insertion();
        file.revert_operations(current, number)
    }
}

} // verus!
