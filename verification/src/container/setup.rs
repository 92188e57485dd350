//! How a container that could not be set up is undone.

use vstd::prelude::*;

verus! {

/// How far the setup of a container came.
#[derive(Debug, Clone, Copy, PartialEq, Eq, Structural)]
pub enum SetupFault {
    /// There is a container of that name.
    Taken,
    /// There is no control group for it.
    NoGroup,
    /// There was a container of that name by the time the control group was there.
    TakenMeanwhile,
    /// Its process could not be started.
    NoProcess,
    /// Its process could not be moved into the control group.
    NotMoved,
}

/// What becomes of the control group.
#[derive(Debug, Clone, Copy, PartialEq, Eq, Structural)]
pub enum GroupUndo {
    Nothing,
    /// It is removed.
    Remove,
    /// Its processes are killed, and it is removed.
    Clear,
}

/// What is undone.
#[derive(Debug, Clone, Copy, PartialEq, Eq, Structural)]
pub struct Undo {
    /// The process group of the process is killed.
    pub kill: bool,
    /// The mounts are taken away.
    pub unmount: bool,
    pub group: GroupUndo,
}

/// What is undone for a fault.
pub open spec fn undone(fault: SetupFault) -> Undo {
    Undo {
        kill: fault is NotMoved,
        unmount: fault is NoGroup || fault is NoProcess || fault is NotMoved,
        group: match fault {
            SetupFault::Taken => GroupUndo::Nothing,
            SetupFault::NoGroup => GroupUndo::Nothing,
            SetupFault::TakenMeanwhile => GroupUndo::Clear,
            SetupFault::NoProcess => GroupUndo::Remove,
            SetupFault::NotMoved => GroupUndo::Remove,
        },
    }
}

/// Settles what is undone for a fault.
pub fn undo(fault: SetupFault) -> (r: Undo)
    ensures
        r == undone(fault),
{
    match fault {
        SetupFault::Taken => Undo { kill: false, unmount: false, group: GroupUndo::Nothing },
        SetupFault::NoGroup => Undo { kill: false, unmount: true, group: GroupUndo::Nothing },
        SetupFault::TakenMeanwhile => Undo {
            kill: false,
            unmount: false,
            group: GroupUndo::Clear,
        },
        SetupFault::NoProcess => Undo { kill: false, unmount: true, group: GroupUndo::Remove },
        SetupFault::NotMoved => Undo { kill: true, unmount: true, group: GroupUndo::Remove },
    }
}

/// A container of a name of its own that could not be set up leaves nothing behind: no
/// process, no mounts, and no control group once there was one.
pub proof fn law_failed_setups_leave_nothing(fault: SetupFault)
    requires
        !(fault is Taken),
        !(fault is TakenMeanwhile),
    ensures
        undone(fault).unmount,
        fault is NotMoved ==> undone(fault).kill,
        !(fault is NoGroup) ==> !(undone(fault).group is Nothing),
{
}

/// A container whose name was taken before loses nothing that it had: nothing is ended and
/// nothing is unmounted; only a group that was made in vain is cleared.
pub proof fn law_taken_names_keep_their_container(fault: SetupFault)
    ensures
        fault is Taken || fault is TakenMeanwhile <==> !undone(fault).unmount,
        undone(fault).kill <==> fault is NotMoved,
        undone(fault).group is Clear <==> fault is TakenMeanwhile,
        undone(fault).group is Nothing <==> fault is Taken || fault is NoGroup,
{
}

} // verus!
