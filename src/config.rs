//! Which segment an invocation prints.

use vstd::prelude::*;

verus! {

/// The segment to print.
#[derive(Clone, Copy, Debug, PartialEq, Eq, Structural)]
pub enum Action {
    Mem,
    Cpu,
    Mpris,
    Mpd,
    Localtime,
    Utctime,
}

impl Default for Action {
    fn default() -> (r: Action)
        ensures
            r == Action::Cpu,
    {
        Action::Cpu
    }
}

/// The action chosen by the command-line flags: they are applied in the order
/// cpu, mem, local time, UTC time, media-control, music daemon, so the last
/// one set wins; with none set the CPU bar is printed.
pub open spec fn action_of_flags(
    cpu: bool,
    mem: bool,
    localtime: bool,
    utctime: bool,
    mpris: bool,
    mpd: bool,
) -> Action {
    if mpd {
        Action::Mpd
    } else if mpris {
        Action::Mpris
    } else if utctime {
        Action::Utctime
    } else if localtime {
        Action::Localtime
    } else if mem {
        Action::Mem
    } else {
        Action::Cpu
    }
}

/// Picks the action from the command-line flags.
pub fn pick_action(cpu: bool, mem: bool, localtime: bool, utctime: bool, mpris: bool, mpd: bool) -> (r:
    Action)
    ensures
        r == action_of_flags(cpu, mem, localtime, utctime, mpris, mpd),
{
    let mut action = Action::Cpu;
    if cpu {
        action = Action::Cpu;
    }
    if mem {
        action = Action::Mem;
    }
    if localtime {
        action = Action::Localtime;
    }
    if utctime {
        action = Action::Utctime;
    }
    if mpris {
        action = Action::Mpris;
    }
    if mpd {
        action = Action::Mpd;
    }
    action
}

} // verus!
