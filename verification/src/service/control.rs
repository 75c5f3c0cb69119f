//! Commands from the supervisor to the watcher of a running service, and the
//! single-slot cell that carries them.

use super::status::Status;
use vstd::prelude::*;

verus! {

/// A command for the watcher of a running service.
#[derive(Clone, Copy, Debug, PartialEq, Eq, Structural)]
pub enum Control {
    /// Ask the service to stop by itself.
    Shutdown,
    /// Abort the service task.
    Kill,
}

impl Control {
    /// What the cell holds after `incoming` is written over `pending`: a
    /// pending `Kill` stays, anything else is replaced by the newer command.
    pub open spec fn supersede(pending: Option<Control>, incoming: Control) -> Control {
        if pending == Some(Control::Kill) {
            Control::Kill
        } else {
            incoming
        }
    }

    /// The command that stops a service in `status`: a `Shutdown` while its
    /// watcher will still read it, that is while the service is `Starting`
    /// or `Started`, and nothing otherwise.
    pub open spec fn stops(status: Status) -> Option<Control> {
        if status is Starting || status is Started {
            Some(Control::Shutdown)
        } else {
            None
        }
    }

    /// The command that is left to a service in `status` when its manager is
    /// let go: a `Kill`, unless the service is `Shutdown`.
    pub open spec fn lets_go(status: Status) -> Option<Control> {
        if status is Shutdown {
            None
        } else {
            Some(Control::Kill)
        }
    }

    /// The command to write into the control cell of a service in `status`
    /// that is asked to stop.
    pub fn to_stop(status: &Status) -> (command: Option<Control>)
        ensures
            command == Control::stops(*status),
    {
        match status {
            Status::Shutdown { .. } | Status::ShuttingDown { .. } => None,
            Status::Starting { .. } | Status::Started { .. } => Some(Control::Shutdown),
        }
    }

    /// The command to write into the control cell of a service in `status`
    /// whose manager is let go.
    pub fn to_let_go(status: &Status) -> (command: Option<Control>)
        ensures
            command == Control::lets_go(*status),
    {
        if !status.is_shutdown() {
            Some(Control::Kill)
        } else {
            None
        }
    }

    /// What a watcher acts on when its reader yields `received`: a dropped
    /// writer (`None`) counts as `Kill`.
    pub open spec fn effective(received: Option<Control>) -> Control {
        match received {
            Some(control) => control,
            None => Control::Kill,
        }
    }
}

/// What a cell that held `pending` holds after `commands` have been written
/// into it, first to last, and none has been taken out.
pub open spec fn after_sends(pending: Option<Control>, commands: Seq<Control>) -> Option<Control>
    decreases commands.len(),
{
    if commands.len() == 0 {
        pending
    } else {
        Some(Control::supersede(after_sends(pending, commands.drop_last()), commands.last()))
    }
}

/// Of the commands that are written into a cell before one is taken out,
/// `Kill` wins if it is among them or was there before; if not, the newest
/// one stays.
pub proof fn lemma_kill_supersedes(pending: Option<Control>, commands: Seq<Control>)
    requires
        commands.len() > 0,
    ensures
        after_sends(pending, commands) == Some(
            if pending == Some(Control::Kill) || commands.contains(Control::Kill) {
                Control::Kill
            } else {
                commands.last()
            },
        ),
    decreases commands.len(),
{
    let earlier = commands.drop_last();
    if earlier.len() == 0 {
        assert(after_sends(pending, earlier) == pending);
    } else {
        lemma_kill_supersedes(pending, earlier);
        if earlier.contains(Control::Kill) {
            let i = choose|i: int| 0 <= i < earlier.len() && earlier[i] == Control::Kill;
            assert(commands[i] == Control::Kill);
        }
    }
    if commands.contains(Control::Kill) {
        let i = choose|i: int| 0 <= i < commands.len() && commands[i] == Control::Kill;
        if i < earlier.len() {
            assert(earlier[i] == Control::Kill);
        }
    }
    if commands.last() == Control::Kill {
        assert(commands[commands.len() - 1] == Control::Kill);
    }
}

/// The control cell of one service: at most one command waits in it.
#[derive(Clone, Copy, Debug, PartialEq, Eq, Structural)]
pub struct Controller {
    pending: Option<Control>,
}

impl View for Controller {
    type V = Option<Control>;

    closed spec fn view(&self) -> Option<Control> {
        self.pending
    }
}

impl Controller {
    /// An empty cell.
    pub fn new() -> (cell: Controller)
        ensures
            cell@ is None,
    {
        Controller { pending: None }
    }

    /// Writes `control` into the cell.
    pub fn send(&mut self, control: Control)
        ensures
            final(self)@ == Some(Control::supersede(old(self)@, control)),
    {
        let kept = match self.pending {
            Some(Control::Kill) => Control::Kill,
            _ => control,
        };
        self.pending = Some(kept);
    }

    /// Takes the waiting command out of the cell, if there is one.
    pub fn take(&mut self) -> (taken: Option<Control>)
        ensures
            taken == old(self)@,
            final(self)@ is None,
    {
        let taken = self.pending;
        self.pending = None;
        taken
    }

    /// The waiting command, left in place.
    pub fn pending(&self) -> (pending: Option<Control>)
        ensures
            pending == self@,
    {
        self.pending
    }
}

} // verus!
