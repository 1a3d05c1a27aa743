//! Construction in steps.
//!
//! An object that owns driver resources cannot be built in one go: the driver
//! hands out the names, and may refuse. A constructor here is a function of
//! the driver's answers so far. It says which commands to run now and then
//! either which question to put next, or that the object is built, or that
//! construction failed. The backend runs the commands, appends the answer to
//! the list of answers and calls the constructor again.

use vstd::prelude::*;
use crate::command::{GlCommand, GlQuery};
use crate::render_error::{RenderError, RenderErrorView};

verus! {

/// One step of a construction.
///
/// `commands` are the commands that follow the last answer given; those
/// before it were part of earlier steps.
pub enum Construction<T> {
    /// Run `commands`, put `query` to the driver and come back with its
    /// answer appended.
    Ask { commands: Vec<GlCommand>, query: GlQuery },
    /// Run `commands`; `value` is then ready for use.
    Built { commands: Vec<GlCommand>, value: T },
    /// Run `commands`, which release what had been allocated; nothing was
    /// built.
    Failed { commands: Vec<GlCommand>, error: RenderError },
}

/// A `Construction` with its command list as a sequence, and its value and
/// its error by their views.
pub enum Outline<T> {
    Ask { commands: Seq<GlCommand>, query: GlQuery },
    Built { commands: Seq<GlCommand>, value: T },
    Failed { commands: Seq<GlCommand>, error: RenderErrorView },
}

impl<T: View> Construction<T> {
    pub open spec fn outline(self) -> Outline<T::V> {
        match self {
            Construction::Ask { commands, query } => Outline::Ask { commands: commands@, query },
            Construction::Built { commands, value } => Outline::Built {
                commands: commands@,
                value: value@,
            },
            Construction::Failed { commands, error } => Outline::Failed {
                commands: commands@,
                error: error@,
            },
        }
    }
}

impl<T> Outline<T> {
    /// The commands of this step.
    pub open spec fn commands(self) -> Seq<GlCommand> {
        match self {
            Outline::Ask { commands, .. } => commands,
            Outline::Built { commands, .. } => commands,
            Outline::Failed { commands, .. } => commands,
        }
    }

    /// This part of a larger construction, followed by `next`.
    ///
    /// While this part asks, the whole asks. Where it fails the whole fails,
    /// and `cleanup` releases what the parts before had built. Once it is
    /// built, `next` goes on from its value and the commands of its last
    /// step.
    pub open spec fn and_then<U>(
        self,
        cleanup: Seq<GlCommand>,
        next: spec_fn(T, Seq<GlCommand>) -> Outline<U>,
    ) -> Outline<U> {
        match self {
            Outline::Ask { commands, query } => Outline::Ask { commands, query },
            Outline::Failed { commands, error } => Outline::Failed {
                commands: commands + cleanup,
                error,
            },
            Outline::Built { commands, value } => next(value, commands),
        }
    }
}

/// Appends `more` to `commands`.
pub fn extend(commands: &mut Vec<GlCommand>, more: Vec<GlCommand>)
    ensures
        final(commands)@ == old(commands)@ + more@,
{
    let mut more = more;
    commands.append(&mut more);
}

} // verus!
