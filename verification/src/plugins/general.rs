//! Commands that need no connector: waiting, and starting a program.

use vstd::prelude::*;
use crate::error::ActionError;
use crate::number::Real;

verus! {

/// A command carried out on the local machine.
#[derive(Debug, PartialEq, Eq)]
pub enum GeneralAction {
    /// Wait for the given number of seconds.
    Delay(Real),
    /// Start a program with its arguments, optionally in a working directory,
    /// and wait until it ends.
    RunCommand(String, Vec<String>, Option<String>),
}

impl GeneralAction {
    /// Whether the two commands say the same: the same wait, or the same
    /// program, arguments and directory.
    pub open spec fn alike(self, other: GeneralAction) -> bool {
        match (self, other) {
            (GeneralAction::Delay(a), GeneralAction::Delay(b)) => a == b,
            (GeneralAction::RunCommand(p, a, d), GeneralAction::RunCommand(q, b, e)) => p == q
                && a@ == b@ && d == e,
            _ => false,
        }
    }

    /// Takes the outcome of the wait, or of the program's run: a failure is
    /// handed on with the words it came with.
    pub fn run(&self, outcome: Result<(), String>) -> (r: Result<(), ActionError>)
        ensures
            match outcome {
                Ok(_) => r == Ok::<(), ActionError>(()),
                Err(detail) => r == Err::<(), ActionError>(ActionError::RequestFailed(detail)),
            },
    {
        match outcome {
            Ok(_) => Ok(()),
            Err(detail) => Err(ActionError::RequestFailed(detail)),
        }
    }
}

impl Clone for GeneralAction {
    fn clone(&self) -> (copy: Self)
        ensures
            copy.alike(*self),
    {
        match self {
            GeneralAction::Delay(seconds) => GeneralAction::Delay(*seconds),
            GeneralAction::RunCommand(program, args, dir) => {
                let mut copied: Vec<String> = Vec::new();
                let mut i: usize = 0;
                while i < args.len()
                    invariant
                        i <= args@.len(),
                        copied@ == args@.take(i as int),
                    decreases args@.len() - i,
                {
                    copied.push(args[i].clone());
                    proof {
                        assert(copied@ =~= args@.take(i + 1));
                    }
                    i += 1;
                }
                proof {
                    assert(args@.take(i as int) =~= args@);
                }
                GeneralAction::RunCommand(
                    program.clone(),
                    copied,
                    match dir {
                        Some(d) => Some(d.clone()),
                        None => None,
                    },
                )
            },
        }
    }
}

} // verus!
