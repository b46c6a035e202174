//! The launch configuration of a build: the processes that the image can
//! run.

use crate::error::LaunchSpecFault;
use vstd::prelude::*;

verus! {

/// A command that the image can run, under a type that names it.
#[derive(Debug)]
pub struct Process {
    /// The name under which the process is started.
    pub process_type: String,
    pub command: Vec<String>,
    pub args: Vec<String>,
    /// Whether this is the process that runs when none is named.
    pub default: bool,
    /// The directory to run in; the application's directory if absent.
    pub working_directory: Option<String>,
}

/// A label of the image.
#[derive(Debug)]
pub struct Label {
    pub key: String,
    pub value: String,
}

/// A group of application files that share an image layer.
#[derive(Debug)]
pub struct Slice {
    pub path_globs: Vec<String>,
}

/// What a build contributes to the launch of the image.
#[derive(Debug)]
pub struct Launch {
    pub labels: Vec<Label>,
    /// The processes, in the order they were declared.
    pub processes: Vec<Process>,
    pub slices: Vec<Slice>,
}

/// Whether two different processes are both marked as the default.
pub open spec fn spec_has_multiple_defaults(processes: Seq<Process>) -> bool {
    exists|i: int, j: int|
        0 <= i < j < processes.len() && (#[trigger] processes[i]).default
            && (#[trigger] processes[j]).default
}

/// Whether two different processes have the same type.
pub open spec fn spec_has_duplicate_type(processes: Seq<Process>) -> bool {
    exists|i: int, j: int|
        0 <= i < j < processes.len() && (#[trigger] processes[i]).process_type@
            == (#[trigger] processes[j]).process_type@
}

/// What is wrong with a list of processes, if anything. More than one
/// default is reported before a duplicate type.
pub open spec fn spec_launch_fault(processes: Seq<Process>) -> Option<LaunchSpecFault> {
    if spec_has_multiple_defaults(processes) {
        Some(LaunchSpecFault::MultipleDefaults)
    } else if spec_has_duplicate_type(processes) {
        Some(LaunchSpecFault::DuplicateProcessType)
    } else {
        None
    }
}

/// Whether two different processes are both marked as the default.
pub fn has_multiple_defaults(processes: &Vec<Process>) -> (found: bool)
    ensures
        found == spec_has_multiple_defaults(processes@),
{
    let mut first: Option<usize> = None;
    let mut index: usize = 0;
    while index < processes.len()
        invariant
            index <= processes.len(),
            first matches Some(at) ==> at < index && processes@[at as int].default,
            first is None ==> forall|k: int| 0 <= k < index ==> !(#[trigger] processes@[k]).default,
            forall|i: int, j: int|
                0 <= i < j < index ==> !((#[trigger] processes@[i]).default
                    && (#[trigger] processes@[j]).default),
        decreases processes.len() - index,
    {
        if processes[index].default {
            match first {
                Some(at) => {
                    assert(processes@[at as int].default && processes@[index as int].default);
                    return true;
                },
                None => {
                    first = Some(index);
                },
            }
        }
        index += 1;
    }
    false
}

/// Whether two different processes have the same type.
pub fn has_duplicate_type(processes: &Vec<Process>) -> (found: bool)
    ensures
        found == spec_has_duplicate_type(processes@),
{
    let mut later: usize = 0;
    while later < processes.len()
        invariant
            later <= processes.len(),
            forall|i: int, j: int|
                0 <= i < j < later ==> (#[trigger] processes@[i]).process_type@
                    != (#[trigger] processes@[j]).process_type@,
        decreases processes.len() - later,
    {
        let mut earlier: usize = 0;
        while earlier < later
            invariant
                earlier <= later < processes.len(),
                forall|i: int|
                    0 <= i < earlier ==> (#[trigger] processes@[i]).process_type@
                        != processes@[later as int].process_type@,
            decreases later - earlier,
        {
            if processes[earlier].process_type == processes[later].process_type {
                assert(processes@[earlier as int].process_type@
                    == processes@[later as int].process_type@);
                return true;
            }
            earlier += 1;
        }
        later += 1;
    }
    false
}

impl Launch {
    /// The fault of this launch configuration, as a specification.
    pub open spec fn spec_fault(&self) -> Option<LaunchSpecFault> {
        spec_launch_fault(self.processes@)
    }

    /// Checks that at most one process is the default and that no two
    /// processes share a type.
    #[verifier::when_used_as_spec(spec_fault)]
    pub fn fault(&self) -> (fault: Option<LaunchSpecFault>)
        ensures
            fault == self.spec_fault(),
    {
        if has_multiple_defaults(&self.processes) {
            Some(LaunchSpecFault::MultipleDefaults)
        } else if has_duplicate_type(&self.processes) {
            Some(LaunchSpecFault::DuplicateProcessType)
        } else {
            None
        }
    }
}

} // verus!
