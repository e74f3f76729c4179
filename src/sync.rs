use crate::catalog::{
    entry_views, flatten, flattened, ProjectTask, RemoteCustomer, RemoteProject,
};
use crate::config::ConfigError;
use vstd::prelude::*;
use vstd::string::StringExecFns;

verus! {

/// Failures of the command-line flows, each with the context a user needs.
#[derive(Debug, Clone, PartialEq, Eq)]
pub enum ChronosError {
    Config { source: ConfigError },
    ObtainPasswordFromUser { message: String },
    /// A call to the remote catalog failed; `action` names the call.
    CoffeeCup { message: String, action: String },
    OpenProjectsFile { message: String, filename: String },
    WriteProjectsFile { message: String, filename: String },
    /// The local cache was never written: synchronize first.
    NotSynchronized { filename: String },
}

/// Combines the two remote answers into the new cache. A failed call aborts
/// the whole run, tagged with the call that failed; the project listing is
/// looked at first.
pub fn synchronize(
    projects: Result<Vec<RemoteProject>, String>,
    customers: Result<Vec<RemoteCustomer>, String>,
) -> (r: Result<Vec<ProjectTask>, ChronosError>)
    ensures
        projects is Err ==> (r matches Err(ChronosError::CoffeeCup { message, action })
            && message == projects->Err_0 && action@ == "list projects"@),
        projects is Ok && customers is Err ==> (r matches Err(
            ChronosError::CoffeeCup { message, action },
        ) && message == customers->Err_0 && action@ == "list customers"@),
        projects is Ok && customers is Ok ==> r is Ok && entry_views(r->Ok_0@) == flattened(
            projects->Ok_0@,
            customers->Ok_0@,
        ),
{
    let projects = match projects {
        Ok(p) => p,
        Err(message) => {
            return Err(
                ChronosError::CoffeeCup { message, action: String::from_str("list projects") },
            );
        },
    };
    let customers = match customers {
        Ok(c) => c,
        Err(message) => {
            return Err(
                ChronosError::CoffeeCup { message, action: String::from_str("list customers") },
            );
        },
    };
    Ok(flatten(&projects, &customers))
}

/// The error for a cache file that could not be opened: a file that is not
/// there means the cache was never synchronized, which is told apart from
/// every other failure.
pub fn cache_open_failure(filename: String, not_found: bool, message: String) -> (r: ChronosError)
    ensures
        not_found ==> r == (ChronosError::NotSynchronized { filename }),
        !not_found ==> r == (ChronosError::OpenProjectsFile { message, filename }),
{
    if not_found {
        ChronosError::NotSynchronized { filename }
    } else {
        ChronosError::OpenProjectsFile { message, filename }
    }
}

/// Where a booking goes: a task of a project.
#[derive(Debug, Clone, PartialEq, Eq)]
pub struct BookingTarget {
    pub task: usize,
    pub project: usize,
}

impl BookingTarget {
    /// The target of a cache entry the user picked; the project and the task
    /// are taken each from its own field.
    pub fn from_entry(entry: &ProjectTask) -> (r: BookingTarget)
        ensures
            r.project == entry.project,
            r.task == entry.task,
    {
        BookingTarget { task: entry.task, project: entry.project }
    }
}

} // verus!
