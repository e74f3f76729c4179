use vstd::prelude::*;
use vstd::string::StringExecFns;

verus! {

/// A task as the remote catalog lists it under a project.
#[derive(Debug, Clone, PartialEq, Eq)]
pub struct RemoteTask {
    pub id: usize,
    pub label: String,
}

/// A project as the remote catalog lists it, with its nested tasks.
#[derive(Debug, Clone, PartialEq, Eq)]
pub struct RemoteProject {
    pub id: usize,
    pub name: String,
    pub client: Option<usize>,
    pub tasks: Option<Vec<RemoteTask>>,
}

/// A customer as the remote catalog lists it.
#[derive(Debug, Clone, PartialEq, Eq)]
pub struct RemoteCustomer {
    pub id: usize,
    pub name: String,
}

/// One bookable (project, task) pair of the local cache, with the text shown
/// to the user.
#[derive(Debug, Clone, PartialEq, Eq)]
pub struct ProjectTask {
    pub display: String,
    pub project: usize,
    pub task: usize,
}

/// The mathematical value of a cache entry.
pub ghost struct EntryView {
    pub display: Seq<char>,
    pub project: usize,
    pub task: usize,
}

impl View for ProjectTask {
    type V = EntryView;

    open spec fn view(&self) -> EntryView {
        EntryView { display: self.display@, project: self.project, task: self.task }
    }
}

/// The name of the customer with id `id`; where several carry that id, the
/// one listed last.
pub open spec fn customer_name(customers: Seq<RemoteCustomer>, id: usize) -> Option<Seq<char>>
    decreases customers.len(),
{
    if customers.len() == 0 {
        None
    } else if customers.last().id == id {
        Some(customers.last().name@)
    } else {
        customer_name(customers.drop_last(), id)
    }
}

/// The label of a project's customer: "Internal" without a client id,
/// "Missing Customer" for an id that no customer carries.
pub open spec fn customer_label(client: Option<usize>, customers: Seq<RemoteCustomer>) -> Seq<
    char,
> {
    match client {
        None => "Internal"@,
        Some(id) => match customer_name(customers, id) {
            None => "Missing Customer"@,
            Some(name) => name,
        },
    }
}

/// "{customer} / {project} / {task}".
pub open spec fn display_text(customer: Seq<char>, project: Seq<char>, task: Seq<char>) -> Seq<
    char,
> {
    customer + " / "@ + project + " / "@ + task
}

/// The tasks of a project, none when the catalog gave no task list.
pub open spec fn task_list(p: RemoteProject) -> Seq<RemoteTask> {
    match p.tasks {
        None => Seq::empty(),
        Some(ts) => ts@,
    }
}

/// The entry for task `t` of project `p`.
pub open spec fn entry_of(p: RemoteProject, t: RemoteTask, customers: Seq<RemoteCustomer>) -> EntryView {
    EntryView {
        display: display_text(customer_label(p.client, customers), p.name@, t.label@),
        project: p.id,
        task: t.id,
    }
}

/// The entries of one project, one per task, in the catalog's order.
pub open spec fn project_entries(p: RemoteProject, customers: Seq<RemoteCustomer>) -> Seq<EntryView> {
    task_list(p).map_values(|t: RemoteTask| entry_of(p, t, customers))
}

/// The flattened cache: the entries of each project in turn.
pub open spec fn flattened(projects: Seq<RemoteProject>, customers: Seq<RemoteCustomer>) -> Seq<
    EntryView,
>
    decreases projects.len(),
{
    if projects.len() == 0 {
        Seq::empty()
    } else {
        flattened(projects.drop_last(), customers) + project_entries(projects.last(), customers)
    }
}

/// The number of tasks over all projects.
pub open spec fn total_tasks(projects: Seq<RemoteProject>) -> nat
    decreases projects.len(),
{
    if projects.len() == 0 {
        0
    } else {
        total_tasks(projects.drop_last()) + task_list(projects.last()).len()
    }
}

/// Flattening yields exactly one entry per task, summed over all projects.
pub proof fn lemma_entry_count(projects: Seq<RemoteProject>, customers: Seq<RemoteCustomer>)
    ensures
        flattened(projects, customers).len() == total_tasks(projects),
    decreases projects.len(),
{
    if projects.len() > 0 {
        lemma_entry_count(projects.drop_last(), customers);
    }
}

/// A project without tasks contributes no entry.
pub proof fn lemma_taskless_project(
    projects: Seq<RemoteProject>,
    p: RemoteProject,
    customers: Seq<RemoteCustomer>,
)
    requires
        task_list(p).len() == 0,
    ensures
        flattened(projects.push(p), customers) == flattened(projects, customers),
{
    assert(projects.push(p).drop_last() =~= projects);
    assert(flattened(projects.push(p), customers) =~= flattened(projects, customers));
}

/// Every flattened entry carries the id of one of the projects.
proof fn lemma_entry_from_project(projects: Seq<RemoteProject>, customers: Seq<RemoteCustomer>)
    ensures
        forall|a: int|
            0 <= a < flattened(projects, customers).len() ==> exists|k: int|
                0 <= k < projects.len() && #[trigger] flattened(projects, customers)[a].project
                    == projects[k].id,
    decreases projects.len(),
{
    if projects.len() > 0 {
        let prefix = projects.drop_last();
        lemma_entry_from_project(prefix, customers);
        let f = flattened(projects, customers);
        let n = flattened(prefix, customers).len();
        assert forall|a: int| 0 <= a < f.len() implies exists|k: int|
            0 <= k < projects.len() && #[trigger] f[a].project == projects[k].id by {
            if a < n {
                let k = choose|k: int|
                    0 <= k < prefix.len() && #[trigger] flattened(prefix, customers)[a].project
                        == prefix[k].id;
                assert(projects[k] == prefix[k]);
            } else {
                assert(f[a].project == projects[projects.len() - 1].id);
            }
        }
    }
}

/// Project ids are pairwise distinct, and so are the task ids within each
/// project.
pub open spec fn distinct_ids(projects: Seq<RemoteProject>) -> bool {
    &&& forall|i: int, j: int|
        0 <= i < j < projects.len() ==> #[trigger] projects[i].id != #[trigger] projects[j].id
    &&& forall|k: int, a: int, b: int|
        0 <= k < projects.len() && 0 <= a < b < task_list(projects[k]).len() ==> #[trigger] task_list(
            projects[k],
        )[a].id != #[trigger] task_list(projects[k])[b].id
}

/// Where the catalog's ids are distinct, each flattened entry is the only
/// one with its (project, task) pair.
pub proof fn lemma_entry_pairs_unique(projects: Seq<RemoteProject>, customers: Seq<RemoteCustomer>)
    requires
        distinct_ids(projects),
    ensures
        forall|a: int, b: int|
            0 <= a < b < flattened(projects, customers).len() ==> (#[trigger] flattened(
                projects,
                customers,
            )[a].project, flattened(projects, customers)[a].task) != (#[trigger] flattened(
                projects,
                customers,
            )[b].project, flattened(projects, customers)[b].task),
    decreases projects.len(),
{
    if projects.len() > 0 {
        let prefix = projects.drop_last();
        let last = projects.last();
        assert forall|i: int, j: int| 0 <= i < j < prefix.len() implies #[trigger] prefix[i].id
            != #[trigger] prefix[j].id by {
            assert(prefix[i] == projects[i] && prefix[j] == projects[j]);
        }
        assert forall|k: int, a: int, b: int|
            0 <= k < prefix.len() && 0 <= a < b < task_list(prefix[k]).len() implies #[trigger] task_list(
            prefix[k],
        )[a].id != #[trigger] task_list(prefix[k])[b].id by {
            assert(prefix[k] == projects[k]);
        }
        lemma_entry_pairs_unique(prefix, customers);
        lemma_entry_from_project(prefix, customers);
        let f = flattened(projects, customers);
        let g = flattened(prefix, customers);
        let n = g.len();
        assert forall|a: int, b: int| 0 <= a < b < f.len() implies (#[trigger] f[a].project,
            f[a].task) != (#[trigger] f[b].project, f[b].task) by {
            if b < n {
                assert(f[a] == g[a] && f[b] == g[b]);
            } else if a < n {
                assert(f[a] == g[a]);
                let k = choose|k: int| 0 <= k < prefix.len() && #[trigger] g[a].project == prefix[k].id;
                assert(prefix[k] == projects[k]);
                assert(projects[k].id != projects[projects.len() - 1].id);
            } else {
                let kl = projects.len() - 1;
                assert(task_list(projects[kl])[a - n].id != task_list(projects[kl])[b - n].id);
            }
        }
    }
}

/// A customer id that no listed customer carries has no name.
proof fn lemma_unknown_customer(customers: Seq<RemoteCustomer>, id: usize)
    requires
        forall|k: int| 0 <= k < customers.len() ==> #[trigger] customers[k].id != id,
    ensures
        customer_name(customers, id) is None,
    decreases customers.len(),
{
    if customers.len() > 0 {
        let rest = customers.drop_last();
        assert forall|k: int| 0 <= k < rest.len() implies #[trigger] rest[k].id != id by {
            assert(rest[k] == customers[k]);
        }
        lemma_unknown_customer(rest, id);
    }
}

/// The entries of a project without a client id are labelled "Internal";
/// those of a project whose client id no customer carries, "Missing Customer".
pub proof fn lemma_customer_labels(p: RemoteProject, customers: Seq<RemoteCustomer>)
    ensures
        p.client is None ==> forall|i: int|
            0 <= i < project_entries(p, customers).len() ==> #[trigger] project_entries(
                p,
                customers,
            )[i].display == display_text("Internal"@, p.name@, task_list(p)[i].label@),
        (p.client is Some && forall|k: int|
            0 <= k < customers.len() ==> #[trigger] customers[k].id != p.client->0) ==> forall|
            i: int,
        |
            0 <= i < project_entries(p, customers).len() ==> #[trigger] project_entries(
                p,
                customers,
            )[i].display == display_text("Missing Customer"@, p.name@, task_list(p)[i].label@),
{
    if p.client is Some && forall|k: int|
        0 <= k < customers.len() ==> #[trigger] customers[k].id != p.client->0 {
        lemma_unknown_customer(customers, p.client->0);
    }
}

/// Looks up the name of the customer with id `id`, the last one listed
/// where several carry it.
pub fn find_customer_name(customers: &Vec<RemoteCustomer>, id: usize) -> (r: Option<String>)
    ensures
        match r {
            None => customer_name(customers@, id) is None,
            Some(name) => customer_name(customers@, id) == Some(name@),
        },
{
    let mut i: usize = customers.len();
    assert(customers@.subrange(0, i as int) =~= customers@);
    while i > 0
        invariant
            i <= customers.len(),
            customer_name(customers@, id) == customer_name(customers@.subrange(0, i as int), id),
        decreases i,
    {
        assert(customers@.subrange(0, i as int).drop_last() =~= customers@.subrange(
            0,
            i - 1,
        ));
        if customers[i - 1].id == id {
            return Some(customers[i - 1].name.clone());
        }
        i = i - 1;
    }
    assert(customers@.subrange(0, 0) =~= Seq::<RemoteCustomer>::empty());
    None
}

/// The label of a project's customer, as `customer_label` states it.
pub fn label_for(client: Option<usize>, customers: &Vec<RemoteCustomer>) -> (r: String)
    ensures
        r@ == customer_label(client, customers@),
{
    match client {
        None => String::from_str("Internal"),
        Some(id) => match find_customer_name(customers, id) {
            None => String::from_str("Missing Customer"),
            Some(name) => name,
        },
    }
}

/// The views of a list of cache entries.
pub open spec fn entry_views(entries: Seq<ProjectTask>) -> Seq<EntryView> {
    entries.map_values(|e: ProjectTask| e@)
}

/// Flattens the catalog into cache entries: for each project in the order
/// given, one entry per task, labelled with the project's customer.
pub fn flatten(projects: &Vec<RemoteProject>, customers: &Vec<RemoteCustomer>) -> (r: Vec<
    ProjectTask,
>)
    ensures
        entry_views(r@) == flattened(projects@, customers@),
{
    let mut out: Vec<ProjectTask> = Vec::new();
    let mut i: usize = 0;
    while i < projects.len()
        invariant
            i <= projects.len(),
            entry_views(out@) == flattened(projects@.subrange(0, i as int), customers@),
        decreases projects.len() - i,
    {
        let project = &projects[i];
        let label = label_for(project.client, customers);
        let ghost before = entry_views(out@);
        let ghost p = projects@[i as int];
        match &project.tasks {
            None => {
                assert(project_entries(p, customers@) =~= Seq::<EntryView>::empty());
                assert(entry_views(out@) =~= before + project_entries(p, customers@));
            },
            Some(tasks) => {
                let mut j: usize = 0;
                while j < tasks.len()
                    invariant
                        j <= tasks.len(),
                        i < projects.len(),
                        p == projects@[i as int],
                        *project == p,
                        p.tasks == Some(*tasks),
                        label@ == customer_label(p.client, customers@),
                        entry_views(out@) == before + task_list(p).subrange(0, j as int).map_values(
                            |t: RemoteTask| entry_of(p, t, customers@),
                        ),
                    decreases tasks.len() - j,
                {
                    let mut display = label.clone();
                    display.append(" / ");
                    display.append(project.name.as_str());
                    display.append(" / ");
                    display.append(tasks[j].label.as_str());
                    assert(display@ == display_text(label@, p.name@, tasks@[j as int].label@));
                    let ghost old_out = out@;
                    out.push(ProjectTask { display, project: project.id, task: tasks[j].id });
                    assert(out@.last()@ == entry_of(p, tasks@[j as int], customers@));
                    assert(entry_views(out@) =~= entry_views(old_out).push(out@.last()@));
                    assert(task_list(p).subrange(0, j + 1) =~= task_list(p).subrange(
                        0,
                        j as int,
                    ).push(tasks@[j as int]));
                    assert(entry_views(out@) =~= before + task_list(p).subrange(
                        0,
                        j + 1,
                    ).map_values(|t: RemoteTask| entry_of(p, t, customers@)));
                    j = j + 1;
                }
                assert(task_list(p).subrange(0, j as int) =~= task_list(p));
            },
        }
        assert(projects@.subrange(0, i + 1).drop_last() =~= projects@.subrange(0, i as int));
        i = i + 1;
    }
    assert(projects@.subrange(0, i as int) =~= projects@);
    out
}

} // verus!
