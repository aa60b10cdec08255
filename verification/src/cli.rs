//! Command lines of the operator and of its preparation tool: flags that take
//! the next argument as their value, read left to right after the program
//! name.

use crate::properties::opt_view;
use crate::text::{copy_str, str_eq, views};
use vstd::prelude::*;

verus! {

/// The first group of flag names that holds `arg`.
pub open spec fn flag_group(groups: Seq<Seq<Seq<char>>>, arg: Seq<char>) -> Option<int>
    decreases groups.len(),
{
    if groups.len() == 0 {
        None
    } else if groups[0].contains(arg) {
        Some(0)
    } else {
        match flag_group(groups.drop_first(), arg) {
            Some(k) => Some(k + 1),
            None => None,
        }
    }
}

/// Reads the arguments from position `i` on: a flag of a group that has an
/// argument after it sets the group's value to that argument, and both are
/// consumed; any other argument is skipped. A later flag of a group replaces
/// an earlier value.
pub open spec fn scan_from(
    args: Seq<Seq<char>>,
    groups: Seq<Seq<Seq<char>>>,
    i: int,
    vals: Seq<Option<Seq<char>>>,
) -> Seq<Option<Seq<char>>>
    decreases args.len() - i,
{
    if i < 0 || i >= args.len() {
        vals
    } else {
        match flag_group(groups, args[i]) {
            Some(k) => if i + 1 < args.len() {
                scan_from(args, groups, i + 2, vals.update(k, Some(args[i + 1])))
            } else {
                scan_from(args, groups, i + 1, vals)
            },
            None => scan_from(args, groups, i + 1, vals),
        }
    }
}

/// The value of each flag group on a command line whose first argument is
/// the program name; none for a group that is not given.
pub open spec fn flag_values(args: Seq<Seq<char>>, groups: Seq<Seq<Seq<char>>>) -> Seq<
    Option<Seq<char>>,
> {
    scan_from(args, groups, 1, Seq::new(groups.len(), |k: int| None::<Seq<char>>))
}

/// The views of groups of flag names.
pub open spec fn group_views(groups: Seq<Vec<String>>) -> Seq<Seq<Seq<char>>> {
    groups.map_values(|g: Vec<String>| views(g@))
}

/// The views of optional values.
pub open spec fn opt_views(vals: Seq<Option<String>>) -> Seq<Option<Seq<char>>> {
    vals.map_values(|o: Option<String>| opt_view(o))
}

fn in_group(group: &Vec<String>, arg: &str) -> (r: bool)
    ensures
        r == views(group@).contains(arg@),
{
    let mut j: usize = 0;
    while j < group.len()
        invariant
            j <= group@.len(),
            forall|k: int| 0 <= k < j ==> #[trigger] views(group@)[k] != arg@,
        decreases group@.len() - j,
    {
        if str_eq(group[j].as_str(), arg) {
            assert(views(group@)[j as int] == arg@);
            return true;
        }
        j = j + 1;
    }
    false
}

fn find_group(groups: &Vec<Vec<String>>, arg: &str) -> (r: Option<usize>)
    ensures
        match r {
            Some(k) => flag_group(group_views(groups@), arg@) == Some(k as int),
            None => flag_group(group_views(groups@), arg@) is None,
        },
{
    let ghost g = group_views(groups@);
    let mut k: usize = 0;
    assert(g.skip(0) =~= g);
    while k < groups.len()
        invariant
            k <= groups@.len(),
            g == group_views(groups@),
            g.len() == groups@.len(),
            flag_group(g, arg@) == (match flag_group(g.skip(k as int), arg@) {
                Some(j) => Some(j + k),
                None => None,
            }),
        decreases groups@.len() - k,
    {
        assert(g.skip(k as int).drop_first() =~= g.skip(k as int + 1));
        assert(g.skip(k as int)[0] == g[k as int]);
        if in_group(&groups[k], arg) {
            return Some(k);
        }
        k = k + 1;
    }
    None
}

/// The value of each flag group on a command line whose first argument is
/// the program name.
pub fn scan_flags(args: &Vec<String>, groups: &Vec<Vec<String>>) -> (r: Vec<Option<String>>)
    ensures
        r@.len() == groups@.len(),
        opt_views(r@) == flag_values(views(args@), group_views(groups@)),
{
    let ghost a = views(args@);
    let ghost g = group_views(groups@);
    let mut vals: Vec<Option<String>> = Vec::new();
    let mut k: usize = 0;
    while k < groups.len()
        invariant
            k <= groups@.len(),
            g.len() == groups@.len(),
            vals@.len() == k,
            forall|j: int| 0 <= j < k ==> vals@[j] is None,
        decreases groups@.len() - k,
    {
        vals.push(None);
        k = k + 1;
    }
    assert(opt_views(vals@) =~= Seq::new(g.len(), |j: int| None::<Seq<char>>));
    let mut i: usize = 1;
    while i < args.len()
        invariant
            1 <= i,
            a == views(args@),
            g == group_views(groups@),
            vals@.len() == g.len(),
            scan_from(a, g, i as int, opt_views(vals@)) == flag_values(a, g),
        decreases args@.len() - i,
    {
        match find_group(groups, args[i].as_str()) {
            Some(k) => {
                if i + 1 < args.len() {
                    proof {
                        lemma_flag_group_bounded(g, a[i as int]);
                    }
                    let ghost before = opt_views(vals@);
                    vals.set(k, Some(args[i + 1].clone()));
                    assert(opt_views(vals@) =~= before.update(k as int, Some(a[i + 1])));
                    i = i + 2;
                } else {
                    i = i + 1;
                }
            },
            None => {
                i = i + 1;
            },
        }
    }
    vals
}

proof fn lemma_flag_group_bounded(groups: Seq<Seq<Seq<char>>>, arg: Seq<char>)
    ensures
        flag_group(groups, arg) matches Some(k) ==> 0 <= k < groups.len(),
    decreases groups.len(),
{
    if groups.len() > 0 {
        lemma_flag_group_bounded(groups.drop_first(), arg);
    }
}

fn group_of(names: &[&str]) -> (r: Vec<String>)
    ensures
        views(r@) == names@.map_values(|s: &str| s@),
{
    let mut g: Vec<String> = Vec::new();
    let mut i: usize = 0;
    while i < names.len()
        invariant
            i <= names@.len(),
            views(g@) == names@.take(i as int).map_values(|s: &str| s@),
        decreases names@.len() - i,
    {
        let ghost before = views(g@);
        g.push(copy_str(names[i]));
        assert(views(g@) =~= before.push(names@[i as int]@));
        assert(names@.take(i as int + 1).map_values(|s: &str| s@) =~= names@.take(
            i as int,
        ).map_values(|s: &str| s@).push(names@[i as int]@));
        i = i + 1;
    }
    assert(names@.take(names@.len() as int) =~= names@);
    g
}

/// What the host passes the operator on its command line: `--taskId`,
/// `--serviceUri` and `--token`, each with the next argument as its value.
#[derive(Debug, Clone)]
pub struct LaunchArgs {
    pub task_id: Option<String>,
    pub service_uri: Option<String>,
    pub token: Option<String>,
}

/// The flags of the operator's command line.
pub open spec fn launch_groups() -> Seq<Seq<Seq<char>>> {
    seq![seq!["--taskId"@], seq!["--serviceUri"@], seq!["--token"@]]
}

/// Reads the operator's command line; the first argument is the program
/// name, and a flag given twice keeps its last value.
pub fn parse_args(args: &Vec<String>) -> (r: LaunchArgs)
    ensures
        opt_view(r.task_id) == flag_values(views(args@), launch_groups())[0],
        opt_view(r.service_uri) == flag_values(views(args@), launch_groups())[1],
        opt_view(r.token) == flag_values(views(args@), launch_groups())[2],
{
    let mut groups: Vec<Vec<String>> = Vec::new();
    groups.push(group_of(&["--taskId"]));
    groups.push(group_of(&["--serviceUri"]));
    groups.push(group_of(&["--token"]));
    assert(group_views(groups@) =~= launch_groups()) by {
        assert(group_views(groups@)[0] =~= seq!["--taskId"@]);
        assert(group_views(groups@)[1] =~= seq!["--serviceUri"@]);
        assert(group_views(groups@)[2] =~= seq!["--token"@]);
    }
    let mut vals = scan_flags(args, &groups);
    let ghost v = opt_views(vals@);
    assert(v[2] == opt_view(vals@[2]));
    assert(v[1] == opt_view(vals@[1]));
    assert(v[0] == opt_view(vals@[0]));
    let token = vals.pop().unwrap();
    let service_uri = vals.pop().unwrap();
    let task_id = vals.pop().unwrap();
    LaunchArgs { task_id, service_uri, token }
}

/// What the preparation tool is asked on its command line: `--workflow-id`
/// (or `-w`), `--step-id` (or `-s`) and `--delete-project`, each with the next
/// argument as its value; empty where not given.
#[derive(Debug, Clone)]
pub struct PrepareArgs {
    pub workflow_id: String,
    pub step_id: String,
    pub delete_project_id: String,
}

/// The flags of the preparation tool's command line.
pub open spec fn prepare_groups() -> Seq<Seq<Seq<char>>> {
    seq![seq!["--workflow-id"@, "-w"@], seq!["--step-id"@, "-s"@], seq!["--delete-project"@]]
}

/// A value, or empty where none is given.
pub open spec fn or_empty(v: Option<Seq<char>>) -> Seq<char> {
    match v {
        Some(s) => s,
        None => Seq::empty(),
    }
}

fn unwrap_or_empty(v: Option<String>) -> (r: String)
    ensures
        r@ == or_empty(opt_view(v)),
{
    match v {
        Some(s) => s,
        None => String::new(),
    }
}

/// Reads the preparation tool's command line; the first argument is the
/// program name, and a flag given twice keeps its last value.
pub fn parse_prepare_args(args: &Vec<String>) -> (r: PrepareArgs)
    ensures
        r.workflow_id@ == or_empty(flag_values(views(args@), prepare_groups())[0]),
        r.step_id@ == or_empty(flag_values(views(args@), prepare_groups())[1]),
        r.delete_project_id@ == or_empty(flag_values(views(args@), prepare_groups())[2]),
{
    let mut groups: Vec<Vec<String>> = Vec::new();
    groups.push(group_of(&["--workflow-id", "-w"]));
    groups.push(group_of(&["--step-id", "-s"]));
    groups.push(group_of(&["--delete-project"]));
    assert(group_views(groups@) =~= prepare_groups()) by {
        assert(group_views(groups@)[0] =~= seq!["--workflow-id"@, "-w"@]);
        assert(group_views(groups@)[1] =~= seq!["--step-id"@, "-s"@]);
        assert(group_views(groups@)[2] =~= seq!["--delete-project"@]);
    }
    let mut vals = scan_flags(args, &groups);
    let ghost v = opt_views(vals@);
    assert(v[2] == opt_view(vals@[2]));
    assert(v[1] == opt_view(vals@[1]));
    assert(v[0] == opt_view(vals@[0]));
    let delete_project_id = unwrap_or_empty(vals.pop().unwrap());
    let step_id = unwrap_or_empty(vals.pop().unwrap());
    let workflow_id = unwrap_or_empty(vals.pop().unwrap());
    PrepareArgs { workflow_id, step_id, delete_project_id }
}

/// What the preparation tool does.
#[derive(Debug, Clone, PartialEq, Eq)]
pub enum PrepareMode {
    /// Deletes the project with this id.
    DeleteProject(String),
    /// Prepares the step of the workflow.
    Prepare { workflow_id: String, step_id: String },
    /// Prints how to call it and fails.
    Usage,
}

/// What the preparation tool does with its arguments: deleting a project
/// comes first; otherwise both the workflow and the step are needed.
pub fn prepare_mode(args: PrepareArgs) -> (r: PrepareMode)
    ensures
        args.delete_project_id@.len() > 0 ==> (r matches PrepareMode::DeleteProject(id) && id@
            == args.delete_project_id@),
        args.delete_project_id@.len() == 0 && (args.workflow_id@.len() == 0
            || args.step_id@.len() == 0) ==> r == PrepareMode::Usage,
        args.delete_project_id@.len() == 0 && args.workflow_id@.len() > 0 && args.step_id@.len()
            > 0 ==> (r matches PrepareMode::Prepare { workflow_id, step_id } && workflow_id@
            == args.workflow_id@ && step_id@ == args.step_id@),
{
    if !args.delete_project_id.as_str().is_empty() {
        PrepareMode::DeleteProject(args.delete_project_id)
    } else if args.workflow_id.as_str().is_empty() || args.step_id.as_str().is_empty() {
        PrepareMode::Usage
    } else {
        PrepareMode::Prepare { workflow_id: args.workflow_id, step_id: args.step_id }
    }
}

} // verus!
