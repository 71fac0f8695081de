use vstd::prelude::*;

use crate::config::{
    command_issue, config_issue, default_command, first_issue, fits_config, fits_project,
    is_default_config, project_issue, project_issues, task_issue, task_issues, ConfigModel,
    ProjectModel, TaskModel,
};
use crate::error::ConfigIssue;
use crate::terminal::{invocation_of, launch_plan, DescriptorModel};

verus! {

proof fn lemma_first_issue_found(s: Seq<Option<ConfigIssue>>, i: int)
    requires
        0 <= i < s.len(),
        s[i] is Some,
    ensures
        first_issue(s) is Some,
    decreases s.len(),
{
    if i < s.len() - 1 {
        lemma_first_issue_found(s.drop_last(), i);
    }
}

proof fn lemma_first_issue_none(s: Seq<Option<ConfigIssue>>, i: int)
    requires
        0 <= i < s.len(),
        forall|j: int| 0 <= j < i ==> s[j] is None,
    ensures
        first_issue(s.take(i)) is None,
    decreases i,
{
    if i > 0 {
        assert(s.take(i).drop_last() =~= s.take(i - 1));
        lemma_first_issue_none(s, i - 1);
    }
}

proof fn lemma_first_issue_at(s: Seq<Option<ConfigIssue>>, i: int)
    requires
        0 <= i < s.len(),
        s[i] is Some,
        forall|j: int| 0 <= j < i ==> s[j] is None,
    ensures
        first_issue(s) == s[i],
    decreases s.len(),
{
    if i < s.len() - 1 {
        lemma_first_issue_at(s.drop_last(), i);
    } else {
        lemma_first_issue_none(s, i);
        assert(s.drop_last() =~= s.take(i));
    }
}

proof fn lemma_first_issue_all_none(s: Seq<Option<ConfigIssue>>)
    requires
        forall|j: int| 0 <= j < s.len() ==> s[j] is None,
    ensures
        first_issue(s) is None,
    decreases s.len(),
{
    if s.len() > 0 {
        lemma_first_issue_all_none(s.drop_last());
    }
}

/// A configuration without projects is rejected as having no projects,
/// whatever the filesystem holds.
pub proof fn lemma_no_projects_rejected(c: ConfigModel, present: Seq<Seq<bool>>)
    requires
        c.projects.len() == 0,
    ensures
        config_issue(c, present) == Some(ConfigIssue::NoProjects),
{
    assert(project_issues(c.projects, present) =~= Seq::empty());
}

/// A task whose working directory does not exist is rejected for that reason.
pub proof fn lemma_missing_workdir_rejected(t: TaskModel)
    ensures
        task_issue(t, false) == Some(ConfigIssue::MissingWorkdir),
{
}

/// A project holding a task whose working directory does not exist is
/// rejected, and so is every configuration holding that project: no task of
/// it is ever launched. The reason is the missing directory when the project
/// is named and every task before that one is sound.
pub proof fn lemma_missing_workdir_blocks_project(
    c: ConfigModel,
    present: Seq<Seq<bool>>,
    k: int,
    i: int,
)
    requires
        fits_config(c, present),
        0 <= k < c.projects.len(),
        0 <= i < present[k].len(),
        !present[k][i],
    ensures
        project_issue(c.projects[k], present[k]) is Some,
        config_issue(c, present) is Some,
        c.projects[k].name.len() > 0 && (forall|j: int|
            0 <= j < i ==> #[trigger] task_issues(c.projects[k].tasks(), present[k])[j] is None)
            ==> project_issue(c.projects[k], present[k]) == Some(ConfigIssue::MissingWorkdir),
{
    let p = c.projects[k];
    assert(fits_project(p, present[k]));
    let issues = task_issues(p.tasks(), present[k]);
    assert(issues[i] == Some(ConfigIssue::MissingWorkdir));
    lemma_first_issue_found(issues, i);
    let all = project_issues(c.projects, present);
    assert(all[k] is Some);
    lemma_first_issue_found(all, k);
    if p.name.len() > 0 && (forall|j: int| 0 <= j < i ==> #[trigger] issues[j] is None) {
        lemma_first_issue_at(issues, i);
    }
}

/// A task with an empty command is rejected; when its working directory
/// exists the reason is the missing command.
pub proof fn lemma_empty_command_rejected(t: TaskModel, workdir_exists: bool)
    requires
        t.command.len() == 0,
    ensures
        task_issue(t, workdir_exists) is Some,
        workdir_exists ==> task_issue(t, workdir_exists) == Some(ConfigIssue::EmptyCommand),
{
}

/// A task whose command has an empty segment is rejected; when its command is
/// not empty and its working directory exists the reason is the malformed
/// segment.
pub proof fn lemma_empty_segment_rejected(t: TaskModel, workdir_exists: bool, k: int)
    requires
        0 <= k < t.command.len(),
        t.command[k].len() == 0,
    ensures
        task_issue(t, workdir_exists) is Some,
        workdir_exists ==> task_issue(t, workdir_exists) == Some(ConfigIssue::EmptySegment),
{
    assert(command_issue(t.command) == Some(ConfigIssue::EmptySegment));
}

/// Launching a project with N terminal tasks and M program tasks starts
/// exactly N + M processes: the terminal tasks in list order, then the
/// program tasks in list order.
pub proof fn lemma_dispatch_order(p: ProjectModel, d: DescriptorModel)
    ensures
        launch_plan(p.tasks(), d).len() == p.terminals.len() + p.programs.len(),
        forall|i: int|
            0 <= i < p.terminals.len() ==> #[trigger] launch_plan(p.tasks(), d)[i]
                == invocation_of(p.terminals[i], d),
        forall|j: int|
            0 <= j < p.programs.len() ==> #[trigger] launch_plan(p.tasks(), d)[p.terminals.len()
                + j] == invocation_of(p.programs[j], d),
{
}

/// The skeleton configuration passes validation wherever its working
/// directory exists.
pub proof fn lemma_default_config_valid(c: ConfigModel, present: Seq<Seq<bool>>)
    requires
        is_default_config(c),
        fits_config(c, present),
        forall|i: int, j: int| 0 <= i < present.len() && 0 <= j < present[i].len() ==> present[i][j],
    ensures
        config_issue(c, present) is None,
{
    reveal_strlit("ls");
    reveal_strlit("-la");
    reveal_strlit("example project");
    let p = c.projects[0];
    assert(fits_project(p, present[0]));
    let t = p.tasks()[0];
    assert(t == p.terminals[0]);
    assert(t.command == default_command());
    assert(t.command[0].len() == 2);
    assert(t.command[1].len() == 3);
    assert(command_issue(t.command) is None);
    let issues = task_issues(p.tasks(), present[0]);
    assert(issues[0] is None);
    lemma_first_issue_all_none(issues);
    let all = project_issues(c.projects, present);
    assert(all[0] is None);
    lemma_first_issue_all_none(all);
}

} // verus!
