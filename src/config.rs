use vstd::prelude::*;

use crate::error::{verdict, ConfigIssue, WorkonError, WorkonResult};

verus! {

/// One task: a command run in a working directory inside a terminal window.
#[derive(Debug)]
pub struct TerminalConfig {
    pub workdir: String,
    pub command: Vec<String>,
}

/// Mathematical model of a task.
pub struct TaskModel {
    pub workdir: Seq<char>,
    pub command: Seq<Seq<char>>,
}

impl View for TerminalConfig {
    type V = TaskModel;

    open spec fn view(&self) -> TaskModel {
        TaskModel { workdir: self.workdir@, command: self.command@.map_values(|s: String| s@) }
    }
}

/// A named group of tasks; terminals are launched before programs.
#[derive(Debug)]
pub struct ProjectConfig {
    pub project_name: String,
    pub terminals: Vec<TerminalConfig>,
    pub programs: Vec<TerminalConfig>,
}

/// Mathematical model of a project.
pub struct ProjectModel {
    pub name: Seq<char>,
    pub terminals: Seq<TaskModel>,
    pub programs: Seq<TaskModel>,
}

impl ProjectModel {
    /// Every task of the project, in launch order.
    pub open spec fn tasks(self) -> Seq<TaskModel> {
        self.terminals + self.programs
    }
}

impl View for ProjectConfig {
    type V = ProjectModel;

    open spec fn view(&self) -> ProjectModel {
        ProjectModel {
            name: self.project_name@,
            terminals: self.terminals@.map_values(|t: TerminalConfig| t@),
            programs: self.programs@.map_values(|t: TerminalConfig| t@),
        }
    }
}

/// The whole workspace configuration.
#[derive(Debug)]
pub struct WorkonConfig {
    pub projects: Vec<ProjectConfig>,
}

/// Mathematical model of a configuration.
pub struct ConfigModel {
    pub projects: Seq<ProjectModel>,
}

impl View for WorkonConfig {
    type V = ConfigModel;

    open spec fn view(&self) -> ConfigModel {
        ConfigModel { projects: self.projects@.map_values(|p: ProjectConfig| p@) }
    }
}

/// The problem with a command line, if any.
pub open spec fn command_issue(command: Seq<Seq<char>>) -> Option<ConfigIssue> {
    if command.len() == 0 {
        Some(ConfigIssue::EmptyCommand)
    } else if exists|k: int| 0 <= k < command.len() && #[trigger] command[k].len() == 0 {
        Some(ConfigIssue::EmptySegment)
    } else {
        None
    }
}

/// The problem with a task whose working directory does or does not exist.
pub open spec fn task_issue(t: TaskModel, workdir_exists: bool) -> Option<ConfigIssue> {
    if !workdir_exists {
        Some(ConfigIssue::MissingWorkdir)
    } else {
        command_issue(t.command)
    }
}

/// The first issue of a sequence of per-item findings.
pub open spec fn first_issue(issues: Seq<Option<ConfigIssue>>) -> Option<ConfigIssue>
    decreases issues.len(),
{
    if issues.len() == 0 {
        None
    } else {
        let before = first_issue(issues.drop_last());
        if before is Some {
            before
        } else {
            issues.last()
        }
    }
}

/// The finding for each task, given which working directories exist.
pub open spec fn task_issues(tasks: Seq<TaskModel>, present: Seq<bool>) -> Seq<Option<ConfigIssue>> {
    Seq::new(tasks.len(), |i: int| task_issue(tasks[i], present[i]))
}

/// The problem with a project, checked in order: name, each task, terminals.
pub open spec fn project_issue(p: ProjectModel, present: Seq<bool>) -> Option<ConfigIssue> {
    if p.name.len() == 0 {
        Some(ConfigIssue::EmptyProjectName)
    } else if first_issue(task_issues(p.tasks(), present)) is Some {
        first_issue(task_issues(p.tasks(), present))
    } else if p.terminals.len() == 0 {
        Some(ConfigIssue::NoApplications)
    } else {
        None
    }
}

/// The finding for each project.
pub open spec fn project_issues(projects: Seq<ProjectModel>, present: Seq<Seq<bool>>) -> Seq<
    Option<ConfigIssue>,
> {
    Seq::new(projects.len(), |i: int| project_issue(projects[i], present[i]))
}

/// The problem with a configuration: the first project's problem, else no projects.
pub open spec fn config_issue(c: ConfigModel, present: Seq<Seq<bool>>) -> Option<ConfigIssue> {
    if first_issue(project_issues(c.projects, present)) is Some {
        first_issue(project_issues(c.projects, present))
    } else if c.projects.len() == 0 {
        Some(ConfigIssue::NoProjects)
    } else {
        None
    }
}

/// `present` holds one existence flag per task of `p`.
pub open spec fn fits_project(p: ProjectModel, present: Seq<bool>) -> bool {
    present.len() == p.tasks().len()
}

/// `present` holds one flag list per project of `c`, each fitting its project.
pub open spec fn fits_config(c: ConfigModel, present: Seq<Seq<bool>>) -> bool {
    &&& present.len() == c.projects.len()
    &&& forall|i: int| 0 <= i < present.len() ==> fits_project(c.projects[i], #[trigger] present[i])
}

/// The lines `workon <name>`, one per name, joined by newlines.
pub open spec fn usage_lines(names: Seq<Seq<char>>) -> Seq<char>
    decreases names.len(),
{
    if names.len() == 0 {
        Seq::empty()
    } else if names.len() == 1 {
        "workon "@ + names[0]
    } else {
        usage_lines(names.drop_last()) + "\n"@ + "workon "@ + names.last()
    }
}

/// Views of a list of flag vectors.
pub open spec fn flags_view(v: Seq<Vec<bool>>) -> Seq<Seq<bool>> {
    v.map_values(|f: Vec<bool>| f@)
}

proof fn lemma_first_issue_step(s: Seq<Option<ConfigIssue>>, i: int)
    requires
        0 <= i < s.len(),
        first_issue(s.take(i)) is None,
    ensures
        first_issue(s.take(i + 1)) == s[i],
{
    assert(s.take(i + 1).drop_last() =~= s.take(i));
}

proof fn lemma_first_issue_prefix(s: Seq<Option<ConfigIssue>>, k: int)
    requires
        0 <= k <= s.len(),
        first_issue(s.take(k)) is Some,
    ensures
        first_issue(s) == first_issue(s.take(k)),
    decreases s.len(),
{
    if k < s.len() {
        assert(s.drop_last().take(k) =~= s.take(k));
        lemma_first_issue_prefix(s.drop_last(), k);
    } else {
        assert(s.take(k) =~= s);
    }
}

/// A configuration element that can be checked before anything is launched.
pub trait Validate: Sized {
    /// Whether `r` is an outcome that checking `self` against some state of
    /// the filesystem gives.
    spec fn admits(&self, r: WorkonResult<&Self>) -> bool;

    fn validate(&self) -> (r: WorkonResult<&Self>)
        ensures
            self.admits(r),
    ;
}

impl Validate for TerminalConfig {
    open spec fn admits(&self, r: WorkonResult<&Self>) -> bool {
        exists|b: bool| r == verdict(self, task_issue(self@, b))
    }

    fn validate(&self) -> (r: WorkonResult<&Self>) {
        TerminalConfig::validate(self)
    }
}

impl Validate for ProjectConfig {
    open spec fn admits(&self, r: WorkonResult<&Self>) -> bool {
        exists|present: Seq<bool>|
            fits_project(self@, present) && r == verdict(self, project_issue(self@, present))
    }

    fn validate(&self) -> (r: WorkonResult<&Self>) {
        ProjectConfig::validate(self)
    }
}

impl Validate for WorkonConfig {
    open spec fn admits(&self, r: WorkonResult<&Self>) -> bool {
        exists|present: Seq<Seq<bool>>|
            fits_config(self@, present) && r == verdict(self, config_issue(self@, present))
    }

    fn validate(&self) -> (r: WorkonResult<&Self>) {
        WorkonConfig::validate(self)
    }
}

/// Relies on std::path::Path::exists: whether the path is on disk now.
#[verifier::external_body]
fn dir_exists(path: &String) -> (r: bool) {
    std::path::Path::new(path.as_str()).exists()
}

/// Relies on directories::BaseDirs::new and BaseDirs::home_dir: the user's home
/// directory, when the platform can tell; it depends on the environment. The
/// crate reads `$HOME` or the user's passwd entry and drops an empty one.
#[verifier::external_body]
fn user_home_dir() -> (r: Option<String>)
    ensures
        r matches Some(h) ==> h@.len() > 0,
{
    directories::BaseDirs::new().map(|d| d.home_dir().to_string_lossy().into_owned())
}

/// The command that the default task runs.
pub open spec fn default_command() -> Seq<Seq<char>> {
    seq!["ls"@, "-la"@]
}

/// The working directory of the default task, from the user's home directory.
pub open spec fn default_workdir(home: Option<Seq<char>>) -> Seq<char> {
    match home {
        Some(h) => h,
        None => "/"@,
    }
}

/// The name of the default project.
pub open spec fn default_project_name() -> Seq<char> {
    "example project"@
}

/// `c` is the skeleton configuration: one project with one terminal task that
/// lists the files of some directory.
pub open spec fn is_default_config(c: ConfigModel) -> bool {
    &&& c.projects.len() == 1
    &&& c.projects[0].name == default_project_name()
    &&& c.projects[0].terminals.len() == 1
    &&& c.projects[0].programs.len() == 0
    &&& c.projects[0].terminals[0].command == default_command()
}

impl Default for TerminalConfig {
    fn default() -> (r: TerminalConfig)
        ensures
            r@.command == default_command(),
            r@.workdir.len() > 0,
    {
        TerminalConfig::in_home(user_home_dir())
    }
}

impl Default for ProjectConfig {
    fn default() -> (r: ProjectConfig)
        ensures
            r@.name == default_project_name(),
            r@.terminals.len() == 1,
            r@.terminals[0].command == default_command(),
            r@.programs.len() == 0,
    {
        let mut terminals: Vec<TerminalConfig> = Vec::new();
        terminals.push(TerminalConfig::default());
        ProjectConfig {
            project_name: String::from_str("example project"),
            terminals,
            programs: Vec::new(),
        }
    }
}

impl Default for WorkonConfig {
    fn default() -> (r: WorkonConfig)
        ensures
            is_default_config(r@),
    {
        let mut projects: Vec<ProjectConfig> = Vec::new();
        projects.push(ProjectConfig::default());
        WorkonConfig { projects }
    }
}

impl TerminalConfig {
    /// The default task: list the files of `home`, or of `/` when there is none.
    pub fn in_home(home: Option<String>) -> (r: TerminalConfig)
        ensures
            r@.workdir == default_workdir(
                match home {
                    Some(h) => Some(h@),
                    None => None,
                },
            ),
            r@.command == default_command(),
            home matches Some(h) && h@.len() > 0 ==> r@.workdir.len() > 0,
            home is None ==> r@.workdir.len() > 0,
    {
        proof {
            reveal_strlit("/");
        }
        let workdir = match home {
            Some(h) => h,
            None => String::from_str("/"),
        };
        let mut command: Vec<String> = Vec::new();
        command.push(String::from_str("ls"));
        command.push(String::from_str("-la"));
        let r = TerminalConfig { workdir, command };
        assert(r@.command =~= default_command());
        r
    }

    /// The problem with a task, given whether its working directory exists.
    pub fn issue_with(&self, workdir_exists: bool) -> (r: Option<ConfigIssue>)
        ensures
            r == task_issue(self@, workdir_exists),
    {
        if !workdir_exists {
            return Some(ConfigIssue::MissingWorkdir);
        }
        if self.command.len() == 0 {
            return Some(ConfigIssue::EmptyCommand);
        }
        let mut k: usize = 0;
        while k < self.command.len()
            invariant
                workdir_exists,
                k <= self.command@.len(),
                forall|j: int| 0 <= j < k ==> self@.command[j].len() > 0,
            decreases self.command@.len() - k,
        {
            if self.command[k].as_str().is_empty() {
                assert(self@.command.len() == self.command@.len());
                assert(self@.command[k as int].len() == 0);
                return Some(ConfigIssue::EmptySegment);
            }
            k += 1;
        }
        assert(self@.command.len() == self.command@.len());
        None
    }

    /// Checks a task, given whether its working directory exists.
    pub fn check(&self, workdir_exists: bool) -> (r: WorkonResult<&Self>)
        ensures
            r == verdict(self, task_issue(self@, workdir_exists)),
    {
        match self.issue_with(workdir_exists) {
            Some(i) => Err(WorkonError::InvalidConfig(i)),
            None => Ok(self),
        }
    }

    /// Whether the working directory exists on disk.
    pub fn workdir_present(&self) -> bool {
        dir_exists(&self.workdir)
    }

    /// Checks a task against the filesystem as it is now.
    pub fn validate(&self) -> (r: WorkonResult<&Self>)
        ensures
            exists|b: bool| r == verdict(self, task_issue(self@, b)),
            self@.command.len() == 0 ==> r is Err,
    {
        let present = self.workdir_present();
        self.check(present)
    }
}

impl ProjectConfig {
    /// The task at position `i` of the launch order.
    pub fn task_at(&self, i: usize) -> (r: &TerminalConfig)
        requires
            i < self@.tasks().len(),
        ensures
            r@ == self@.tasks()[i as int],
    {
        if i < self.terminals.len() {
            &self.terminals[i]
        } else {
            &self.programs[i - self.terminals.len()]
        }
    }

    /// Checks this project, given for each task whether its working directory exists.
    pub fn check(&self, present: &Vec<bool>) -> (r: WorkonResult<&Self>)
        requires
            fits_project(self@, present@),
        ensures
            r == verdict(self, project_issue(self@, present@)),
    {
        if self.project_name.as_str().is_empty() {
            return Err(WorkonError::InvalidConfig(ConfigIssue::EmptyProjectName));
        }
        let ghost issues = task_issues(self@.tasks(), present@);
        let n = present.len();
        let mut i: usize = 0;
        while i < n
            invariant
                n == present@.len(),
                self@.name.len() > 0,
                fits_project(self@, present@),
                issues == task_issues(self@.tasks(), present@),
                i <= n,
                first_issue(issues.take(i as int)) is None,
            decreases n - i,
        {
            let t = self.task_at(i);
            let found = t.issue_with(present[i]);
            assert(found == issues[i as int]);
            proof {
                lemma_first_issue_step(issues, i as int);
            }
            if let Some(issue) = found {
                proof {
                    lemma_first_issue_prefix(issues, i + 1);
                }
                return Err(WorkonError::InvalidConfig(issue));
            }
            i += 1;
        }
        assert(issues.take(n as int) =~= issues);
        if self.terminals.len() == 0 {
            return Err(WorkonError::InvalidConfig(ConfigIssue::NoApplications));
        }
        Ok(self)
    }

    /// For each task in launch order, whether its working directory exists on disk.
    pub fn presence(&self) -> (r: Vec<bool>)
        ensures
            fits_project(self@, r@),
    {
        let mut r: Vec<bool> = Vec::new();
        let mut i: usize = 0;
        while i < self.terminals.len()
            invariant
                i <= self.terminals@.len(),
                r@.len() == i,
            decreases self.terminals@.len() - i,
        {
            r.push(self.terminals[i].workdir_present());
            i += 1;
        }
        let mut j: usize = 0;
        while j < self.programs.len()
            invariant
                j <= self.programs@.len(),
                r@.len() == self.terminals@.len() + j,
            decreases self.programs@.len() - j,
        {
            r.push(self.programs[j].workdir_present());
            j += 1;
        }
        r
    }

    /// Checks this project against the filesystem as it is now.
    pub fn validate(&self) -> (r: WorkonResult<&Self>)
        ensures
            exists|present: Seq<bool>|
                fits_project(self@, present) && r == verdict(self, project_issue(self@, present)),
            self@.name.len() == 0 ==> r == Err::<&Self, WorkonError>(
                WorkonError::InvalidConfig(ConfigIssue::EmptyProjectName),
            ),
    {
        let present = self.presence();
        self.check(&present)
    }
}

impl WorkonConfig {
    /// Checks every project in order, given the existence flags of each project's tasks.
    pub fn check(&self, present: &Vec<Vec<bool>>) -> (r: WorkonResult<&Self>)
        requires
            fits_config(self@, flags_view(present@)),
        ensures
            r == verdict(self, config_issue(self@, flags_view(present@))),
    {
        let ghost flags = flags_view(present@);
        let ghost issues = project_issues(self@.projects, flags);
        let n = self.projects.len();
        let mut i: usize = 0;
        while i < n
            invariant
                n == self.projects@.len(),
                flags == flags_view(present@),
                fits_config(self@, flags),
                issues == project_issues(self@.projects, flags),
                i <= n,
                first_issue(issues.take(i as int)) is None,
            decreases n - i,
        {
            let p = &self.projects[i];
            assert(fits_project(self@.projects[i as int], flags[i as int]));
            let res = p.check(&present[i]);
            assert(res is Err <==> issues[i as int] is Some);
            proof {
                lemma_first_issue_step(issues, i as int);
            }
            if let Err(e) = res {
                proof {
                    lemma_first_issue_prefix(issues, i + 1);
                }
                return Err(e);
            }
            i += 1;
        }
        assert(issues.take(n as int) =~= issues);
        if n == 0 {
            return Err(WorkonError::InvalidConfig(ConfigIssue::NoProjects));
        }
        Ok(self)
    }

    /// For each project, the existence flags of its tasks' working directories.
    pub fn presence(&self) -> (r: Vec<Vec<bool>>)
        ensures
            fits_config(self@, flags_view(r@)),
    {
        let mut r: Vec<Vec<bool>> = Vec::new();
        let mut i: usize = 0;
        while i < self.projects.len()
            invariant
                i <= self.projects@.len(),
                r@.len() == i,
                forall|j: int|
                    0 <= j < i ==> fits_project(self@.projects[j], #[trigger] r@[j]@),
            decreases self.projects@.len() - i,
        {
            r.push(self.projects[i].presence());
            i += 1;
        }
        assert forall|j: int| 0 <= j < r@.len() implies fits_project(
            self@.projects[j],
            #[trigger] flags_view(r@)[j],
        ) by {
            assert(flags_view(r@)[j] == r@[j]@);
        }
        r
    }

    /// Checks the configuration against the filesystem as it is now.
    pub fn validate(&self) -> (r: WorkonResult<&Self>)
        ensures
            exists|present: Seq<Seq<bool>>|
                fits_config(self@, present) && r == verdict(self, config_issue(self@, present)),
            self@.projects.len() == 0 ==> r == Err::<&Self, WorkonError>(
                WorkonError::InvalidConfig(ConfigIssue::NoProjects),
            ),
    {
        let present = self.presence();
        let r = self.check(&present);
        proof {
            if self@.projects.len() == 0 {
                assert(project_issues(self@.projects, flags_view(present@)) =~= Seq::empty());
            }
        }
        r
    }

    /// One line `workon <name>` per project, in order, separated by newlines.
    pub fn usage_hint(&self) -> (r: String)
        ensures
            r@ == usage_lines(self@.projects.map_values(|p: ProjectModel| p.name)),
    {
        let ghost names = self@.projects.map_values(|p: ProjectModel| p.name);
        let mut out = String::new();
        let mut i: usize = 0;
        while i < self.projects.len()
            invariant
                names == self@.projects.map_values(|p: ProjectModel| p.name),
                i <= self.projects@.len(),
                out@ == usage_lines(names.take(i as int)),
            decreases self.projects@.len() - i,
        {
            assert(names.take(i + 1).drop_last() =~= names.take(i as int));
            if i > 0 {
                out.append("\n");
            }
            out.append("workon ");
            out.append(self.projects[i].project_name.as_str());
            i += 1;
        }
        assert(names.take(i as int) =~= names);
        out
    }

    /// The first project named `name`.
    pub fn find_project(&self, name: &String) -> (r: WorkonResult<&ProjectConfig>)
        ensures
            match r {
                Ok(p) => exists|i: int|
                    0 <= i < self.projects@.len() && p == &self.projects@[i]
                        && self@.projects[i].name == name@ && forall|j: int|
                        0 <= j < i ==> #[trigger] self@.projects[j].name != name@,
                Err(e) => e == WorkonError::InvalidProjectNameError && forall|j: int|
                    0 <= j < self.projects@.len() ==> #[trigger] self@.projects[j].name != name@,
            },
    {
        let mut i: usize = 0;
        while i < self.projects.len()
            invariant
                i <= self.projects@.len(),
                forall|j: int| 0 <= j < i ==> #[trigger] self@.projects[j].name != name@,
            decreases self.projects@.len() - i,
        {
            if self.projects[i].project_name == *name {
                return Ok(&self.projects[i]);
            }
            i += 1;
        }
        Err(WorkonError::InvalidProjectNameError)
    }
}

} // verus!
