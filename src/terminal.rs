use vstd::prelude::*;

use crate::config::{ProjectConfig, TaskModel, TerminalConfig};
use crate::error::WorkonResult;

verus! {

/// How a terminal emulator is started: its executable and the flags that set
/// the working directory and the command to run.
pub trait RunTerminal {
    spec fn exec_name_spec() -> Seq<char>;

    spec fn working_dir_arg_spec() -> Seq<char>;

    spec fn run_command_arg_spec() -> Seq<char>;

    fn exec_name() -> (r: &'static str)
        ensures
            r@ == Self::exec_name_spec(),
    ;

    fn working_dir_arg() -> (r: &'static str)
        ensures
            r@ == Self::working_dir_arg_spec(),
    ;

    fn run_command_arg() -> (r: &'static str)
        ensures
            r@ == Self::run_command_arg_spec(),
    ;
}

/// The Alacritty terminal emulator.
pub struct Alacritty;

impl RunTerminal for Alacritty {
    open spec fn exec_name_spec() -> Seq<char> {
        "alacritty"@
    }

    open spec fn working_dir_arg_spec() -> Seq<char> {
        "--working-directory"@
    }

    open spec fn run_command_arg_spec() -> Seq<char> {
        "-e"@
    }

    fn exec_name() -> (r: &'static str) {
        "alacritty"
    }

    fn working_dir_arg() -> (r: &'static str) {
        "--working-directory"
    }

    fn run_command_arg() -> (r: &'static str) {
        "-e"
    }
}

/// A terminal emulator's invocation convention, as a plain value.
#[derive(Debug)]
pub struct TerminalDescriptor {
    pub exec_name: String,
    pub working_dir_arg: String,
    pub run_command_arg: String,
}

/// Mathematical model of a descriptor.
pub struct DescriptorModel {
    pub exec_name: Seq<char>,
    pub working_dir_arg: Seq<char>,
    pub run_command_arg: Seq<char>,
}

impl View for TerminalDescriptor {
    type V = DescriptorModel;

    open spec fn view(&self) -> DescriptorModel {
        DescriptorModel {
            exec_name: self.exec_name@,
            working_dir_arg: self.working_dir_arg@,
            run_command_arg: self.run_command_arg@,
        }
    }
}

impl TerminalDescriptor {
    /// The descriptor of terminal `T`.
    pub fn of<T: RunTerminal>() -> (r: TerminalDescriptor)
        ensures
            r@ == (DescriptorModel {
                exec_name: T::exec_name_spec(),
                working_dir_arg: T::working_dir_arg_spec(),
                run_command_arg: T::run_command_arg_spec(),
            }),
    {
        TerminalDescriptor {
            exec_name: String::from_str(T::exec_name()),
            working_dir_arg: String::from_str(T::working_dir_arg()),
            run_command_arg: String::from_str(T::run_command_arg()),
        }
    }
}

/// One process to start: an executable and its arguments.
#[derive(Debug)]
pub struct Invocation {
    pub program: String,
    pub args: Vec<String>,
}

/// Mathematical model of an invocation.
pub struct InvocationModel {
    pub program: Seq<char>,
    pub args: Seq<Seq<char>>,
}

impl View for Invocation {
    type V = InvocationModel;

    open spec fn view(&self) -> InvocationModel {
        InvocationModel { program: self.program@, args: self.args@.map_values(|a: String| a@) }
    }
}

/// The process that runs task `t` in the terminal described by `d`:
/// `[working_dir_arg, workdir, run_command_arg] ++ command`.
pub open spec fn invocation_of(t: TaskModel, d: DescriptorModel) -> InvocationModel {
    InvocationModel {
        program: d.exec_name,
        args: seq![d.working_dir_arg, t.workdir, d.run_command_arg] + t.command,
    }
}

/// The processes that launching a project starts, in dispatch order.
pub open spec fn launch_plan(tasks: Seq<TaskModel>, d: DescriptorModel) -> Seq<InvocationModel> {
    tasks.map_values(|t: TaskModel| invocation_of(t, d))
}

impl Invocation {
    /// The invocation that runs `task` in the terminal described by `d`.
    pub fn for_task(task: &TerminalConfig, d: &TerminalDescriptor) -> (r: Invocation)
        ensures
            r@ == invocation_of(task@, d@),
    {
        let mut args: Vec<String> = Vec::new();
        args.push(d.working_dir_arg.clone());
        args.push(task.workdir.clone());
        args.push(d.run_command_arg.clone());
        let mut k: usize = 0;
        while k < task.command.len()
            invariant
                k <= task.command@.len(),
                args@.len() == 3 + k,
                args@[0]@ == d@.working_dir_arg,
                args@[1]@ == task@.workdir,
                args@[2]@ == d@.run_command_arg,
                forall|m: int| 0 <= m < k ==> #[trigger] args@[3 + m]@ == task@.command[m],
            decreases task.command@.len() - k,
        {
            args.push(task.command[k].clone());
            k += 1;
        }
        let r = Invocation { program: d.exec_name.clone(), args };
        let ghost want = invocation_of(task@, d@).args;
        assert(want.len() == r@.args.len());
        assert forall|m: int| 0 <= m < want.len() implies #[trigger] r@.args[m] == want[m] by {
            if m >= 3 {
                assert(args@[3 + (m - 3)]@ == task@.command[m - 3]);
            }
        }
        assert(r@.args =~= want);
        r
    }
}

/// The invocations that launching `project` dispatches: one per terminal task
/// in list order, then one per program task in list order.
pub fn plan_startup(project: &ProjectConfig, d: &TerminalDescriptor) -> (r: Vec<Invocation>)
    ensures
        r@.map_values(|i: Invocation| i@) =~= launch_plan(project@.tasks(), d@),
{
    let ghost tasks = project@.tasks();
    let mut r: Vec<Invocation> = Vec::new();
    let mut i: usize = 0;
    while i < project.terminals.len()
        invariant
            tasks == project@.tasks(),
            i <= project.terminals@.len(),
            r@.len() == i,
            forall|m: int| 0 <= m < i ==> #[trigger] r@[m]@ == invocation_of(tasks[m], d@),
        decreases project.terminals@.len() - i,
    {
        r.push(Invocation::for_task(&project.terminals[i], d));
        i += 1;
    }
    let n = project.terminals.len();
    let mut j: usize = 0;
    while j < project.programs.len()
        invariant
            tasks == project@.tasks(),
            n == project.terminals@.len(),
            j <= project.programs@.len(),
            r@.len() == n + j,
            forall|m: int| 0 <= m < n + j ==> #[trigger] r@[m]@ == invocation_of(tasks[m], d@),
        decreases project.programs@.len() - j,
    {
        r.push(Invocation::for_task(&project.programs[j], d));
        j += 1;
    }
    r
}

/// What came of a launch once every dispatched task was joined.
#[derive(Debug)]
pub struct StartupReport {
    /// How many tasks were dispatched and joined.
    pub dispatched: usize,
    /// Positions, in dispatch order, of the tasks whose execution context aborted.
    pub aborted: Vec<usize>,
}

/// Positions of the `false` entries of `joined`, in order.
pub open spec fn aborted_positions(joined: Seq<bool>) -> Seq<int>
    decreases joined.len(),
{
    if joined.len() == 0 {
        Seq::empty()
    } else {
        let before = aborted_positions(joined.drop_last());
        if joined.last() {
            before
        } else {
            before.push(joined.len() - 1)
        }
    }
}

/// Summarises a launch from whether each dispatched task was joined cleanly
/// (`true`) or its execution context aborted (`false`). A spawned process's
/// own exit status plays no part: the launch succeeds either way.
pub fn summarize(joined: &Vec<bool>) -> (r: WorkonResult<StartupReport>)
    ensures
        r matches Ok(rep) && rep.dispatched == joined@.len()
            && rep.aborted@.map_values(|x: usize| x as int) == aborted_positions(joined@),
{
    let mut aborted: Vec<usize> = Vec::new();
    let mut i: usize = 0;
    while i < joined.len()
        invariant
            i <= joined@.len(),
            aborted@.map_values(|x: usize| x as int) =~= aborted_positions(joined@.take(i as int)),
        decreases joined@.len() - i,
    {
        assert(joined@.take(i + 1).drop_last() =~= joined@.take(i as int));
        if !joined[i] {
            aborted.push(i);
        }
        i += 1;
    }
    assert(joined@.take(i as int) =~= joined@);
    Ok(StartupReport { dispatched: joined.len(), aborted })
}

} // verus!
