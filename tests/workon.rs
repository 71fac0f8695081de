use serde_yaml::{Mapping, Value};
use workon::config::{ProjectConfig, TerminalConfig, Validate, WorkonConfig};
use workon::error::{ConfigIssue, WorkonError};
use workon::terminal::{plan_startup, summarize, Alacritty, Invocation, RunTerminal, TerminalDescriptor};

fn task(workdir: &str, command: &[&str]) -> TerminalConfig {
    TerminalConfig {
        workdir: workdir.to_string(),
        command: command.iter().map(|s| s.to_string()).collect(),
    }
}

fn project(name: &str, terminals: Vec<TerminalConfig>, programs: Vec<TerminalConfig>) -> ProjectConfig {
    ProjectConfig { project_name: name.to_string(), terminals, programs }
}

fn invalid(issue: ConfigIssue) -> WorkonError {
    WorkonError::InvalidConfig(issue)
}

fn strings(v: &[&str]) -> Vec<String> {
    v.iter().map(|s| s.to_string()).collect()
}

#[test]
fn test_default_config_is_valid() {
    assert!(WorkonConfig::default().validate().is_ok())
}

#[test]
fn default_task_lists_files() {
    let t = TerminalConfig::default();
    assert_eq!(t.command, strings(&["ls", "-la"]));
    assert!(!t.workdir.is_empty());
    assert!(std::path::Path::new(&t.workdir).is_absolute());
}

#[test]
fn default_task_without_home_uses_root() {
    let t = TerminalConfig::in_home(None);
    assert_eq!(t.workdir, "/");
    let t = TerminalConfig::in_home(Some("/home/someone".to_string()));
    assert_eq!(t.workdir, "/home/someone");
    assert_eq!(t.command, strings(&["ls", "-la"]));
}

#[test]
fn default_config_shape() {
    let c = WorkonConfig::default();
    assert_eq!(c.projects.len(), 1);
    assert_eq!(c.projects[0].project_name, "example project");
    assert_eq!(c.projects[0].terminals.len(), 1);
    assert!(c.projects[0].programs.is_empty());
}

#[test]
fn empty_config_has_no_projects() {
    let c = WorkonConfig { projects: vec![] };
    assert_eq!(c.validate().unwrap_err(), invalid(ConfigIssue::NoProjects));
    assert_eq!(c.check(&vec![]).unwrap_err(), invalid(ConfigIssue::NoProjects));
}

#[test]
fn missing_workdir_is_rejected() {
    let t = task("/definitely/not/a/real/dir/anywhere", &["echo", "hi"]);
    assert_eq!(t.validate().unwrap_err(), invalid(ConfigIssue::MissingWorkdir));
    assert!(!t.workdir_present());
    let c = WorkonConfig { projects: vec![project("demo", vec![t], vec![])] };
    assert_eq!(c.validate().unwrap_err(), invalid(ConfigIssue::MissingWorkdir));
}

#[test]
fn existing_workdir_is_accepted() {
    let t = task("/tmp", &["echo", "hi"]);
    assert!(t.workdir_present());
    assert!(t.validate().is_ok());
}

#[test]
fn empty_command_is_rejected() {
    let t = task("/tmp", &[]);
    assert_eq!(t.validate().unwrap_err(), invalid(ConfigIssue::EmptyCommand));
    assert_eq!(t.issue_with(true), Some(ConfigIssue::EmptyCommand));
    assert_eq!(t.issue_with(false), Some(ConfigIssue::MissingWorkdir));
}

#[test]
fn empty_segment_is_rejected() {
    let t = task("/tmp", &["echo", "", "hi"]);
    assert_eq!(t.validate().unwrap_err(), invalid(ConfigIssue::EmptySegment));
    assert_eq!(t.issue_with(true), Some(ConfigIssue::EmptySegment));
    assert_eq!(task("/tmp", &["x"]).issue_with(true), None);
}

#[test]
fn empty_project_name_is_rejected() {
    let p = project("", vec![task("/tmp", &["ls"])], vec![]);
    assert_eq!(p.validate().unwrap_err(), invalid(ConfigIssue::EmptyProjectName));
    let p = project("", vec![task("/tmp", &[])], vec![]);
    assert_eq!(p.check(&vec![false]).unwrap_err(), invalid(ConfigIssue::EmptyProjectName));
}

#[test]
fn project_without_terminals_is_rejected() {
    let p = project("demo", vec![], vec![]);
    assert_eq!(p.validate().unwrap_err(), invalid(ConfigIssue::NoApplications));
}

#[test]
fn project_with_only_programs_needs_a_terminal() {
    let p = project("demo", vec![], vec![task("/tmp", &["htop"])]);
    assert_eq!(p.validate().unwrap_err(), invalid(ConfigIssue::NoApplications));
}

#[test]
fn program_tasks_are_validated() {
    let p = project("demo", vec![task("/tmp", &["ls"])], vec![task("/tmp", &[""])]);
    assert_eq!(p.validate().unwrap_err(), invalid(ConfigIssue::EmptySegment));
    assert_eq!(p.task_at(1).command, strings(&[""]));
}

#[test]
fn first_failing_task_decides() {
    let p = project("demo", vec![task("/tmp", &[]), task("/tmp", &[""])], vec![]);
    assert_eq!(p.check(&vec![true, false]).unwrap_err(), invalid(ConfigIssue::EmptyCommand));
    assert_eq!(p.check(&vec![false, true]).unwrap_err(), invalid(ConfigIssue::MissingWorkdir));
}

#[test]
fn first_failing_project_decides() {
    let c = WorkonConfig {
        projects: vec![
            project("a", vec![task("/tmp", &["ls"])], vec![]),
            project("", vec![task("/tmp", &["ls"])], vec![]),
            project("c", vec![], vec![]),
        ],
    };
    assert_eq!(
        c.check(&vec![vec![true], vec![true], vec![]]).unwrap_err(),
        invalid(ConfigIssue::EmptyProjectName)
    );
    let ok = WorkonConfig { projects: vec![project("a", vec![task("/tmp", &["ls"])], vec![])] };
    assert!(ok.check(&vec![vec![true]]).is_ok());
    assert_eq!(ok.check(&vec![vec![false]]).unwrap_err(), invalid(ConfigIssue::MissingWorkdir));
}

#[test]
fn reasons_are_spelled_out() {
    assert_eq!(ConfigIssue::MissingWorkdir.reason(), "project directory no longer exists");
    assert_eq!(ConfigIssue::EmptyCommand.reason(), "startup command needs to be specified");
    assert_eq!(ConfigIssue::EmptySegment.reason(), "malformed command, a segment cannot be empty");
    assert_eq!(ConfigIssue::EmptyProjectName.reason(), "project name cannot be empty");
    assert_eq!(ConfigIssue::NoApplications.reason(), "project must contain at least one application");
    assert_eq!(ConfigIssue::NoProjects.reason(), "no projects in config");
}

#[test]
fn alacritty_descriptor() {
    assert_eq!(Alacritty::exec_name(), "alacritty");
    assert_eq!(Alacritty::working_dir_arg(), "--working-directory");
    assert_eq!(Alacritty::run_command_arg(), "-e");
    let d = TerminalDescriptor::of::<Alacritty>();
    assert_eq!(d.exec_name, "alacritty");
    assert_eq!(d.working_dir_arg, "--working-directory");
    assert_eq!(d.run_command_arg, "-e");
}

#[test]
fn demo_project_dispatches_one_process() {
    let c = WorkonConfig { projects: vec![project("demo", vec![task("/tmp", &["echo", "hi"])], vec![])] };
    assert!(c.validate().is_ok());
    let p = c.find_project(&"demo".to_string()).unwrap();
    let d = TerminalDescriptor::of::<Alacritty>();
    let plan = plan_startup(p, &d);
    assert_eq!(plan.len(), 1);
    assert_eq!(plan[0].program, "alacritty");
    assert_eq!(plan[0].args, strings(&["--working-directory", "/tmp", "-e", "echo", "hi"]));
    let report = summarize(&vec![true]).unwrap();
    assert_eq!(report.dispatched, 1);
    assert!(report.aborted.is_empty());
}

#[test]
fn unknown_project_name_is_rejected() {
    let c = WorkonConfig { projects: vec![project("demo", vec![task("/tmp", &["ls"])], vec![])] };
    assert_eq!(c.find_project(&"other".to_string()).unwrap_err(), WorkonError::InvalidProjectNameError);
}

#[test]
fn first_project_with_name_wins() {
    let c = WorkonConfig {
        projects: vec![
            project("x", vec![task("/a", &["one"])], vec![]),
            project("demo", vec![task("/b", &["two"])], vec![]),
            project("demo", vec![task("/c", &["three"])], vec![]),
        ],
    };
    let p = c.find_project(&"demo".to_string()).unwrap();
    assert_eq!(p.terminals[0].workdir, "/b");
}

#[test]
fn terminals_dispatch_before_programs() {
    let p = project(
        "mix",
        vec![task("/t1", &["a"]), task("/t2", &["b", "c"])],
        vec![task("/p1", &["d"])],
    );
    let d = TerminalDescriptor {
        exec_name: "term".to_string(),
        working_dir_arg: "-d".to_string(),
        run_command_arg: "-x".to_string(),
    };
    let plan = plan_startup(&p, &d);
    assert_eq!(plan.len(), 3);
    let workdirs: Vec<&str> = plan.iter().map(|i| i.args[1].as_str()).collect();
    assert_eq!(workdirs, vec!["/t1", "/t2", "/p1"]);
    assert_eq!(plan[1].args, strings(&["-d", "/t2", "-x", "b", "c"]));
    assert!(plan.iter().all(|i| i.program == "term"));
    let again = plan_startup(&p, &d);
    assert_eq!(again.len(), plan.len());
}

#[test]
fn invocation_for_one_task() {
    let d = TerminalDescriptor::of::<Alacritty>();
    let i = Invocation::for_task(&task("/srv", &["make", "run"]), &d);
    assert_eq!(i.program, "alacritty");
    assert_eq!(i.args, strings(&["--working-directory", "/srv", "-e", "make", "run"]));
}

#[test]
fn launch_succeeds_despite_aborted_tasks() {
    let first = summarize(&vec![true, false, true, false]).unwrap();
    assert_eq!(first.dispatched, 4);
    assert_eq!(first.aborted, vec![1, 3]);
    let second = summarize(&vec![false, false, true, true]).unwrap();
    assert_eq!(second.dispatched, first.dispatched);
    assert_eq!(second.aborted, vec![0, 1]);
    assert_eq!(summarize(&vec![]).unwrap().dispatched, 0);
}

#[test]
fn usage_hint_lists_projects() {
    let c = WorkonConfig {
        projects: vec![
            project("alpha", vec![task("/tmp", &["ls"])], vec![]),
            project("beta", vec![task("/tmp", &["ls"])], vec![]),
        ],
    };
    assert_eq!(c.usage_hint(), "workon alpha\nworkon beta");
    assert_eq!(WorkonConfig { projects: vec![] }.usage_hint(), "");
}

fn yaml_key(k: &str) -> Value {
    Value::String(k.to_string())
}

fn task_to_yaml(t: &TerminalConfig) -> Value {
    let mut m = Mapping::new();
    m.insert(yaml_key("workdir"), Value::String(t.workdir.clone()));
    m.insert(
        yaml_key("command"),
        Value::Sequence(t.command.iter().map(|c| Value::String(c.clone())).collect()),
    );
    Value::Mapping(m)
}

fn config_to_yaml(c: &WorkonConfig) -> Value {
    let projects = c
        .projects
        .iter()
        .map(|p| {
            let mut m = Mapping::new();
            m.insert(yaml_key("project_name"), Value::String(p.project_name.clone()));
            m.insert(yaml_key("terminals"), Value::Sequence(p.terminals.iter().map(task_to_yaml).collect()));
            m.insert(yaml_key("programs"), Value::Sequence(p.programs.iter().map(task_to_yaml).collect()));
            Value::Mapping(m)
        })
        .collect();
    let mut m = Mapping::new();
    m.insert(yaml_key("projects"), Value::Sequence(projects));
    Value::Mapping(m)
}

fn task_from_yaml(v: &Value) -> TerminalConfig {
    TerminalConfig {
        workdir: v.get("workdir").unwrap().as_str().unwrap().to_string(),
        command: v
            .get("command")
            .unwrap()
            .as_sequence()
            .unwrap()
            .iter()
            .map(|c| c.as_str().unwrap().to_string())
            .collect(),
    }
}

fn config_from_yaml(v: &Value) -> WorkonConfig {
    let tasks = |p: &Value, k: &str| -> Vec<TerminalConfig> {
        p.get(k).unwrap().as_sequence().unwrap().iter().map(task_from_yaml).collect()
    };
    WorkonConfig {
        projects: v
            .get("projects")
            .unwrap()
            .as_sequence()
            .unwrap()
            .iter()
            .map(|p| ProjectConfig {
                project_name: p.get("project_name").unwrap().as_str().unwrap().to_string(),
                terminals: tasks(p, "terminals"),
                programs: tasks(p, "programs"),
            })
            .collect(),
    }
}

#[test]
fn default_config_round_trips_through_yaml() {
    let original = WorkonConfig::default();
    let text = serde_yaml::to_string(&config_to_yaml(&original)).unwrap();
    let reloaded = config_from_yaml(&serde_yaml::from_str::<Value>(&text).unwrap());
    assert!(reloaded.validate().is_ok());
    assert!(std::ptr::eq(reloaded.validate().unwrap(), &reloaded));
    assert_eq!(reloaded.projects.len(), 1);
    assert_eq!(reloaded.projects[0].project_name, original.projects[0].project_name);
    assert_eq!(reloaded.projects[0].terminals[0].workdir, original.projects[0].terminals[0].workdir);
    assert_eq!(reloaded.projects[0].terminals[0].command, original.projects[0].terminals[0].command);
}

fn passes<V: Validate>(v: &V) -> bool {
    Validate::validate(v).is_ok()
}

#[test]
fn validate_trait_checks_each_level() {
    assert!(passes(&task("/tmp", &["ls"])));
    assert!(!passes(&task("/tmp", &[])));
    assert!(!passes(&project("demo", vec![], vec![])));
    assert!(!passes(&WorkonConfig { projects: vec![] }));
    assert!(passes(&WorkonConfig { projects: vec![project("demo", vec![task("/tmp", &["ls"])], vec![])] }));
}
