use ggrs_plot_operator::cli::{
    parse_args, parse_prepare_args, prepare_mode, scan_flags, PrepareArgs, PrepareMode,
};

fn args(v: &[&str]) -> Vec<String> {
    v.iter().map(|s| s.to_string()).collect()
}

#[test]
fn operator_command_line() {
    let a = parse_args(&args(&["op", "--taskId", "t1", "--serviceUri", "http://h", "--token", "tok"]));
    assert_eq!(a.task_id, Some("t1".to_string()));
    assert_eq!(a.service_uri, Some("http://h".to_string()));
    assert_eq!(a.token, Some("tok".to_string()));
}

#[test]
fn later_flags_win_and_dangling_flags_are_ignored() {
    let a = parse_args(&args(&["op", "--taskId", "a", "x", "--taskId", "b", "--token"]));
    assert_eq!(a.task_id, Some("b".to_string()));
    assert_eq!(a.token, None);
    assert_eq!(a.service_uri, None);
}

#[test]
fn a_flag_value_is_consumed_with_its_flag() {
    let a = parse_args(&args(&["op", "--taskId", "--token", "secret"]));
    assert_eq!(a.task_id, Some("--token".to_string()));
    assert_eq!(a.token, None);
    // The program name is never read as a flag.
    let b = parse_args(&args(&["--taskId", "t"]));
    assert_eq!(b.task_id, None);
    assert!(parse_args(&args(&[])).task_id.is_none());
}

#[test]
fn prepare_command_line() {
    let p = parse_prepare_args(&args(&["prepare", "-w", "wf", "--step-id", "st"]));
    assert_eq!((p.workflow_id.as_str(), p.step_id.as_str(), p.delete_project_id.as_str()), ("wf", "st", ""));
    assert_eq!(
        prepare_mode(p),
        PrepareMode::Prepare { workflow_id: "wf".to_string(), step_id: "st".to_string() }
    );
    let d = parse_prepare_args(&args(&["prepare", "--delete-project", "p1", "-s", "st"]));
    assert_eq!(prepare_mode(d), PrepareMode::DeleteProject("p1".to_string()));
    let u = parse_prepare_args(&args(&["prepare", "--workflow-id", "wf"]));
    assert_eq!(prepare_mode(u), PrepareMode::Usage);
    let empty = PrepareArgs {
        workflow_id: String::new(),
        step_id: String::new(),
        delete_project_id: String::new(),
    };
    assert_eq!(prepare_mode(empty), PrepareMode::Usage);
}

#[test]
fn generic_flag_scan() {
    let groups = vec![vec!["-a".to_string(), "--alpha".to_string()], vec!["-b".to_string()]];
    let vals = scan_flags(&args(&["p", "--alpha", "1", "-b", "2", "-a", "3"]), &groups);
    assert_eq!(vals, vec![Some("3".to_string()), Some("2".to_string())]);
}
