use ggrs_plot_operator::pipeline::ChartKind;
use ggrs_plot_operator::properties::OperatorSettings;
use ggrs_plot_operator::task::{
    build_axis_query, build_cube_query, chart_settings, crosstab_dimensions, env_lookup, extract_chart_info,
    extract_schema_ids, extract_task_state, find_data_step, find_parent_relation,
    next_fetch_step, query_source, set_file_result_id, set_step_task_id, step_model,
    task_context, task_query, Axis, AxisList, ChartObject, ColorList, ComputationTask, Crosstab,
    CrosstabTable, CubeQuery, DataStep, EChart, ETask, EState, EStep, Encoded, EnvPair, Factor,
    FactorList, FetchStep, FileResultError, GraphicalFactor, Link, ParentError, Port,
    QuerySource, StateObject, StepObject, TableStep, TableStepModel, TaskError, TaskKind,
    TaskObject, Workflow, XyAxis, MAX_FETCH_RETRIES,
};

fn factor(name: &str) -> Factor {
    Factor { name: name.to_string(), factor_type: "string".to_string() }
}

fn placed(name: Option<&str>) -> GraphicalFactor {
    GraphicalFactor { factor: name.map(factor) }
}

fn table(names: Vec<Option<&str>>, n_rows: i32, cell_size: i32) -> CrosstabTable {
    CrosstabTable { graphical_factors: names.into_iter().map(placed).collect(), n_rows, cell_size }
}

fn enc(b: u8) -> Encoded {
    Encoded { bytes: vec![b] }
}

#[test]
fn chart_info_by_kind() {
    let info = |o: Option<ChartObject>| extract_chart_info(&EChart { object: o });
    assert_eq!(info(Some(ChartObject::Chartpoint(7))), ("point".to_string(), 7));
    assert_eq!(info(Some(ChartObject::Chartsize(9))), ("point".to_string(), 9));
    assert_eq!(info(Some(ChartObject::Chartline(2))), ("line".to_string(), 2));
    assert_eq!(info(Some(ChartObject::Chartbar)), ("bar".to_string(), 4));
    assert_eq!(info(Some(ChartObject::Chartheatmap)), ("heatmap".to_string(), 4));
    assert_eq!(info(Some(ChartObject::Chart)), ("point".to_string(), 4));
    assert_eq!(info(None), ("point".to_string(), 4));
}

fn layer() -> XyAxis {
    XyAxis {
        chart: Some(EChart { object: Some(ChartObject::Chartline(3)) }),
        y_axis: Some(Axis { graphical_factor: Some(placed(Some("value"))), axis_settings: Some(enc(1)) }),
        x_axis: Some(Axis { graphical_factor: None, axis_settings: None }),
        colors: Some(ColorList { factors: vec![factor("Age")], palette: None }),
        labels: None,
        errors: Some(FactorList { factors: vec![factor("sd")] }),
        preprocessors: vec![enc(9)],
    }
}

#[test]
fn axis_query_of_a_layer() {
    let q = build_axis_query(layer());
    assert_eq!(q.chart_type, "line");
    assert_eq!(q.point_size, 3);
    assert_eq!(q.y_axis.unwrap().name, "value");
    assert_eq!(q.y_axis_settings.unwrap().bytes, vec![1]);
    assert!(q.x_axis.is_none());
    assert!(q.x_axis_settings.is_none());
    assert_eq!(q.colors.len(), 1);
    assert!(q.labels.is_empty());
    assert_eq!(q.errors[0].name, "sd");
    assert_eq!(q.preprocessors[0].bytes, vec![9]);
    let bare = XyAxis {
        chart: None,
        y_axis: None,
        x_axis: None,
        colors: None,
        labels: None,
        errors: None,
        preprocessors: vec![],
    };
    let q = build_axis_query(bare);
    assert_eq!((q.chart_type.as_str(), q.point_size), ("point", 4));
}

fn crosstab(task_id: &str) -> Crosstab {
    Crosstab {
        column_table: Some(table(vec![Some(""), Some("sex"), None], 2, 40)),
        row_table: Some(table(vec![Some("group")], 0, 30)),
        axis: Some(AxisList { xy_axis: vec![layer(), layer()] }),
        filters: Some(enc(5)),
        operator_settings: Some(OperatorSettings { namespace: "ns".to_string(), operator_ref: None }),
        task_id: task_id.to_string(),
    }
}

#[test]
fn cube_query_drops_placeholders_and_leaves_hashes_empty() {
    let q: CubeQuery = build_cube_query(crosstab(""), enc(3));
    assert_eq!(q.relation.unwrap().bytes, vec![3]);
    assert_eq!(q.col_columns.len(), 1);
    assert_eq!(q.col_columns[0].name, "sex");
    assert_eq!(q.row_columns[0].name, "group");
    assert_eq!(q.axis_queries.len(), 2);
    assert_eq!(q.filters.unwrap().bytes, vec![5]);
    assert_eq!(q.operator_settings.unwrap().namespace, "ns");
    assert!(q.qt_hash.is_empty() && q.column_hash.is_empty() && q.row_hash.is_empty());
}

fn data_step(id: &str, inputs: &[&str], model: Option<Crosstab>) -> EStep {
    EStep {
        object: Some(StepObject::Datastep(DataStep {
            id: id.to_string(),
            name: format!("step {}", id),
            inputs: inputs.iter().map(|p| Port { id: p.to_string() }).collect(),
            model,
        })),
    }
}

fn table_step(id: &str, outputs: &[&str], model: Option<TableStepModel>) -> EStep {
    EStep {
        object: Some(StepObject::Tablestep(TableStep {
            id: id.to_string(),
            outputs: outputs.iter().map(|p| Port { id: p.to_string() }).collect(),
            model,
        })),
    }
}

fn link(input: &str, output: &str) -> Link {
    Link { input_id: input.to_string(), output_id: output.to_string() }
}

fn workflow(steps: Vec<EStep>, links: Vec<Link>) -> Workflow {
    Workflow { name: "wf".to_string(), project_id: "proj".to_string(), steps, links }
}

fn the_data_step(wf: &Workflow, id: &str) -> DataStep {
    find_data_step(wf, id).unwrap().clone()
}

#[test]
fn parent_relation_follows_the_first_link() {
    let wf = workflow(
        vec![
            table_step("t1", &["out1"], Some(TableStepModel { relation: Some(enc(1)) })),
            table_step("t2", &["out2"], Some(TableStepModel { relation: Some(enc(2)) })),
            data_step("d", &["in"], None),
        ],
        vec![link("other", "out1"), link("in", "out2"), link("in", "out1")],
    );
    let ds = the_data_step(&wf, "d");
    assert_eq!(find_parent_relation(&wf, &ds).unwrap().bytes, vec![2]);
    assert!(find_data_step(&wf, "t1").is_none());
}

#[test]
fn parent_relation_errors() {
    let no_inputs = workflow(vec![data_step("d", &[], None)], vec![]);
    let ds = the_data_step(&no_inputs, "d");
    assert_eq!(find_parent_relation(&no_inputs, &ds).unwrap_err(), ParentError::NoInputPorts);

    let no_link = workflow(vec![data_step("d", &["in"], None)], vec![link("x", "y")]);
    let ds = the_data_step(&no_link, "d");
    assert_eq!(
        find_parent_relation(&no_link, &ds).unwrap_err(),
        ParentError::NoLink("in".to_string())
    );

    let no_parent = workflow(
        vec![data_step("d", &["in"], None), table_step("t", &["elsewhere"], None)],
        vec![link("in", "out")],
    );
    let ds = the_data_step(&no_parent, "d");
    assert_eq!(
        find_parent_relation(&no_parent, &ds).unwrap_err(),
        ParentError::NoParent("out".to_string())
    );

    let no_model = workflow(
        vec![data_step("d", &["in"], None), table_step("t", &["out"], None)],
        vec![link("in", "out")],
    );
    let ds = the_data_step(&no_model, "d");
    assert_eq!(find_parent_relation(&no_model, &ds).unwrap_err(), ParentError::NoModel);

    let no_relation = workflow(
        vec![
            data_step("d", &["in"], None),
            table_step("t", &["out"], Some(TableStepModel { relation: None })),
        ],
        vec![link("in", "out")],
    );
    let ds = the_data_step(&no_relation, "d");
    assert_eq!(find_parent_relation(&no_relation, &ds).unwrap_err(), ParentError::NoRelation);
}

fn state(s: Option<StateObject>) -> Option<EState> {
    Some(EState { object: s })
}

fn computation(query: Option<CubeQuery>, env: Vec<(&str, &str)>, st: Option<EState>) -> ComputationTask {
    ComputationTask {
        id: "task".to_string(),
        query,
        schema_ids: vec!["s1".to_string(), "s2".to_string()],
        project_id: "proj".to_string(),
        environment: env
            .into_iter()
            .map(|(k, v)| EnvPair { key: k.to_string(), value: v.to_string() })
            .collect(),
        state: st,
        file_result_id: String::new(),
    }
}

fn cube_task(st: Option<EState>) -> ETask {
    ETask { object: Some(TaskObject::Cubequerytask(computation(None, vec![], st))) }
}

#[test]
fn task_states_by_name() {
    assert_eq!(extract_task_state(&cube_task(state(Some(StateObject::Donestate)))), "DoneState");
    assert_eq!(
        extract_task_state(&cube_task(state(Some(StateObject::Failedstate("boom".to_string()))))),
        "FailedState: boom"
    );
    assert_eq!(extract_task_state(&cube_task(state(Some(StateObject::Initstate)))), "InitState");
    assert_eq!(extract_task_state(&cube_task(state(Some(StateObject::Runningstate)))), "RunningState");
    assert_eq!(extract_task_state(&cube_task(state(Some(StateObject::Other)))), "Unknown");
    assert_eq!(extract_task_state(&cube_task(state(None))), "NoState");
    assert_eq!(extract_task_state(&cube_task(None)), "NoState");
    let other = ETask { object: Some(TaskObject::Other("CSVTask".to_string())) };
    assert_eq!(extract_task_state(&other), "NotCubeQueryTask");
    assert_eq!(extract_task_state(&ETask { object: None }), "NotCubeQueryTask");
}

#[test]
fn schema_ids_of_cube_query_tasks_only() {
    assert_eq!(extract_schema_ids(&cube_task(None)), vec!["s1".to_string(), "s2".to_string()]);
    let run = ETask { object: Some(TaskObject::Runcomputationtask(computation(None, vec![], None))) };
    assert!(extract_schema_ids(&run).is_empty());
}

fn query() -> CubeQuery {
    build_cube_query(crosstab(""), enc(1))
}

#[test]
fn task_context_reads_the_environment() {
    let t = ETask {
        object: Some(TaskObject::Runcomputationtask(computation(
            Some(query()),
            vec![("workflow.id", "wf1"), ("step.id", "st1"), ("workflow.id", "wf2")],
            None,
        ))),
    };
    let ctx = task_context(t, "task", Some("env-wf".to_string()), Some("env-st".to_string())).unwrap();
    assert_eq!(ctx.workflow_id, "wf1");
    assert_eq!(ctx.step_id, "st1");
    assert_eq!(ctx.project_id, "proj");
    assert_eq!(ctx.schema_ids.len(), 2);
    assert_eq!(ctx.namespace(), "ns");
    assert!(ctx.operator_settings().is_some());
}

#[test]
fn task_context_falls_back() {
    let t = ETask { object: Some(TaskObject::Computationtask(computation(Some(query()), vec![], None))) };
    let ctx = task_context(t, "task-9", Some("env-wf".to_string()), None).unwrap();
    assert_eq!(ctx.workflow_id, "env-wf");
    assert_eq!(ctx.step_id, "task-9");
    let t = ETask { object: Some(TaskObject::Cubequerytask(computation(Some(query()), vec![], None))) };
    let ctx = task_context(t, "task-9", None, Some("env-st".to_string())).unwrap();
    assert_eq!(ctx.workflow_id, "");
    assert_eq!(ctx.step_id, "env-st");
}

#[test]
fn task_context_errors() {
    let t = ETask { object: Some(TaskObject::Runcomputationtask(computation(None, vec![], None))) };
    assert_eq!(task_context(t, "t", None, None).err(), Some(TaskError::NoQuery(TaskKind::RunComputation)));
    let t = ETask { object: Some(TaskObject::Other("GlTask".to_string())) };
    assert_eq!(task_context(t, "t", None, None).err(), Some(TaskError::UnsupportedTaskType));
    assert_eq!(
        task_context(ETask { object: None }, "t", None, None).err(),
        Some(TaskError::UnsupportedTaskType)
    );
}

#[test]
fn task_query_parts() {
    let t = ETask { object: Some(TaskObject::Cubequerytask(computation(Some(query()), vec![], None))) };
    let q = task_query(t).unwrap();
    assert_eq!(q.project_id, "proj");
    assert_eq!(q.schema_ids.len(), 2);
    let t = ETask { object: Some(TaskObject::Computationtask(computation(None, vec![], None))) };
    assert_eq!(task_query(t).err(), Some(TaskError::NoQuery(TaskKind::Computation)));
}

#[test]
fn environment_lookup_takes_the_first_entry() {
    let env = vec![
        EnvPair { key: "a".to_string(), value: "1".to_string() },
        EnvPair { key: "a".to_string(), value: "2".to_string() },
    ];
    assert_eq!(env_lookup(&env, "a"), Some("1".to_string()));
    assert_eq!(env_lookup(&env, "b"), None);
}

#[test]
fn fetch_retry_schedule() {
    assert_eq!(next_fetch_step(0, false), FetchStep::Accept);
    assert_eq!(next_fetch_step(5, false), FetchStep::Accept);
    assert_eq!(next_fetch_step(0, true), FetchStep::Retry(500));
    assert_eq!(next_fetch_step(1, true), FetchStep::Retry(1000));
    assert_eq!(next_fetch_step(2, true), FetchStep::Retry(2000));
    assert_eq!(next_fetch_step(3, true), FetchStep::GiveUp);
    assert_eq!(MAX_FETCH_RETRIES, 3);
    // Three retries wait three and a half seconds in all.
    let mut waited = 0u64;
    let mut retries = 0usize;
    while let FetchStep::Retry(ms) = next_fetch_step(retries, true) {
        waited += ms;
        retries += 1;
    }
    assert_eq!((retries, waited), (3, 3500));
}

#[test]
fn crosstab_dimensions_from_cells() {
    let mut m = crosstab("");
    m.row_table = Some(table(vec![Some("group")], 1, 30));
    // Width 40 × 2 rows; height 30 × 1 row.
    assert_eq!(crosstab_dimensions(&m), Some((80, 30)));
    // A table without rows has no extent, so the crosstab has no size.
    let mut empty = crosstab("");
    empty.column_table = Some(table(vec![], 0, 10));
    empty.row_table = Some(table(vec![], 5, 10));
    assert_eq!(crosstab_dimensions(&empty), None);
    assert_eq!(crosstab_dimensions(&crosstab("")), None);
    let mut flat = crosstab("");
    flat.column_table = Some(table(vec![], 3, 0));
    assert_eq!(crosstab_dimensions(&flat), None);
    let mut half = crosstab("");
    half.row_table = None;
    assert_eq!(crosstab_dimensions(&half), None);
}

#[test]
fn step_model_by_id() {
    let wf = workflow(
        vec![
            EStep {
                object: Some(StepObject::Crosstabstep(DataStep {
                    id: "c".to_string(),
                    name: "c".to_string(),
                    inputs: vec![],
                    model: Some(crosstab("tid")),
                })),
            },
            data_step("d", &[], None),
        ],
        vec![],
    );
    assert_eq!(step_model(&wf, "c").unwrap().task_id, "tid");
    assert!(step_model(&wf, "d").is_none());
    assert!(step_model(&wf, "x").is_none());
}

#[test]
fn task_id_is_set_on_matching_data_steps() {
    let mut wf = workflow(
        vec![
            data_step("d", &["in"], Some(crosstab("old"))),
            data_step("e", &[], Some(crosstab("keep"))),
            data_step("d", &[], None),
        ],
        vec![link("in", "out")],
    );
    assert!(set_step_task_id(&mut wf, "d", "new"));
    assert_eq!(step_model(&wf, "d").unwrap().task_id, "new");
    assert_eq!(step_model(&wf, "e").unwrap().task_id, "keep");
    assert_eq!(wf.steps.len(), 3);
    assert_eq!(wf.links.len(), 1);
    assert_eq!(query_source(&the_data_step(&wf, "d")), QuerySource::FromTask("new".to_string()));
    assert!(!set_step_task_id(&mut wf, "zzz", "new"));
}

#[test]
fn query_source_of_a_step() {
    let wf = workflow(vec![data_step("d", &[], Some(crosstab(""))), data_step("e", &[], None)], vec![]);
    assert_eq!(query_source(&the_data_step(&wf, "d")), QuerySource::FromWorkflow);
    assert_eq!(query_source(&the_data_step(&wf, "e")), QuerySource::FromWorkflow);
}

#[test]
fn file_result_is_attached_to_run_computation_tasks() {
    let mut t = ETask { object: Some(TaskObject::Runcomputationtask(computation(None, vec![], None))) };
    assert_eq!(set_file_result_id(&mut t, "schema-1"), Ok(()));
    match &t.object {
        Some(TaskObject::Runcomputationtask(c)) => {
            assert_eq!(c.file_result_id, "schema-1");
            assert_eq!(c.project_id, "proj");
        }
        _ => panic!("task kind changed"),
    }
    let mut cq = cube_task(None);
    assert_eq!(
        set_file_result_id(&mut cq, "x"),
        Err(FileResultError::NotRunComputationTask("CubeQueryTask".to_string()))
    );
    let mut other = ETask { object: Some(TaskObject::Other("CSVTask".to_string())) };
    assert_eq!(
        set_file_result_id(&mut other, "x"),
        Err(FileResultError::NotRunComputationTask("CSVTask".to_string()))
    );
    let mut empty = ETask { object: None };
    assert_eq!(set_file_result_id(&mut empty, "x"), Err(FileResultError::NoObject));
}

#[test]
fn chart_settings_from_first_layer() {
    let m = crosstab("");
    assert_eq!(chart_settings(&m), (ChartKind::Line, Some(3)));
    let mut heat = crosstab("");
    heat.axis.as_mut().unwrap().xy_axis[0].chart = Some(EChart { object: Some(ChartObject::Chartheatmap) });
    assert_eq!(chart_settings(&heat), (ChartKind::Heatmap, Some(4)));
    let mut sized = crosstab("");
    sized.axis.as_mut().unwrap().xy_axis[0].chart = Some(EChart { object: Some(ChartObject::Chartsize(7)) });
    assert_eq!(chart_settings(&sized), (ChartKind::Point, Some(7)));
    let mut bar = crosstab("");
    bar.axis.as_mut().unwrap().xy_axis[0].chart = Some(EChart { object: Some(ChartObject::Chartbar) });
    assert_eq!(chart_settings(&bar), (ChartKind::Bar, Some(4)));
    let mut none = crosstab("");
    none.axis = None;
    assert_eq!(chart_settings(&none), (ChartKind::Point, None));
}
