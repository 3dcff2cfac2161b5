//! Pipeline declaration, job validation and the job runner's errors.

use zustdpipe::errors::JobRunError;
use zustdpipe::errors::JobValidationError;
use zustdpipe::errors::ModuleDefinitionError;
use zustdpipe::jobs::validate_job;
use zustdpipe::jobs::JobDefinition;
use zustdpipe::jobs::JobList;
use zustdpipe::jobs::JobTriggerType;
use zustdpipe::modules::check_paths;
use zustdpipe::modules::resolve_module;
use zustdpipe::modules::ModuleManagerList;
use zustdpipe::modules::ModuleType;
use zustdpipe::modules::ModulesDefinition;
use zustdpipe::modules::WasmModulesDefinition;
use zustdpipe::pipeline::PipelineDefinition;
use zustdpipe::pipeline::PipelineTable;
use zustdpipe::pipeline::ProcessDefinition;
use zustdpipe::pipeline::ProcessModuleRequirements;

fn one_stage_pipeline(module_name: &str) -> PipelineDefinition {
    PipelineDefinition {
        process: vec![
            vec![
                (
                    "stage1".to_string(),
                    ProcessDefinition {
                        module: ProcessModuleRequirements {
                            name: module_name.to_string(),
                            module_type: ModuleType::Wasm,
                        },
                        parameters: vec![("key1".to_string(), "val1".to_string())],
                    },
                ),
            ],
        ],
    }
}

#[test]
fn pipeline_table_declares_and_finds_by_name() {
    let mut table = PipelineTable::new();
    assert_eq!(table.len(), 0);
    assert!(table.insert(&"p1".to_string(), one_stage_pipeline("a.wasm")));
    assert!(table.insert(&"p2".to_string(), one_stage_pipeline("b.wasm")));
    // a second declaration under the same name is refused
    assert!(!table.insert(&"p1".to_string(), one_stage_pipeline("c.wasm")));
    assert_eq!(table.len(), 2);
    assert!(table.contains(&"p1".to_string()));
    assert!(!table.contains(&"p3".to_string()));
    let p1 = table.get(&"p1".to_string()).expect("p1 is declared");
    assert_eq!(p1.process[0][0].1.module.name, "a.wasm");
    assert!(table.get(&"p3".to_string()).is_none());
}

#[test]
fn validate_job_reports_a_missing_pipeline() {
    let mut table = PipelineTable::new();
    table.insert(&"p1".to_string(), one_stage_pipeline("a.wasm"));
    let job = JobDefinition {
        pipeline: "nope".to_string(),
        threads: 1,
        trigger: JobTriggerType::Manual,
    };
    let err = match validate_job(&table, &job) {
        Err(e) => e,
        Ok(_) => panic!("expected a validation error"),
    };
    let JobValidationError::PipelineForJobNotFound(e) = err;
    assert_eq!(e.message(), "Could not find pipeline nope for job");
    let ok_job = JobDefinition {
        pipeline: "p1".to_string(),
        threads: 1,
        trigger: JobTriggerType::Manual,
    };
    assert!(validate_job(&table, &ok_job).is_ok());
}

#[test]
fn resolve_module_takes_the_first_search_path() {
    let paths: Vec<String> = vec!["A".to_string(), "B".to_string()];
    // the module exists under both paths: the earlier one wins
    let r = resolve_module(&paths, &vec![true, true], &"m".to_string());
    assert_eq!(r.unwrap(), "A/m");
    // only the later path holds it
    let r = resolve_module(&paths, &vec![false, true], &"m".to_string());
    assert_eq!(r.unwrap(), "B/m");
    // no path holds it
    let err = resolve_module(&paths, &vec![false, false], &"m".to_string()).unwrap_err();
    assert!(matches!(err, ModuleDefinitionError::ModuleNotFound(_)));
    assert_eq!(err.message(), "Could not find module \"m\" in module paths");
}

#[test]
fn check_paths_reports_the_first_missing_path() {
    let paths: Vec<String> = vec!["A".to_string(), "B".to_string(), "C".to_string()];
    let ok = check_paths(&paths, &vec![true, true, true]).unwrap();
    assert_eq!(ok, paths);
    let err = check_paths(&paths, &vec![true, false, false]).unwrap_err();
    assert!(matches!(err, ModuleDefinitionError::ModulePathInvalid(_)));
    assert_eq!(err.message(), "Module path \"B\" does not exist");
}

#[test]
fn run_job_succeeds_on_a_pipeline_with_no_stages() {
    let md = ModulesDefinition {
        wasm: Some(WasmModulesDefinition { module_path_base: vec![".".to_string()] }),
    };
    let mut jobs = JobList::new(&md).expect("the current directory exists");
    let mut table = PipelineTable::new();
    table.insert(&"empty".to_string(), PipelineDefinition { process: Vec::new() });
    let job = JobDefinition {
        pipeline: "empty".to_string(),
        threads: 1,
        trigger: JobTriggerType::Manual,
    };
    let job_id = jobs.run_job(&table, &job).expect("a pipeline with no stages runs");
    assert_eq!(job_id.len(), 36);
}

#[test]
fn module_manager_requires_a_modules_section() {
    let md = ModulesDefinition { wasm: None };
    let err = match ModuleManagerList::new(&md) {
        Err(e) => e,
        Ok(_) => panic!("expected a configuration error"),
    };
    assert!(matches!(err, ModuleDefinitionError::ModulePathInvalid(_)));
    assert_eq!(err.message(), "No path to modules given");
}

#[test]
fn module_manager_rejects_a_missing_search_path() {
    let md = ModulesDefinition {
        wasm: Some(
            WasmModulesDefinition {
                module_path_base: vec!["/zustdpipe-no-such-dir-for-tests".to_string()],
            },
        ),
    };
    let err = match ModuleManagerList::new(&md) {
        Err(e) => e,
        Ok(_) => panic!("expected a configuration error"),
    };
    assert_eq!(err.message(), "Module path \"/zustdpipe-no-such-dir-for-tests\" does not exist");
}

#[test]
fn run_job_fails_validation_for_an_undeclared_pipeline() {
    let md = ModulesDefinition {
        wasm: Some(WasmModulesDefinition { module_path_base: vec![".".to_string()] }),
    };
    let mut jobs = JobList::new(&md).expect("the current directory exists");
    let table = PipelineTable::new();
    let job = JobDefinition {
        pipeline: "nope".to_string(),
        threads: 1,
        trigger: JobTriggerType::Manual,
    };
    let err = jobs.run_job(&table, &job).expect_err("no pipeline declared");
    match err {
        JobRunError::JobValidationError(JobValidationError::PipelineForJobNotFound(e)) => {
            assert_eq!(e.message(), "Could not find pipeline nope for job");
        },
        other => panic!("expected a validation error, got {:?}", other),
    }
}

#[test]
fn run_job_reports_a_module_that_no_search_path_holds() {
    let md = ModulesDefinition {
        wasm: Some(WasmModulesDefinition { module_path_base: vec![".".to_string()] }),
    };
    let mut jobs = JobList::new(&md).expect("the current directory exists");
    let mut table = PipelineTable::new();
    table.insert(&"p1".to_string(), one_stage_pipeline("absent.wasm"));
    let job = JobDefinition {
        pipeline: "p1".to_string(),
        threads: 1,
        trigger: JobTriggerType::Manual,
    };
    let err = jobs.run_job(&table, &job).expect_err("module file is absent");
    match err {
        JobRunError::JobModuleDefinitionError(ModuleDefinitionError::ModuleNotFound(e)) => {
            assert_eq!(e.message(), "Could not find module \"absent.wasm\" in module paths");
        },
        other => panic!("expected a resolution error, got {:?}", other),
    }
}
