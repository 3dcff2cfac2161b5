//! Error rendering and the application list.

use zustdpipe::apps::AppDefinition;
use zustdpipe::apps::AppDefinitionGeneral;
use zustdpipe::apps::AppList;
use zustdpipe::errors::AppDefinitionError;
use zustdpipe::errors::GeneralError;
use zustdpipe::errors::JobRunError;
use zustdpipe::errors::JobValidationError;
use zustdpipe::errors::LibraryDefinitionError;
use zustdpipe::errors::LibraryInstanceError;
use zustdpipe::errors::ModuleDefinitionError;
use zustdpipe::jobs::JobDefinition;
use zustdpipe::jobs::JobTriggerType;
use zustdpipe::modules::ModulesDefinition;
use zustdpipe::pipeline::PipelineTable;

#[test]
fn app_definition_error_renders_the_parser_message() {
    let err = AppDefinitionError::Yaml(GeneralError::ErrorMessage(
        "missing field `general`".to_string(),
    ));
    assert_eq!(
        err.as_str(),
        "Invalid App definition. Error in Yaml file: missing field `general`"
    );
}

#[test]
fn nested_errors_keep_the_inner_message() {
    let leaf = GeneralError::ErrorMessage("the cause".to_string());
    let lib = LibraryDefinitionError::ModuleSpecificError(leaf.clone());
    assert_eq!(lib.message(), "the cause");
    let md = ModuleDefinitionError::ModuleCannotBeInstantiated(lib);
    assert_eq!(md.message(), "the cause");
    let run = JobRunError::JobModuleDefinitionError(md);
    assert_eq!(run.message(), "the cause");
    let inst = LibraryInstanceError::InstantiationError(leaf.clone());
    assert_eq!(
        JobRunError::JobModuleInstantiationError(inst).message(),
        "the cause"
    );
    let val = JobValidationError::PipelineForJobNotFound(leaf);
    assert_eq!(JobRunError::JobValidationError(val).message(), "the cause");
}

fn minimal_app(name: &str) -> AppDefinition {
    AppDefinition {
        general: AppDefinitionGeneral {
            name: name.to_string(),
            app_definition_version: 0,
        },
        modules: ModulesDefinition { wasm: None },
        jobs: Vec::new(),
        pipelines: PipelineTable::new(),
    }
}

#[test]
fn app_list_stores_and_returns_definitions() {
    let mut apps = AppList::new();
    assert_eq!(apps.len(), 0);
    apps.add(minimal_app("ZuStdPipe Example App"));
    apps.add(minimal_app("Second App"));
    assert_eq!(apps.len(), 2);
    assert_eq!(apps.get(0).general.name, "ZuStdPipe Example App");
    assert_eq!(apps.get(0).general.app_definition_version, 0);
    assert_eq!(apps.get(1).general.name, "Second App");
    let removed = apps.remove(0);
    assert_eq!(removed.general.name, "ZuStdPipe Example App");
    assert_eq!(apps.len(), 1);
    // the last entry took the removed slot
    assert_eq!(apps.get(0).general.name, "Second App");
}

#[test]
fn find_job_returns_the_declared_job() {
    let mut app = minimal_app("app");
    app.jobs.push((
        "job1".to_string(),
        JobDefinition {
            pipeline: "p1".to_string(),
            threads: 2,
            trigger: JobTriggerType::Manual,
        },
    ));
    let job = app.find_job(&"job1".to_string()).expect("job1 is declared");
    assert_eq!(job.pipeline, "p1");
    assert_eq!(job.threads, 2);
    assert!(app.find_job(&"job2".to_string()).is_none());
}
