//! Jobs: validation and execution of a pipeline run.
//!
//! A job names a pipeline.  Running it walks the pipeline's stages in
//! order; each process receives the parameters of its definition as
//! Arrow IPC metadata and, as its data payload, the exact bytes the
//! preceding process returned (empty bytes for the first), and its
//! result becomes the payload of the next.

use crate::errors::GeneralError;
use crate::errors::JobRunError;
use crate::errors::JobValidationError;
use crate::errors::ModuleDefinitionError;
use crate::modules::ModuleManagerList;
use crate::modules::ModulesDefinition;
use crate::pipeline::PipelineDefinition;
use crate::pipeline::PipelineTable;
use crate::pipeline::ProcessDefinition;
use arrow::array::ArrayRef;
use arrow::array::MapArray;
use arrow::array::StringArray;
use arrow::ipc::writer::StreamWriter;
use arrow::record_batch::RecordBatch;
use std::sync::Arc;
use vstd::prelude::*;
use vstd::string::StrSliceExecFns;
use vstd::string::StringExecFns;

verus! {

/// How a job is started.
pub enum JobTriggerType {
    Manual,
}

/// Definition of a single job: the pipeline it runs, an advisory thread
/// count (unused at runtime) and its trigger.
pub struct JobDefinition {
    pub pipeline: String,
    pub threads: u32,
    pub trigger: JobTriggerType,
}

/// Properties of a running job.
pub struct Job {
    pub name: String,
    pub pipeline_definition: PipelineDefinition,
}

/// The job manager: the recorded jobs (keyed by instance id) and the
/// module managers that serve them.
pub struct JobList {
    pub map: Vec<(String, Job)>,
    module_manager_list: ModuleManagerList,
}

/// The message of the error raised when a job names an undeclared
/// pipeline.
pub open spec fn spec_pipeline_not_found_message(name: Seq<char>) -> Seq<char> {
    "Could not find pipeline "@ + name + " for job"@
}

/// Check that a job can run: its pipeline must be declared.  On success
/// the declared pipeline is handed back; otherwise the error names the
/// missing pipeline.
pub fn validate_job<'a>(
    pipeline_definitions: &'a PipelineTable,
    job_definition: &JobDefinition,
) -> (r: Result<&'a PipelineDefinition, JobValidationError>)
    requires
        pipeline_definitions.wf(),
    ensures
        r is Ok <==> pipeline_definitions@.dom().contains(job_definition.pipeline@),
        r is Ok ==> *r->Ok_0 == pipeline_definitions@[job_definition.pipeline@],
        r is Err ==> (r->Err_0 matches JobValidationError::PipelineForJobNotFound(e)
            && e.spec_message() == spec_pipeline_not_found_message(job_definition.pipeline@)),
{
    match pipeline_definitions.get(&job_definition.pipeline) {
        Some(pipeline_definition) => Ok(pipeline_definition),
        None => {
            let mut msg: String = "Could not find pipeline ".to_owned();
            msg.append(job_definition.pipeline.as_str());
            msg.append(" for job");
            Err(JobValidationError::PipelineForJobNotFound(GeneralError::ErrorMessage(msg)))
        },
    }
}

/// Relies on uuid::Uuid::new_v4 and its string rendering: a fresh
/// random version-4 UUID in the 36-character hyphenated form.  The
/// value is random, so nothing but its length is promised.
#[verifier::external_body]
fn new_job_id() -> (r: String)
    ensures
        r@.len() == 36,
{
    uuid::Uuid::new_v4().to_string()
}

/// The outcome of encoding a parameters map as one Arrow IPC batch
/// with a single `parameters` column over the given keys and values:
/// the stream's bytes, or the encoder's message.  The outcome is a
/// function of the keys and values alone.
pub uninterp spec fn params_ipc(keys: Seq<Seq<char>>, vals: Seq<Seq<char>>) -> Result<
    Seq<u8>,
    Seq<char>,
>;

/// An upper bound on the cumulative UTF-8 byte length of the strings
/// in `ss`: every char encodes to at most four bytes.
pub open spec fn spec_utf8_bound(ss: Seq<Seq<char>>) -> int
    decreases ss.len(),
{
    if ss.len() == 0 {
        0
    } else {
        spec_utf8_bound(ss.drop_last()) + 4 * ss.last().len()
    }
}

/// A prefix never bounds more than the whole sequence.
proof fn lemma_utf8_bound_prefix(ss: Seq<Seq<char>>, i: int)
    requires
        0 <= i <= ss.len(),
    ensures
        spec_utf8_bound(ss.subrange(0, i)) <= spec_utf8_bound(ss),
    decreases ss.len() - i,
{
    if i == ss.len() {
        assert(ss.subrange(0, i) =~= ss);
    } else {
        lemma_utf8_bound_prefix(ss, i + 1);
        assert(ss.subrange(0, i + 1).drop_last() =~= ss.subrange(0, i));
        assert(ss.subrange(0, i + 1).last() == ss[i]);
        assert(ss[i].len() >= 0);
    }
}

/// Relies on arrow's MapArray, RecordBatch and ipc StreamWriter: build
/// the `parameters` map column from the key and value strings (in
/// order) and serialize the one-batch stream.  The arrow string
/// builders keep cumulative byte offsets in `i32` and abort when they
/// overflow, so the inputs must stay under that bound; four bytes per
/// char over-approximates any UTF-8 encoding, and the entry count
/// feeds the map's own `i32` offsets.
#[verifier::external_body]
fn encode_parameters_ipc(keys: &Vec<String>, vals: &Vec<String>) -> (r: Result<Vec<u8>, String>)
    requires
        keys@.len() == vals@.len(),
        keys@.len() <= i32::MAX,
        spec_utf8_bound(keys.deep_view()) <= i32::MAX,
        spec_utf8_bound(vals.deep_view()) <= i32::MAX,
    ensures
        r is Ok <==> params_ipc(keys.deep_view(), vals.deep_view()) is Ok,
        r is Ok ==> r->Ok_0@ == params_ipc(keys.deep_view(), vals.deep_view())->Ok_0,
        r is Err ==> r->Err_0@ == params_ipc(keys.deep_view(), vals.deep_view())->Err_0,
{
    let values = StringArray::from_iter_values(vals.iter());
    let offsets: [u32; 2] = [0, keys.len() as u32];
    let entries = keys.iter().map(|k| k.as_str());
    let map = MapArray::new_from_strings(entries, &values, &offsets).map_err(|e| e.to_string())?;
    let column = Arc::new(map) as ArrayRef;
    let batch = RecordBatch::try_from_iter(vec![("parameters", column)]).map_err(|e| e.to_string())?;
    let mut writer = StreamWriter::try_new(Vec::new(), &batch.schema()).map_err(|e| e.to_string())?;
    writer.write(&batch).map_err(|e| e.to_string())?;
    writer.into_inner().map_err(|e| e.to_string())
}

/// The message of the error raised when the parameters of a process
/// cannot be serialized.
pub open spec fn spec_params_error_message(cause: Seq<char>) -> Seq<char> {
    "Cannot serialize process parameters: "@ + cause
}

/// The message of the error raised when the parameters do not fit the
/// encoder's offset space.
pub open spec fn spec_params_too_large_message() -> Seq<char> {
    "Process parameters are too large to serialize"@
}

/// The parameter keys of a process, in order.
pub open spec fn spec_param_keys(pd: ProcessDefinition) -> Seq<Seq<char>> {
    pd.parameters@.map_values(|p: (String, String)| p.0@)
}

/// The parameter values of a process, in order.
pub open spec fn spec_param_values(pd: ProcessDefinition) -> Seq<Seq<char>> {
    pd.parameters@.map_values(|p: (String, String)| p.1@)
}

/// Whether a process's parameters stay inside the encoder's `i32`
/// offset space: the entry count, the byte bound of the keys and the
/// byte bound of the values each fit.
pub open spec fn spec_params_fit(pd: ProcessDefinition) -> bool {
    &&& pd.parameters@.len() <= i32::MAX
    &&& spec_utf8_bound(spec_param_keys(pd)) <= i32::MAX
    &&& spec_utf8_bound(spec_param_values(pd)) <= i32::MAX
}

/// Serialize the parameters of a process as the Arrow IPC metadata
/// batch the process receives: the `parameters` map column over the
/// process's ordered key/value pairs.  A parameter set that does not
/// fit the encoder's offset space is refused with the library's own
/// error, and only such a set is; within the bound, success is exactly
/// the encoder's success on those pairs and a failure carries the
/// encoder's message.
pub fn metadata_to_arrow(process_definition: &ProcessDefinition) -> (r: Result<
    Vec<u8>,
    GeneralError,
>)
    ensures
        spec_params_fit(*process_definition) ==> (r is Ok <==> params_ipc(
            spec_param_keys(*process_definition),
            spec_param_values(*process_definition),
        ) is Ok),
        r is Ok ==> r->Ok_0@ == params_ipc(
            spec_param_keys(*process_definition),
            spec_param_values(*process_definition),
        )->Ok_0,
        spec_params_fit(*process_definition) && r is Err ==> r->Err_0.spec_message()
            == spec_params_error_message(
            params_ipc(
                spec_param_keys(*process_definition),
                spec_param_values(*process_definition),
            )->Err_0,
        ),
        !spec_params_fit(*process_definition) <==> (r is Err && r->Err_0.spec_message()
            == spec_params_too_large_message()),
{
    proof {
        reveal_strlit("Process parameters are too large to serialize");
        reveal_strlit("Cannot serialize process parameters: ");
        assert("Cannot serialize process parameters: "@.len() == 37);
        assert forall|cause: Seq<char>|
            spec_params_error_message(cause) != spec_params_too_large_message() by {
            assert(spec_params_error_message(cause)[0]
                == "Cannot serialize process parameters: "@[0]);
            assert("Cannot serialize process parameters: "@[0] == 'C');
            assert(spec_params_too_large_message()[0] == 'P');
        }
    }
    let n: usize = process_definition.parameters.len();
    if n > i32::MAX as usize {
        return Err(
            GeneralError::ErrorMessage("Process parameters are too large to serialize".to_owned()),
        );
    }
    let mut keys: Vec<String> = Vec::new();
    let mut vals: Vec<String> = Vec::new();
    let mut key_bound: u64 = 0;
    let mut val_bound: u64 = 0;
    let mut i: usize = 0;
    while i < n
        invariant
            n == process_definition.parameters@.len(),
            n <= i32::MAX,
            i <= n,
            keys@.len() == i,
            vals@.len() == i,
            forall|j: int|
                0 <= j < i ==> #[trigger] keys@[j]@ == process_definition.parameters@[j].0@,
            forall|j: int|
                0 <= j < i ==> #[trigger] vals@[j]@ == process_definition.parameters@[j].1@,
            key_bound as int == spec_utf8_bound(
                spec_param_keys(*process_definition).subrange(0, i as int),
            ),
            val_bound as int == spec_utf8_bound(
                spec_param_values(*process_definition).subrange(0, i as int),
            ),
            key_bound <= i32::MAX as u64,
            val_bound <= i32::MAX as u64,
        decreases n - i,
    {
        let entry: &(String, String) = &process_definition.parameters[i];
        let kl: usize = entry.0.as_str().unicode_len();
        let vl: usize = entry.1.as_str().unicode_len();
        proof {
            let ks = spec_param_keys(*process_definition);
            let vs = spec_param_values(*process_definition);
            assert(ks.subrange(0, i + 1).drop_last() =~= ks.subrange(0, i as int));
            assert(ks.subrange(0, i + 1).last() == process_definition.parameters@[i as int].0@);
            assert(vs.subrange(0, i + 1).drop_last() =~= vs.subrange(0, i as int));
            assert(vs.subrange(0, i + 1).last() == process_definition.parameters@[i as int].1@);
        }
        if key_bound as u128 + 4u128 * (kl as u128) > i32::MAX as u128 || val_bound as u128
            + 4u128 * (vl as u128) > i32::MAX as u128 {
            proof {
                lemma_utf8_bound_prefix(spec_param_keys(*process_definition), i + 1);
                lemma_utf8_bound_prefix(spec_param_values(*process_definition), i + 1);
            }
            return Err(
                GeneralError::ErrorMessage(
                    "Process parameters are too large to serialize".to_owned(),
                ),
            );
        }
        key_bound = key_bound + 4 * (kl as u64);
        val_bound = val_bound + 4 * (vl as u64);
        keys.push(entry.0.clone());
        vals.push(entry.1.clone());
        i = i + 1;
    }
    proof {
        assert(spec_param_keys(*process_definition).subrange(0, n as int) =~= spec_param_keys(
            *process_definition,
        ));
        assert(spec_param_values(*process_definition).subrange(0, n as int) =~= spec_param_values(
            *process_definition,
        ));
        assert(keys.deep_view() =~= spec_param_keys(*process_definition));
        assert(vals.deep_view() =~= spec_param_values(*process_definition));
    }
    assert(spec_params_fit(*process_definition));
    match encode_parameters_ipc(&keys, &vals) {
        Ok(bytes) => Ok(bytes),
        Err(msg) => {
            let mut full: String = "Cannot serialize process parameters: ".to_owned();
            full.append(msg.as_str());
            proof {
                assert(full@ == spec_params_error_message(msg@));
                assert(full@ != spec_params_too_large_message());
            }
            Err(GeneralError::ErrorMessage(full))
        },
    }
}

impl JobList {
    /// Whether the Wasm backend is configured in the manager.
    pub closed spec fn spec_has_wasm(&self) -> bool {
        self.module_manager_list.spec_has_wasm()
    }

    /// How many jobs are recorded.
    pub closed spec fn spec_job_count(&self) -> nat {
        self.map@.len()
    }

    /// Build a job manager over the module configuration.  The module
    /// manager's validation applies unchanged: a missing modules
    /// section is a configuration error, and a declared search path the
    /// filesystem does not know comes back as the module manager's own
    /// path-invalid error naming that path.
    pub fn new(modules_definition: &ModulesDefinition) -> (r: Result<
        JobList,
        ModuleDefinitionError,
    >)
        ensures
            modules_definition.wasm is None ==> (r is Err
                && (r->Err_0 matches ModuleDefinitionError::ModulePathInvalid(e)
                && e.spec_message() == crate::modules::spec_no_paths_message())),
            r is Err ==> r->Err_0 matches ModuleDefinitionError::ModulePathInvalid(_),
            modules_definition.wasm is Some && r is Err ==> exists|i: int|
                0 <= i < modules_definition.wasm->Some_0.module_path_base@.len()
                    && r->Err_0->ModulePathInvalid_0.spec_message()
                    == crate::modules::spec_module_path_invalid_message(
                    #[trigger] modules_definition.wasm->Some_0.module_path_base@[i]@,
                ),
            r is Ok ==> r->Ok_0.spec_job_count() == 0,
            r is Ok ==> r->Ok_0.spec_has_wasm() == modules_definition.wasm is Some,
    {
        let module_manager_list = match ModuleManagerList::new(modules_definition) {
            Ok(module_manager_list) => module_manager_list,
            Err(module_definition_error) => {
                return Err(module_definition_error);
            },
        };
        Ok(JobList { map: Vec::new(), module_manager_list })
    }

    /// Run a job: validate it, assign it a fresh id, and execute the
    /// stages of its pipeline in order.  Each process receives the
    /// serialized parameters of its definition as metadata and the
    /// previous process's result (empty bytes at the start) as its
    /// payload.  The first failing process aborts the run, and the
    /// error tells which step failed: a job whose pipeline is not
    /// declared fails validation (and only such a job does), module
    /// resolution errors come back wrapped as module-definition errors
    /// (a not-found error naming one of the pipeline's own modules),
    /// parameter-serialization failures as start errors, and call
    /// failures as instantiation errors.  A declared pipeline with no
    /// stages always succeeds.
    pub fn run_job(
        &mut self,
        pipeline_definitions: &PipelineTable,
        job_definition: &JobDefinition,
    ) -> (r: Result<String, JobRunError>)
        requires
            pipeline_definitions.wf(),
        ensures
            (r is Err && r->Err_0 matches JobRunError::JobValidationError(_))
                <==> !pipeline_definitions@.dom().contains(job_definition.pipeline@),
            (r is Err && r->Err_0 matches JobRunError::JobValidationError(_))
                ==> r->Err_0->JobValidationError_0.spec_message()
                == spec_pipeline_not_found_message(job_definition.pipeline@),
            r is Ok ==> r->Ok_0@.len() == 36,
            pipeline_definitions@.dom().contains(job_definition.pipeline@)
                && pipeline_definitions@[job_definition.pipeline@].process@.len() == 0 ==> r is Ok,
            (pipeline_definitions@.dom().contains(job_definition.pipeline@) && !old(
                self,
            ).spec_has_wasm() && (exists|si: int|
                0 <= si < pipeline_definitions@[job_definition.pipeline@].process@.len() && (
                #[trigger] pipeline_definitions@[job_definition.pipeline@].process@[si]@).len()
                    > 0)) ==> (r is Err && (r->Err_0 matches JobRunError::JobModuleDefinitionError(
                _,
            )) && (r->Err_0->JobModuleDefinitionError_0
                matches ModuleDefinitionError::ModuleTypeNotFound(_))),
            (r is Err && (r->Err_0 matches JobRunError::JobModuleDefinitionError(_)) && (
            r->Err_0->JobModuleDefinitionError_0 matches ModuleDefinitionError::ModuleTypeNotFound(
                _,
            ))) ==> !old(self).spec_has_wasm(),
            (r is Err && r->Err_0 matches JobRunError::JobModuleDefinitionError(_)) ==> !(
            r->Err_0->JobModuleDefinitionError_0 matches ModuleDefinitionError::ModulePathInvalid(
                _,
            )),
            (r is Err && (r->Err_0 matches JobRunError::JobModuleDefinitionError(_))
                && (r->Err_0->JobModuleDefinitionError_0
                matches ModuleDefinitionError::ModuleTypeNotFound(_)))
                ==> r->Err_0->JobModuleDefinitionError_0->ModuleTypeNotFound_0.spec_message()
                == "No library manager found for Wasm"@,
            (r is Err && (r->Err_0 matches JobRunError::JobModuleDefinitionError(_))
                && (r->Err_0->JobModuleDefinitionError_0
                matches ModuleDefinitionError::ModuleNotFound(_))) ==> exists|si: int, pi: int|
                {
                    &&& 0 <= si < pipeline_definitions@[job_definition.pipeline@].process@.len()
                    &&& 0 <= pi < pipeline_definitions@[job_definition.pipeline@].process@[si]@.len()
                    &&& r->Err_0->JobModuleDefinitionError_0->ModuleNotFound_0.spec_message()
                        == crate::modules::spec_module_not_found_message(
                        (#[trigger] pipeline_definitions@[job_definition.pipeline@].process@[si]@[pi]).1.module.name@,
                    )
                },
            (r is Err && (r->Err_0 matches JobRunError::JobModuleDefinitionError(_))
                && (r->Err_0->JobModuleDefinitionError_0
                matches ModuleDefinitionError::ModuleCannotBeInstantiated(_))) ==> exists|
                cause: Seq<char>,
            |
                r->Err_0->JobModuleDefinitionError_0->ModuleCannotBeInstantiated_0.spec_message()
                    == crate::wasm::spec_load_error_message(cause)
                    || r->Err_0->JobModuleDefinitionError_0->ModuleCannotBeInstantiated_0.spec_message()
                    == crate::wasm::spec_wasi_error_message(cause)
                    || r->Err_0->JobModuleDefinitionError_0->ModuleCannotBeInstantiated_0.spec_message()
                    == crate::wasm::spec_link_error_message(cause),
            (r is Err && r->Err_0 matches JobRunError::JobStartError(_)) ==> ((exists|
                cause: Seq<char>,
            |
                r->Err_0->JobStartError_0.spec_message() == spec_params_error_message(cause))
                || r->Err_0->JobStartError_0.spec_message() == spec_params_too_large_message()),
            (r is Err && r->Err_0 matches JobRunError::JobModuleInstantiationError(_))
                ==> r->Err_0->JobModuleInstantiationError_0
                matches crate::errors::LibraryInstanceError::InstantiationError(_),
    {
        let pipeline_definition: &PipelineDefinition = match validate_job(
            pipeline_definitions,
            job_definition,
        ) {
            Ok(pipeline_definition) => pipeline_definition,
            Err(error) => {
                return Err(JobRunError::JobValidationError(error));
            },
        };
        let job_id: String = new_job_id();
        let mut payload: Vec<u8> = Vec::new();
        let n_stages: usize = pipeline_definition.process.len();
        let mut si: usize = 0;
        while si < n_stages
            invariant
                n_stages == pipeline_definition.process@.len(),
                si <= n_stages,
                job_id@.len() == 36,
                pipeline_definitions@.dom().contains(job_definition.pipeline@),
                *pipeline_definition == pipeline_definitions@[job_definition.pipeline@],
                self.spec_has_wasm() == old(self).spec_has_wasm(),
                !old(self).spec_has_wasm() ==> forall|k: int|
                    0 <= k < si ==> (#[trigger] pipeline_definition.process@[k]@).len() == 0,
            decreases n_stages - si,
        {
            let stage: &Vec<(String, ProcessDefinition)> = &pipeline_definition.process[si];
            let n_procs: usize = stage.len();
            let mut pi: usize = 0;
            while pi < n_procs
                invariant
                    n_procs == stage@.len(),
                    pi <= n_procs,
                    si < n_stages,
                    n_stages == pipeline_definition.process@.len(),
                    job_id@.len() == 36,
                    pipeline_definitions@.dom().contains(job_definition.pipeline@),
                    *pipeline_definition == pipeline_definitions@[job_definition.pipeline@],
                    stage@ == pipeline_definition.process@[si as int]@,
                    self.spec_has_wasm() == old(self).spec_has_wasm(),
                    !old(self).spec_has_wasm() ==> pi == 0,
                    !old(self).spec_has_wasm() ==> forall|k: int|
                        0 <= k < si ==> (#[trigger] pipeline_definition.process@[k]@).len() == 0,
                decreases n_procs - pi,
            {
                let entry: &(String, ProcessDefinition) = &stage[pi];
                let mut module_instance = match self.module_manager_list.get_module_instance(
                    &entry.1,
                ) {
                    Ok(module_instance) => module_instance,
                    Err(error) => {
                        proof {
                            assert(pipeline_definitions@[job_definition.pipeline@].process@[si as int]@[pi as int]
                                == stage@[pi as int]);
                        }
                        return Err(JobRunError::JobModuleDefinitionError(error));
                    },
                };
                let meta: Vec<u8> = match metadata_to_arrow(&entry.1) {
                    Ok(meta) => meta,
                    Err(error) => {
                        return Err(JobRunError::JobStartError(error));
                    },
                };
                payload = match module_instance.exec_func(meta, payload) {
                    Ok(serialized_data) => serialized_data,
                    Err(error) => {
                        return Err(JobRunError::JobModuleInstantiationError(error));
                    },
                };
                pi = pi + 1;
            }
            si = si + 1;
        }
        Ok(job_id)
    }
}

} // verus!
