//! Application definitions and the in-memory list of loaded apps.
//!
//! An application document declares general properties, the module
//! configuration, the jobs and the pipelines.  Reading the document off
//! disk and parsing its YAML is the caller's business; this module
//! manages the parsed definitions.

use crate::jobs::JobDefinition;
use crate::modules::ModulesDefinition;
use crate::pipeline::PipelineTable;
use vstd::prelude::*;

verus! {

/// General properties of an application.
pub struct AppDefinitionGeneral {
    pub name: String,
    pub app_definition_version: u32,
}

/// Definition of an application.
pub struct AppDefinition {
    pub general: AppDefinitionGeneral,
    pub modules: ModulesDefinition,
    pub jobs: Vec<(String, JobDefinition)>,
    pub pipelines: PipelineTable,
}

impl AppDefinition {
    /// The job declared under `name`: the first entry that carries it.
    pub fn find_job(&self, name: &String) -> (r: Option<&JobDefinition>)
        ensures
            r is Some <==> exists|i: int|
                0 <= i < self.jobs@.len() && #[trigger] self.jobs@[i].0@ == name@,
            r is Some ==> exists|i: int|
                0 <= i < self.jobs@.len() && #[trigger] self.jobs@[i].0@ == name@ && *r->Some_0
                    == self.jobs@[i].1,
    {
        let n: usize = self.jobs.len();
        let mut i: usize = 0;
        while i < n
            invariant
                n == self.jobs@.len(),
                i <= n,
                forall|j: int| 0 <= j < i ==> #[trigger] self.jobs@[j].0@ != name@,
            decreases n - i,
        {
            if self.jobs[i].0 == *name {
                return Some(&self.jobs[i].1);
            }
            i = i + 1;
        }
        None
    }
}

/// The applications currently loaded, in the order they were added.
pub struct AppList {
    available_apps: Vec<AppDefinition>,
}

impl AppList {
    /// The loaded definitions, oldest first.
    pub closed spec fn spec_apps(&self) -> Seq<AppDefinition> {
        self.available_apps@
    }

    /// An empty list.
    pub fn new() -> (r: AppList)
        ensures
            r.spec_apps() == Seq::<AppDefinition>::empty(),
    {
        let r = AppList { available_apps: Vec::new() };
        proof {
            assert(r.spec_apps() =~= Seq::<AppDefinition>::empty());
        }
        r
    }

    /// Add a parsed application definition to the list.
    pub fn add(&mut self, definition: AppDefinition)
        ensures
            final(self).spec_apps() == old(self).spec_apps().push(definition),
    {
        self.available_apps.push(definition);
    }

    /// How many applications are loaded.
    pub fn len(&self) -> (r: usize)
        ensures
            r == self.spec_apps().len(),
    {
        self.available_apps.len()
    }

    /// The definition at `position`.
    pub fn get(&self, position: usize) -> (r: &AppDefinition)
        requires
            position < self.spec_apps().len(),
        ensures
            *r == self.spec_apps()[position as int],
    {
        &self.available_apps[position]
    }

    /// Remove and return the definition at `position`; the last entry
    /// takes its place.
    pub fn remove(&mut self, position: usize) -> (r: AppDefinition)
        requires
            position < old(self).spec_apps().len(),
        ensures
            r == old(self).spec_apps()[position as int],
            final(self).spec_apps() == old(self).spec_apps().update(
                position as int,
                old(self).spec_apps().last(),
            ).drop_last(),
    {
        self.available_apps.swap_remove(position)
    }
}

} // verus!
