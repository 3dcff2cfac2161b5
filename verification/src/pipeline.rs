//! Pipeline, process and stage definitions.
//!
//! A pipeline is an ordered sequence of stages; each stage is an ordered
//! list of labelled processes, and a process names the module that
//! implements it plus an ordered list of scalar string parameters.

use crate::modules::ModuleType;
use vstd::prelude::*;

verus! {

/// Which module a process needs: a module file name (resolved against
/// the configured search paths) and the backend that runs it.
pub struct ProcessModuleRequirements {
    pub name: String,
    pub module_type: ModuleType,
}

/// Definition of a single process: its module and its parameters, an
/// ordered sequence of key/value pairs whose order is preserved on the
/// wire.
pub struct ProcessDefinition {
    pub module: ProcessModuleRequirements,
    pub parameters: Vec<(String, String)>,
}

/// Definition of a single pipeline: stages in execution order, each an
/// ordered list of (label, process) entries.
pub struct PipelineDefinition {
    pub process: Vec<Vec<(String, ProcessDefinition)>>,
}

/// The declared pipelines of an application, keyed by name.
pub struct PipelineTable {
    entries: Vec<(String, PipelineDefinition)>,
}

/// The map described by an association list of (name, pipeline) pairs;
/// a later entry under the same name shadows an earlier one.
spec fn pipelines_map(s: Seq<(String, PipelineDefinition)>) -> Map<Seq<char>, PipelineDefinition>
    decreases s.len(),
{
    if s.len() == 0 {
        Map::empty()
    } else {
        pipelines_map(s.drop_last()).insert(s.last().0@, s.last().1)
    }
}

proof fn lemma_pipelines_map_contains(s: Seq<(String, PipelineDefinition)>, k: Seq<char>)
    ensures
        pipelines_map(s).dom().contains(k) <==> exists|i: int|
            0 <= i < s.len() && #[trigger] s[i].0@ == k,
    decreases s.len(),
{
    if s.len() > 0 {
        lemma_pipelines_map_contains(s.drop_last(), k);
        if s.last().0@ == k {
            assert(s[s.len() - 1].0@ == k);
        } else if pipelines_map(s).dom().contains(k) {
            let i = choose|i: int| 0 <= i < s.drop_last().len() && #[trigger] s.drop_last()[i].0@
                == k;
            assert(s[i].0@ == k);
        } else {
            assert forall|i: int| 0 <= i < s.len() implies #[trigger] s[i].0@ != k by {
                if i < s.len() - 1 {
                    assert(s.drop_last()[i].0@ == s[i].0@);
                }
            }
        }
    }
}

proof fn lemma_pipelines_map_value(s: Seq<(String, PipelineDefinition)>, i: int)
    requires
        0 <= i < s.len(),
        forall|j: int, k: int| 0 <= j < k < s.len() ==> s[j].0@ != s[k].0@,
    ensures
        pipelines_map(s).dom().contains(s[i].0@),
        pipelines_map(s)[s[i].0@] == s[i].1,
    decreases s.len(),
{
    lemma_pipelines_map_contains(s, s[i].0@);
    if i < s.len() - 1 {
        assert(s.drop_last()[i] == s[i]);
        lemma_pipelines_map_value(s.drop_last(), i);
        assert(s.last().0@ != s[i].0@);
    }
}

impl View for PipelineTable {
    type V = Map<Seq<char>, PipelineDefinition>;

    closed spec fn view(&self) -> Map<Seq<char>, PipelineDefinition> {
        pipelines_map(self.entries@)
    }
}

impl PipelineTable {
    /// Names are pairwise distinct.
    pub closed spec fn wf(&self) -> bool {
        forall|j: int, k: int|
            0 <= j < k < self.entries@.len() ==> self.entries@[j].0@ != self.entries@[k].0@
    }

    /// An empty table.
    pub fn new() -> (r: PipelineTable)
        ensures
            r.wf(),
            r@ == Map::<Seq<char>, PipelineDefinition>::empty(),
    {
        PipelineTable { entries: Vec::new() }
    }

    /// Declare a pipeline under `name`.  A name already declared is
    /// refused, and the table is left unchanged.
    pub fn insert(&mut self, name: &String, pipeline: PipelineDefinition) -> (ok: bool)
        requires
            old(self).wf(),
        ensures
            final(self).wf(),
            ok <==> !old(self)@.dom().contains(name@),
            ok ==> final(self)@ == old(self)@.insert(name@, pipeline),
            !ok ==> *final(self) == *old(self),
    {
        if self.contains(name) {
            return false;
        }
        proof {
            lemma_pipelines_map_contains(self.entries@, name@);
        }
        self.entries.push((name.clone(), pipeline));
        proof {
            let s = old(self).entries@;
            assert(self.entries@.drop_last() =~= s);
            assert forall|j: int, k: int|
                0 <= j < k < self.entries@.len() implies self.entries@[j].0@
                != self.entries@[k].0@ by {
                if k < self.entries@.len() - 1 {
                    assert(self.entries@[j] == s[j] && self.entries@[k] == s[k]);
                } else {
                    assert(self.entries@[j] == s[j]);
                    assert(!(exists|i: int| 0 <= i < s.len() && #[trigger] s[i].0@ == name@));
                }
            }
        }
        true
    }

    /// Whether a pipeline is declared under `name`.
    pub fn contains(&self, name: &String) -> (r: bool)
        ensures
            r <==> self@.dom().contains(name@),
    {
        let n: usize = self.entries.len();
        let mut i: usize = 0;
        while i < n
            invariant
                n == self.entries@.len(),
                i <= n,
                forall|j: int| 0 <= j < i ==> #[trigger] self.entries@[j].0@ != name@,
            decreases n - i,
        {
            if self.entries[i].0 == *name {
                proof {
                    lemma_pipelines_map_contains(self.entries@, name@);
                }
                return true;
            }
            i = i + 1;
        }
        proof {
            lemma_pipelines_map_contains(self.entries@, name@);
        }
        false
    }

    /// The pipeline declared under `name`, if any.
    pub fn get(&self, name: &String) -> (r: Option<&PipelineDefinition>)
        requires
            self.wf(),
        ensures
            r is Some <==> self@.dom().contains(name@),
            r is Some ==> *r->Some_0 == self@[name@],
    {
        let n: usize = self.entries.len();
        let mut i: usize = 0;
        while i < n
            invariant
                n == self.entries@.len(),
                i <= n,
                self.wf(),
                forall|j: int| 0 <= j < i ==> #[trigger] self.entries@[j].0@ != name@,
            decreases n - i,
        {
            if self.entries[i].0 == *name {
                proof {
                    lemma_pipelines_map_value(self.entries@, i as int);
                }
                return Some(&self.entries[i].1);
            }
            i = i + 1;
        }
        proof {
            lemma_pipelines_map_contains(self.entries@, name@);
        }
        None
    }

    /// How many pipelines are declared.
    pub fn len(&self) -> (r: usize)
        ensures
            r == self.spec_len(),
    {
        self.entries.len()
    }

    /// The number of declared pipelines.
    pub closed spec fn spec_len(&self) -> nat {
        self.entries@.len()
    }

    /// The declared (name, pipeline) pair at position `i`, in
    /// declaration order.
    pub fn entry_at(&self, i: usize) -> (r: &(String, PipelineDefinition))
        requires
            self.wf(),
            i < self.spec_len(),
        ensures
            self@.dom().contains(r.0@),
            self@[r.0@] == r.1,
    {
        proof {
            lemma_pipelines_map_value(self.entries@, i as int);
        }
        &self.entries[i]
    }
}

} // verus!
