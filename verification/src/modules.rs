//! Module configuration and resolution.
//!
//! The modules definition declares, per backend, an ordered list of
//! search paths.  The module manager validates the paths once, and
//! resolves a process's module file by scanning the search paths in
//! declaration order: the first path under which the file exists wins.

use crate::errors::GeneralError;
use crate::errors::ModuleDefinitionError;
use crate::pipeline::ProcessDefinition;
use crate::wasm::WASMLibrary;
use crate::wasm::WASMLibraryManager;
use vstd::prelude::*;
use vstd::string::StringExecFns;

verus! {

/// The backends a module can run on.
#[derive(Clone, Debug)]
pub enum ModuleType {
    Wasm,
}

/// The module configuration of an application: one optional section per
/// backend.
pub struct ModulesDefinition {
    pub wasm: Option<WasmModulesDefinition>,
}

/// The Wasm section: an ordered list of directories searched for module
/// files.
pub struct WasmModulesDefinition {
    pub module_path_base: Vec<String>,
}

/// Relies on std::path::Path::exists: whether the path names an entry
/// on the local filesystem at the moment of the call.
#[verifier::external_body]
fn path_exists(path: &String) -> bool {
    std::path::Path::new(path.as_str()).exists()
}

/// `dir`, a separator, and `name`.
pub open spec fn spec_joined(dir: Seq<char>, name: Seq<char>) -> Seq<char> {
    dir + "/"@ + name
}

/// Join a directory and a file name with a path separator.
pub fn join_path(dir: &String, name: &String) -> (r: String)
    ensures
        r@ == spec_joined(dir@, name@),
{
    let mut r = dir.clone();
    r.append("/");
    r.append(name.as_str());
    r
}

/// The message of the error raised when `name` is in no search path.
pub open spec fn spec_module_not_found_message(name: Seq<char>) -> Seq<char> {
    "Could not find module \""@ + name + "\" in module paths"@
}

/// Resolve `name` against the search paths, given which of them holds
/// the file: the first path whose flag is set wins, so an earlier path
/// always shadows a later one.  When no flag is set, the error names
/// the module.
pub fn resolve_module(paths: &Vec<String>, found: &Vec<bool>, name: &String) -> (r: Result<
    String,
    ModuleDefinitionError,
>)
    requires
        paths@.len() == found@.len(),
    ensures
        r is Ok ==> exists|i: int|
            {
                &&& 0 <= i < paths@.len()
                &&& #[trigger] found@[i]
                &&& (forall|j: int| 0 <= j < i ==> !found@[j])
                &&& r->Ok_0@ == spec_joined(paths@[i]@, name@)
            },
        r is Err <==> (forall|j: int| 0 <= j < found@.len() ==> !found@[j]),
        r is Err ==> (r->Err_0 matches ModuleDefinitionError::ModuleNotFound(e)
            && e.spec_message() == spec_module_not_found_message(name@)),
{
    let n: usize = paths.len();
    let mut i: usize = 0;
    while i < n
        invariant
            n == paths@.len(),
            n == found@.len(),
            i <= n,
            forall|j: int| 0 <= j < i ==> !found@[j],
        decreases n - i,
    {
        if found[i] {
            let full = join_path(&paths[i], name);
            return Ok(full);
        }
        i = i + 1;
    }
    let mut msg: String = "Could not find module \"".to_owned();
    msg.append(name.as_str());
    msg.append("\" in module paths");
    Err(ModuleDefinitionError::ModuleNotFound(GeneralError::ErrorMessage(msg)))
}

/// Probe the filesystem for `name` under each search path, in order,
/// and resolve it to the first hit.  What the filesystem answers is the
/// filesystem's affair; whatever it answers, an `Ok` path is one of the
/// search paths joined with `name`, and the error carries the message
/// that names the module.
fn find_module_in_module_paths(paths: &Vec<String>, name: &String) -> (r: Result<
    String,
    ModuleDefinitionError,
>)
    ensures
        r is Ok ==> exists|i: int|
            0 <= i < paths@.len() && r->Ok_0@ == spec_joined(#[trigger] paths@[i]@, name@),
        r is Err ==> (r->Err_0 matches ModuleDefinitionError::ModuleNotFound(e)
            && e.spec_message() == spec_module_not_found_message(name@)),
        paths@.len() == 0 ==> r is Err,
{
    let n: usize = paths.len();
    let mut found: Vec<bool> = Vec::new();
    let mut i: usize = 0;
    while i < n
        invariant
            n == paths@.len(),
            i <= n,
            found@.len() == i,
        decreases n - i,
    {
        let full = join_path(&paths[i], name);
        found.push(path_exists(&full));
        i = i + 1;
    }
    resolve_module(paths, &found, name)
}

/// The message of the error raised when a configured search path does
/// not exist.
pub open spec fn spec_module_path_invalid_message(path: Seq<char>) -> Seq<char> {
    "Module path \""@ + path + "\" does not exist"@
}

/// The message of the error raised when no module section is
/// configured at all.
pub open spec fn spec_no_paths_message() -> Seq<char> {
    "No path to modules given"@
}

/// Check the declared search paths against the filesystem's answers,
/// one flag per path: all paths must exist.  The first path whose flag
/// is unset decides the error, which names that path; otherwise the
/// paths come back as declared.
pub fn check_paths(paths: &Vec<String>, found: &Vec<bool>) -> (r: Result<
    Vec<String>,
    ModuleDefinitionError,
>)
    requires
        paths@.len() == found@.len(),
    ensures
        r is Ok <==> (forall|j: int| 0 <= j < found@.len() ==> found@[j]),
        r is Ok ==> r->Ok_0@.len() == paths@.len() && (forall|i: int|
            0 <= i < paths@.len() ==> #[trigger] r->Ok_0@[i]@ == paths@[i]@),
        r is Err ==> exists|i: int|
            {
                &&& 0 <= i < found@.len()
                &&& !(#[trigger] found@[i])
                &&& (forall|j: int| 0 <= j < i ==> found@[j])
                &&& (r->Err_0 matches ModuleDefinitionError::ModulePathInvalid(e)
                    && e.spec_message() == spec_module_path_invalid_message(paths@[i]@))
            },
{
    let n: usize = paths.len();
    let mut checked: Vec<String> = Vec::new();
    let mut i: usize = 0;
    while i < n
        invariant
            n == paths@.len(),
            n == found@.len(),
            i <= n,
            checked@.len() == i,
            forall|j: int| 0 <= j < i ==> found@[j],
            forall|j: int| 0 <= j < i ==> #[trigger] checked@[j]@ == paths@[j]@,
        decreases n - i,
    {
        if !found[i] {
            let mut msg: String = "Module path \"".to_owned();
            msg.append(paths[i].as_str());
            msg.append("\" does not exist");
            assert(msg@ == spec_module_path_invalid_message(paths@[i as int]@));
            return Err(ModuleDefinitionError::ModulePathInvalid(GeneralError::ErrorMessage(msg)));
        }
        checked.push(paths[i].clone());
        i = i + 1;
    }
    Ok(checked)
}

/// Read the search paths out of the modules definition, checking that
/// each exists.  A missing Wasm section is a configuration error; a
/// path the filesystem does not know yields an error naming it.
fn get_module_paths(modules_definition: &ModulesDefinition) -> (r: Result<
    Vec<String>,
    ModuleDefinitionError,
>)
    ensures
        modules_definition.wasm is None ==> (r is Err
            && (r->Err_0 matches ModuleDefinitionError::ModulePathInvalid(e)
            && e.spec_message() == spec_no_paths_message())),
        r is Ok ==> modules_definition.wasm is Some && r->Ok_0@.len()
            == modules_definition.wasm->Some_0.module_path_base@.len() && (forall|i: int|
            0 <= i < r->Ok_0@.len() ==> #[trigger] r->Ok_0@[i]@
                == modules_definition.wasm->Some_0.module_path_base@[i]@),
        r is Err ==> r->Err_0 matches ModuleDefinitionError::ModulePathInvalid(_),
        modules_definition.wasm is Some && r is Err ==> exists|i: int|
            0 <= i < modules_definition.wasm->Some_0.module_path_base@.len()
                && r->Err_0->ModulePathInvalid_0.spec_message()
                == spec_module_path_invalid_message(
                #[trigger] modules_definition.wasm->Some_0.module_path_base@[i]@,
            ),
{
    match &modules_definition.wasm {
        Some(wasm) => {
            let n: usize = wasm.module_path_base.len();
            let mut found: Vec<bool> = Vec::new();
            let mut i: usize = 0;
            while i < n
                invariant
                    modules_definition.wasm is Some,
                    *wasm == modules_definition.wasm->Some_0,
                    n == wasm.module_path_base@.len(),
                    i <= n,
                    found@.len() == i,
                decreases n - i,
            {
                found.push(path_exists(&wasm.module_path_base[i]));
                i = i + 1;
            }
            check_paths(&wasm.module_path_base, &found)
        },
        None => {
            Err(
                ModuleDefinitionError::ModulePathInvalid(
                    GeneralError::ErrorMessage("No path to modules given".to_owned()),
                ),
            )
        },
    }
}

/// The module manager: one optional backend registry plus the validated
/// search paths.
pub struct ModuleManagerList {
    pub wasm_library_manager: Option<WASMLibraryManager>,
    module_paths: Vec<String>,
}

impl ModuleManagerList {
    /// Whether the Wasm backend is configured.
    pub closed spec fn spec_has_wasm(&self) -> bool {
        self.wasm_library_manager is Some
    }

    /// The validated search paths, in declaration order.
    pub closed spec fn spec_module_paths(&self) -> Seq<Seq<char>> {
        self.module_paths@.map_values(|p: String| p@)
    }

    /// Build a manager from the modules definition: validate every
    /// declared search path, and set the Wasm backend up exactly when
    /// the definition has a Wasm section.
    pub fn new(modules_definition: &ModulesDefinition) -> (r: Result<
        ModuleManagerList,
        ModuleDefinitionError,
    >)
        ensures
            modules_definition.wasm is None ==> (r is Err
                && (r->Err_0 matches ModuleDefinitionError::ModulePathInvalid(e)
                && e.spec_message() == spec_no_paths_message())),
            r is Err ==> r->Err_0 matches ModuleDefinitionError::ModulePathInvalid(_),
            modules_definition.wasm is Some && r is Err ==> exists|i: int|
                0 <= i < modules_definition.wasm->Some_0.module_path_base@.len()
                    && r->Err_0->ModulePathInvalid_0.spec_message()
                    == spec_module_path_invalid_message(
                    #[trigger] modules_definition.wasm->Some_0.module_path_base@[i]@,
                ),
            r is Ok ==> r->Ok_0.spec_has_wasm() == modules_definition.wasm is Some,
            r is Ok ==> modules_definition.wasm is Some && r->Ok_0.spec_module_paths().len()
                == modules_definition.wasm->Some_0.module_path_base@.len() && (forall|i: int|
                0 <= i < r->Ok_0.spec_module_paths().len()
                    ==> #[trigger] r->Ok_0.spec_module_paths()[i]
                    == modules_definition.wasm->Some_0.module_path_base@[i]@),
    {
        let module_paths = match get_module_paths(modules_definition) {
            Ok(module_paths) => module_paths,
            Err(error) => {
                return Err(error);
            },
        };
        let wasm_library_manager: Option<WASMLibraryManager> = match &modules_definition.wasm {
            Some(_) => Some(WASMLibraryManager::new()),
            None => None,
        };
        Ok(ModuleManagerList { wasm_library_manager, module_paths })
    }

    /// Obtain a fresh instance for the module a process requires:
    /// dispatch on the backend, resolve the module file against the
    /// search paths, and instantiate it.  The error tells the story:
    /// `ModuleTypeNotFound` exactly when the backend is not configured,
    /// `ModuleNotFound` naming the module when no search path holds it
    /// (and always when no search path is declared at all), and a
    /// backend failure wrapped as `ModuleCannotBeInstantiated` with its
    /// cause's message preserved.
    pub fn get_module_instance(&mut self, process_definition: &ProcessDefinition) -> (r: Result<
        WASMLibrary,
        ModuleDefinitionError,
    >)
        ensures
            final(self).spec_has_wasm() == old(self).spec_has_wasm(),
            final(self).spec_module_paths() == old(self).spec_module_paths(),
            (r is Err && r->Err_0 matches ModuleDefinitionError::ModuleTypeNotFound(_)) <==> !old(
                self,
            ).spec_has_wasm(),
            (r is Err && r->Err_0 matches ModuleDefinitionError::ModuleTypeNotFound(_))
                ==> r->Err_0->ModuleTypeNotFound_0.spec_message()
                == "No library manager found for Wasm"@,
            r is Err ==> !(r->Err_0 matches ModuleDefinitionError::ModulePathInvalid(_)),
            (r is Err && r->Err_0 matches ModuleDefinitionError::ModuleNotFound(_))
                ==> r->Err_0->ModuleNotFound_0.spec_message() == spec_module_not_found_message(
                process_definition.module.name@,
            ),
            (r is Err && r->Err_0 matches ModuleDefinitionError::ModuleCannotBeInstantiated(_))
                ==> exists|cause: Seq<char>|
                r->Err_0->ModuleCannotBeInstantiated_0.spec_message()
                    == crate::wasm::spec_load_error_message(cause)
                    || r->Err_0->ModuleCannotBeInstantiated_0.spec_message()
                    == crate::wasm::spec_wasi_error_message(cause)
                    || r->Err_0->ModuleCannotBeInstantiated_0.spec_message()
                    == crate::wasm::spec_link_error_message(cause),
            old(self).spec_has_wasm() && old(self).spec_module_paths().len() == 0 ==> (r is Err
                && r->Err_0 matches ModuleDefinitionError::ModuleNotFound(_)),
            r is Ok ==> exists|i: int|
                0 <= i < old(self).spec_module_paths().len() && r->Ok_0.spec_path()
                    == spec_joined(
                    #[trigger] old(self).spec_module_paths()[i],
                    process_definition.module.name@,
                ),
    {
        let library_manager: &mut WASMLibraryManager = match &process_definition.module.module_type
            {
            ModuleType::Wasm => {
                match &mut self.wasm_library_manager {
                    Some(library_manager) => library_manager,
                    None => {
                        return Err(
                            ModuleDefinitionError::ModuleTypeNotFound(
                                GeneralError::ErrorMessage(
                                    "No library manager found for Wasm".to_owned(),
                                ),
                            ),
                        );
                    },
                }
            },
        };
        let module_full_path = match find_module_in_module_paths(
            &self.module_paths,
            &process_definition.module.name,
        ) {
            Ok(module_full_path) => module_full_path,
            Err(error) => {
                return Err(error);
            },
        };
        match library_manager.get_instance(&module_full_path) {
            Ok(module_instance) => {
                proof {
                    let i = choose|i: int|
                        0 <= i < self.module_paths@.len() && module_full_path@ == spec_joined(
                            #[trigger] self.module_paths@[i]@,
                            process_definition.module.name@,
                        );
                    assert(self.spec_module_paths()[i] == self.module_paths@[i]@);
                }
                Ok(module_instance)
            },
            Err(error) => Err(ModuleDefinitionError::ModuleCannotBeInstantiated(error)),
        }
    }
}

} // verus!
