//! The error taxonomy of the runtime.
//!
//! Errors nest their cause, so the message of an outer error always
//! carries the full message of every wrapped inner error.

use vstd::prelude::*;
use vstd::string::StringExecFns;

verus! {

/// A leaf error carrying a plain message.
#[derive(Debug, Clone)]
pub enum GeneralError {
    ErrorMessage(String),
}

impl GeneralError {
    /// The message this error carries.
    pub open spec fn spec_message(&self) -> Seq<char> {
        match self {
            GeneralError::ErrorMessage(s) => s@,
        }
    }

    pub fn message(&self) -> (r: String)
        ensures
            r@ == self.spec_message(),
    {
        match self {
            GeneralError::ErrorMessage(s) => s.clone(),
        }
    }
}

/// Error raised while loading or compiling a library (a module binary).
#[derive(Debug, Clone)]
pub enum LibraryDefinitionError {
    ModuleSpecificError(GeneralError),
}

impl LibraryDefinitionError {
    pub open spec fn spec_message(&self) -> Seq<char> {
        match self {
            LibraryDefinitionError::ModuleSpecificError(e) => e.spec_message(),
        }
    }

    pub fn message(&self) -> (r: String)
        ensures
            r@ == self.spec_message(),
    {
        match self {
            LibraryDefinitionError::ModuleSpecificError(e) => e.message(),
        }
    }
}

/// Error raised while instantiating or invoking a library instance.
#[derive(Debug, Clone)]
pub enum LibraryInstanceError {
    InstantiationError(GeneralError),
}

impl LibraryInstanceError {
    pub open spec fn spec_message(&self) -> Seq<char> {
        match self {
            LibraryInstanceError::InstantiationError(e) => e.spec_message(),
        }
    }

    pub fn message(&self) -> (r: String)
        ensures
            r@ == self.spec_message(),
    {
        match self {
            LibraryInstanceError::InstantiationError(e) => e.message(),
        }
    }
}

/// Error raised while resolving a process's module reference.
#[derive(Debug, Clone)]
pub enum ModuleDefinitionError {
    ModulePathInvalid(GeneralError),
    ModuleNotFound(GeneralError),
    ModuleTypeNotFound(GeneralError),
    ModuleCannotBeInstantiated(LibraryDefinitionError),
}

impl ModuleDefinitionError {
    pub open spec fn spec_message(&self) -> Seq<char> {
        match self {
            ModuleDefinitionError::ModulePathInvalid(e) => e.spec_message(),
            ModuleDefinitionError::ModuleNotFound(e) => e.spec_message(),
            ModuleDefinitionError::ModuleTypeNotFound(e) => e.spec_message(),
            ModuleDefinitionError::ModuleCannotBeInstantiated(e) => e.spec_message(),
        }
    }

    pub fn message(&self) -> (r: String)
        ensures
            r@ == self.spec_message(),
    {
        match self {
            ModuleDefinitionError::ModulePathInvalid(e) => e.message(),
            ModuleDefinitionError::ModuleNotFound(e) => e.message(),
            ModuleDefinitionError::ModuleTypeNotFound(e) => e.message(),
            ModuleDefinitionError::ModuleCannotBeInstantiated(e) => e.message(),
        }
    }
}

/// Error raised while checking that a job can run at all.
#[derive(Debug, Clone)]
pub enum JobValidationError {
    PipelineForJobNotFound(GeneralError),
}

impl JobValidationError {
    pub open spec fn spec_message(&self) -> Seq<char> {
        match self {
            JobValidationError::PipelineForJobNotFound(e) => e.spec_message(),
        }
    }

    pub fn message(&self) -> (r: String)
        ensures
            r@ == self.spec_message(),
    {
        match self {
            JobValidationError::PipelineForJobNotFound(e) => e.message(),
        }
    }
}

/// Error raised while running a job.
#[derive(Debug, Clone)]
pub enum JobRunError {
    JobStartError(GeneralError),
    JobValidationError(JobValidationError),
    JobModuleDefinitionError(ModuleDefinitionError),
    JobModuleInstantiationError(LibraryInstanceError),
}

impl JobRunError {
    pub open spec fn spec_message(&self) -> Seq<char> {
        match self {
            JobRunError::JobStartError(e) => e.spec_message(),
            JobRunError::JobValidationError(e) => e.spec_message(),
            JobRunError::JobModuleDefinitionError(e) => e.spec_message(),
            JobRunError::JobModuleInstantiationError(e) => e.spec_message(),
        }
    }

    pub fn message(&self) -> (r: String)
        ensures
            r@ == self.spec_message(),
    {
        match self {
            JobRunError::JobStartError(e) => e.message(),
            JobRunError::JobValidationError(e) => e.message(),
            JobRunError::JobModuleDefinitionError(e) => e.message(),
            JobRunError::JobModuleInstantiationError(e) => e.message(),
        }
    }
}

/// Error raised when the application document is invalid.
///
/// The parser's own message is carried in the wrapped cause.
#[derive(Debug, Clone)]
pub enum AppDefinitionError {
    Yaml(GeneralError),
}

impl AppDefinitionError {
    pub open spec fn spec_message(&self) -> Seq<char> {
        match self {
            AppDefinitionError::Yaml(e) => "Invalid App definition. Error in Yaml file: "@
                + e.spec_message(),
        }
    }

    /// The full rendition of the error, cause included.
    pub fn as_str(&self) -> (r: String)
        ensures
            r@ == self.spec_message(),
    {
        match self {
            AppDefinitionError::Yaml(e) => {
                let mut m: String = "Invalid App definition. Error in Yaml file: ".to_owned();
                m.append(e.message().as_str());
                m
            },
        }
    }
}

} // verus!
