//! The ways in which setting up or running a sandboxed process can fail.

use vstd::prelude::*;
use vstd::string::StringExecFns;

verus! {

/// Why a factory could not be built, a harness could not be created, or a step failed. Each
/// variant carries the engine's own description of what went wrong.
#[derive(Debug)]
pub enum SbHarnessError {
    /// The engine rejected the configuration it was asked to run with.
    EngineInitialization(String),
    /// The module's bytes are not a component that the engine can load.
    BinaryLoading(String),
    /// The capabilities could not be bound into the linker.
    LinkerSetup(String),
    /// The module could not be instantiated against the bound capabilities.
    ProgramInstantiation(String),
    /// The engine rejected the execution budget.
    ProcessRefueling(String),
    /// A step failed: the process trapped, or it was stepped after it had ended.
    ProcessRun(String),
}

impl SbHarnessError {
    /// The engine's description that the error carries.
    pub open spec fn detail(&self) -> Seq<char> {
        match self {
            SbHarnessError::EngineInitialization(e) => e@,
            SbHarnessError::BinaryLoading(e) => e@,
            SbHarnessError::LinkerSetup(e) => e@,
            SbHarnessError::ProgramInstantiation(e) => e@,
            SbHarnessError::ProcessRefueling(e) => e@,
            SbHarnessError::ProcessRun(e) => e@,
        }
    }

    /// What the rendered error starts with, by variant.
    pub open spec fn heading(&self) -> Seq<char> {
        match self {
            SbHarnessError::EngineInitialization(_) => "Failed to initialize engine: "@,
            SbHarnessError::BinaryLoading(_) => "Failed to create component: "@,
            SbHarnessError::LinkerSetup(_) => "Failed to set up linker: "@,
            SbHarnessError::ProgramInstantiation(_) => "Failed to instantiate program: "@,
            SbHarnessError::ProcessRefueling(_) => "Failed to refuel process: "@,
            SbHarnessError::ProcessRun(_) => "Failed to run process: "@,
        }
    }

    /// The error as one line of text: the variant's heading, then the engine's description.
    pub fn to_string(&self) -> (text: String)
        ensures
            text@ == self.heading() + self.detail(),
    {
        match self {
            SbHarnessError::EngineInitialization(e) => String::from_str(
                "Failed to initialize engine: ",
            ).concat(e.as_str()),
            SbHarnessError::BinaryLoading(e) => String::from_str(
                "Failed to create component: ",
            ).concat(e.as_str()),
            SbHarnessError::LinkerSetup(e) => String::from_str("Failed to set up linker: ").concat(
                e.as_str(),
            ),
            SbHarnessError::ProgramInstantiation(e) => String::from_str(
                "Failed to instantiate program: ",
            ).concat(e.as_str()),
            SbHarnessError::ProcessRefueling(e) => String::from_str(
                "Failed to refuel process: ",
            ).concat(e.as_str()),
            SbHarnessError::ProcessRun(e) => String::from_str("Failed to run process: ").concat(
                e.as_str(),
            ),
        }
    }
}

} // verus!
