//! Bringing up the ACPI interpreter: the order of its initialization stages and what a failed stage
//! reports.
use vstd::prelude::*;

verus! {

/// Errors of the ACPI namespace.
pub enum Error {
    /// A namespace path, as bytes without the terminating zero, that names no object.
    InvalidPath(Vec<u8>),
}

/// The interpreter's status code of success.
pub const UACPI_STATUS_OK: u32 = 0;

/// The interpreter's status code of something that exists already.
pub const UACPI_STATUS_ALREADY_EXISTS: u32 = 9;

/// The stage of initialization that failed, and the interpreter's status code.
#[derive(Debug, Clone, Copy, PartialEq, Eq)]
pub struct InitError {
    pub stage: &'static str,
    pub status: u32,
}

/// Turns the status of initialization stage `stage` into a result.
pub fn check(stage: &'static str, status: u32) -> (r: Result<(), InitError>)
    ensures
        status == UACPI_STATUS_OK ==> r is Ok,
        status != UACPI_STATUS_OK ==> (r matches Err(e) && e.stage == stage && e.status == status),
{
    if status == UACPI_STATUS_OK {
        Ok(())
    } else {
        Err(InitError { stage, status })
    }
}

/// The stages of initialization, in order.
#[derive(Debug, Clone, Copy, PartialEq, Eq, Structural)]
pub enum InitStage {
    SubsystemInitialization,
    NamespaceLoad,
    NamespaceInitialization,
    InterruptModelSelection,
    GpeInitialization,
}

impl InitStage {
    /// The stage after this one, if any.
    pub open spec fn next_spec(self) -> Option<InitStage> {
        match self {
            InitStage::SubsystemInitialization => Some(InitStage::NamespaceLoad),
            InitStage::NamespaceLoad => Some(InitStage::NamespaceInitialization),
            InitStage::NamespaceInitialization => Some(InitStage::InterruptModelSelection),
            InitStage::InterruptModelSelection => Some(InitStage::GpeInitialization),
            InitStage::GpeInitialization => None,
        }
    }

    /// The name of the stage, as a failure reports it.
    pub open spec fn name_text(self) -> Seq<char> {
        match self {
            InitStage::SubsystemInitialization => "subsystem initialization"@,
            InitStage::NamespaceLoad => "namespace load"@,
            InitStage::NamespaceInitialization => "namespace initialization"@,
            InitStage::InterruptModelSelection => "interrupt model selection"@,
            InitStage::GpeInitialization => "GPE initialization"@,
        }
    }

    /// The name of the stage, as a failure reports it.
    pub fn name(&self) -> (r: &'static str)
        ensures
            r@ == self.name_text(),
    {
        match self {
            InitStage::SubsystemInitialization => "subsystem initialization",
            InitStage::NamespaceLoad => "namespace load",
            InitStage::NamespaceInitialization => "namespace initialization",
            InitStage::InterruptModelSelection => "interrupt model selection",
            InitStage::GpeInitialization => "GPE initialization",
        }
    }
}

/// Starts initialization, unless it was started before: that is refused as a duplicate.
pub fn begin_initialization(already_started: bool) -> (r: Result<InitStage, InitError>)
    ensures
        !already_started ==> r == Ok::<InitStage, InitError>(InitStage::SubsystemInitialization),
        already_started ==> (r matches Err(e) && e.stage@ == "duplicate initialization"@
            && e.status == UACPI_STATUS_ALREADY_EXISTS),
{
    if already_started {
        Err(InitError { stage: "duplicate initialization", status: UACPI_STATUS_ALREADY_EXISTS })
    } else {
        Ok(InitStage::SubsystemInitialization)
    }
}

/// After stage `stage` returned `status`: the stage to run next (none once the last succeeded), or
/// the failure of this one, which ends initialization.
pub fn complete_stage(stage: InitStage, status: u32) -> (r: Result<Option<InitStage>, InitError>)
    ensures
        status == UACPI_STATUS_OK ==> r == Ok::<Option<InitStage>, InitError>(stage.next_spec()),
        status != UACPI_STATUS_OK ==> (r matches Err(e) && e.stage@ == stage.name_text()
            && e.status == status),
{
    match check(stage.name(), status) {
        Ok(()) => Ok(match stage {
            InitStage::SubsystemInitialization => Some(InitStage::NamespaceLoad),
            InitStage::NamespaceLoad => Some(InitStage::NamespaceInitialization),
            InitStage::NamespaceInitialization => Some(InitStage::InterruptModelSelection),
            InitStage::InterruptModelSelection => Some(InitStage::GpeInitialization),
            InitStage::GpeInitialization => None,
        }),
        Err(e) => Err(e),
    }
}

} // verus!
