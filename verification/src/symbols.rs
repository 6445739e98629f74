//! The module's entry points: which are mandatory, and the table that a
//! lookup of their exported names yields.

use vstd::prelude::*;
use crate::error::HostError;

verus! {

/// A logical operation of the module's entry-point table.
#[derive(Debug, Clone, Copy, PartialEq, Eq, Structural)]
pub enum Operation {
    Create,
    Update,
    Destroy,
    SetupLogger,
    ShowArgs,
    LoadUrl,
}

impl Operation {
    /// The lifecycle operations are mandatory; the others may be absent.
    pub open spec fn required(self) -> bool {
        self is Create || self is Update || self is Destroy
    }

    /// The name under which the module exports the operation.
    pub open spec fn symbol(self) -> Seq<char> {
        match self {
            Operation::Create => "core_create"@,
            Operation::Update => "core_update"@,
            Operation::Destroy => "core_destroy"@,
            Operation::SetupLogger => "core_setup_logger"@,
            Operation::ShowArgs => "core_show_args"@,
            Operation::LoadUrl => "core_load_url"@,
        }
    }

    pub fn is_required(&self) -> (r: bool)
        ensures
            r == self.required(),
    {
        match self {
            Operation::Create | Operation::Update | Operation::Destroy => true,
            Operation::SetupLogger | Operation::ShowArgs | Operation::LoadUrl => false,
        }
    }

    pub fn exported_name(&self) -> (name: &'static str)
        ensures
            name@ == self.symbol(),
    {
        match self {
            Operation::Create => "core_create",
            Operation::Update => "core_update",
            Operation::Destroy => "core_destroy",
            Operation::SetupLogger => "core_setup_logger",
            Operation::ShowArgs => "core_show_args",
            Operation::LoadUrl => "core_load_url",
        }
    }
}

/// What a lookup of each exported name in a loaded module found.
#[derive(Debug, Clone, Copy, PartialEq, Eq, Structural)]
pub struct ExportReport {
    pub create: bool,
    pub update: bool,
    pub destroy: bool,
    pub setup_logger: bool,
    pub show_args: bool,
    pub load_url: bool,
}

impl ExportReport {
    pub open spec fn has(self, op: Operation) -> bool {
        match op {
            Operation::Create => self.create,
            Operation::Update => self.update,
            Operation::Destroy => self.destroy,
            Operation::SetupLogger => self.setup_logger,
            Operation::ShowArgs => self.show_args,
            Operation::LoadUrl => self.load_url,
        }
    }

    /// The mandatory operation that is reported first when several are
    /// absent: create, then destroy, then update.
    pub open spec fn first_missing(self) -> Option<Operation> {
        if !self.create {
            Some(Operation::Create)
        } else if !self.destroy {
            Some(Operation::Destroy)
        } else if !self.update {
            Some(Operation::Update)
        } else {
            None
        }
    }

    pub fn found(&self, op: Operation) -> (r: bool)
        ensures
            r == self.has(op),
    {
        match op {
            Operation::Create => self.create,
            Operation::Update => self.update,
            Operation::Destroy => self.destroy,
            Operation::SetupLogger => self.setup_logger,
            Operation::ShowArgs => self.show_args,
            Operation::LoadUrl => self.load_url,
        }
    }
}

/// The bound entry-point table of a module: the three lifecycle operations
/// are present, and each optional one is present exactly where its flag says.
#[derive(Debug, Clone, Copy, PartialEq, Eq, Structural)]
pub struct Core {
    pub can_setup_logger: bool,
    pub can_show_args: bool,
    pub can_load_url: bool,
}

impl Core {
    /// Whether a call of `op` may be made through this table.
    pub open spec fn offers(self, op: Operation) -> bool {
        match op {
            Operation::Create | Operation::Update | Operation::Destroy => true,
            Operation::SetupLogger => self.can_setup_logger,
            Operation::ShowArgs => self.can_show_args,
            Operation::LoadUrl => self.can_load_url,
        }
    }

    /// The table that a report without a missing mandatory export yields.
    pub open spec fn bound_from(found: ExportReport) -> Core {
        Core {
            can_setup_logger: found.setup_logger,
            can_show_args: found.show_args,
            can_load_url: found.load_url,
        }
    }

    /// What binding a report gives: the table, or the missing mandatory name.
    pub open spec fn resolution(found: ExportReport) -> Result<Core, HostError> {
        match found.first_missing() {
            Some(name) => Err(HostError::MissingRequiredSymbol { name }),
            None => Ok(Core::bound_from(found)),
        }
    }

    /// Binds the entry-point table from what the lookups found. A missing
    /// mandatory export is an error that names it; a missing optional one
    /// clears its capability flag.
    pub fn new(found: &ExportReport) -> (r: Result<Core, HostError>)
        ensures
            r == Core::resolution(*found),
    {
        if !found.create {
            Err(HostError::MissingRequiredSymbol { name: Operation::Create })
        } else if !found.destroy {
            Err(HostError::MissingRequiredSymbol { name: Operation::Destroy })
        } else if !found.update {
            Err(HostError::MissingRequiredSymbol { name: Operation::Update })
        } else {
            Ok(
                Core {
                    can_setup_logger: found.setup_logger,
                    can_show_args: found.show_args,
                    can_load_url: found.load_url,
                },
            )
        }
    }

    /// Whether `op` may be called; consulted before every optional call.
    pub fn can(&self, op: Operation) -> (r: bool)
        ensures
            r == self.offers(op),
    {
        match op {
            Operation::Create | Operation::Update | Operation::Destroy => true,
            Operation::SetupLogger => self.can_setup_logger,
            Operation::ShowArgs => self.can_show_args,
            Operation::LoadUrl => self.can_load_url,
        }
    }
}

/// Binding succeeds exactly when the three lifecycle exports are present, and
/// then every operation is offered exactly where the report has it.
pub proof fn lemma_resolution_succeeds(found: ExportReport)
    ensures
        Core::resolution(found) is Ok <==> (found.create && found.update && found.destroy),
        Core::resolution(found) is Ok ==> forall|op: Operation|
            Core::resolution(found)->Ok_0.offers(op) == found.has(op),
{
}

/// A failed binding names a mandatory operation that the module lacks, and
/// no error other than a missing export comes out of binding.
pub proof fn lemma_resolution_names_missing(found: ExportReport)
    requires
        Core::resolution(found) is Err,
    ensures
        Core::resolution(found)->Err_0 is MissingRequiredSymbol,
        Core::resolution(found)->Err_0->name.required(),
        !found.has(Core::resolution(found)->Err_0->name),
{
}

/// Where exactly one lifecycle export is absent, the error names that one.
pub proof fn lemma_single_missing_is_named(found: ExportReport, op: Operation)
    requires
        op.required(),
        !found.has(op),
        forall|other: Operation|
            other.required() && other != op ==> #[trigger] found.has(other),
    ensures
        Core::resolution(found) == Err::<Core, HostError>(
            HostError::MissingRequiredSymbol { name: op },
        ),
{
    assert(found.has(Operation::Create) || op == Operation::Create);
    assert(found.has(Operation::Update) || op == Operation::Update);
    assert(found.has(Operation::Destroy) || op == Operation::Destroy);
}

/// A module without the logger entry point still binds, with the injection
/// capability off.
pub proof fn lemma_logger_absent(found: ExportReport)
    requires
        found.create && found.update && found.destroy,
        !found.setup_logger,
    ensures
        Core::resolution(found) is Ok,
        !Core::resolution(found)->Ok_0.can_setup_logger,
{
}

} // verus!
