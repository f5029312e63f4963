//! Action descriptor types.

use vstd::prelude::*;

verus! {

/// Executor backend.
#[derive(Clone, Copy, Debug, PartialEq, Eq, Structural)]
pub enum Executor {
    /// Typed OpenUDS command.
    OpenUds,
    /// Wrapped `cli.execute` for an operation without a typed command.
    CliExecute,
    /// Raw PMP console (`cli.execute` with arbitrary input, full audit).
    CliRaw,
    /// Internal PPB operation.
    Internal,
}

impl Executor {
    pub open spec fn text(self) -> Seq<char> {
        match self {
            Executor::OpenUds => "openuds"@,
            Executor::CliExecute => "cliexecute"@,
            Executor::CliRaw => "cliraw"@,
            Executor::Internal => "internal"@,
        }
    }

    /// Serialized name (lowercase).
    pub fn as_str(&self) -> (s: &'static str)
        ensures
            s@ == self.text(),
    {
        match self {
            Executor::OpenUds => "openuds",
            Executor::CliExecute => "cliexecute",
            Executor::CliRaw => "cliraw",
            Executor::Internal => "internal",
        }
    }
}

/// Risk level, ordered `Low < Medium < High < Critical`.
#[derive(Clone, Copy, Debug, PartialEq, Eq, Structural)]
pub enum Risk {
    Low,
    Medium,
    High,
    Critical,
}

impl Risk {
    /// Position in the order `Low < Medium < High < Critical`.
    pub open spec fn rank(self) -> nat {
        match self {
            Risk::Low => 0,
            Risk::Medium => 1,
            Risk::High => 2,
            Risk::Critical => 3,
        }
    }

    pub open spec fn text(self) -> Seq<char> {
        match self {
            Risk::Low => "low"@,
            Risk::Medium => "medium"@,
            Risk::High => "high"@,
            Risk::Critical => "critical"@,
        }
    }

    /// Serialized name (lowercase).
    pub fn as_str(&self) -> (s: &'static str)
        ensures
            s@ == self.text(),
    {
        match self {
            Risk::Low => "low",
            Risk::Medium => "medium",
            Risk::High => "high",
            Risk::Critical => "critical",
        }
    }

    /// `self >= other` in the risk order.
    pub fn at_least(&self, other: Risk) -> (b: bool)
        ensures
            b == (self.rank() >= other.rank()),
    {
        let a: u8 = match self {
            Risk::Low => 0,
            Risk::Medium => 1,
            Risk::High => 2,
            Risk::Critical => 3,
        };
        let b: u8 = match other {
            Risk::Low => 0,
            Risk::Medium => 1,
            Risk::High => 2,
            Risk::Critical => 3,
        };
        a >= b
    }
}

/// Mathematical model of one action descriptor.
pub struct ActionSpec {
    pub id: Seq<char>,
    pub permission: Seq<char>,
    pub executor: Executor,
    pub risk: Risk,
    pub audit: bool,
    pub reauth: bool,
    pub host_allowed: bool,
    pub queue_key: Seq<char>,
    pub long_running: bool,
}

/// One action descriptor.
#[derive(Clone, Copy, Debug)]
pub struct ActionDescriptor {
    pub id: &'static str,
    pub permission: &'static str,
    pub executor: Executor,
    pub risk: Risk,
    pub audit: bool,
    pub reauth: bool,
    pub host_allowed: bool,
    pub queue_key: &'static str,
    pub long_running: bool,
}

impl View for ActionDescriptor {
    type V = ActionSpec;

    open spec fn view(&self) -> ActionSpec {
        ActionSpec {
            id: self.id@,
            permission: self.permission@,
            executor: self.executor,
            risk: self.risk,
            audit: self.audit,
            reauth: self.reauth,
            host_allowed: self.host_allowed,
            queue_key: self.queue_key@,
            long_running: self.long_running,
        }
    }
}

impl ActionDescriptor {
    #[allow(clippy::too_many_arguments)]
    pub fn new(
        id: &'static str,
        permission: &'static str,
        executor: Executor,
        risk: Risk,
        audit: bool,
        reauth: bool,
        host_allowed: bool,
        queue_key: &'static str,
        long_running: bool,
    ) -> (d: ActionDescriptor)
        ensures
            d.id == id,
            d.permission == permission,
            d.executor == executor,
            d.risk == risk,
            d.audit == audit,
            d.reauth == reauth,
            d.host_allowed == host_allowed,
            d.queue_key == queue_key,
            d.long_running == long_running,
    {
        ActionDescriptor { id, permission, executor, risk, audit, reauth, host_allowed, queue_key, long_running }
    }
}

} // verus!
