//! Error taxonomy of the session engine and the exit codes reported to
//! scripting callers.  Each failure category has its own non-zero exit
//! code, so callers can distinguish the failure class.

use vstd::prelude::*;

verus! {

/// A fatal fault of one session attempt.  Cleanup failures are not a
/// `Fault`: they are reported beside the primary outcome and never mask it.
#[derive(Clone, Copy, Debug, PartialEq, Eq, Structural)]
pub enum Fault {
    /// The daemon was unreachable or refused the connection.
    Connection,
    /// The target string matched several candidates and none could be picked.
    ResolutionAmbiguous,
    /// The target string matched neither a container nor an image.
    ResolutionNotFound,
    /// No candidate shell exists inside the execution context.
    ShellNotFound,
    /// The daemon denied the requested privilege or identity.
    Permission,
    /// The daemon failed to create the ephemeral container.
    CreateFailed,
    /// The daemon failed to start the ephemeral container.
    StartFailed,
    /// The daemon failed to start the exec session.
    ExecFailed,
    /// The target is a stopped container; stopped targets are never
    /// implicitly started.
    TargetNotRunning,
}

/// How a session attempt ended.
#[derive(Clone, Copy, Debug, PartialEq, Eq, Structural)]
pub enum Outcome {
    /// The remote process exited; its exit code is mirrored.
    Exited(u8),
    /// The transport closed before the remote process reported an exit
    /// code.
    Disconnected,
    /// An external cancellation request ended the session.
    Interrupted,
    /// A fatal fault ended the session.
    Failed(Fault),
}

/// The failure classes of the taxonomy: several `Fault` variants share a
/// class (both resolution faults; all four session faults).
#[derive(Clone, Copy, Debug, PartialEq, Eq, Structural)]
pub enum FaultClass {
    Connection,
    Resolution,
    ShellNotFound,
    Permission,
    Session,
}

/// The class a fault belongs to.
pub open spec fn fault_class(f: Fault) -> FaultClass {
    match f {
        Fault::Connection => FaultClass::Connection,
        Fault::ResolutionAmbiguous => FaultClass::Resolution,
        Fault::ResolutionNotFound => FaultClass::Resolution,
        Fault::ShellNotFound => FaultClass::ShellNotFound,
        Fault::Permission => FaultClass::Permission,
        Fault::CreateFailed => FaultClass::Session,
        Fault::StartFailed => FaultClass::Session,
        Fault::ExecFailed => FaultClass::Session,
        Fault::TargetNotRunning => FaultClass::Session,
    }
}

/// Exit code of a fault class: non-zero, and distinct per class.
pub open spec fn class_code(c: FaultClass) -> u8 {
    match c {
        FaultClass::Connection => 10,
        FaultClass::Resolution => 11,
        FaultClass::ShellNotFound => 12,
        FaultClass::Permission => 13,
        FaultClass::Session => 14,
    }
}

/// Exit code of an outcome: a clean exit mirrors the remote process's
/// code, a closure without a code gets its own non-zero code distinct
/// from every fault class, cancellation uses the conventional interrupt
/// code, and each fault class has its own code.
pub open spec fn outcome_code(o: Outcome) -> u8 {
    match o {
        Outcome::Exited(c) => c,
        Outcome::Disconnected => 15,
        Outcome::Interrupted => 130,
        Outcome::Failed(f) => class_code(fault_class(f)),
    }
}

/// The process exit code for an outcome.
pub fn exit_code(o: Outcome) -> (c: u8)
    ensures
        c == outcome_code(o),
{
    match o {
        Outcome::Exited(code) => code,
        Outcome::Disconnected => 15,
        Outcome::Interrupted => 130,
        Outcome::Failed(f) => match fault_class_of(f) {
            FaultClass::Connection => 10,
            FaultClass::Resolution => 11,
            FaultClass::ShellNotFound => 12,
            FaultClass::Permission => 13,
            FaultClass::Session => 14,
        },
    }
}

/// The failure class of a fault.
pub fn fault_class_of(f: Fault) -> (c: FaultClass)
    ensures
        c == fault_class(f),
{
    match f {
        Fault::Connection => FaultClass::Connection,
        Fault::ResolutionAmbiguous => FaultClass::Resolution,
        Fault::ResolutionNotFound => FaultClass::Resolution,
        Fault::ShellNotFound => FaultClass::ShellNotFound,
        Fault::Permission => FaultClass::Permission,
        Fault::CreateFailed => FaultClass::Session,
        Fault::StartFailed => FaultClass::Session,
        Fault::ExecFailed => FaultClass::Session,
        Fault::TargetNotRunning => FaultClass::Session,
    }
}

/// Law: every fault class has a non-zero exit code, and two different
/// fault classes never share one, so scripting callers can always tell
/// the failure classes apart.
pub proof fn lemma_fault_codes_distinct()
    ensures
        forall|c: FaultClass| class_code(c) != 0,
        forall|c1: FaultClass, c2: FaultClass| c1 != c2 ==> class_code(c1) != class_code(c2),
{
}

} // verus!
