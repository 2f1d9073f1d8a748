use vstd::prelude::*;

verus! {

/// The three operations a handle forwards to the shared stream.
#[derive(Clone, Copy, Debug, PartialEq, Eq, Structural)]
pub enum Operation {
    Read,
    Write,
    Flush,
}

/// Why a handle could not reach the shared stream.
#[derive(Clone, Copy, Debug, PartialEq, Eq, Structural)]
pub enum LockFault {
    /// An earlier holder of the lock panicked while holding it.
    Poisoned(Operation),
}

/// The diagnostic that names the operation which found the lock poisoned.
pub open spec fn diagnostic_text(op: Operation) -> Seq<char> {
    match op {
        Operation::Read => "Unable to acquire lock on ClonableStream read operation"@,
        Operation::Write => "Unable to acquire lock on ClonableStream write operation"@,
        Operation::Flush => "Unable to acquire lock on ClonableStream flush operation"@,
    }
}

impl LockFault {
    /// The operation that found the lock poisoned.
    pub open spec fn operation(self) -> Operation {
        match self {
            LockFault::Poisoned(op) => op,
        }
    }

    /// The diagnostic for this fault.
    pub fn message(&self) -> (r: &'static str)
        ensures
            r@ == diagnostic_text(self.operation()),
    {
        match self {
            LockFault::Poisoned(Operation::Read) => {
                let s = "Unable to acquire lock on ClonableStream read operation";
                proof {
                    reveal_strlit("Unable to acquire lock on ClonableStream read operation");
                }
                s
            },
            LockFault::Poisoned(Operation::Write) => {
                let s = "Unable to acquire lock on ClonableStream write operation";
                proof {
                    reveal_strlit("Unable to acquire lock on ClonableStream write operation");
                }
                s
            },
            LockFault::Poisoned(Operation::Flush) => {
                let s = "Unable to acquire lock on ClonableStream flush operation";
                proof {
                    reveal_strlit("Unable to acquire lock on ClonableStream flush operation");
                }
                s
            },
        }
    }
}

/// Turns the outcome of a lock attempt made for `op` into access or a fault:
/// a held guard is handed through untouched, a poisoned lock becomes
/// `LockFault::Poisoned(op)`.
pub fn grant_or_fault<G>(op: Operation, guard: Option<G>) -> (r: Result<G, LockFault>)
    ensures
        guard is Some ==> r == Ok::<G, LockFault>(guard->0),
        guard is None ==> r == Err::<G, LockFault>(LockFault::Poisoned(op)),
{
    match guard {
        Some(g) => Ok(g),
        None => Err(LockFault::Poisoned(op)),
    }
}

/// The diagnostic of a poisoned lock identifies the operation that found it:
/// two operations share a diagnostic only when they are the same operation.
pub proof fn diagnostic_identifies_operation(a: Operation, b: Operation)
    ensures
        diagnostic_text(a) == diagnostic_text(b) <==> a == b,
{
    reveal_strlit("Unable to acquire lock on ClonableStream read operation");
    reveal_strlit("Unable to acquire lock on ClonableStream write operation");
    reveal_strlit("Unable to acquire lock on ClonableStream flush operation");
    if diagnostic_text(a) == diagnostic_text(b) && a != b {
        assert(diagnostic_text(a)[41] != diagnostic_text(b)[41]);
    }
}

} // verus!
