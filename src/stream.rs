use std::io::{Read, Write};
use std::sync::{Arc, Mutex, MutexGuard};
use vstd::prelude::*;

use crate::poison::{grant_or_fault, LockFault, Operation};

verus! {

#[verifier::external_type_specification]
#[verifier::external_body]
#[verifier::reject_recursive_types(T)]
pub struct ExMutex<T: ?Sized>(Mutex<T>);

#[verifier::external_type_specification]
#[verifier::external_body]
#[verifier::reject_recursive_types(T)]
pub struct ExMutexGuard<'a, T: ?Sized + 'a>(MutexGuard<'a, T>);

#[verifier::external_type_specification]
#[verifier::external_body]
pub struct ExIoError(std::io::Error);

#[verifier::external_type_specification]
pub struct ExErrorKind(std::io::ErrorKind);

/// The kind of an I/O error.
pub uninterp spec fn io_error_kind(e: std::io::Error) -> std::io::ErrorKind;

/// Relies on `io::Error::kind`: it reports the kind the error was made with.
pub assume_specification[ std::io::Error::kind ](e: &std::io::Error) -> (r: std::io::ErrorKind)
    ensures
        r == io_error_kind(*e),
;

/// `Mutex::new` only places the value behind a fresh, unpoisoned lock.
pub assume_specification<T>[ Mutex::<T>::new ](t: T) -> Mutex<T>;

/// A cloneable handle onto one duplex stream.
///
/// Every clone refers to the same lock-protected storage, so all handles see
/// one stream state, and each read, write or flush holds the lock for the
/// whole of the underlying call. The storage, and with it the stream, is
/// dropped when the last handle is.
#[derive(Debug)]
#[verifier::reject_recursive_types(T)]
pub struct ClonableStream<T>(Arc<Mutex<T>>);

impl<T> ClonableStream<T> {
    /// The shared, lock-protected storage that this handle refers to.
    pub closed spec fn storage(&self) -> Arc<Mutex<T>> {
        self.0
    }

    /// Takes the lock on the shared storage for `op`, or reports that an
    /// earlier holder poisoned it.
    fn acquire(&self, op: Operation) -> (r: Result<MutexGuard<'_, T>, LockFault>)
        ensures
            r is Err ==> r->Err_0 == LockFault::Poisoned(op),
    {
        grant_or_fault(op, lock_shared(&self.0))
    }
}

/// Relies on `Arc::clone`: a second pointer to the same allocation, whose
/// contents are therefore the same value.
#[verifier::external_body]
fn share<T>(a: &Arc<T>) -> (r: Arc<T>)
    ensures
        r == *a,
{
    Arc::clone(a)
}

/// Relies on `Mutex::lock`: the guard when the lock is taken, nothing when
/// the lock is poisoned. Whether it is poisoned depends on earlier holders,
/// so nothing is promised about which comes back.
#[verifier::external_body]
fn lock_shared<T>(m: &Mutex<T>) -> Option<MutexGuard<'_, T>> {
    m.lock().ok()
}

/// Relies on `io::Error::new`: an error of the given kind carrying `msg`.
#[verifier::external_body]
fn io_error(kind: std::io::ErrorKind, msg: &'static str) -> (r: std::io::Error)
    ensures
        io_error_kind(r) == kind,
{
    std::io::Error::new(kind, msg)
}

/// Relies on the stream's own `Read::read`, reached through the held guard.
#[verifier::external_body]
fn read_locked<T: Read>(g: &mut MutexGuard<'_, T>, buf: &mut [u8]) -> std::io::Result<usize> {
    g.read(buf)
}

/// Relies on the stream's own `Write::write`, reached through the held guard.
#[verifier::external_body]
fn write_locked<T: Write>(g: &mut MutexGuard<'_, T>, buf: &[u8]) -> std::io::Result<usize> {
    g.write(buf)
}

/// Relies on the stream's own `Write::flush`, reached through the held guard.
#[verifier::external_body]
fn flush_locked<T: Write>(g: &mut MutexGuard<'_, T>) -> std::io::Result<()> {
    g.flush()
}

impl LockFault {
    /// The I/O error a handle returns for this fault: a broken pipe whose
    /// message names the operation that found the lock poisoned.
    pub fn into_io_error(self) -> (r: std::io::Error)
        ensures
            io_error_kind(r) == std::io::ErrorKind::BrokenPipe,
    {
        io_error(std::io::ErrorKind::BrokenPipe, self.message())
    }
}

/// The I/O result a handle hands its caller: what the stream returned, as it
/// was, or for a fault a broken-pipe error.
pub fn into_io_result<X>(attempt: Result<std::io::Result<X>, LockFault>) -> (r: std::io::Result<X>)
    ensures
        attempt is Ok ==> r == attempt->Ok_0,
        attempt is Err ==> r is Err && io_error_kind(r->Err_0) == std::io::ErrorKind::BrokenPipe,
{
    match attempt {
        Ok(res) => res,
        Err(f) => Err(f.into_io_error()),
    }
}

impl<T: Read> ClonableStream<T> {
    /// Reads from the shared stream while holding the lock, or reports that
    /// the lock is poisoned; the stream's own result comes back unchanged.
    pub fn try_read(&mut self, buf: &mut [u8]) -> (r: Result<std::io::Result<usize>, LockFault>)
        ensures
            final(self).storage() == old(self).storage(),
            r is Err ==> r->Err_0 == LockFault::Poisoned(Operation::Read),
    {
        match self.acquire(Operation::Read) {
            Ok(mut g) => Ok(read_locked(&mut g, buf)),
            Err(f) => Err(f),
        }
    }
}

impl<T: Write> ClonableStream<T> {
    /// Writes to the shared stream while holding the lock, or reports that
    /// the lock is poisoned; the stream's own result comes back unchanged.
    pub fn try_write(&mut self, buf: &[u8]) -> (r: Result<std::io::Result<usize>, LockFault>)
        ensures
            final(self).storage() == old(self).storage(),
            r is Err ==> r->Err_0 == LockFault::Poisoned(Operation::Write),
    {
        match self.acquire(Operation::Write) {
            Ok(mut g) => Ok(write_locked(&mut g, buf)),
            Err(f) => Err(f),
        }
    }

    /// Flushes the shared stream while holding the lock, or reports that the
    /// lock is poisoned; the stream's own result comes back unchanged.
    pub fn try_flush(&mut self) -> (r: Result<std::io::Result<()>, LockFault>)
        ensures
            final(self).storage() == old(self).storage(),
            r is Err ==> r->Err_0 == LockFault::Poisoned(Operation::Flush),
    {
        match self.acquire(Operation::Flush) {
            Ok(mut g) => Ok(flush_locked(&mut g)),
            Err(f) => Err(f),
        }
    }
}

impl<T> From<T> for ClonableStream<T> {
    /// Wraps `stream` in new shared storage. No I/O is done.
    fn from(stream: T) -> Self {
        ClonableStream(Arc::new(Mutex::new(stream)))
    }
}

// A new lock is opaque to the verifier, so the conversion claims no spec value.
impl<T> vstd::std_specs::convert::FromSpecImpl<T> for ClonableStream<T> {
    open spec fn obeys_from_spec() -> bool {
        false
    }

    open spec fn from_spec(v: T) -> Self {
        arbitrary()
    }
}

impl<T> Clone for ClonableStream<T> {
    /// A new handle onto the same storage. The stream itself is not locked.
    fn clone(&self) -> (r: Self)
        ensures
            r.storage() == self.storage(),
    {
        ClonableStream(share(&self.0))
    }
}

impl<T: Read> Read for ClonableStream<T> {
    /// `try_read`, with a poisoned lock reported as a broken-pipe error.
    fn read(&mut self, buf: &mut [u8]) -> (r: std::io::Result<usize>)
        ensures
            final(self).storage() == old(self).storage(),
    {
        into_io_result(self.try_read(buf))
    }
}

impl<T: Write> Write for ClonableStream<T> {
    /// `try_write`, with a poisoned lock reported as a broken-pipe error.
    fn write(&mut self, buf: &[u8]) -> (r: std::io::Result<usize>)
        ensures
            final(self).storage() == old(self).storage(),
    {
        into_io_result(self.try_write(buf))
    }

    /// `try_flush`, with a poisoned lock reported as a broken-pipe error.
    fn flush(&mut self) -> (r: std::io::Result<()>)
        ensures
            final(self).storage() == old(self).storage(),
    {
        into_io_result(self.try_flush())
    }
}

} // verus!
