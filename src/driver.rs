use vstd::prelude::*;

verus! {

/// `std::io::Error`, carried opaquely through the driver's results.
#[verifier::external_type_specification]
#[verifier::external_body]
pub struct ExIoError(std::io::Error);

/// A handle that ends a driver's blocking wait from any thread.
pub trait Unpark: Sync + Send + 'static {
    /// Unblocks the thread parked on the associated driver. Makes the unpark
    /// token available if it is not already.
    fn unpark(&self);
}

impl Unpark for Box<dyn Unpark> {
    fn unpark(&self) {
        (**self).unpark()
    }
}

impl Unpark for std::sync::Arc<dyn Unpark> {
    fn unpark(&self) {
        (**self).unpark()
    }
}

/// The capability an executor drives: enter its context, flush, block.
pub trait Driver {
    /// Runs `f` with this driver installed as the thread's current driver.
    fn with<R>(&self, f: impl FnOnce() -> R) -> R;

    /// Submits pending requests without blocking, and reaps what completed.
    fn submit(&self) -> std::io::Result<()>;

    /// Blocks until some work is ready.
    fn park(&self) -> std::io::Result<()>;

    /// Blocks until some work is ready or `duration` passed.
    fn park_timeout(&self, duration: std::time::Duration) -> std::io::Result<()>;

    type Unpark: Unpark;

    /// A handle that ends this driver's blocking wait from another thread.
    fn unpark(&self) -> Self::Unpark;
}

} // verus!
