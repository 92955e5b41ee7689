use vstd::prelude::*;
use clap::Arg;
use clap::ArgMatches;

verus! {

#[verifier::external_type_specification]
#[verifier::external_body]
pub struct ExArg<'a, 'b>(Arg<'a, 'b>) where 'a: 'b;

#[verifier::external_type_specification]
#[verifier::external_body]
pub struct ExArgMatches<'a>(ArgMatches<'a>);

/// A unit of work that is built from parsed arguments, stepped by repeated
/// ticks on a worker thread, and cleaned up once when the loop stops.
pub trait TickableService: Sized + Send + 'static {
    /// The command-line options this service recognizes (none by default).
    fn args<'a, 'b>() -> Vec<Arg<'a, 'b>> {
        Vec::new()
    }

    /// One step of work. It must return, so that the loop can check the
    /// termination channel again; the default does nothing.
    fn tick(&mut self) {
    }

    /// Cleanup, run exactly once after the last tick.
    fn finalize(self) {
    }

    fn build<'a>(args: &ArgMatches<'a>) -> Self;
}

/// Caller side of a running service. Both operations consume the handle, so
/// at most one of them is ever called, and only once.
pub trait Handle {
    /// Waits until the worker has finalized the service and ended.
    fn block_until_finished(self);

    /// Sends the termination signal, then waits as `block_until_finished` does.
    fn terminate(self);
}

/// Builds a service from parsed arguments and starts it in the background.
pub trait Builder {
    type H: Handle;

    fn args<'a, 'b>() -> Vec<Arg<'a, 'b>> {
        Vec::new()
    }

    fn start<'a>(matches: &ArgMatches<'a>) -> Self::H;
}

} // verus!
