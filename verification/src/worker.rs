use crate::channel::{close, open, pull, push};
use crate::error::{transport, Error};
use crate::text::{cleaned, clean_panic_text};
use std::sync::mpsc::{Receiver, Sender};
use vstd::prelude::*;

verus! {

/// What an interpreter integration supplies to be run by a worker.
pub trait InnerWorker where
    Self: Send,
    <Self as InnerWorker>::RuntimeOptions: Send + 'static + Clone,
    <Self as InnerWorker>::Query: Send + 'static,
    <Self as InnerWorker>::Response: Send + 'static,
 {
    /// The interpreter instance, owned by the worker's thread alone.
    type Runtime;

    /// What an interpreter instance is built from.
    type RuntimeOptions;

    /// One unit of work.
    type Query;

    /// One unit of result.
    type Response;

    /// Builds the interpreter instance on the worker's thread.
    fn init_runtime(options: Self::RuntimeOptions) -> Result<Self::Runtime, Error>;

    /// Answers one query. A failure inside the interpreter is a response too.
    fn handle_query(runtime: &mut Self::Runtime, query: Self::Query) -> Self::Response;

    /// Serves queries, one at a time and in the order in which they were
    /// sent, until the query channel closes. It also ends when nobody is left
    /// to take a response, and after `u64::MAX` queries.
    fn thread(runtime: Self::Runtime, rx: Receiver<Self::Query>, tx: Sender<Self::Response>) {
        let mut runtime = runtime;
        let mut served: u64 = 0;
        while served < u64::MAX
            decreases u64::MAX - served,
        {
            let query = match pull(&rx) {
                Ok(query) => query,
                Err(_) => { return ; },
            };
            let response = Self::handle_query(&mut runtime, query);
            if push(&tx, response).is_err() {
                return ;
            }
            served = served + 1;
        }
    }
}

/// What the process around the library supplies: the interpreter platform's
/// one-time set-up, and threads.
pub trait Platform {
    /// A thread that was started and not yet joined.
    type Thread;

    /// Prepares the process for `n_threads` interpreter threads. It may be
    /// called again, with the same count or a larger one.
    fn init(n_threads: u32);

    /// Starts a thread that runs `body`.
    fn spawn<F>(body: F) -> Self::Thread where F: FnOnce() + Send + 'static
        requires
            body.requires(()),
    ;

    /// Waits for the thread to end. A thread that panicked gives `Err`, with
    /// the text of the panic where it left one.
    fn join(thread: Self::Thread) -> Result<(), Option<String>>;
}

/// What a worker's thread does from start to end: build the interpreter,
/// report how that went, and serve.
pub fn run_worker<W: InnerWorker>(
    options: W::RuntimeOptions,
    rx: Receiver<W::Query>,
    tx: Sender<W::Response>,
    report: Sender<Option<Error>>,
) {
    match W::init_runtime(options) {
        Ok(runtime) => {
            if push(&report, None).is_ok() {
                W::thread(runtime, rx, tx);
            }
        },
        Err(e) => {
            let _ = push(&report, Some(e));
        },
    }
}

/// What the thread of a new worker let its maker know.
pub enum Startup {
    /// The interpreter stands and the thread serves.
    Ready,
    /// The interpreter could not be built; the thread has ended.
    Refused(Error),
    /// The thread died without a word.
    Crashed,
}

/// Reads what came over the start-up channel.
pub fn read_startup(report: Result<Option<Error>, String>) -> (startup: Startup)
    ensures
        startup == match report {
            Ok(None) => Startup::Ready,
            Ok(Some(e)) => Startup::Refused(e),
            Err(_) => Startup::Crashed,
        },
{
    match report {
        Ok(None) => Startup::Ready,
        Ok(Some(e)) => Startup::Refused(e),
        Err(_) => Startup::Crashed,
    }
}

/// The text that stands for a thread that died while starting: what its panic
/// left, cleaned, or a fixed sentence where it left no text.
pub open spec fn crash_text(joined: Result<(), Option<String>>) -> Seq<char> {
    match joined {
        Err(Some(text)) => cleaned(text@),
        _ => cleaned("Could not start runtime thread"@),
    }
}

/// The error that stands for a thread that died while starting, given what
/// joining it gave.
pub fn crash_error(joined: Result<(), Option<String>>) -> (e: Error)
    ensures
        e matches Error::Runtime(text) && text@ == crash_text(joined),
{
    let text = match joined {
        Err(Some(text)) => clean_panic_text(text.as_str()),
        _ => clean_panic_text("Could not start runtime thread"),
    };
    Error::Runtime(text)
}

/// What `send` may answer on a worker that is live, or is not.
pub open spec fn may_send(live: bool, result: Result<(), Error>) -> bool {
    if live {
        result is Ok || result matches Err(Error::Runtime(_))
    } else {
        result == Err::<(), Error>(Error::WorkerHasStopped)
    }
}

/// Whether a worker is live once `shutdown` has returned.
pub open spec fn after_shutdown(live: bool) -> bool {
    false
}

/// What `join` may answer on a worker that is live, or is not.
pub open spec fn may_join(live: bool, result: Result<(), Error>) -> bool {
    ||| result is Ok
    ||| (live && (result matches Err(Error::Runtime(text)) && text@ == "Worker thread panicked"@))
}

/// Once a worker was shut down, every `send` on it answers that the worker
/// has stopped, whether the worker was live before the shutdown or not.
pub proof fn lemma_send_after_shutdown(live: bool, result: Result<(), Error>)
    requires
        may_send(after_shutdown(live), result),
    ensures
        result == Err::<(), Error>(Error::WorkerHasStopped),
{
}

/// A second shutdown changes nothing.
pub proof fn lemma_shutdown_twice(live: bool)
    ensures
        after_shutdown(after_shutdown(live)) == after_shutdown(live),
{
}

/// One interpreter on one thread of its own, reached through a pair of
/// channels.
pub struct Worker<W: InnerWorker, P: Platform> {
    /// The thread and the sending end of the query channel. The two are there
    /// together while the worker is live, and leave together at shutdown.
    link: Option<(P::Thread, Sender<W::Query>)>,
    /// The receiving end of the response channel.
    rx: Receiver<W::Response>,
}

impl<W: InnerWorker, P: Platform> Worker<W, P> {
    /// Whether the worker still holds its thread and its end of the query
    /// channel.
    pub closed spec fn is_live(self) -> bool {
        self.link is Some
    }

    /// The end of the response channel that the worker reads from. It stays
    /// the same for as long as the worker exists.
    pub closed spec fn inbox(self) -> Receiver<W::Response> {
        self.rx
    }

    /// Starts a thread, has it build an interpreter from `options`, and waits
    /// until it has said how that went. Where the interpreter could not be
    /// built, the error is the initializer's own; where the thread died before
    /// it could say anything, it is the `crash_error` of what joining it gave.
    pub fn new(options: W::RuntimeOptions) -> (result: Result<Self, Error>)
        ensures
            result matches Ok(worker) ==> worker.is_live(),
    {
        let (qtx, qrx) = open::<W::Query>();
        let (rtx, rrx) = open::<W::Response>();
        let (itx, irx) = open::<Option<Error>>();
        let thread = P::spawn(move || { run_worker::<W>(options, qrx, rtx, itx) });
        match read_startup(pull(&irx)) {
            Startup::Ready => Ok(Worker { link: Some((thread, qtx)), rx: rrx }),
            Startup::Refused(e) => Err(e),
            Startup::Crashed => Err(crash_error(P::join(thread))),
        }
    }

    /// Closes the query channel and waits for the thread to end. On a worker
    /// that was shut down before, nothing happens.
    pub fn shutdown(&mut self)
        ensures
            final(self).is_live() == after_shutdown(old(self).is_live()),
            final(self).inbox() == old(self).inbox(),
    {
        match self.link.take() {
            Some((handle, tx)) => {
                close(tx);
                let _ = P::join(handle);
            },
            None => {},
        }
    }

    /// Queues a query for the worker, without waiting.
    pub fn send(&self, query: W::Query) -> (result: Result<(), Error>)
        ensures
            may_send(self.is_live(), result),
    {
        match &self.link {
            None => Err(Error::WorkerHasStopped),
            Some((_, tx)) => transport(push(tx, query)),
        }
    }

    /// Waits for the next response of the worker.
    pub fn receive(&self) -> (result: Result<W::Response, Error>)
        ensures
            result is Ok || result matches Err(Error::Runtime(_)),
    {
        transport(pull(&self.rx))
    }

    /// Queues a query and waits for the response.
    pub fn send_and_await(&self, query: W::Query) -> (result: Result<W::Response, Error>)
        ensures
            !self.is_live() ==> result == Err::<W::Response, Error>(Error::WorkerHasStopped),
            self.is_live() ==> result is Ok || result matches Err(Error::Runtime(_)),
    {
        match self.send(query) {
            Ok(()) => self.receive(),
            Err(e) => Err(e),
        }
    }

    /// Waits for the thread to end, without closing the query channel first.
    pub fn join(self) -> (result: Result<(), Error>)
        ensures
            may_join(self.is_live(), result),
    {
        match self.link {
            Some((handle, _open)) => match P::join(handle) {
                Ok(()) => Ok(()),
                Err(_) => Err(Error::Runtime("Worker thread panicked".to_owned())),
            },
            None => Ok(()),
        }
    }
}

} // verus!
