//! The cancellation handle shared between a stream and its workers.
use vstd::prelude::*;

use std::sync::atomic::AtomicBool;
use std::sync::Arc;

use crate::connection::{input_result, InputError};

verus! {

/// The flags of one connection, shared by its handles.
pub struct ConnectionState {
    active: AtomicBool,
    stop_requested: AtomicBool,
}

/// Cloneable cancellation handle for a running stream worker.
#[derive(Clone)]
pub struct ConnectionControl {
    state: Arc<ConnectionState>,
}

impl ConnectionControl {
    /// A handle for a connection that is active or not, with a stop already
    /// requested or not.
    pub fn new(active: bool, stop_requested: bool) -> (res: Self) {
        ConnectionControl {
            state: Arc::new(
                ConnectionState {
                    active: AtomicBool::new(active),
                    stop_requested: AtomicBool::new(stop_requested),
                },
            ),
        }
    }

    /// Requests an orderly shutdown. Gives whether the connection is still
    /// active, in which case a worker blocked on the next frame must be
    /// woken.
    pub fn mark_stop_requested(&self) -> (active: bool) {
        self.state.stop_requested.store(true, std::sync::atomic::Ordering::Release);
        self.state.active.load(std::sync::atomic::Ordering::Acquire)
    }

    /// Whether shutdown has been requested.
    pub fn stop_requested(&self) -> (res: bool) {
        self.state.stop_requested.load(std::sync::atomic::Ordering::Acquire)
    }

    /// Whether the connection still accepts input.
    pub fn is_active(&self) -> (res: bool) {
        self.state.active.load(std::sync::atomic::Ordering::Acquire)
    }

    /// Marks the connection as stopped: it accepts no more input.
    pub fn deactivate(&self) {
        self.state.active.store(false, std::sync::atomic::Ordering::Release);
    }

    /// Queues one input packet through `send` unless the connection has
    /// stopped, in which case `send` is not called.
    pub fn send_input<F: FnOnce() -> i32>(&self, operation: &'static str, send: F) -> (res: Result<
        (),
        InputError,
    >)
        requires
            call_requires(send, ()),
        ensures
            res is Ok ==> call_ensures(send, (), 0i32),
            res matches Err(InputError::Core { operation: o, code }) ==> o == operation && code != 0
                && call_ensures(send, (), code),
    {
        if !self.is_active() {
            return Err(InputError::ConnectionInactive);
        }
        let code = send();
        input_result(operation, code)
    }
}

} // verus!
