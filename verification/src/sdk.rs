//! The SDK context: an initialization flag and a FIFO event queue, threaded
//! explicitly through every operation.
//!
//! The native layer itself is reached only from unverified edge code.  Each
//! operation that consults it takes the native outcome as a plain argument,
//! and its contract pins the result for every possible outcome; in
//! particular, whenever the context is not initialized the result is the
//! operation's "not initialized" value no matter what the native layer would
//! have answered, so the edge need not (and does not) consult it at all.

use vstd::prelude::*;

use crate::callback::{RawPayload, TapEvent, TapEventView, spec_parse_event};
use crate::error::{InitResult, TapSdkError, nul_position, str_nul_index, spec_init_result};

verus! {

/// Mathematical view of a [`TapSdk`] context: whether the SDK is initialized,
/// and the queued events in arrival order.
pub ghost struct SdkView {
    pub initialized: bool,
    pub events: Seq<TapEventView>,
}

/// An SDK context.
///
/// It owns the process state the wrapper needs: the initialization flag,
/// true exactly between a successful [`TapSdk::init`] and a
/// [`TapSdk::shutdown`], and the queue of events dispatched by native
/// callbacks and not yet polled.
#[derive(Debug)]
pub struct TapSdk {
    initialized: bool,
    queue: Vec<TapEvent>,
}

impl View for TapSdk {
    type V = SdkView;

    closed spec fn view(&self) -> SdkView {
        SdkView {
            initialized: self.initialized,
            events: self.queue@.map_values(|e: TapEvent| e@),
        }
    }
}

impl TapSdk {
    /// A fresh context: not initialized, with an empty event queue.
    pub fn new() -> (r: TapSdk)
        ensures
            !r@.initialized,
            r@.events == Seq::<TapEventView>::empty(),
    {
        let r = TapSdk { initialized: false, queue: Vec::new() };
        proof {
            assert(r@.events =~= Seq::<TapEventView>::empty());
        }
        r
    }

    /// Whether the SDK has been initialized.
    pub fn is_initialized(&self) -> (r: bool)
        ensures
            r == self@.initialized,
    {
        self.initialized
    }

    /// Complete an initialization attempt.
    ///
    /// `native_result` and `native_message` are the native initialize call's
    /// result code and error message; when the attempt is rejected locally
    /// (already initialized, or a terminator byte embedded in the key) the
    /// result does not depend on them, and the native layer need not have
    /// been consulted.  The flag becomes true exactly when a fresh attempt
    /// with a clean key carries the successful native result; a failed
    /// attempt leaves the context unchanged.
    pub fn init(&mut self, pub_key: &str, native_result: u32, native_message: String) -> (r:
        Result<(), TapSdkError>)
        ensures
            final(self)@.events == old(self)@.events,
            old(self)@.initialized ==> {
                &&& !r.is_ok()
                &&& r matches Err(TapSdkError::InvalidArgument(m)) && m@ == "SDK already initialized"@
                &&& final(self)@.initialized
            },
            !old(self)@.initialized ==> (str_nul_index(pub_key@) matches Some(i) ==> {
                &&& r == Err::<(), TapSdkError>(TapSdkError::NulError(i as usize))
                &&& !final(self)@.initialized
            }),
            !old(self)@.initialized && str_nul_index(pub_key@) is None ==> {
                if spec_init_result(native_result) == InitResult::Success {
                    &&& r == Ok::<(), TapSdkError>(())
                    &&& final(self)@.initialized
                } else {
                    &&& r == Err::<(), TapSdkError>(
                        TapSdkError::InitFailed {
                            result: spec_init_result(native_result),
                            message: native_message,
                        },
                    )
                    &&& !final(self)@.initialized
                }
            },
    {
        if self.initialized {
            return Err(TapSdkError::InvalidArgument("SDK already initialized".to_owned()));
        }
        match nul_position(pub_key) {
            Some(i) => {
                return Err(TapSdkError::NulError(i));
            },
            None => {},
        }
        let init_result = InitResult::from(native_result);
        if init_result != InitResult::Success {
            return Err(TapSdkError::InitFailed { result: init_result, message: native_message });
        }
        self.initialized = true;
        Ok(())
    }

    /// Get the client ID.
    ///
    /// `native_success` and `native_value` are the native query's success
    /// flag and output buffer; an uninitialized context answers `None`
    /// without them, and so does a failed query or an empty buffer.
    pub fn get_client_id(&self, native_success: bool, native_value: String) -> (r: Option<String>)
        ensures
            !self@.initialized ==> r is None,
            self@.initialized && !native_success ==> r is None,
            self@.initialized && native_success && native_value@.len() == 0 ==> r is None,
            self@.initialized && native_success && native_value@.len() > 0 ==> r == Some(
                native_value,
            ),
    {
        if !self.initialized {
            return None;
        }
        if !native_success {
            return None;
        }
        if native_value.as_str().is_empty() {
            None
        } else {
            Some(native_value)
        }
    }

    /// Record one dispatched event: convert the raw payload to an owned
    /// event and append it to the queue.  Nothing else changes.
    pub fn dispatch(&mut self, event_id: u32, payload: Option<RawPayload>)
        ensures
            final(self)@.initialized == old(self)@.initialized,
            final(self)@.events == old(self)@.events.push(spec_parse_event(event_id, payload)),
    {
        let ghost p = payload;
        let event = crate::callback::parse_event(event_id, payload);
        self.queue.push(event);
        proof {
            assert(self@.events =~= old(self)@.events.push(spec_parse_event(event_id, p)));
        }
    }

    /// Remove and return every queued event, in the order dispatched,
    /// leaving the queue empty.  An empty queue yields an empty sequence.
    pub fn poll_events(&mut self) -> (r: Vec<TapEvent>)
        ensures
            final(self)@.initialized == old(self)@.initialized,
            final(self)@.events == Seq::<TapEventView>::empty(),
            r@.map_values(|e: TapEvent| e@) == old(self)@.events,
            r@.len() == old(self)@.events.len(),
            old(self)@.events.len() == 0 ==> r@.len() == 0,
    {
        let mut out: Vec<TapEvent> = Vec::new();
        core::mem::swap(&mut out, &mut self.queue);
        proof {
            assert(self@.events =~= Seq::<TapEventView>::empty());
        }
        out
    }

    /// Poll for events: the native callback pump runs first at the edge (it
    /// may dispatch synchronously), then the queue is drained in FIFO order.
    pub fn run_callbacks(&mut self) -> (r: Vec<TapEvent>)
        ensures
            final(self)@.initialized == old(self)@.initialized,
            final(self)@.events == Seq::<TapEventView>::empty(),
            r@.map_values(|e: TapEvent| e@) == old(self)@.events,
            r@.len() == old(self)@.events.len(),
    {
        self.poll_events()
    }

    /// Shut down the SDK: clear the initialization flag.  Unregistering the
    /// callbacks and stopping the native layer happen at the edge; queued
    /// events are kept, as the native layer keeps its queue across a
    /// shutdown.
    pub fn shutdown(&mut self)
        ensures
            !final(self)@.initialized,
            final(self)@.events == old(self)@.events,
    {
        self.initialized = false;
    }
}

/// Check whether the app needs to restart (to be called before `init`).
///
/// `native_restart` is the native check's answer; a client ID with an
/// embedded terminator byte is rejected before any native call, whatever
/// that answer would have been.
pub fn restart_app_if_necessary(client_id: &str, native_restart: bool) -> (r: Result<
    bool,
    TapSdkError,
>)
    ensures
        (str_nul_index(client_id@) matches Some(i) ==> r == Err::<bool, TapSdkError>(
            TapSdkError::NulError(i as usize),
        )),
        str_nul_index(client_id@) is None ==> r == Ok::<bool, TapSdkError>(native_restart),
{
    match nul_position(client_id) {
        Some(i) => Err(TapSdkError::NulError(i)),
        None => Ok(native_restart),
    }
}

/// Whether the SDK context has been initialized, as a free-standing check.
pub fn is_initialized(sdk: &TapSdk) -> (r: bool)
    ensures
        r == sdk@.initialized,
{
    sdk.is_initialized()
}

/// The queue contents after dispatching a sequence of events, one at a time,
/// onto a queue that already holds `q`.
pub open spec fn enqueue_all(q: Seq<TapEventView>, es: Seq<TapEventView>) -> Seq<TapEventView>
    decreases es.len(),
{
    if es.len() == 0 {
        q
    } else {
        enqueue_all(q.push(es[0]), es.drop_first())
    }
}

/// Dispatching a sequence of events appends them to the queue in dispatch
/// order.
pub proof fn lemma_enqueue_all_appends(q: Seq<TapEventView>, es: Seq<TapEventView>)
    ensures
        enqueue_all(q, es) == q + es,
    decreases es.len(),
{
    if es.len() == 0 {
        assert(enqueue_all(q, es) =~= q + es);
    } else {
        lemma_enqueue_all_appends(q.push(es[0]), es.drop_first());
        assert(q.push(es[0]) + es.drop_first() =~= q + es);
    }
}

/// After any number of dispatch invocations on an initially empty queue,
/// one poll returns exactly those events, in the order dispatched: each
/// [`TapSdk::dispatch`] pushes one event, so the queue a poll drains is
/// `enqueue_all` of the dispatched events, which is just those events.
pub proof fn lemma_poll_returns_dispatches_in_order(es: Seq<TapEventView>)
    ensures
        enqueue_all(Seq::<TapEventView>::empty(), es) == es,
{
    lemma_enqueue_all_appends(Seq::<TapEventView>::empty(), es);
    assert(Seq::<TapEventView>::empty() + es =~= es);
}

} // verus!

