//! The status reporter: the record a service advertises to the service control
//! manager, and the rule that decides when the record is to be published.
//!
//! Nothing here talks to the manager. Every operation hands back the records
//! that are due for publication, in the order in which they are due; whoever
//! holds the connection to the manager delivers them.

use crate::windows::{ACCEPTED_CONTROLS, CURRENT_SERVICE_STATUS, SERVICE_STATUS_HANDLE, SERVICE_TYPE};
use vstd::prelude::*;

verus! {

/// How long, in milliseconds, the manager is told to wait for a pending
/// transition before it takes the service for unresponsive.
pub const WAIT_HINT_MS: u32 = 10000;

/// Why a service could not be brought up.
#[derive(Clone, Copy, Debug, PartialEq, Eq, Structural)]
pub enum ServiceError {
    /// The manager refused to register the control handler. There is nothing to
    /// retry: the process was not started by the manager as this service.
    RegistrationFailed,
}

/// What a status record says beyond the parts that never change.
pub struct StatusView {
    /// The lifecycle state on record.
    pub state: CURRENT_SERVICE_STATUS,
    /// The exit code on record.
    pub exit_code: u32,
    /// The registration the record is published under.
    pub handle: SERVICE_STATUS_HANDLE,
}

impl StatusView {
    /// The record of a registration that has reported nothing yet.
    pub open spec fn fresh(handle: SERVICE_STATUS_HANDLE) -> StatusView {
        StatusView { state: CURRENT_SERVICE_STATUS::SERVICE_STOPPED, exit_code: 0, handle }
    }

    /// The same record in another state.
    pub open spec fn with_state(self, state: CURRENT_SERVICE_STATUS) -> StatusView {
        StatusView { state, ..self }
    }

    /// The same record with another exit code.
    pub open spec fn with_exit_code(self, exit_code: u32) -> StatusView {
        StatusView { exit_code, ..self }
    }

    /// What a request for `state` publishes: the updated record if the state
    /// on record is another one, and nothing if it is the same.
    pub open spec fn publishes(self, state: CURRENT_SERVICE_STATUS) -> Seq<StatusView> {
        if state != self.state {
            seq![self.with_state(state)]
        } else {
            Seq::empty()
        }
    }

    /// What bringing the service to its end with `code` publishes: the move to
    /// stop-pending, still under the exit code on record, unless the record
    /// already is stop-pending; then the stopped record under `code`.
    pub open spec fn exit_publishes(self, code: u32) -> Seq<StatusView> {
        let stopped = self.with_state(CURRENT_SERVICE_STATUS::SERVICE_STOPPED).with_exit_code(
            code,
        );
        if self.state != CURRENT_SERVICE_STATUS::SERVICE_STOP_PENDING {
            seq![self.with_state(CURRENT_SERVICE_STATUS::SERVICE_STOP_PENDING), stopped]
        } else {
            seq![stopped]
        }
    }

    /// The record after the states in `requests` have been requested one after
    /// the other.
    pub open spec fn after(self, requests: Seq<CURRENT_SERVICE_STATUS>) -> StatusView
        decreases requests.len(),
    {
        if requests.len() == 0 {
            self
        } else {
            self.after(requests.drop_last()).with_state(requests.last())
        }
    }

    /// Everything that is published while the states in `requests` are
    /// requested one after the other, in the order of publication.
    pub open spec fn trace(self, requests: Seq<CURRENT_SERVICE_STATUS>) -> Seq<StatusView>
        decreases requests.len(),
    {
        if requests.len() == 0 {
            Seq::empty()
        } else {
            self.trace(requests.drop_last()) + self.after(requests.drop_last()).publishes(
                requests.last(),
            )
        }
    }

    /// What a successful registration publishes before the service's own work
    /// begins: start-pending, then running.
    pub open spec fn start_publishes(handle: SERVICE_STATUS_HANDLE) -> Seq<StatusView> {
        seq![
            StatusView::fresh(handle).with_state(CURRENT_SERVICE_STATUS::SERVICE_START_PENDING),
            StatusView::fresh(handle).with_state(CURRENT_SERVICE_STATUS::SERVICE_RUNNING),
        ]
    }

    /// The seven 32-bit words of the record in the order in which the manager
    /// reads them: service type, current state, accepted controls, exit code,
    /// service-specific exit code, checkpoint, wait hint.
    pub open spec fn dwords(self) -> Seq<u32> {
        seq![
            SERVICE_TYPE::SERVICE_WIN32_OWN_PROCESS.spec_bits(),
            self.state.spec_bits(),
            ACCEPTED_CONTROLS::SERVICE_ACCEPT_STOP_SHUTDOWN.spec_bits(),
            self.exit_code,
            0u32,
            0u32,
            WAIT_HINT_MS,
        ]
    }
}

/// The views of a run of records, one for one.
pub open spec fn views(records: Seq<SERVICE_STATUS>) -> Seq<StatusView> {
    records.map_values(|record: SERVICE_STATUS| record@)
}

/// The status record of one service invocation.
///
/// The record speaks for a service that runs in a process of its own, accepts
/// stop and shutdown requests and nothing else, and never uses the
/// service-specific exit code or the checkpoint counter. Those parts are fixed
/// when the record is made. What changes is the state and the exit code.
#[allow(non_camel_case_types, non_snake_case)]
#[derive(Clone, Copy, Debug, PartialEq, Eq)]
pub struct SERVICE_STATUS {
    dwServiceType: SERVICE_TYPE,
    dwCurrentState: CURRENT_SERVICE_STATUS,
    dwControlsAccepted: ACCEPTED_CONTROLS,
    dwWin32ExitCode: u32,
    dwServiceSpecificExitCode: u32,
    dwCheckPoint: u32,
    dwWaitHint: u32,
    handle: SERVICE_STATUS_HANDLE,
}

impl View for SERVICE_STATUS {
    type V = StatusView;

    closed spec fn view(&self) -> StatusView {
        StatusView {
            state: self.dwCurrentState,
            exit_code: self.dwWin32ExitCode,
            handle: self.handle,
        }
    }
}

impl SERVICE_STATUS {
    #[verifier::type_invariant]
    spec fn fixed_parts(self) -> bool {
        &&& self.dwServiceType == SERVICE_TYPE::SERVICE_WIN32_OWN_PROCESS
        &&& self.dwControlsAccepted == ACCEPTED_CONTROLS::SERVICE_ACCEPT_STOP_SHUTDOWN
        &&& self.dwServiceSpecificExitCode == 0
        &&& self.dwCheckPoint == 0
        &&& self.dwWaitHint == WAIT_HINT_MS
    }

    /// The record of a registration that has reported nothing yet: stopped,
    /// with exit code zero.
    pub fn new(handle: SERVICE_STATUS_HANDLE) -> (status: SERVICE_STATUS)
        ensures
            status@ == StatusView::fresh(handle),
    {
        SERVICE_STATUS {
            dwServiceType: SERVICE_TYPE::SERVICE_WIN32_OWN_PROCESS,
            dwCurrentState: CURRENT_SERVICE_STATUS::SERVICE_STOPPED,
            dwControlsAccepted: ACCEPTED_CONTROLS::SERVICE_ACCEPT_STOP_SHUTDOWN,
            dwWin32ExitCode: 0,
            dwServiceSpecificExitCode: 0,
            dwCheckPoint: 0,
            dwWaitHint: WAIT_HINT_MS,
            handle,
        }
    }

    /// Records `status` as the current state. If that changes the record, the
    /// new record is due for publication and is returned; a request for the
    /// state already on record changes nothing and publishes nothing.
    pub fn set_status(&mut self, status: CURRENT_SERVICE_STATUS) -> (published: Option<
        SERVICE_STATUS,
    >)
        ensures
            final(self)@ == old(self)@.with_state(status),
            published is Some <==> status != old(self)@.state,
            published matches Some(record) ==> record == *final(self),
            old(self)@.publishes(status) == (match published {
                Some(record) => seq![record@],
                None => Seq::empty(),
            }),
    {
        proof {
            use_type_invariant(&*self);
        }
        if status != self.dwCurrentState {
            self.dwCurrentState = status;
            Some(*self)
        } else {
            None
        }
    }

    /// Brings a registration to life. `handle` is what the manager returned
    /// when the control handler was registered.
    ///
    /// A null handle means the manager refused: that is an error, no record
    /// exists and nothing is published. Otherwise the new record goes through
    /// start-pending to running, and both records are due for publication, in
    /// that order, before the service's own work begins.
    pub fn initialize(handle: SERVICE_STATUS_HANDLE) -> (outcome: Result<
        (SERVICE_STATUS, Vec<SERVICE_STATUS>),
        ServiceError,
    >)
        ensures
            outcome is Err <==> handle.is_null(),
            outcome matches Err(error) ==> error == ServiceError::RegistrationFailed,
            outcome matches Ok((status, published)) ==> status@ == StatusView::fresh(
                handle,
            ).with_state(CURRENT_SERVICE_STATUS::SERVICE_RUNNING) && views(published@)
                == StatusView::start_publishes(handle),
    {
        if handle.is_null() {
            return Err(ServiceError::RegistrationFailed);
        }
        let mut context = SERVICE_STATUS::new(handle);
        let mut published: Vec<SERVICE_STATUS> = Vec::new();
        if let Some(record) = context.set_status(CURRENT_SERVICE_STATUS::SERVICE_START_PENDING) {
            published.push(record);
        }
        if let Some(record) = context.set_status(CURRENT_SERVICE_STATUS::SERVICE_RUNNING) {
            published.push(record);
        }
        assert(views(published@) =~= StatusView::start_publishes(handle));
        Ok((context, published))
    }

    /// Brings the record to its end: moves it to stop-pending, records `code`
    /// as the exit code, then moves it to stopped. The records due for
    /// publication are returned in that order, so the stop-pending record
    /// still carries the exit code that was on record before, and the stopped
    /// record carries `code`.
    pub fn exit_with(&mut self, code: u32) -> (published: Vec<SERVICE_STATUS>)
        ensures
            final(self)@ == old(self)@.with_state(
                CURRENT_SERVICE_STATUS::SERVICE_STOPPED,
            ).with_exit_code(code),
            views(published@) == old(self)@.exit_publishes(code),
    {
        let mut published: Vec<SERVICE_STATUS> = Vec::new();
        if let Some(record) = self.set_status(CURRENT_SERVICE_STATUS::SERVICE_STOP_PENDING) {
            published.push(record);
        }
        proof {
            use_type_invariant(&*self);
        }
        self.dwWin32ExitCode = code;
        if let Some(record) = self.set_status(CURRENT_SERVICE_STATUS::SERVICE_STOPPED) {
            published.push(record);
        }
        assert(views(published@) =~= old(self)@.exit_publishes(code));
        published
    }

    /// The record as the manager reads it: seven 32-bit words in the order the
    /// manager expects them.
    pub fn dwords(&self) -> (words: [u32; 7])
        ensures
            words@ == self@.dwords(),
    {
        proof {
            use_type_invariant(self);
        }
        let words: [u32; 7] = [
            self.dwServiceType.bits(),
            self.dwCurrentState.bits(),
            self.dwControlsAccepted.bits(),
            self.dwWin32ExitCode,
            self.dwServiceSpecificExitCode,
            self.dwCheckPoint,
            self.dwWaitHint,
        ];
        assert(words@ =~= self@.dwords());
        words
    }

    /// The lifecycle state on record.
    pub fn current_state(&self) -> (state: CURRENT_SERVICE_STATUS)
        ensures
            state == self@.state,
    {
        self.dwCurrentState
    }

    /// The exit code on record.
    pub fn exit_code(&self) -> (code: u32)
        ensures
            code == self@.exit_code,
    {
        self.dwWin32ExitCode
    }

    /// The registration the record is published under.
    pub fn handle(&self) -> (handle: SERVICE_STATUS_HANDLE)
        ensures
            handle == self@.handle,
    {
        self.handle
    }

    /// The kind of service the record speaks for: always one that runs in a
    /// process of its own.
    pub fn service_type(&self) -> (service_type: SERVICE_TYPE)
        ensures
            service_type == SERVICE_TYPE::SERVICE_WIN32_OWN_PROCESS,
    {
        proof {
            use_type_invariant(self);
        }
        self.dwServiceType
    }

    /// The control requests the service accepts: always stop and shutdown, and
    /// nothing else.
    pub fn controls_accepted(&self) -> (controls: ACCEPTED_CONTROLS)
        ensures
            controls == ACCEPTED_CONTROLS::SERVICE_ACCEPT_STOP_SHUTDOWN,
    {
        proof {
            use_type_invariant(self);
        }
        self.dwControlsAccepted
    }

    /// The service-specific exit code: never used, always zero.
    pub fn service_specific_exit_code(&self) -> (code: u32)
        ensures
            code == 0,
    {
        proof {
            use_type_invariant(self);
        }
        self.dwServiceSpecificExitCode
    }

    /// The checkpoint counter: never used, always zero.
    pub fn check_point(&self) -> (count: u32)
        ensures
            count == 0,
    {
        proof {
            use_type_invariant(self);
        }
        self.dwCheckPoint
    }

    /// The wait hint in milliseconds: always [`WAIT_HINT_MS`].
    pub fn wait_hint(&self) -> (milliseconds: u32)
        ensures
            milliseconds == WAIT_HINT_MS,
    {
        proof {
            use_type_invariant(self);
        }
        self.dwWaitHint
    }
}

/// However many states are requested in a row, request number `i` publishes if
/// and only if it asks for another state than the one on record, and what it
/// publishes then is the record in the new state. The state on record is the
/// one asked for just before or, for the first request, the one the run began
/// with; so asking twice in a row for the same state publishes at most once.
pub proof fn lemma_publish_iff_state_changes(
    start: StatusView,
    requests: Seq<CURRENT_SERVICE_STATUS>,
    i: int,
)
    requires
        0 <= i < requests.len(),
    ensures
        start.after(requests.take(i)).state == (if i == 0 {
            start.state
        } else {
            requests[i - 1]
        }),
        requests[i] != start.after(requests.take(i)).state ==> start.trace(requests.take(i + 1))
            == start.trace(requests.take(i)).push(
            start.after(requests.take(i)).with_state(requests[i]),
        ),
        requests[i] == start.after(requests.take(i)).state ==> start.trace(requests.take(i + 1))
            == start.trace(requests.take(i)),
{
    let done = requests.take(i);
    let next = requests.take(i + 1);
    assert(next.drop_last() =~= done);
    assert(next.last() == requests[i]);
    if i > 0 {
        assert(done.last() == requests[i - 1]);
    }
    if requests[i] != start.after(done).state {
        assert(start.trace(next) =~= start.trace(done).push(
            start.after(done).with_state(requests[i]),
        ));
    } else {
        assert(start.trace(next) =~= start.trace(done));
    }
}

/// Requests change nothing but the state: whatever is asked for, the exit code
/// and the registration stay as they were.
pub proof fn lemma_requests_keep_the_rest(
    start: StatusView,
    requests: Seq<CURRENT_SERVICE_STATUS>,
)
    ensures
        start.after(requests).exit_code == start.exit_code,
        start.after(requests).handle == start.handle,
    decreases requests.len(),
{
    if requests.len() > 0 {
        lemma_requests_keep_the_rest(start, requests.drop_last());
    }
}

/// A registration starts with exactly two publications, start-pending and then
/// running: they are what the two requests publish on a fresh record.
pub proof fn lemma_start_publishes_twice(handle: SERVICE_STATUS_HANDLE)
    ensures
        StatusView::start_publishes(handle).len() == 2,
        StatusView::start_publishes(handle)[0].state
            == CURRENT_SERVICE_STATUS::SERVICE_START_PENDING,
        StatusView::start_publishes(handle)[1].state == CURRENT_SERVICE_STATUS::SERVICE_RUNNING,
        StatusView::start_publishes(handle) == StatusView::fresh(handle).trace(
            seq![
                CURRENT_SERVICE_STATUS::SERVICE_START_PENDING,
                CURRENT_SERVICE_STATUS::SERVICE_RUNNING,
            ],
        ),
{
    let fresh = StatusView::fresh(handle);
    let both = seq![
        CURRENT_SERVICE_STATUS::SERVICE_START_PENDING,
        CURRENT_SERVICE_STATUS::SERVICE_RUNNING,
    ];
    let first = seq![CURRENT_SERVICE_STATUS::SERVICE_START_PENDING];
    assert(both.drop_last() =~= first);
    assert(first.drop_last() =~= Seq::<CURRENT_SERVICE_STATUS>::empty());
    assert(fresh.after(first.drop_last()) == fresh);
    assert(fresh.trace(first.drop_last()) =~= Seq::<StatusView>::empty());
    assert(fresh.trace(first) =~= seq![
        fresh.with_state(CURRENT_SERVICE_STATUS::SERVICE_START_PENDING),
    ]);
    assert(fresh.trace(both) =~= StatusView::start_publishes(handle));
}

/// Unless the record is already stop-pending, bringing it to its end publishes
/// exactly twice: stop-pending first, under the exit code that was on record,
/// then stopped, under the new exit code.
pub proof fn lemma_exit_publishes_twice(before: StatusView, code: u32)
    requires
        before.state != CURRENT_SERVICE_STATUS::SERVICE_STOP_PENDING,
    ensures
        before.exit_publishes(code) == seq![
            (StatusView {
                state: CURRENT_SERVICE_STATUS::SERVICE_STOP_PENDING,
                exit_code: before.exit_code,
                handle: before.handle,
            }),
            (StatusView {
                state: CURRENT_SERVICE_STATUS::SERVICE_STOPPED,
                exit_code: code,
                handle: before.handle,
            }),
        ],
{
    assert(before.exit_publishes(code) =~= seq![
        before.with_state(CURRENT_SERVICE_STATUS::SERVICE_STOP_PENDING),
        before.with_state(CURRENT_SERVICE_STATUS::SERVICE_STOPPED).with_exit_code(code),
    ]);
}

/// A record that is already stop-pending is not published as stop-pending a
/// second time: bringing it to its end publishes the stopped record alone.
pub proof fn lemma_exit_from_stop_pending(before: StatusView, code: u32)
    requires
        before.state == CURRENT_SERVICE_STATUS::SERVICE_STOP_PENDING,
    ensures
        before.exit_publishes(code) == seq![
            (StatusView {
                state: CURRENT_SERVICE_STATUS::SERVICE_STOPPED,
                exit_code: code,
                handle: before.handle,
            }),
        ],
{
    assert(before.exit_publishes(code) =~= seq![
        before.with_state(CURRENT_SERVICE_STATUS::SERVICE_STOPPED).with_exit_code(code),
    ]);
}

/// Bringing a record to its end publishes what two requests publish, the first
/// for stop-pending on the record as it was, the second for stopped on the
/// record with the new exit code: no more and no less, so a record is never
/// published twice in the same state here either.
pub proof fn lemma_exit_is_two_requests(before: StatusView, code: u32)
    ensures
        before.exit_publishes(code) == before.publishes(
            CURRENT_SERVICE_STATUS::SERVICE_STOP_PENDING,
        ) + before.with_state(CURRENT_SERVICE_STATUS::SERVICE_STOP_PENDING).with_exit_code(
            code,
        ).publishes(CURRENT_SERVICE_STATUS::SERVICE_STOPPED),
{
    let pending = before.with_state(CURRENT_SERVICE_STATUS::SERVICE_STOP_PENDING);
    assert(before.exit_publishes(code) =~= before.publishes(
        CURRENT_SERVICE_STATUS::SERVICE_STOP_PENDING,
    ) + pending.with_exit_code(code).publishes(CURRENT_SERVICE_STATUS::SERVICE_STOPPED));
}

/// From registration to exit a service publishes four records and no others:
/// start-pending, running, stop-pending and stopped, in that order, the first
/// three under exit code zero and the last under the code the service ended
/// with.
pub proof fn lemma_whole_lifecycle(handle: SERVICE_STATUS_HANDLE, code: u32)
    ensures
        StatusView::start_publishes(handle) + StatusView::fresh(handle).with_state(
            CURRENT_SERVICE_STATUS::SERVICE_RUNNING,
        ).exit_publishes(code) == seq![
            (StatusView {
                state: CURRENT_SERVICE_STATUS::SERVICE_START_PENDING,
                exit_code: 0,
                handle,
            }),
            (StatusView { state: CURRENT_SERVICE_STATUS::SERVICE_RUNNING, exit_code: 0, handle }),
            (StatusView {
                state: CURRENT_SERVICE_STATUS::SERVICE_STOP_PENDING,
                exit_code: 0,
                handle,
            }),
            (StatusView { state: CURRENT_SERVICE_STATUS::SERVICE_STOPPED, exit_code: code, handle }),
        ],
{
    let running = StatusView::fresh(handle).with_state(CURRENT_SERVICE_STATUS::SERVICE_RUNNING);
    lemma_exit_publishes_twice(running, code);
    assert(StatusView::start_publishes(handle) + running.exit_publishes(code) =~= seq![
        (StatusView {
            state: CURRENT_SERVICE_STATUS::SERVICE_START_PENDING,
            exit_code: 0,
            handle,
        }),
        (StatusView { state: CURRENT_SERVICE_STATUS::SERVICE_RUNNING, exit_code: 0, handle }),
        (StatusView { state: CURRENT_SERVICE_STATUS::SERVICE_STOP_PENDING, exit_code: 0, handle }),
        (StatusView { state: CURRENT_SERVICE_STATUS::SERVICE_STOPPED, exit_code: code, handle }),
    ]);
}

} // verus!
