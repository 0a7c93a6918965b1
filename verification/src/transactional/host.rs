//! How a replica follows the lifecycle of its partition.
//!
//! A host runs through a sequence of states, as in [`crate::transactional::drain`].
//! Lifecycle events go before requests of the replicator.

use vstd::prelude::*;

use crate::transactional::provider::ProviderRequest;
use crate::transactional::replica::{core_error, Error, KubericError, Replica};
use crate::types::Role;

verus! {

/// What a host knows besides its replica.
#[derive(Clone, Copy, Debug, PartialEq, Eq, Structural)]
pub struct Host {
    /// The role that was taken up last.
    pub role: Role,
    /// Whether the copy stream is there and unused.
    pub copy_stream: bool,
    /// Whether the replication stream is there and unused.
    pub replication_stream: bool,
    /// Whether a drain has been started and not been waited for.
    pub draining: bool,
    /// Whether requests of the replicator are served.
    pub serving: bool,
}

/// Which streams a replicator comes with.
#[derive(Clone, Copy, Debug, PartialEq, Eq, Structural)]
pub struct ReplicatorStreams {
    pub copy: bool,
    pub replication: bool,
}

/// What a drain is stopped for, or access to the replica is needed for.
#[derive(Clone, Copy, Debug, PartialEq, Eq, Structural)]
pub enum Purpose {
    Open,
    ChangeRole(Role),
    Close,
    Exit,
}

/// What the partition is answered. `E` is the error of a replicator that cannot be
/// created.
pub enum HostAnswer<E> {
    Opened,
    /// The replicator could not be created, for this reason.
    OpenFailed(E),
    /// The replicator was created, but the replica was not accessible.
    OpenRefused(KubericError),
    RoleChanged,
    RoleRefused(KubericError),
    Closed,
    /// The replica was not accessible; the host exits all the same.
    CloseRefused(KubericError),
}

/// What is to be done next.
pub enum HostState<E> {
    /// Wait for a lifecycle event or, if requests are served, for a request.
    Select,
    /// Create the replicator.
    CreateReplicator,
    /// Cancel the drain, wait for its end, or both.
    StopDrain { cancel: bool, wait: bool, purpose: Purpose },
    /// Gain access to the replica.
    Access { purpose: Purpose },
    /// Start to drain the copy stream or the replication stream.
    StartDrain { copy: bool },
    Reply { answer: HostAnswer<E> },
    /// Answer a request of the replicator.
    Serve { request: ProviderRequest },
    Exited,
}

/// How a drain ended.
pub enum DrainEnd {
    Completed,
    Failed(Error),
    Panicked,
}

/// What happened.
pub enum HostEvent<E> {
    Open,
    ChangeRole { new_role: Role },
    Close,
    Abort,
    LifecycleEnded,
    Requested(ProviderRequest),
    Created(Result<ReplicatorStreams, E>),
    /// The drain is cancelled as asked, and this is how it ended if that was waited
    /// for.
    DrainStopped(Option<DrainEnd>),
    Accessed(Result<(), Error>),
    DrainStarted,
    Replied,
    Served,
}

/// Whether `role` takes part in replication.
pub open spec fn is_active(role: Role) -> bool {
    role is ActiveSecondary || role is Primary
}

fn takes_part(role: Role) -> (active: bool)
    ensures
        active == is_active(role),
{
    match role {
        Role::ActiveSecondary => true,
        Role::Primary => true,
        _ => false,
    }
}

impl Host {
    /// A host that has not been opened.
    pub fn new() -> (host: Host)
        ensures
            host == (Host {
                role: Role::Unknown,
                copy_stream: false,
                replication_stream: false,
                draining: false,
                serving: false,
            }),
    {
        Host {
            role: Role::Unknown,
            copy_stream: false,
            replication_stream: false,
            draining: false,
            serving: false,
        }
    }

    /// Whether a change to `new_role` builds on a completed copy.
    pub open spec fn promotes(self, new_role: Role) -> bool {
        self.role is IdleSecondary && is_active(new_role)
    }

    /// The error that the end of the drain gives for a change to `new_role`.
    pub open spec fn drain_error(self, new_role: Role, end: Option<DrainEnd>) -> Option<Error> {
        match end {
            Some(DrainEnd::Panicked) => Some(Error::RecoveryRequired),
            Some(DrainEnd::Failed(error)) => if self.promotes(new_role) {
                Some(error)
            } else {
                None
            },
            _ => None,
        }
    }

    /// The stream that `new_role` drains: the copy stream, the replication stream or
    /// none.
    pub open spec fn stream_for(self, new_role: Role) -> Option<bool> {
        match new_role {
            Role::IdleSecondary => if self.copy_stream {
                Some(true)
            } else {
                None
            },
            Role::ActiveSecondary => if self.replication_stream {
                Some(false)
            } else {
                None
            },
            _ => None,
        }
    }

    /// The host once it has taken up `new_role`.
    pub open spec fn with_role(self, new_role: Role) -> Host {
        let stream = self.stream_for(new_role);
        Host {
            role: new_role,
            copy_stream: self.copy_stream && stream != Some(true),
            replication_stream: self.replication_stream && stream != Some(false),
            draining: stream is Some,
            serving: self.serving,
        }
    }

    /// Whether `event` tells what came of `state`.
    pub open spec fn spec_expects<E>(self, state: HostState<E>, event: HostEvent<E>) -> bool {
        match state {
            HostState::Select => match event {
                HostEvent::Open => true,
                HostEvent::ChangeRole { .. } => true,
                HostEvent::Close => true,
                HostEvent::Abort => true,
                HostEvent::LifecycleEnded => true,
                HostEvent::Requested(_) => self.serving,
                _ => false,
            },
            HostState::CreateReplicator => event is Created,
            HostState::StopDrain { wait, .. } => event matches HostEvent::DrainStopped(end)
                && end is Some == wait,
            HostState::Access { .. } => event is Accessed,
            HostState::StartDrain { .. } => event is DrainStarted,
            HostState::Reply { .. } => event is Replied,
            HostState::Serve { .. } => event is Served,
            HostState::Exited => false,
        }
    }

    /// Decides [`Host::spec_expects`].
    pub fn expects<E>(&self, state: &HostState<E>, event: &HostEvent<E>) -> (fits: bool)
        ensures
            fits == self.spec_expects(*state, *event),
    {
        match (state, event) {
            (HostState::Select, HostEvent::Open) => true,
            (HostState::Select, HostEvent::ChangeRole { .. }) => true,
            (HostState::Select, HostEvent::Close) => true,
            (HostState::Select, HostEvent::Abort) => true,
            (HostState::Select, HostEvent::LifecycleEnded) => true,
            (HostState::Select, HostEvent::Requested(_)) => self.serving,
            (HostState::CreateReplicator, HostEvent::Created(_)) => true,
            (HostState::StopDrain { wait, .. }, HostEvent::DrainStopped(end)) => end.is_some()
                == *wait,
            (HostState::Access { .. }, HostEvent::Accessed(_)) => true,
            (HostState::StartDrain { .. }, HostEvent::DrainStarted) => true,
            (HostState::Reply { .. }, HostEvent::Replied) => true,
            (HostState::Serve { .. }, HostEvent::Served) => true,
            _ => false,
        }
    }
}

/// A host with its replica and what is to be done next.
pub struct Running<S, E> {
    pub host: Host,
    pub replica: Replica<S>,
    pub state: HostState<E>,
}

impl<S, E> Running<S, E> {
    pub open spec fn in_state(self, state: HostState<E>) -> Running<S, E> {
        Running { state, ..self }
    }

    pub open spec fn replies(self, answer: HostAnswer<E>) -> Running<S, E> {
        self.in_state(HostState::Reply { answer })
    }

    /// A change of role has failed: the replica has too.
    pub open spec fn refused(self, error: Error) -> Running<S, E> {
        Running {
            host: self.host,
            replica: Replica { failed: true, ..self.replica },
            state: HostState::Reply {
                answer: HostAnswer::RoleRefused(KubericError::Internal(error)),
            },
        }
    }

    /// The role is taken up unless the replica has failed.
    pub open spec fn taking_up(self, new_role: Role) -> Running<S, E> {
        if self.replica.failed && is_active(new_role) {
            self.refused(Error::RecoveryRequired)
        } else {
            Running {
                host: self.host.with_role(new_role),
                replica: Replica {
                    generation: (self.replica.generation + 1) as u64,
                    role: new_role,
                    ..self.replica
                },
                state: match self.host.stream_for(new_role) {
                    Some(copy) => HostState::StartDrain { copy },
                    None => HostState::Reply { answer: HostAnswer::RoleChanged },
                },
            }
        }
    }

    pub open spec fn accessing(self, purpose: Purpose) -> Running<S, E> {
        self.in_state(HostState::Access { purpose })
    }

    /// A change to `new_role` has been asked for. A drain is left to its end only if
    /// the change builds on what it drains.
    pub open spec fn changing(self, new_role: Role) -> Running<S, E> {
        let cancel = !self.host.promotes(new_role);
        if self.host.role == new_role {
            self.replies(HostAnswer::RoleChanged)
        } else if cancel || self.host.draining {
            self.in_state(
                HostState::StopDrain {
                    cancel,
                    wait: self.host.draining,
                    purpose: Purpose::ChangeRole(new_role),
                },
            )
        } else {
            self.accessing(Purpose::ChangeRole(new_role))
        }
    }

    pub open spec fn stopping(self, purpose: Purpose) -> Running<S, E> {
        self.in_state(
            HostState::StopDrain { cancel: true, wait: self.host.draining, purpose },
        )
    }

    /// The drain has been stopped for `purpose`.
    pub open spec fn stopped(self, purpose: Purpose, end: Option<DrainEnd>) -> Running<S, E> {
        let rested = Running { host: Host { draining: false, ..self.host }, ..self };
        match purpose {
            Purpose::ChangeRole(new_role) => match self.host.drain_error(new_role, end) {
                Some(error) => rested.refused(error),
                None => rested.accessing(purpose),
            },
            _ => rested.accessing(purpose),
        }
    }

    /// The replica is accessible for `purpose`.
    pub open spec fn proceeding(self, purpose: Purpose) -> Running<S, E> {
        let removed = Replica { role: Role::Removed, cancelled: true, ..self.replica };
        match purpose {
            Purpose::Open => Running {
                host: Host { serving: true, ..self.host },
                replica: Replica { cancelled: false, ..self.replica },
                ..self
            }.replies(HostAnswer::Opened),
            Purpose::ChangeRole(new_role) => self.taking_up(new_role),
            Purpose::Close => Running {
                replica: Replica { generation: (self.replica.generation + 1) as u64, ..removed },
                ..self
            }.replies(HostAnswer::Closed),
            Purpose::Exit => Running { replica: removed, ..self }.in_state(HostState::Exited),
        }
    }

    /// The replica is not accessible for `purpose`.
    pub open spec fn failing(self, purpose: Purpose, error: Error) -> Running<S, E> {
        match purpose {
            Purpose::Open => Running {
                host: Host { serving: true, ..self.host },
                ..self
            }.replies(HostAnswer::OpenRefused(KubericError::Internal(error))),
            Purpose::ChangeRole(_) => self.refused(error),
            Purpose::Close => self.replies(
                HostAnswer::CloseRefused(KubericError::Internal(error)),
            ),
            Purpose::Exit => self.in_state(HostState::Exited),
        }
    }

    /// The replicator has been created, or could not be.
    pub open spec fn created(self, created: Result<ReplicatorStreams, E>) -> Running<S, E> {
        match created {
            Ok(streams) => Running {
                host: Host {
                    copy_stream: streams.copy,
                    replication_stream: streams.replication,
                    ..self.host
                },
                ..self
            }.accessing(Purpose::Open),
            Err(reason) => self.replies(HostAnswer::OpenFailed(reason)),
        }
    }

    /// What follows `event`.
    pub open spec fn after(self, event: HostEvent<E>) -> Running<S, E> {
        match (self.state, event) {
            (HostState::Select, HostEvent::Open) => self.in_state(HostState::CreateReplicator),
            (HostState::Select, HostEvent::ChangeRole { new_role }) => self.changing(new_role),
            (HostState::Select, HostEvent::Close) => self.stopping(Purpose::Close),
            (HostState::Select, HostEvent::Abort) => self.stopping(Purpose::Exit),
            (HostState::Select, HostEvent::LifecycleEnded) => self.stopping(Purpose::Exit),
            (HostState::Select, HostEvent::Requested(request)) => self.in_state(
                HostState::Serve { request },
            ),
            (HostState::CreateReplicator, HostEvent::Created(created)) => self.created(created),
            (HostState::StopDrain { purpose, .. }, HostEvent::DrainStopped(end)) => self.stopped(
                purpose,
                end,
            ),
            (HostState::Access { purpose }, HostEvent::Accessed(Ok(()))) => self.proceeding(
                purpose,
            ),
            (HostState::Access { purpose }, HostEvent::Accessed(Err(error))) => self.failing(
                purpose,
                error,
            ),
            (HostState::StartDrain { .. }, HostEvent::DrainStarted) => self.replies(
                HostAnswer::RoleChanged,
            ),
            (HostState::Reply { answer }, HostEvent::Replied) => if answer is Closed
                || answer is CloseRefused {
                self.stopping(Purpose::Exit)
            } else {
                self.in_state(HostState::Select)
            },
            (HostState::Serve { .. }, HostEvent::Served) => self.in_state(HostState::Select),
            _ => self,
        }
    }

    /// Whether `event` counts up the generation of the replica: it does where a role
    /// is taken up and where the host is closed.
    pub open spec fn counts(self, event: HostEvent<E>) -> bool {
        match (self.state, event) {
            (
                HostState::Access { purpose: Purpose::ChangeRole(new_role) },
                HostEvent::Accessed(Ok(_)),
            ) => !(self.replica.failed && is_active(new_role)),
            (HostState::Access { purpose: Purpose::Close }, HostEvent::Accessed(Ok(_))) => true,
            _ => false,
        }
    }

    /// Whether `event` is expected, and the generation has room where it counts.
    pub open spec fn spec_expects(self, event: HostEvent<E>) -> bool {
        &&& self.host.spec_expects(self.state, event)
        &&& self.counts(event) ==> self.replica.generation < u64::MAX
    }

    /// Decides [`Running::spec_expects`].
    pub fn expects(&self, event: &HostEvent<E>) -> (fits: bool)
        ensures
            fits == self.spec_expects(*event),
    {
        let counts = match (&self.state, event) {
            (
                HostState::Access { purpose: Purpose::ChangeRole(new_role) },
                HostEvent::Accessed(Ok(_)),
            ) => !(self.replica.failed && takes_part(*new_role)),
            (HostState::Access { purpose: Purpose::Close }, HostEvent::Accessed(Ok(_))) => true,
            _ => false,
        };
        self.host.expects(&self.state, event) && (!counts || self.replica.generation < u64::MAX)
    }
}

impl<S> Replica<S> {
    /// The replica once a drain has ended.
    pub open spec fn after_drain_end(self, end: DrainEnd, cancelled: bool) -> Replica<S> {
        if end is Failed && !cancelled {
            Replica { failed: true, ..self }
        } else {
            self
        }
    }

    /// A drain has ended. One that failed of itself leaves the replica failed; one that
    /// panicked never comes to mark it.
    pub fn drain_ended(&mut self, end: &DrainEnd, cancelled: bool)
        ensures
            *final(self) == old(self).after_drain_end(*end, cancelled),
    {
        let failed = match end {
            DrainEnd::Failed(_) => true,
            _ => false,
        };
        if failed && !cancelled {
            self.fault();
        }
    }
}

impl<S, E> Running<S, E> {
    fn refuse(&mut self, error: Error)
        ensures
            *final(self) == old(self).refused(error),
    {
        self.replica.fault();
        self.state = HostState::Reply { answer: HostAnswer::RoleRefused(core_error(error)) };
    }

    fn take_up(&mut self, new_role: Role)
        requires
            old(self).replica.failed && is_active(new_role) || old(self).replica.generation
                < u64::MAX,
        ensures
            *final(self) == old(self).taking_up(new_role),
    {
        if self.replica.failed && takes_part(new_role) {
            self.refuse(Error::RecoveryRequired);
            return ;
        }
        self.replica.generation = self.replica.generation + 1;
        self.replica.role = new_role;
        let stream: Option<bool> = match new_role {
            Role::IdleSecondary => if self.host.copy_stream {
                self.host.copy_stream = false;
                Some(true)
            } else {
                None
            },
            Role::ActiveSecondary => if self.host.replication_stream {
                self.host.replication_stream = false;
                Some(false)
            } else {
                None
            },
            _ => None,
        };
        self.host.role = new_role;
        match stream {
            Some(copy) => {
                self.host.draining = true;
                self.state = HostState::StartDrain { copy };
            },
            None => {
                self.host.draining = false;
                self.state = HostState::Reply { answer: HostAnswer::RoleChanged };
            },
        }
    }

    fn change_role(&mut self, new_role: Role)
        ensures
            *final(self) == old(self).changing(new_role),
    {
        if self.host.role == new_role {
            self.state = HostState::Reply { answer: HostAnswer::RoleChanged };
            return ;
        }
        let cancel = self.host.role != Role::IdleSecondary || !takes_part(new_role);
        if cancel || self.host.draining {
            self.state = HostState::StopDrain {
                cancel,
                wait: self.host.draining,
                purpose: Purpose::ChangeRole(new_role),
            };
        } else {
            self.state = HostState::Access { purpose: Purpose::ChangeRole(new_role) };
        }
    }

    fn drain_stopped(&mut self, purpose: Purpose, end: Option<DrainEnd>)
        ensures
            *final(self) == old(self).stopped(purpose, end),
    {
        self.host.draining = false;
        self.state = HostState::Access { purpose };
        match purpose {
            Purpose::ChangeRole(new_role) => {
                let promotes = self.host.role == Role::IdleSecondary && takes_part(new_role);
                match end {
                    Some(DrainEnd::Panicked) => {
                        self.refuse(Error::RecoveryRequired);
                    },
                    Some(DrainEnd::Failed(error)) => {
                        if promotes {
                            self.refuse(error);
                        }
                    },
                    _ => {},
                }
            },
            _ => {},
        }
    }

    fn proceed(&mut self, purpose: Purpose)
        requires
            purpose matches Purpose::ChangeRole(new_role) ==> (old(self).replica.failed
                && is_active(new_role) || old(self).replica.generation < u64::MAX),
            purpose is Close ==> old(self).replica.generation < u64::MAX,
        ensures
            *final(self) == old(self).proceeding(purpose),
    {
        match purpose {
            Purpose::Open => {
                self.host.serving = true;
                self.replica.cancelled = false;
                self.state = HostState::Reply { answer: HostAnswer::Opened };
            },
            Purpose::ChangeRole(new_role) => {
                self.take_up(new_role);
            },
            Purpose::Close => {
                self.replica.role = Role::Removed;
                self.replica.generation = self.replica.generation + 1;
                self.replica.cancelled = true;
                self.state = HostState::Reply { answer: HostAnswer::Closed };
            },
            Purpose::Exit => {
                self.replica.role = Role::Removed;
                self.replica.cancelled = true;
                self.state = HostState::Exited;
            },
        }
    }

    fn fail(&mut self, purpose: Purpose, error: Error)
        ensures
            *final(self) == old(self).failing(purpose, error),
    {
        match purpose {
            Purpose::Open => {
                self.host.serving = true;
                self.state = HostState::Reply {
                    answer: HostAnswer::OpenRefused(core_error(error)),
                };
            },
            Purpose::ChangeRole(_) => {
                self.refuse(error);
            },
            Purpose::Close => {
                self.state = HostState::Reply {
                    answer: HostAnswer::CloseRefused(core_error(error)),
                };
            },
            Purpose::Exit => {
                self.state = HostState::Exited;
            },
        }
    }

    /// One step of a host, which takes it from what is to be done to what is to be
    /// done next.
    pub fn run(&mut self, event: HostEvent<E>)
        requires
            old(self).spec_expects(event),
        ensures
            *final(self) == old(self).after(event),
    {
        let mut state = HostState::Select;
        std::mem::swap(&mut state, &mut self.state);
        match (state, event) {
            (HostState::Select, HostEvent::Open) => {
                self.state = HostState::CreateReplicator;
            },
            (HostState::Select, HostEvent::ChangeRole { new_role }) => {
                self.change_role(new_role);
            },
            (HostState::Select, HostEvent::Close) => {
                self.state = HostState::StopDrain {
                    cancel: true,
                    wait: self.host.draining,
                    purpose: Purpose::Close,
                };
            },
            (HostState::Select, HostEvent::Requested(request)) => {
                self.state = HostState::Serve { request };
            },
            (HostState::Select, _) => {
                self.state = HostState::StopDrain {
                    cancel: true,
                    wait: self.host.draining,
                    purpose: Purpose::Exit,
                };
            },
            (HostState::CreateReplicator, HostEvent::Created(created)) => match created {
                Ok(streams) => {
                    self.host.copy_stream = streams.copy;
                    self.host.replication_stream = streams.replication;
                    self.state = HostState::Access { purpose: Purpose::Open };
                },
                Err(reason) => {
                    self.state = HostState::Reply { answer: HostAnswer::OpenFailed(reason) };
                },
            },
            (HostState::StopDrain { purpose, .. }, HostEvent::DrainStopped(end)) => {
                self.drain_stopped(purpose, end);
            },
            (HostState::Access { purpose }, HostEvent::Accessed(access)) => match access {
                Ok(()) => {
                    self.proceed(purpose);
                },
                Err(error) => {
                    self.fail(purpose, error);
                },
            },
            (HostState::StartDrain { .. }, HostEvent::DrainStarted) => {
                self.state = HostState::Reply { answer: HostAnswer::RoleChanged };
            },
            (HostState::Reply { answer }, HostEvent::Replied) => {
                let closed = match answer {
                    HostAnswer::Closed => true,
                    HostAnswer::CloseRefused(_) => true,
                    _ => false,
                };
                if closed {
                    self.state = HostState::StopDrain {
                        cancel: true,
                        wait: self.host.draining,
                        purpose: Purpose::Exit,
                    };
                }
            },
            (HostState::Serve { .. }, HostEvent::Served) => {},
            (state, _) => {
                self.state = state;
            },
        }
    }
}

} // verus!
