pub mod checks;
pub mod configuration;
pub mod utilities;
pub mod vault;

use crate::configuration::ServerConfiguration;
use crate::utilities::socket::{Listen, Socket};
use crate::utilities::watcher::{watch_credentials, Watcher, WatcherView};
use crate::vault::client::{Client, ClientView};
use crate::vault::service::{ServerState, VaultKmsServer, VaultKmsServerView};
use vstd::prelude::*;
use vstd::utf8::encode_utf8;

verus! {

/// What the server sets out to do, decided from its configuration before
/// anything runs.
#[derive(Debug)]
pub struct Plan {
    /// How to listen for the callers of the service.
    pub listen: Listen,
    /// The address of the backend.
    pub address: String,
    /// The service, which has yet to be started up.
    pub service: VaultKmsServer,
    /// The watch on the file that backs the credential.
    pub watcher: Watcher,
    /// The address at which the liveness and readiness checks are served.
    pub health_endpoint: String,
}

/// Lays out what the server does for the configuration `config`. It
/// listens at the configured socket with the configured permissions. Its
/// service works with a client for the configured key and credentials,
/// which has no session yet, and has not been started up. Its watcher
/// watches the file that holds the secret of the credentials, and is idle
/// where there is no such file.
pub fn server(config: &ServerConfiguration) -> (result: Plan)
    ensures
        result.listen@ == Socket::plan(
            crate::utilities::socket::mode_of(config.socket@.permissions),
            encode_utf8(config.socket@.socket_path),
        ),
        result.address@ == config.vault@.address,
        result.service@ == (VaultKmsServerView {
            client: ClientView {
                key_name: config.vault@.transit_key,
                auth: config.vault@.credentials,
                mount_path: config.vault@.mount_path,
                token: None,
            },
            state: ServerState::Uninitialized,
        }),
        result.watcher@ == WatcherView::watch(config.vault@.credentials.rotation_path()),
        result.health_endpoint@ == config.health.endpoint@,
{
    let socket = Socket::with_permissions(config.socket.permissions.as_str());
    Plan {
        listen: socket.listen(config.socket.socket_path.as_str()),
        address: config.vault.address.clone(),
        service: VaultKmsServer::new(Client::new(&config.vault)),
        watcher: watch_credentials(&config.vault.credentials),
        health_endpoint: config.health.endpoint.clone(),
    }
}

/// The three tasks that run side by side for as long as the process lives.
#[derive(Debug, Clone, Copy, PartialEq, Eq, Structural)]
pub enum Task {
    /// The service on its socket.
    Service,
    /// The liveness and readiness checks.
    Checks,
    /// The watch on the credential's file.
    Watcher,
}

/// The mathematical model of [`TaskGroup`]: the tasks that have ended
/// well, and how the group has ended, once it has.
pub struct TaskGroupView {
    pub ended: Set<Task>,
    pub verdict: Option<Result<(), Seq<char>>>,
}

impl TaskGroupView {
    /// The group when its tasks are started.
    pub open spec fn started() -> TaskGroupView {
        TaskGroupView { ended: Set::empty(), verdict: None }
    }

    /// Whether every task has ended well.
    pub open spec fn all_ended(ended: Set<Task>) -> bool {
        ended.contains(Task::Service) && ended.contains(Task::Checks) && ended.contains(
            Task::Watcher,
        )
    }

    /// The group after `task` has ended in `outcome`. Once the group has
    /// ended, nothing changes any more. Before that, the first task to
    /// fail ends the group with its failure, whatever the others do; a
    /// task that ends well lets the others run on, and the group ends
    /// well when the last of them has.
    pub open spec fn finished(self, task: Task, outcome: Result<(), Seq<char>>) -> TaskGroupView {
        if self.verdict is Some {
            self
        } else {
            match outcome {
                Err(failure) => TaskGroupView { ended: self.ended, verdict: Some(Err(failure)) },
                Ok(_) => TaskGroupView {
                    ended: self.ended.insert(task),
                    verdict: if Self::all_ended(self.ended.insert(task)) {
                        Some(Ok(()))
                    } else {
                        None
                    },
                },
            }
        }
    }
}

/// The group of the three tasks, which stands and falls as one.
#[derive(Debug)]
pub struct TaskGroup {
    service: bool,
    checks: bool,
    watcher: bool,
    verdict: Option<Result<(), String>>,
}

/// The view of a verdict.
pub open spec fn verdict_view(verdict: Option<Result<(), String>>) -> Option<Result<(), Seq<char>>> {
    match verdict {
        Some(Ok(_)) => Some(Ok(())),
        Some(Err(failure)) => Some(Err(failure@)),
        None => None,
    }
}

impl View for TaskGroup {
    type V = TaskGroupView;

    closed spec fn view(&self) -> TaskGroupView {
        TaskGroupView {
            ended: Set::new(
                |task: Task|
                    match task {
                        Task::Service => self.service,
                        Task::Checks => self.checks,
                        Task::Watcher => self.watcher,
                    },
            ),
            verdict: verdict_view(self.verdict),
        }
    }
}

impl TaskGroup {
    /// Makes the group of the three tasks as they are started.
    pub fn new() -> (result: Self)
        ensures
            result@ == TaskGroupView::started(),
    {
        let result = TaskGroup { service: false, checks: false, watcher: false, verdict: None };
        assert(result@.ended =~= Set::empty());
        result
    }

    /// Takes in that `task` has ended in `outcome`: see
    /// [`TaskGroupView::finished`]. Returns how the group has ended, where
    /// it has: with that, every task that still runs is to be stopped.
    pub fn finished(&mut self, task: Task, outcome: Result<(), String>) -> (result: Option<
        Result<(), String>,
    >)
        ensures
            final(self)@ == old(self)@.finished(
                task,
                match outcome {
                    Ok(_) => Ok(()),
                    Err(failure) => Err(failure@),
                },
            ),
            verdict_view(result) == final(self)@.verdict,
    {
        if self.verdict.is_none() {
            match outcome {
                Err(failure) => {
                    self.verdict = Some(Err(failure));
                    assert(self@.ended =~= old(self)@.ended);
                },
                Ok(_) => {
                    match task {
                        Task::Service => {
                            self.service = true;
                        },
                        Task::Checks => {
                            self.checks = true;
                        },
                        Task::Watcher => {
                            self.watcher = true;
                        },
                    }
                    assert(self@.ended =~= old(self)@.ended.insert(task));
                    if self.service && self.checks && self.watcher {
                        self.verdict = Some(Ok(()));
                    }
                    assert(self@.ended =~= old(self)@.ended.insert(task));
                },
            }
        }
        self.verdict()
    }

    /// Returns how the group has ended, where it has.
    pub fn verdict(&self) -> (result: Option<Result<(), String>>)
        ensures
            verdict_view(result) == self@.verdict,
    {
        match &self.verdict {
            Some(Ok(_)) => Some(Ok(())),
            Some(Err(failure)) => Some(Err(failure.clone())),
            None => None,
        }
    }
}

/// The first task to fail ends the whole group, at once and for good:
/// whatever has ended well before, the group ends with that failure, and
/// nothing that ends later changes it.
pub proof fn lemma_first_failure_ends_the_group(
    group: TaskGroupView,
    failed: Task,
    failure: Seq<char>,
    later: Task,
    outcome: Result<(), Seq<char>>,
)
    requires
        group.verdict is None,
    ensures
        group.finished(failed, Err(failure)).verdict == Some(Err::<(), Seq<char>>(failure)),
        group.finished(failed, Err(failure)).finished(later, outcome) == group.finished(
            failed,
            Err(failure),
        ),
{
}

/// The group ends well only when all three tasks have: as long as one of
/// them runs and none has failed, the group runs.
pub proof fn lemma_group_runs_until_all_have_ended(group: TaskGroupView, task: Task)
    requires
        group.verdict is None,
    ensures
        group.finished(task, Ok(())).verdict is Some <==> TaskGroupView::all_ended(
            group.ended.insert(task),
        ),
        group.finished(task, Ok(())).verdict is Some ==> group.finished(task, Ok(())).verdict
            == Some(Ok::<(), Seq<char>>(())),
{
}

} // verus!
