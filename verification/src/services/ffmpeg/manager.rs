//! The task registry: every started process under the identifier that its
//! caller chose.
//!
//! The registry is the map from identifier to task. No identifier occurs
//! twice. A task enters it with [`FFmpegManager::add_task`], is refreshed by
//! [`FFmpegManager::retrieve_task`] and leaves it with
//! [`FFmpegManager::abort_task`], and in no other way: a task that has
//! completed stays until it is aborted.
use vstd::prelude::*;
use tokio::process::Child;
use crate::services::ffmpeg::error::{FFmpegError, FFmpegResult};
use crate::services::ffmpeg::executor::{launch_outcome, FFmpegExecutor, FFmpegLaunch};
use crate::services::ffmpeg::process::{start_kill, try_wait};
use crate::services::ffmpeg::task::{FFmpegStatus, FFmpegTask, ProcessExit};

verus! {

/// One entry of the registry.
#[derive(Debug)]
pub struct TaskEntry {
    /// Identifier of the task.
    pub ident: String,
    /// The task.
    pub task: FFmpegTask,
}

/// Whether entry `index` exists and is registered under `ident`.
pub open spec fn entry_is(entries: Seq<TaskEntry>, ident: Seq<char>, index: int) -> bool {
    0 <= index < entries.len() && entries[index].ident@ == ident
}

/// No identifier occurs twice.
pub open spec fn distinct_idents(entries: Seq<TaskEntry>) -> bool {
    forall|i: int, j: int|
        0 <= i < j < entries.len() ==> entries[i].ident@ != entries[j].ident@
}

/// The map from identifier to task that a list of entries stands for.
pub open spec fn registry_of(entries: Seq<TaskEntry>) -> Map<Seq<char>, FFmpegTask> {
    Map::new(
        |ident: Seq<char>| exists|index: int| entry_is(entries, ident, index),
        |ident: Seq<char>| entries[choose|index: int| entry_is(entries, ident, index)].task,
    )
}

/// The status that a poll of the process gives a task: running while the
/// process has not exited, completed after a successful exit, and interrupted
/// with the exit code, as far as there is one, after any other exit.
pub open spec fn status_after_poll(polled: Option<ProcessExit>) -> FFmpegStatus {
    match polled {
        None => FFmpegStatus::Running,
        Some(exit) => if exit.success {
            FFmpegStatus::Completed
        } else {
            FFmpegStatus::Interrupted(exit.code)
        },
    }
}

/// A task after a poll of its process: the poll decides the status, whatever
/// it was before, and nothing else changes.
pub open spec fn task_after_poll(task: FFmpegTask, polled: Option<ProcessExit>) -> FFmpegTask {
    FFmpegTask { status: status_after_poll(polled), child: task.child, target: task.target }
}

/// A task whose poll failed: it is left at [`FFmpegStatus::Determining`].
pub open spec fn task_left_undetermined(task: FFmpegTask) -> FFmpegTask {
    FFmpegTask { status: FFmpegStatus::Determining, child: task.child, target: task.target }
}

/// The registry after the outcome of a start was registered under `ident`:
/// a started task is inserted, a failed start changes nothing.
pub open spec fn registry_after_add(
    registry: Map<Seq<char>, FFmpegTask>,
    ident: Seq<char>,
    launched: FFmpegResult<FFmpegTask>,
) -> Map<Seq<char>, FFmpegTask> {
    match launched {
        Ok(task) => registry.insert(ident, task),
        Err(_) => registry,
    }
}

/// What registering the outcome of a start returns: a failed start is handed
/// on as it is.
pub open spec fn add_result(launched: FFmpegResult<FFmpegTask>) -> FFmpegResult<()> {
    match launched {
        Ok(_) => Ok(()),
        Err(error) => Err(error),
    }
}

/// An entry is found under its identifier.
pub proof fn lemma_registry_entry(entries: Seq<TaskEntry>, index: int)
    requires
        distinct_idents(entries),
        0 <= index < entries.len(),
    ensures
        registry_of(entries).contains_key(entries[index].ident@),
        registry_of(entries)[entries[index].ident@] == entries[index].task,
{
    let ident = entries[index].ident@;
    assert(entry_is(entries, ident, index));
    let chosen = choose|i: int| entry_is(entries, ident, i);
    assert(entry_is(entries, ident, chosen));
    assert(chosen == index);
}

/// An identifier that no entry has is not in the registry.
pub proof fn lemma_registry_absent(entries: Seq<TaskEntry>, ident: Seq<char>)
    requires
        forall|index: int| !entry_is(entries, ident, index),
    ensures
        !registry_of(entries).contains_key(ident),
{
}

/// A new entry under a fresh identifier is an insertion into the registry.
pub proof fn lemma_registry_push(entries: Seq<TaskEntry>, entry: TaskEntry)
    requires
        distinct_idents(entries),
        forall|index: int| !entry_is(entries, entry.ident@, index),
    ensures
        distinct_idents(entries.push(entry)),
        registry_of(entries.push(entry)) == registry_of(entries).insert(entry.ident@, entry.task),
{
    let grown = entries.push(entry);
    let last = entries.len() as int;
    assert forall|i: int, j: int| 0 <= i < j < grown.len() implies grown[i].ident@
        != grown[j].ident@ by {
        if j == last {
            assert(!entry_is(entries, entry.ident@, i));
        }
    }
    assert forall|ident: Seq<char>|
        registry_of(grown).contains_key(ident) <==> registry_of(entries).insert(
            entry.ident@,
            entry.task,
        ).contains_key(ident) by {
        if ident == entry.ident@ {
            assert(entry_is(grown, ident, last));
        } else if registry_of(grown).contains_key(ident) {
            let index = choose|index: int| entry_is(grown, ident, index);
            assert(entry_is(entries, ident, index));
        } else if registry_of(entries).contains_key(ident) {
            let index = choose|index: int| entry_is(entries, ident, index);
            assert(entry_is(grown, ident, index));
        }
    }
    assert forall|ident: Seq<char>| registry_of(grown).contains_key(ident) implies registry_of(
        grown,
    )[ident] == registry_of(entries).insert(entry.ident@, entry.task)[ident] by {
        let index = choose|index: int| entry_is(grown, ident, index);
        lemma_registry_entry(grown, index);
        if index != last {
            lemma_registry_entry(entries, index);
        }
    }
    assert(registry_of(grown) =~= registry_of(entries).insert(entry.ident@, entry.task));
}

/// A new task under an identifier that an entry has is an insertion into the
/// registry too: it takes the place of the old task.
pub proof fn lemma_registry_replace(entries: Seq<TaskEntry>, index: int, entry: TaskEntry)
    requires
        distinct_idents(entries),
        entry_is(entries, entry.ident@, index),
    ensures
        distinct_idents(entries.update(index, entry)),
        registry_of(entries.update(index, entry)) == registry_of(entries).insert(
            entry.ident@,
            entry.task,
        ),
{
    let changed = entries.update(index, entry);
    assert forall|i: int, j: int| 0 <= i < j < changed.len() implies changed[i].ident@
        != changed[j].ident@ by {
        assert(changed[i].ident@ == entries[i].ident@);
        assert(changed[j].ident@ == entries[j].ident@);
    }
    assert forall|ident: Seq<char>|
        registry_of(changed).contains_key(ident) <==> registry_of(entries).insert(
            entry.ident@,
            entry.task,
        ).contains_key(ident) by {
        if ident == entry.ident@ {
            assert(entry_is(changed, ident, index));
        } else if registry_of(changed).contains_key(ident) {
            let at = choose|at: int| entry_is(changed, ident, at);
            assert(entry_is(entries, ident, at));
        } else if registry_of(entries).contains_key(ident) {
            let at = choose|at: int| entry_is(entries, ident, at);
            assert(entry_is(changed, ident, at));
        }
    }
    assert forall|ident: Seq<char>| registry_of(changed).contains_key(ident) implies registry_of(
        changed,
    )[ident] == registry_of(entries).insert(entry.ident@, entry.task)[ident] by {
        let at = choose|at: int| entry_is(changed, ident, at);
        lemma_registry_entry(changed, at);
        if at != index {
            lemma_registry_entry(entries, at);
        }
    }
    assert(registry_of(changed) =~= registry_of(entries).insert(entry.ident@, entry.task));
}

/// Taking an entry out is a removal from the registry.
pub proof fn lemma_registry_remove(entries: Seq<TaskEntry>, index: int)
    requires
        distinct_idents(entries),
        0 <= index < entries.len(),
    ensures
        distinct_idents(entries.remove(index)),
        registry_of(entries.remove(index)) == registry_of(entries).remove(entries[index].ident@),
{
    let gone = entries[index].ident@;
    let rest = entries.remove(index);
    assert forall|i: int| 0 <= i < rest.len() implies rest[i] == entries[if i < index {
        i
    } else {
        i + 1
    }] by {}
    assert forall|i: int, j: int| 0 <= i < j < rest.len() implies rest[i].ident@
        != rest[j].ident@ by {
        let from_i = if i < index { i } else { i + 1 };
        let from_j = if j < index { j } else { j + 1 };
        assert(rest[i] == entries[from_i]);
        assert(rest[j] == entries[from_j]);
    }
    assert forall|ident: Seq<char>|
        registry_of(rest).contains_key(ident) <==> registry_of(entries).remove(gone).contains_key(
            ident,
        ) by {
        if registry_of(rest).contains_key(ident) {
            let at = choose|at: int| entry_is(rest, ident, at);
            let from = if at < index { at } else { at + 1 };
            assert(rest[at] == entries[from]);
            assert(entry_is(entries, ident, from));
            assert(ident != gone);
        } else if registry_of(entries).remove(gone).contains_key(ident) {
            let from = choose|from: int| entry_is(entries, ident, from);
            assert(from != index);
            let at = if from < index { from } else { from - 1 };
            assert(rest[at] == entries[from]);
            assert(entry_is(rest, ident, at));
        }
    }
    assert forall|ident: Seq<char>| registry_of(rest).contains_key(ident) implies registry_of(
        rest,
    )[ident] == registry_of(entries).remove(gone)[ident] by {
        let at = choose|at: int| entry_is(rest, ident, at);
        let from = if at < index { at } else { at + 1 };
        assert(rest[at] == entries[from]);
        lemma_registry_entry(rest, at);
        lemma_registry_entry(entries, from);
    }
    assert(registry_of(rest) =~= registry_of(entries).remove(gone));
}

/// An identifier is in the registry exactly if an entry of the listing has it.
pub proof fn law_listing_shows_registry(entries: Seq<TaskEntry>, ident: Seq<char>)
    ensures
        registry_of(entries).contains_key(ident) <==> exists|index: int|
            entry_is(entries, ident, index),
{
}

/// A process that was started becomes a running task, registering it does
/// not fail, and the task is then found under its identifier.
pub proof fn law_started_task_is_registered(
    registry: Map<Seq<char>, FFmpegTask>,
    ident: Seq<char>,
    launch: FFmpegLaunch,
    child: Child,
)
    ensures
        launch_outcome(launch, Ok(child)) matches Ok(task) && task.status == FFmpegStatus::Running
            && task.child == child && task.target == launch.target,
        add_result(launch_outcome(launch, Ok(child))) is Ok,
        registry_after_add(registry, ident, launch_outcome(launch, Ok(child))).contains_key(ident),
        registry_after_add(registry, ident, launch_outcome(launch, Ok(child)))[ident]
            == launch_outcome(launch, Ok(child))->Ok_0,
{
}

/// A poll that is answered never leaves a task at a status other than
/// running, completed or interrupted.
pub proof fn law_poll_settles_status(task: FFmpegTask, polled: Option<ProcessExit>)
    ensures
        task_after_poll(task, polled).status == FFmpegStatus::Running || task_after_poll(
            task,
            polled,
        ).status.is_terminal(),
        polled is None <==> task_after_poll(task, polled).status == FFmpegStatus::Running,
{
}

/// A process that could not be started is reported as
/// [`FFmpegError::SpawnFFmpegFailed`] with the error and the command line,
/// registering that outcome hands the same error on, and the registry stays
/// as it was: an identifier that was not registered is not registered after.
pub proof fn law_failed_start_leaves_registry(
    registry: Map<Seq<char>, FFmpegTask>,
    ident: Seq<char>,
    launch: FFmpegLaunch,
    error: std::io::Error,
)
    requires
        !registry.contains_key(ident),
    ensures
        launch_outcome(launch, Err(error)) == Err::<FFmpegTask, FFmpegError>(
            FFmpegError::SpawnFFmpegFailed(error, launch.command_line),
        ),
        add_result(launch_outcome(launch, Err(error))) == Err::<(), FFmpegError>(
            FFmpegError::SpawnFFmpegFailed(error, launch.command_line),
        ),
        registry_after_add(registry, ident, launch_outcome(launch, Err(error))) == registry,
        !registry_after_add(registry, ident, launch_outcome(launch, Err(error))).contains_key(
            ident,
        ),
{
}

/// Once the process has exited with code 0, every poll gives the status
/// completed, whatever the status was before: polling again changes nothing.
pub proof fn law_exit_zero_completes(task: FFmpegTask, exit: ProcessExit)
    requires
        exit.consistent(),
        exit.code == Some(0i32),
    ensures
        task_after_poll(task, Some(exit)).status == FFmpegStatus::Completed,
        task_after_poll(task_after_poll(task, Some(exit)), Some(exit)) == task_after_poll(
            task,
            Some(exit),
        ),
{
}

/// A poll decides the status alone: the same answer gives the same task,
/// however often it comes.
pub proof fn law_poll_is_idempotent(task: FFmpegTask, polled: Option<ProcessExit>)
    ensures
        task_after_poll(task_after_poll(task, polled), polled) == task_after_poll(task, polled),
{
}

/// A process that exited with a code other than 0 leaves its task
/// interrupted with that code.
pub proof fn law_exit_code_interrupts(task: FFmpegTask, exit: ProcessExit, code: i32)
    requires
        exit.consistent(),
        exit.code == Some(code),
        code != 0,
    ensures
        task_after_poll(task, Some(exit)).status == FFmpegStatus::Interrupted(Some(code)),
{
}

/// A process that was ended by a signal has no exit code and leaves its task
/// interrupted without one.
pub proof fn law_exit_without_code_interrupts(task: FFmpegTask, exit: ProcessExit)
    requires
        exit.consistent(),
        exit.code is None,
    ensures
        task_after_poll(task, Some(exit)).status == FFmpegStatus::Interrupted(None),
{
}

/// An aborted task is out of the registry and is handed back, whether or not
/// its process could be told to end.
pub proof fn law_abort_removes_and_hands_back(
    entries: Seq<TaskEntry>,
    index: int,
    killed: Result<(), std::io::Error>,
)
    requires
        distinct_idents(entries),
        0 <= index < entries.len(),
    ensures
        !registry_of(entries.remove(index)).contains_key(entries[index].ident@),
        forall|at: int| !entry_is(entries.remove(index), entries[index].ident@, at),
        aborted_task(abort_result(entries[index].task, killed)) == Some(entries[index].task),
        killed is Ok ==> abort_result(entries[index].task, killed) == Ok::<
            Option<FFmpegTask>,
            FFmpegError,
        >(Some(entries[index].task)),
{
    lemma_registry_remove(entries, index);
    law_listing_shows_registry(entries.remove(index), entries[index].ident@);
}

/// The status that a poll of the process gives a task.
pub fn refreshed_status(polled: Option<ProcessExit>) -> (status: FFmpegStatus)
    ensures
        status == status_after_poll(polled),
{
    match polled {
        Some(exit) => {
            if exit.success {
                FFmpegStatus::Completed
            } else {
                FFmpegStatus::Interrupted(exit.code)
            }
        },
        None => FFmpegStatus::Running,
    }
}

/// Brings the answer of a poll into a task that is being refreshed. An
/// answer sets the status that [`status_after_poll`] gives. A failed poll
/// leaves the task at [`FFmpegStatus::Determining`] and is reported as
/// [`FFmpegError::TryWaitFailed`].
pub fn apply_poll(
    task: &mut FFmpegTask,
    polled: Result<Option<ProcessExit>, std::io::Error>,
) -> (refreshed: FFmpegResult<()>)
    ensures
        match polled {
            Ok(answer) => refreshed == Ok::<(), FFmpegError>(()) && *final(task)
                == task_after_poll(*old(task), answer),
            Err(error) => refreshed == Err::<(), FFmpegError>(FFmpegError::TryWaitFailed(error))
                && *final(task) == task_left_undetermined(*old(task)),
        },
{
    task.status = FFmpegStatus::Determining;
    match polled {
        Ok(answer) => {
            task.status = refreshed_status(answer);
            Ok(())
        },
        Err(error) => Err(FFmpegError::TryWaitFailed(error)),
    }
}

/// Refreshes the status of a task from its process, without waiting for the
/// process. The task is at [`FFmpegStatus::Determining`] while the process is
/// asked, and stays there if asking fails.
pub fn update_status(task: &mut FFmpegTask) -> (refreshed: FFmpegResult<()>)
    ensures
        final(task).target == old(task).target,
        match refreshed {
            Ok(_) => {
                ||| final(task).status == FFmpegStatus::Running
                ||| final(task).status == FFmpegStatus::Completed
                ||| final(task).status matches FFmpegStatus::Interrupted(code) && code != Some(
                    0i32,
                )
            },
            Err(error) => error is TryWaitFailed && final(task).status
                == FFmpegStatus::Determining,
        },
{
    task.status = FFmpegStatus::Determining;
    let polled = try_wait(&mut task.child);
    apply_poll(task, polled)
}

/// What becomes of a task that left the registry once its process was told
/// to end: it is handed back, inside [`FFmpegError::FFmpegKillFailed`] where
/// telling failed.
pub open spec fn abort_result(
    task: FFmpegTask,
    killed: Result<(), std::io::Error>,
) -> FFmpegResult<Option<FFmpegTask>> {
    match killed {
        Ok(_) => Ok(Some(task)),
        Err(error) => Err(FFmpegError::FFmpegKillFailed(error, task)),
    }
}

/// The task that an abort hands back, whether it succeeded or could not end
/// the process.
pub open spec fn aborted_task(aborted: FFmpegResult<Option<FFmpegTask>>) -> Option<FFmpegTask> {
    match aborted {
        Ok(Some(task)) => Some(task),
        Err(FFmpegError::FFmpegKillFailed(_, task)) => Some(task),
        _ => None,
    }
}

/// Hands back a task that left the registry, with the outcome of ending its
/// process.
pub fn abort_outcome(
    task: FFmpegTask,
    killed: Result<(), std::io::Error>,
) -> (aborted: FFmpegResult<Option<FFmpegTask>>)
    ensures
        aborted == abort_result(task, killed),
{
    match killed {
        Ok(_) => Ok(Some(task)),
        Err(error) => Err(FFmpegError::FFmpegKillFailed(error, task)),
    }
}

/// The registry of tasks, with the executor that prepares them.
#[derive(Debug)]
pub struct FFmpegManager<'a> {
    /// The executor.
    pub executor: FFmpegExecutor<'a>,
    tasks: Vec<TaskEntry>,
}

impl<'a> FFmpegManager<'a> {
    /// The entries of the registry, one for each task. Their order carries no
    /// meaning.
    pub closed spec fn entries(&self) -> Seq<TaskEntry> {
        self.tasks@
    }

    /// The executor that the manager was made with.
    pub closed spec fn launcher(&self) -> FFmpegExecutor<'a> {
        self.executor
    }

    /// The registry as a map from identifier to task.
    pub open spec fn view(&self) -> Map<Seq<char>, FFmpegTask> {
        registry_of(self.entries())
    }

    /// The invariant of the registry: no identifier occurs twice.
    pub open spec fn wf(&self) -> bool {
        distinct_idents(self.entries())
    }

    /// Makes a manager with an empty registry.
    pub fn new(executor: FFmpegExecutor<'a>) -> (manager: Self)
        ensures
            manager.wf(),
            manager.launcher() == executor,
            manager.entries() == Seq::<TaskEntry>::empty(),
            manager@ == Map::<Seq<char>, FFmpegTask>::empty(),
    {
        let manager = FFmpegManager { executor, tasks: Vec::new() };
        assert(manager@ =~= Map::<Seq<char>, FFmpegTask>::empty());
        manager
    }

    /// Registers the outcome of starting a process under `ident`. A started
    /// task enters the registry; a task that was there under the same
    /// identifier gives way to it, and its process handle is dropped without
    /// the process being ended. A failed start is handed on and leaves the
    /// registry as it was.
    pub fn add_task(
        &mut self,
        ident: String,
        launched: FFmpegResult<FFmpegTask>,
    ) -> (added: FFmpegResult<()>)
        requires
            old(self).wf(),
        ensures
            final(self).wf(),
            final(self).launcher() == old(self).launcher(),
            final(self)@ == registry_after_add(old(self)@, ident@, launched),
            added == add_result(launched),
    {
        match launched {
            Ok(task) => {
                let found = self.position(ident.as_str());
                let entry = TaskEntry { ident, task };
                match found {
                    Some(index) => {
                        proof {
                            lemma_registry_replace(self.tasks@, index as int, entry);
                        }
                        self.tasks.set(index, entry);
                    },
                    None => {
                        proof {
                            lemma_registry_push(self.tasks@, entry);
                        }
                        self.tasks.push(entry);
                    },
                }
                Ok(())
            },
            Err(error) => Err(error),
        }
    }

    /// Looks a task up and refreshes its status from its process, without
    /// waiting for the process. An identifier that is not registered gives
    /// `None`. No task enters or leaves the registry, and no other task
    /// changes.
    pub fn retrieve_task(
        &mut self,
        ident: &str,
    ) -> (retrieved: FFmpegResult<Option<&mut FFmpegTask>>)
        requires
            old(self).wf(),
        ensures
            final(self).wf(),
            final(self).launcher() == old(self).launcher(),
            final(self)@.dom() == old(self)@.dom(),
            forall|other: Seq<char>|
                other != ident@ && old(self)@.contains_key(other) ==> final(self)@[other] == old(
                    self,
                )@[other],
            match retrieved {
                Ok(None) => !old(self)@.contains_key(ident@) && final(self)@ == old(self)@,
                Ok(Some(task)) => {
                    &&& old(self)@.contains_key(ident@)
                    &&& task.target == old(self)@[ident@].target
                    &&& {
                        ||| task.status == FFmpegStatus::Running
                        ||| task.status == FFmpegStatus::Completed
                        ||| task.status matches FFmpegStatus::Interrupted(code) && code != Some(
                            0i32,
                        )
                    }
                    &&& final(self)@ == old(self)@.insert(ident@, *final(task))
                },
                Err(error) => {
                    &&& old(self)@.contains_key(ident@)
                    &&& error is TryWaitFailed
                    &&& final(self)@[ident@].status == FFmpegStatus::Determining
                    &&& final(self)@[ident@].target == old(self)@[ident@].target
                },
            },
    {
        match self.position(ident) {
            Some(index) => {
                proof {
                    lemma_registry_entry(self.tasks@, index as int);
                }
                let entry = &mut self.tasks[index];
                let task = &mut entry.task;
                match update_status(task) {
                    Ok(_) => {
                        proof {
                            let ident = old(self).tasks@[index as int].ident;
                            lemma_registry_replace(
                                old(self).tasks@,
                                index as int,
                                TaskEntry { ident, task: *final(task) },
                            );
                        }
                        Ok(Some(task))
                    },
                    Err(error) => {
                        proof {
                            let ident = old(self).tasks@[index as int].ident;
                            lemma_registry_replace(
                                old(self).tasks@,
                                index as int,
                                TaskEntry { ident, task: *task },
                            );
                        }
                        Err(error)
                    },
                }
            },
            None => {
                proof {
                    lemma_registry_absent(self.tasks@, ident@);
                }
                Ok(None)
            },
        }
    }

    /// Takes a task out of the registry and ends its process. The task leaves
    /// the registry first and gets the status `Interrupted(None)`; then its
    /// process is told to end, which is not waited for. The task is handed
    /// back: as the result, or inside [`FFmpegError::FFmpegKillFailed`] where
    /// the process could not be told. An identifier that is not registered
    /// gives `None`.
    pub fn abort_task(&mut self, ident: &str) -> (aborted: FFmpegResult<Option<FFmpegTask>>)
        requires
            old(self).wf(),
        ensures
            final(self).wf(),
            final(self).launcher() == old(self).launcher(),
            final(self)@ == old(self)@.remove(ident@),
            !old(self)@.contains_key(ident@) ==> aborted == Ok::<Option<FFmpegTask>, FFmpegError>(
                None,
            ),
            old(self)@.contains_key(ident@) ==> {
                &&& aborted_task(aborted) matches Some(task)
                &&& task.status == FFmpegStatus::Interrupted(None)
                &&& task.target == old(self)@[ident@].target
            },
    {
        match self.position(ident) {
            Some(index) => {
                proof {
                    lemma_registry_entry(self.tasks@, index as int);
                    lemma_registry_remove(self.tasks@, index as int);
                }
                let entry = self.tasks.remove(index);
                let mut task = entry.task;
                task.status = FFmpegStatus::Interrupted(None);
                let killed = start_kill(&mut task.child);
                abort_outcome(task, killed)
            },
            None => {
                proof {
                    lemma_registry_absent(self.tasks@, ident@);
                    assert(self@ =~= self@.remove(ident@));
                }
                Ok(None)
            },
        }
    }

    /// All entries of the registry, as they stand: no status is refreshed.
    pub fn list_all_tasks(&self) -> (entries: &Vec<TaskEntry>)
        ensures
            entries@ == self.entries(),
    {
        &self.tasks
    }

    fn position(&self, ident: &str) -> (found: Option<usize>)
        ensures
            match found {
                Some(index) => entry_is(self.entries(), ident@, index as int),
                None => forall|index: int| !entry_is(self.entries(), ident@, index),
            },
    {
        let wanted = ident.to_owned();
        let mut index: usize = 0;
        while index < self.tasks.len()
            invariant
                index <= self.tasks.len(),
                wanted@ == ident@,
                forall|earlier: int|
                    0 <= earlier < index ==> !entry_is(self.tasks@, ident@, earlier),
            decreases self.tasks.len() - index,
        {
            if self.tasks[index].ident == wanted {
                return Some(index);
            }
            index = index + 1;
        }
        None
    }
}

} // verus!
