//! The supervisor: which worker is live for each user, and the statuses each
//! user's live worker published last.

use vstd::prelude::*;
use std::collections::HashMap;
use crate::users::{UserConfigForUpdater, UserId};
use crate::worker::{complete_snapshot, copy_statuses, UpdaterWorker, UserUpdatersStatuses};

verus! {

broadcast use vstd::std_specs::hash::group_hash_axioms;

/// Why the supervisor turned a request down.
#[derive(Debug, Clone, Copy, PartialEq, Eq, Structural)]
pub enum SupervisorError {
    /// No worker has published statuses for this user.
    NoUpdatersFound,
    /// The worker is no longer the user's live one: it was replaced.
    NotLiveWorker,
    /// Every worker generation number has been handed out.
    GenerationsExhausted,
}

/// What a restart asks the caller to do: cancel the replaced worker, if any,
/// and run the new one.
#[derive(Debug)]
pub struct Restart {
    pub aborted: Option<u64>,
    pub worker: UpdaterWorker,
}

/// The supervisor's view: the live worker generation of each user, the last
/// statuses of each user, and the next generation number to hand out.
pub struct UpdaterManager {
    pub tasks: HashMap<u128, u64>,
    pub statuses: HashMap<u128, UserUpdatersStatuses>,
    pub next_generation: u64,
}

/// The live generations after a restart of `user`'s worker.
pub open spec fn restarted(tasks: Map<u128, u64>, user: u128, generation: u64) -> Map<u128, u64> {
    tasks.insert(user, generation)
}

/// Whether a worker of `user` with `generation` may publish to `tasks`.
pub open spec fn may_publish(tasks: Map<u128, u64>, user: u128, generation: u64) -> bool {
    tasks.contains_key(user) && tasks[user] == generation
}

/// Restarting a user's worker twice leaves exactly the second one live: its
/// generation is the user's only live entry, the first one can no longer
/// publish, the second can, and no other user is affected.
pub proof fn lemma_restart_replaces_worker(tasks: Map<u128, u64>, next: u64, user: u128)
    requires
        forall|u: u128| #[trigger] tasks.contains_key(u) ==> tasks[u] < next,
        next + 1 < u64::MAX,
    ensures
        ({
            let first = restarted(tasks, user, next);
            let second = restarted(first, user, (next + 1) as u64);
            &&& second.dom() == tasks.dom().insert(user)
            &&& second[user] == next + 1
            &&& !may_publish(second, user, next)
            &&& may_publish(second, user, (next + 1) as u64)
            &&& forall|v: u128| v != user ==> (#[trigger] second.contains_key(v) == tasks.contains_key(v)
                && (tasks.contains_key(v) ==> second[v] == tasks[v]))
            &&& forall|g: u64| #[trigger] may_publish(second, user, g) ==> g == next + 1
            &&& forall|v: u128| #[trigger] second.contains_key(v) ==> second[v] != next
        }),
{
    let first = restarted(tasks, user, next);
    let second = restarted(first, user, (next + 1) as u64);
    assert(second.dom() =~= tasks.dom().insert(user));
}

impl UpdaterManager {
    /// Every live generation was handed out before `next_generation`, no
    /// two users share one, and every stored snapshot lists each platform
    /// once.
    pub open spec fn wf(self) -> bool {
        &&& forall|u: u128| #[trigger]
            self.statuses@.contains_key(u) ==> complete_snapshot(self.statuses@[u]@)
        &&& forall|u: u128| #[trigger]
            self.tasks@.contains_key(u) ==> self.tasks@[u] < self.next_generation
        &&& forall|u: u128, v: u128|
            u != v && #[trigger] self.tasks@.contains_key(u) && #[trigger] self.tasks@.contains_key(v)
                ==> self.tasks@[u] != self.tasks@[v]
    }

    pub fn new() -> (r: Self)
        ensures
            r.wf(),
            r.tasks@ == Map::<u128, u64>::empty(),
            r.statuses@ == Map::<u128, UserUpdatersStatuses>::empty(),
            r.next_generation == 0,
    {
        UpdaterManager { tasks: HashMap::new(), statuses: HashMap::new(), next_generation: 0 }
    }

    /// The statuses `user_id`'s worker published last.
    pub fn get_updaters_state(&self, user_id: &UserId) -> (r: Result<
        UserUpdatersStatuses,
        SupervisorError,
    >)
        requires
            self.wf(),
        ensures
            r is Ok ==> complete_snapshot(r->Ok_0@),
            self.statuses@.contains_key(user_id.inner) ==> r is Ok && r->Ok_0@
                == self.statuses@[user_id.inner]@,
            !self.statuses@.contains_key(user_id.inner) ==> r == Err::<
                UserUpdatersStatuses,
                SupervisorError,
            >(SupervisorError::NoUpdatersFound),
    {
        match self.statuses.get(&user_id.inner) {
            Some(s) => Ok(copy_statuses(s)),
            None => Err(SupervisorError::NoUpdatersFound),
        }
    }

    /// Stores the statuses that worker `generation` of `user_id` published,
    /// in place of the earlier ones; refused unless it is the user's live
    /// worker, so a replaced worker cannot overwrite its successor's.
    pub fn set_updater_state(
        &mut self,
        user_id: &UserId,
        generation: u64,
        statuses: UserUpdatersStatuses,
    ) -> (r: Result<(), SupervisorError>)
        requires
            old(self).wf(),
            complete_snapshot(statuses@),
        ensures
            final(self).wf(),
            final(self).tasks@ == old(self).tasks@,
            final(self).next_generation == old(self).next_generation,
            may_publish(old(self).tasks@, user_id.inner, generation) ==> r is Ok
                && final(self).statuses@ == old(self).statuses@.insert(user_id.inner, statuses),
            !may_publish(old(self).tasks@, user_id.inner, generation) ==> r == Err::<
                (),
                SupervisorError,
            >(SupervisorError::NotLiveWorker) && final(self).statuses@ == old(self).statuses@,
    {
        let live = match self.tasks.get(&user_id.inner) {
            Some(g) => *g == generation,
            None => false,
        };
        if live {
            self.statuses.insert(user_id.inner, statuses);
            Ok(())
        } else {
            Err(SupervisorError::NotLiveWorker)
        }
    }

    /// Replaces `user_id`'s worker by a new one bound to `config`: the old
    /// one, if any, is named for cancelling, and the new one becomes the
    /// only live worker of the user.
    pub fn restart_updater(&mut self, user_id: &UserId, config: UserConfigForUpdater) -> (r:
        Result<Restart, SupervisorError>)
        requires
            old(self).wf(),
        ensures
            final(self).wf(),
            final(self).statuses@ == old(self).statuses@,
            old(self).next_generation == u64::MAX ==> r is Err && r->Err_0
                == SupervisorError::GenerationsExhausted && final(self).tasks@ == old(self).tasks@
                && final(self).next_generation == old(self).next_generation,
            old(self).next_generation < u64::MAX ==> {
                &&& r is Ok
                &&& final(self).tasks@ == restarted(
                    old(self).tasks@,
                    user_id.inner,
                    old(self).next_generation,
                )
                &&& final(self).next_generation == old(self).next_generation + 1
                &&& r->Ok_0.aborted == if old(self).tasks@.contains_key(user_id.inner) {
                    Some(old(self).tasks@[user_id.inner])
                } else {
                    None::<u64>
                }
                &&& r->Ok_0.worker.wf()
                &&& r->Ok_0.worker.config == config
                &&& r->Ok_0.worker.generation == old(self).next_generation
                &&& r->Ok_0.worker.vrchat.last_operation_error is None
                &&& r->Ok_0.worker.discord.last_operation_error is None
                &&& !r->Ok_0.worker.vrchat.ready
                &&& r->Ok_0.worker.discord.ready
                &&& forall|v: u128|
                    v != user_id.inner && #[trigger] old(self).tasks@.contains_key(v) ==> r->Ok_0.aborted
                        != Some(old(self).tasks@[v])
            },
    {
        if self.next_generation == u64::MAX {
            return Err(SupervisorError::GenerationsExhausted);
        }
        let generation = self.next_generation;
        let aborted = self.tasks.insert(user_id.inner, generation);
        self.next_generation = generation + 1;
        let worker = UpdaterWorker::new(config, generation);
        Ok(Restart { aborted, worker })
    }
}

} // verus!
