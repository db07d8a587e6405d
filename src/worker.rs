//! One user's worker: the decisions of its cycle. Whoever runs the worker
//! performs the remote calls it asks for and hands back their results.

use vstd::prelude::*;
use crate::plurality::Fronter;
use crate::updater::{
    copy_status, enabled_in, error_of, not_ready_message, platform_status_text, status_spec,
    Platform, Updater, UpdaterStatus,
};
use crate::users::UserConfigForUpdater;

verus! {

/// The status of every platform for one user, in platform order.
pub type UserUpdatersStatuses = Vec<(Platform, UpdaterStatus)>;

/// The statuses that a worker publishes.
pub open spec fn snapshot_spec(
    vrchat: Updater,
    discord: Updater,
    config: UserConfigForUpdater,
) -> Seq<(Platform, UpdaterStatus)> {
    seq![
        (Platform::VRChat, status_spec(vrchat, config)),
        (Platform::DiscordStatusMessage, status_spec(discord, config)),
    ]
}

/// A snapshot that lists each platform once, in platform order.
pub open spec fn complete_snapshot(s: Seq<(Platform, UpdaterStatus)>) -> bool {
    &&& s.len() == 2
    &&& s[0].0 == Platform::VRChat
    &&& s[1].0 == Platform::DiscordStatusMessage
}

/// Whether `statuses` lists each platform once, in platform order.
pub fn is_complete_snapshot(statuses: &UserUpdatersStatuses) -> (r: bool)
    ensures
        r == complete_snapshot(statuses@),
{
    statuses.len() == 2 && statuses[0].0 == Platform::VRChat && statuses[1].0
        == Platform::DiscordStatusMessage
}

/// The platforms `config` switches on, in platform order.
pub open spec fn enabled_platforms(config: UserConfigForUpdater) -> Seq<Platform> {
    (if config.enable_vrchat {
        seq![Platform::VRChat]
    } else {
        seq![]
    }) + (if config.enable_discord_status_message {
        seq![Platform::DiscordStatusMessage]
    } else {
        seq![]
    })
}

/// The update an adapter asks for in a cycle: its platform and status line,
/// when the platform is on and its setup succeeded.
pub open spec fn planned_push(u: Updater, config: UserConfigForUpdater, fronts: Seq<Fronter>) -> Seq<
    (Platform, Seq<char>),
> {
    if enabled_in(u.platform, config) && u.ready {
        seq![(u.platform, platform_status_text(u.platform, config, fronts))]
    } else {
        seq![]
    }
}

/// An adapter after an update with `result`.
pub open spec fn with_update_result(u: Updater, result: Result<(), String>) -> Updater {
    Updater { last_operation_error: error_of(result), ..u }
}

/// An adapter after a setup with `result`.
pub open spec fn with_setup_result(u: Updater, result: Result<(), String>) -> Updater {
    Updater { last_operation_error: error_of(result), ready: result is Ok, ..u }
}

/// The pushes as plain sequences.
pub open spec fn push_views(pushes: Seq<(Platform, String)>) -> Seq<(Platform, Seq<char>)> {
    pushes.map_values(|p: (Platform, String)| (p.0, p.1@))
}

/// The worker of one user, bound to the configuration it was started with.
#[derive(Debug)]
pub struct UpdaterWorker {
    /// Tells this worker apart from the earlier ones of the same user.
    pub generation: u64,
    pub config: UserConfigForUpdater,
    pub vrchat: Updater,
    pub discord: Updater,
}

impl UpdaterWorker {
    /// Each adapter sits in the field of its platform.
    pub open spec fn wf(self) -> bool {
        &&& self.vrchat.platform == Platform::VRChat
        &&& self.discord.platform == Platform::DiscordStatusMessage
    }

    /// The adapter state of `platform`.
    pub open spec fn updater_of(self, platform: Platform) -> Updater {
        match platform {
            Platform::VRChat => self.vrchat,
            Platform::DiscordStatusMessage => self.discord,
        }
    }

    /// This worker with `platform`'s adapter replaced by `u`.
    pub open spec fn with_updater(self, platform: Platform, u: Updater) -> Self {
        match platform {
            Platform::VRChat => UpdaterWorker { vrchat: u, ..self },
            Platform::DiscordStatusMessage => UpdaterWorker { discord: u, ..self },
        }
    }

    /// This worker after `platform`'s update ended with `result`.
    pub open spec fn after_update(self, platform: Platform, result: Result<(), String>) -> Self {
        self.with_updater(platform, with_update_result(self.updater_of(platform), result))
    }

    /// The statuses this worker would publish now.
    pub open spec fn snapshot(self) -> Seq<(Platform, UpdaterStatus)> {
        snapshot_spec(self.vrchat, self.discord, self.config)
    }

    /// A worker that has not set anything up yet.
    pub fn new(config: UserConfigForUpdater, generation: u64) -> (r: Self)
        ensures
            r.wf(),
            r.config == config,
            r.generation == generation,
            r.vrchat.last_operation_error is None,
            r.discord.last_operation_error is None,
            !r.vrchat.ready,
            r.discord.ready,
    {
        UpdaterWorker {
            generation,
            config,
            vrchat: Updater::new(Platform::VRChat),
            discord: Updater::new(Platform::DiscordStatusMessage),
        }
    }

    /// The platforms to set up: those the configuration switches on.
    pub fn platforms_to_set_up(&self) -> (r: Vec<Platform>)
        ensures
            r@ == enabled_platforms(self.config),
    {
        let mut r: Vec<Platform> = Vec::new();
        if self.config.enable_vrchat {
            r.push(Platform::VRChat);
        }
        if self.config.enable_discord_status_message {
            r.push(Platform::DiscordStatusMessage);
        }
        assert(r@ =~= enabled_platforms(self.config));
        r
    }

    /// Records how `platform`'s setup went; the other platform is untouched.
    pub fn record_setup(&mut self, platform: Platform, result: Result<(), String>)
        requires
            old(self).wf(),
        ensures
            final(self).wf(),
            *final(self) == old(self).with_updater(
                platform,
                with_setup_result(old(self).updater_of(platform), result),
            ),
    {
        match platform {
            Platform::VRChat => self.vrchat.record_setup(result),
            Platform::DiscordStatusMessage => self.discord.record_setup(result),
        }
    }

    /// Records how the update of `platform` went; the other platform is
    /// untouched.
    pub fn record_update(&mut self, platform: Platform, result: Result<(), String>)
        requires
            old(self).wf(),
        ensures
            final(self).wf(),
            *final(self) == old(self).after_update(platform, result),
    {
        match platform {
            Platform::VRChat => self.vrchat.record_result(result),
            Platform::DiscordStatusMessage => self.discord.record_result(result),
        }
    }

    /// Plans one cycle from what the fronter feed returned. When the fetch
    /// failed nothing is sent and nothing changes. Else each platform that is
    /// on and set up gets its status line, in platform order, and each one
    /// that is on but not set up records that it cannot send.
    pub fn plan_cycle(&mut self, fetched: &Result<Vec<Fronter>, String>) -> (r: Vec<
        (Platform, String),
    >)
        requires
            old(self).wf(),
        ensures
            final(self).wf(),
            final(self).config == old(self).config,
            final(self).generation == old(self).generation,
            match fetched {
                Err(_) => r@.len() == 0 && *final(self) == *old(self),
                Ok(fronts) => {
                    &&& push_views(r@) == planned_push(old(self).vrchat, old(self).config, fronts@)
                        + planned_push(old(self).discord, old(self).config, fronts@)
                    &&& forall|q: Platform| #[trigger]
                        final(self).updater_of(q).platform == old(self).updater_of(q).platform
                        && final(self).updater_of(q).ready == old(self).updater_of(q).ready
                        && if enabled_in(q, old(self).config) && !old(self).updater_of(q).ready {
                            final(self).updater_of(q).last_operation_error is Some
                                && final(self).updater_of(q).last_operation_error->0@
                                == not_ready_message()
                        } else {
                            final(self).updater_of(q).last_operation_error == old(
                                self,
                            ).updater_of(q).last_operation_error
                        }
                },
            },
    {
        let mut r: Vec<(Platform, String)> = Vec::new();
        match fetched {
            Err(_) => {},
            Ok(fronts) => {
                if self.vrchat.enabled(&self.config) {
                    let config = &self.config;
                    match self.vrchat.prepare_update(config, fronts) {
                        Some(text) => r.push((Platform::VRChat, text)),
                        None => {},
                    }
                }
                if self.discord.enabled(&self.config) {
                    let config = &self.config;
                    match self.discord.prepare_update(config, fronts) {
                        Some(text) => r.push((Platform::DiscordStatusMessage, text)),
                        None => {},
                    }
                }
                assert(push_views(r@) =~= planned_push(old(self).vrchat, old(self).config, fronts@)
                    + planned_push(old(self).discord, old(self).config, fronts@));
            },
        }
        r
    }

    /// The statuses to publish: each platform's, in platform order.
    pub fn statuses(&self) -> (r: UserUpdatersStatuses)
        requires
            self.wf(),
        ensures
            r@ == self.snapshot(),
            complete_snapshot(r@),
    {
        let mut r: UserUpdatersStatuses = Vec::new();
        r.push((Platform::VRChat, self.vrchat.status(&self.config)));
        r.push((Platform::DiscordStatusMessage, self.discord.status(&self.config)));
        assert(r@ =~= self.snapshot());
        r
    }
}

/// The other platform of the two.
pub open spec fn other_platform(p: Platform) -> Platform {
    match p {
        Platform::VRChat => Platform::DiscordStatusMessage,
        Platform::DiscordStatusMessage => Platform::VRChat,
    }
}

/// The position of `p` in a snapshot.
pub open spec fn snapshot_index(p: Platform) -> int {
    match p {
        Platform::VRChat => 0,
        Platform::DiscordStatusMessage => 1,
    }
}

/// With both platforms on, a cycle in which one platform's update fails and
/// the other's succeeds publishes the failure for the first and `Running`
/// for the second, whatever the two reported before and in either order of
/// recording.
pub proof fn lemma_failure_isolated_to_its_platform(
    w: UpdaterWorker,
    failing: Platform,
    e: String,
)
    requires
        w.wf(),
        w.config.enable_vrchat,
        w.config.enable_discord_status_message,
    ensures
        ({
            let ok = other_platform(failing);
            let a = w.after_update(failing, Err(e)).after_update(ok, Ok(()));
            let b = w.after_update(ok, Ok(())).after_update(failing, Err(e));
            &&& a.wf() && b.wf()
            &&& a.snapshot()[snapshot_index(failing)] == (failing, UpdaterStatus::Error(e))
            &&& a.snapshot()[snapshot_index(ok)] == (ok, UpdaterStatus::Running)
            &&& b.snapshot() == a.snapshot()
        }),
{
}

/// A copy of a published snapshot that equals it.
pub fn copy_statuses(statuses: &UserUpdatersStatuses) -> (r: UserUpdatersStatuses)
    ensures
        r@ == statuses@,
{
    let mut r: UserUpdatersStatuses = Vec::new();
    let mut i: usize = 0;
    while i < statuses.len()
        invariant
            i <= statuses.len(),
            r@ == statuses@.take(i as int),
        decreases statuses.len() - i,
    {
        let (p, s) = &statuses[i];
        r.push((*p, copy_status(s)));
        assert(r@ =~= statuses@.take(i + 1));
        i = i + 1;
    }
    assert(statuses@.take(statuses.len() as int) =~= statuses@);
    r
}

} // verus!
