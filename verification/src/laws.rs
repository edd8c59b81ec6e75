//! The library's guarantees, stated and proved over the construction
//! protocol [`spec_step`](crate::session::spec_step).

use vstd::prelude::*;
use crate::command::spec_bind_mount_argv;
use crate::command::spec_boot_path;
use crate::command::spec_direct_mount_argv;
use crate::command::spec_temp_prefix;
use crate::guard::GuardModel;
use crate::probe::spec_probe_target;
use crate::session::ActionModel;
use crate::session::EventModel;
use crate::session::OutcomeModel;
use crate::session::SessionModel;
use crate::session::StateModel;
use crate::session::spec_accepts;
use crate::session::spec_step;
use crate::strategy::MountStrategy;
use crate::text::trimmed;

verus! {

/// Construction is all-or-nothing: a step hands out a guard only when the
/// awaited mount command reported success, and that guard records exactly
/// the directory the command targeted and the session's device; a step that
/// hands out an error leaves the session failed, where no guard can ever be
/// produced.
pub proof fn lemma_construction_atomicity(s: SessionModel, event: EventModel)
    requires
        spec_accepts(s.state, event),
    ensures
        spec_step(s, event).1 matches OutcomeModel::Ready { guard } ==> {
            &&& event == (EventModel::MountFinished { success: true })
            &&& s.state matches StateModel::AwaitingMount { strategy, dir } && guard == (
            GuardModel { mount_dir: dir, dev: s.dev })
            &&& spec_step(s, event).0.state is Complete
        },
        spec_step(s, event).1 is Failed ==> spec_step(s, event).0.state is Failed,
{
}

/// The session never forgets or changes which device it is constructing a
/// mount for.
pub proof fn lemma_device_identity_stable(s: SessionModel, event: EventModel)
    requires
        spec_accepts(s.state, event),
    ensures
        spec_step(s, event).0.dev == s.dev,
{
}

/// A finished session — complete or failed — accepts no further event:
/// there is no way to re-trigger any part of the construction.
pub proof fn lemma_finished_sessions_accept_nothing(s: SessionModel, event: EventModel)
    requires
        s.state is Complete || s.state is Failed,
    ensures
        !spec_accepts(s.state, event),
{
}

/// If the probe reports the device already mounted at the boot path, the
/// construction bind-mounts that path — not the device — onto the fresh
/// temporary directory, and a successful mount yields a guard over that
/// directory.
pub proof fn lemma_bind_mount_branch(dev: Seq<char>, stdout: Seq<char>, dir: Seq<char>)
    requires
        trimmed(stdout) == spec_boot_path(),
    ensures
        ({
            let s0 = SessionModel { dev, state: StateModel::AwaitingProbe };
            let (s1, o1) = spec_step(s0, EventModel::ProbeFinished { success: true, stdout });
            let (s2, o2) = spec_step(s1, EventModel::TempDirCreated { path: dir });
            let (s3, o3) = spec_step(s2, EventModel::MountFinished { success: true });
            &&& o1 == (OutcomeModel::Next {
                action: ActionModel::CreateTempDir { prefix: spec_temp_prefix() },
            })
            &&& s1.state == (StateModel::AwaitingTempDir { strategy: MountStrategy::Bind })
            &&& o2 == (OutcomeModel::Next {
                action: ActionModel::RunMount {
                    argv: seq!["mount"@, "--bind"@, spec_boot_path(), dir],
                },
            })
            &&& o3 == (OutcomeModel::Ready { guard: GuardModel { mount_dir: dir, dev } })
        }),
{
    reveal_strlit("/boot");
    assert(spec_boot_path().len() == 5);
    assert(spec_bind_mount_argv(dir) =~= seq!["mount"@, "--bind"@, spec_boot_path(), dir]);
}

/// If the probe does not report the device mounted at the boot path —
/// because it is unmounted, the query failed, or it is mounted somewhere
/// else — the construction mounts the raw device directly onto the fresh
/// temporary directory, and a successful mount yields a guard over that
/// directory.
pub proof fn lemma_direct_mount_branch(
    dev: Seq<char>,
    success: bool,
    stdout: Seq<char>,
    dir: Seq<char>,
)
    requires
        spec_probe_target(success, stdout) != Some(spec_boot_path()),
    ensures
        ({
            let s0 = SessionModel { dev, state: StateModel::AwaitingProbe };
            let (s1, o1) = spec_step(s0, EventModel::ProbeFinished { success, stdout });
            let (s2, o2) = spec_step(s1, EventModel::TempDirCreated { path: dir });
            let (s3, o3) = spec_step(s2, EventModel::MountFinished { success: true });
            &&& o1 == (OutcomeModel::Next {
                action: ActionModel::CreateTempDir { prefix: spec_temp_prefix() },
            })
            &&& s1.state == (StateModel::AwaitingTempDir { strategy: MountStrategy::Direct })
            &&& o2 == (OutcomeModel::Next {
                action: ActionModel::RunMount { argv: seq!["mount"@, dev, dir] },
            })
            &&& o3 == (OutcomeModel::Ready { guard: GuardModel { mount_dir: dir, dev } })
        }),
{
    assert(spec_direct_mount_argv(dev, dir) =~= seq!["mount"@, dev, dir]);
}

} // verus!
