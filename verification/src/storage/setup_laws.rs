//! What setting a volume up does, told by the steps that were done and the replies
//! that they got.

use crate::storage::luks2::{CryptsetupAction, Luks2Error, SourceType};
use crate::storage::mount;
use crate::storage::mount::{MountRequest, MountStage, MountStep, Reply};
use crate::storage::mount_laws;
use vstd::prelude::*;

verus! {

/// A request that is not refused at once.
pub open spec fn is_accepted(request: MountRequest) -> bool {
    request.source == SourceType::Auto ==> request.filesystem is Some
}

/// The step was tried.
pub open spec fn tried(t: Seq<(MountStep, Reply)>, step: MountStep) -> bool {
    exists|i: int| 0 <= i < t.len() && (#[trigger] t[i]).0 == step
}

/// The step was done.
pub open spec fn did(t: Seq<(MountStep, Reply)>, step: MountStep) -> bool {
    exists|i: int| 0 <= i < t.len() && (#[trigger] t[i]).0 == step && t[i].1 is Done
}

/// The device was found not to be LUKS2.
pub open spec fn found_unused(t: Seq<(MountStep, Reply)>) -> bool {
    exists|i: int|
        0 <= i < t.len() && (#[trigger] t[i]).0 == MountStep::ProbeLuks2 && t[i].1 == (
        Reply::Exit { success: false })
}

/// The device held nothing: the caller said so, or it was found out.
pub open spec fn was_empty(request: MountRequest, t: Seq<(MountStep, Reply)>) -> bool {
    request.source == SourceType::Empty || (request.source == SourceType::Auto && found_unused(t))
}

/// The place of a step in any set-up.
pub open spec fn rank(step: MountStep) -> int {
    match step {
        MountStep::ReadProbe => 0,
        MountStep::ProbeLuks2 => 1,
        MountStep::PrepareHeader => 2,
        MountStep::FormatDetached => 3,
        MountStep::FormatOnDevice => 3,
        MountStep::Open => 4,
        MountStep::MakeFilesystem => 5,
        MountStep::CheckInitialized => 6,
        MountStep::CheckEncrypted => 6,
        MountStep::Symlink => 7,
        MountStep::Mount => 7,
        MountStep::Grow => 8,
        MountStep::Unmount => 9,
        MountStep::RemoveSymlink => 10,
        MountStep::Close => 11,
    }
}

proof fn lemma_setup_order(request: MountRequest, resolved: SourceType)
    ensures
        forall|i: int, j: int|
            0 <= i < j < request.setup(resolved).len() ==> rank(
                #[trigger] request.setup(resolved)[i],
            ) < rank(#[trigger] request.setup(resolved)[j]),
        forall|i: int|
            0 <= i < request.setup(resolved).len() ==> 2 <= rank(
                #[trigger] request.setup(resolved)[i],
            ) <= 8,
{
}

proof fn lemma_setup_members(request: MountRequest, resolved: SourceType)
    ensures
        ({
            let s = request.setup(resolved);
            let fs = request.filesystem is Some;
            let auto = request.source == SourceType::Auto;
            let empty = resolved == SourceType::Empty;
            &&& s.contains(MountStep::Open)
            &&& s.contains(MountStep::Mount) <==> fs
            &&& s.contains(MountStep::Symlink) <==> !fs
            &&& s.contains(MountStep::Grow) <==> fs && request.grow
            &&& s.contains(MountStep::MakeFilesystem) <==> fs && empty
            &&& s.contains(MountStep::CheckInitialized) <==> fs && empty && auto
            &&& s.contains(MountStep::CheckEncrypted) <==> fs && !empty && auto
            &&& s.contains(MountStep::PrepareHeader) <==> request.source == SourceType::Empty
            &&& s.contains(MountStep::FormatDetached) <==> request.source == SourceType::Empty
            &&& s.contains(MountStep::FormatOnDevice) <==> auto && empty
            &&& !s.contains(MountStep::ReadProbe)
            &&& !s.contains(MountStep::ProbeLuks2)
            &&& !s.contains(MountStep::Unmount)
            &&& !s.contains(MountStep::RemoveSymlink)
            &&& !s.contains(MountStep::Close)
        }),
{
    let s = request.setup(resolved);
    let auto = request.source == SourceType::Auto;
    let empty = resolved == SourceType::Empty;
    let e: int = if request.source == SourceType::Empty {
        2
    } else if auto && empty {
        1
    } else {
        0
    };
    lemma_setup_order(request, resolved);
    assert(s[e] == MountStep::Open);
    if e == 2 {
        assert(s[0] == MountStep::PrepareHeader);
        assert(s[1] == MountStep::FormatDetached);
    }
    if e == 1 {
        assert(s[0] == MountStep::FormatOnDevice);
    }
    if request.filesystem is None {
        assert(s[e + 1] == MountStep::Symlink);
    } else {
        let m: int = e + 1 + (if empty {
            1int
        } else {
            0int
        }) + (if auto {
            1int
        } else {
            0int
        });
        assert(s[m] == MountStep::Mount);
        if empty {
            assert(s[e + 1] == MountStep::MakeFilesystem);
        }
        if auto {
            assert(s[m - 1] == if empty {
                MountStep::CheckInitialized
            } else {
                MountStep::CheckEncrypted
            });
        }
        if request.grow {
            assert(s[m + 1] == MountStep::Grow);
        }
    }
}

proof fn lemma_undo_order(done: Seq<MountStep>)
    ensures
        forall|i: int, j: int|
            0 <= i < j < mount::undo_steps(done).len() ==> rank(
                #[trigger] mount::undo_steps(done)[i],
            ) < rank(#[trigger] mount::undo_steps(done)[j]),
        forall|i: int|
            0 <= i < mount::undo_steps(done).len() ==> rank(#[trigger] mount::undo_steps(done)[i])
                >= 9,
{
}

proof fn lemma_undo_members(done: Seq<MountStep>)
    ensures
        ({
            let u = mount::undo_steps(done);
            let open = done.contains(MountStep::Open);
            &&& u.contains(MountStep::Close) <==> open
            &&& u.contains(MountStep::Unmount) <==> open && done.contains(MountStep::Mount)
            &&& u.contains(MountStep::RemoveSymlink) <==> open && done.contains(MountStep::Symlink)
        }),
{
    let u = mount::undo_steps(done);
    if done.contains(MountStep::Open) {
        assert(u[u.len() - 1] == MountStep::Close);
        if done.contains(MountStep::Mount) {
            assert(u[0] == MountStep::Unmount);
        }
        if done.contains(MountStep::Symlink) {
            assert(u[u.len() - 2] == MountStep::RemoveSymlink);
        }
    }
}

/// The trace is made of the probes, `k` steps of the set-up, and steps that undo.
spec fn has_shape(
    request: MountRequest,
    t: Seq<(MountStep, Reply)>,
    resolved: SourceType,
    k: int,
) -> bool {
    let p = mount_laws::probes(request);
    let undo = mount_laws::undo(request, resolved, k - 1);
    &&& mount_laws::shows_state(request, t, resolved)
    &&& 0 <= k <= request.setup(resolved).len()
    &&& p + k <= t.len()
    &&& forall|i: int| p <= i < p + k ==> (#[trigger] t[i]).0 == request.setup(resolved)[i - p]
    &&& t.len() - (p + k) <= undo.len()
    &&& forall|i: int| p + k <= i < t.len() ==> (#[trigger] t[i]).0 == undo[i - (p + k)]
}

/// The trace is made of probes.
spec fn only_probes(request: MountRequest, t: Seq<(MountStep, Reply)>) -> bool {
    &&& t.len() <= mount_laws::probes(request)
    &&& t.len() > 0 ==> t[0].0 == MountStep::ReadProbe
    &&& t.len() > 1 ==> t[1].0 == MountStep::ProbeLuks2
}

proof fn lemma_shape(request: MountRequest, replies: Seq<Reply>) -> (r: (SourceType, int))
    requires
        is_accepted(request),
    ensures
        only_probes(request, mount_laws::trace(request, replies)) || has_shape(
            request,
            mount_laws::trace(request, replies),
            r.0,
            r.1,
        ),
{
    mount_laws::lemma_explained(request, replies);
    let t = mount_laws::trace(request, replies);
    match mount_laws::stage_after(request, replies) {
        MountStage::Probing => (SourceType::Empty, 0),
        MountStage::Asking { .. } => (SourceType::Empty, 0),
        MountStage::SettingUp { resolved, steps } => {
            assert(has_shape(request, t, resolved, steps.done));
            (resolved, steps.done)
        },
        MountStage::Undoing { error, steps } => {
            let (resolved, k): (SourceType, int) = choose|resolved: SourceType, k: int|
                {
                    &&& #[trigger] mount_laws::undoing(request, t, error, resolved, k, steps.done)
                    &&& steps.steps == mount_laws::undo(request, resolved, k)
                    &&& !steps.stopped
                    &&& 0 <= steps.done < steps.steps.len()
                };
            lemma_shape_of_undoing(request, t, error, resolved, k, steps.done);
            (resolved, k + 1)
        },
        MountStage::Finished { failure: None } => {
            let resolved = choose|resolved: SourceType|
                {
                    &&& #[trigger] mount_laws::shows_state(request, t, resolved)
                    &&& t.len() == mount_laws::probes(request) + request.setup(resolved).len()
                    &&& mount_laws::succeeded(
                        request,
                        t,
                        resolved,
                        request.setup(resolved).len() as int,
                    )
                };
            assert(has_shape(request, t, resolved, request.setup(resolved).len() as int));
            (resolved, request.setup(resolved).len() as int)
        },
        MountStage::Finished { failure: Some(error) } => {
            if mount_laws::unresolved(request, t, error) {
                (SourceType::Empty, 0)
            } else {
                let (resolved, k): (SourceType, int) = choose|resolved: SourceType, k: int|
                    {
                        #[trigger] mount_laws::undoing(
                            request,
                            t,
                            error,
                            resolved,
                            k,
                            mount_laws::undo(request, resolved, k).len() as int,
                        )
                    };
                lemma_shape_of_undoing(
                    request,
                    t,
                    error,
                    resolved,
                    k,
                    mount_laws::undo(request, resolved, k).len() as int,
                );
                (resolved, k + 1)
            }
        },
    }
}

proof fn lemma_shape_of_undoing(
    request: MountRequest,
    t: Seq<(MountStep, Reply)>,
    error: Luks2Error,
    resolved: SourceType,
    k: int,
    n: int,
)
    requires
        mount_laws::undoing(request, t, error, resolved, k, n),
    ensures
        has_shape(request, t, resolved, k + 1),
{
    let p = mount_laws::probes(request);
    assert forall|i: int| p <= i < p + k + 1 implies (#[trigger] t[i]).0 == request.setup(
        resolved,
    )[i - p] by {}
}

/// Steps come in one order, whatever the request and the replies are: probes, then the
/// header, then encrypting, opening, making a filesystem, checking it, attaching the
/// device and growing it, and last the steps that undo. No step is done twice.
pub proof fn law_steps_come_in_order(
    request: MountRequest,
    replies: Seq<Reply>,
    i: int,
    j: int,
)
    requires
        is_accepted(request),
        0 <= i < j < mount_laws::trace(request, replies).len(),
    ensures
        rank(mount_laws::trace(request, replies)[i].0) < rank(
            mount_laws::trace(request, replies)[j].0,
        ),
{
    let t = mount_laws::trace(request, replies);
    let (resolved, k) = lemma_shape(request, replies);
    if !only_probes(request, t) {
        let p = mount_laws::probes(request);
        let done = request.setup(resolved).take(k - 1);
        lemma_setup_order(request, resolved);
        lemma_undo_order(done);
        if p <= i < p + k {
            assert(t[i].0 == request.setup(resolved)[i - p]);
        } else if i >= p + k {
            assert(t[i].0 == mount::undo_steps(done)[i - (p + k)]);
        }
        if p <= j < p + k {
            assert(t[j].0 == request.setup(resolved)[j - p]);
        } else if j >= p + k {
            assert(t[j].0 == mount::undo_steps(done)[j - (p + k)]);
        }
    }
}

/// What a set-up that succeeded has done, by the request alone and by what was found
/// out of the device. It has opened the device. A filesystem was mounted, and it was
/// grown exactly where that was asked for; a device was linked. A filesystem was made,
/// and the device encrypted, exactly where the device was empty, with a detached header
/// exactly where the caller said that it was. A device whose state was found out was
/// checked to hold ext4. Nothing was undone.
pub proof fn law_success_attaches_the_volume(request: MountRequest, replies: Seq<Reply>)
    requires
        is_accepted(request),
        mount_laws::stage_after(request, replies) == (MountStage::Finished { failure: None }),
    ensures
        ({
            let t = mount_laws::trace(request, replies);
            let fs = request.filesystem is Some;
            let auto = request.source == SourceType::Auto;
            &&& did(t, MountStep::Open)
            &&& fs <==> did(t, MountStep::Mount)
            &&& fs <==> tried(t, MountStep::Mount)
            &&& !fs <==> did(t, MountStep::Symlink)
            &&& !fs <==> tried(t, MountStep::Symlink)
            &&& fs && request.grow <==> did(t, MountStep::Grow)
            &&& fs && request.grow <==> tried(t, MountStep::Grow)
            &&& fs && was_empty(request, t) <==> did(t, MountStep::MakeFilesystem)
            &&& fs && was_empty(request, t) <==> tried(t, MountStep::MakeFilesystem)
            &&& request.source == SourceType::Empty <==> did(t, MountStep::PrepareHeader)
            &&& request.source == SourceType::Empty <==> did(t, MountStep::FormatDetached)
            &&& auto && found_unused(t) <==> did(t, MountStep::FormatOnDevice)
            &&& auto && found_unused(t) <==> tried(t, MountStep::CheckInitialized)
            &&& auto && !found_unused(t) <==> tried(t, MountStep::CheckEncrypted)
            &&& auto <==> tried(t, MountStep::ReadProbe)
            &&& auto <==> tried(t, MountStep::ProbeLuks2)
            &&& !tried(t, MountStep::Unmount)
            &&& !tried(t, MountStep::RemoveSymlink)
            &&& !tried(t, MountStep::Close)
        }),
{
    mount_laws::lemma_explained(request, replies);
    let t = mount_laws::trace(request, replies);
    let resolved = choose|resolved: SourceType|
        {
            &&& #[trigger] mount_laws::shows_state(request, t, resolved)
            &&& t.len() == mount_laws::probes(request) + request.setup(resolved).len()
            &&& mount_laws::succeeded(request, t, resolved, request.setup(resolved).len() as int)
        };
    lemma_setup_members(request, resolved);
    lemma_success_did(request, replies, resolved, MountStep::Open);
    lemma_success_did(request, replies, resolved, MountStep::Mount);
    lemma_success_did(request, replies, resolved, MountStep::Symlink);
    lemma_success_did(request, replies, resolved, MountStep::Grow);
    lemma_success_did(request, replies, resolved, MountStep::MakeFilesystem);
    lemma_success_did(request, replies, resolved, MountStep::PrepareHeader);
    lemma_success_did(request, replies, resolved, MountStep::FormatDetached);
    lemma_success_did(request, replies, resolved, MountStep::FormatOnDevice);
    lemma_success_did(request, replies, resolved, MountStep::CheckInitialized);
    lemma_success_did(request, replies, resolved, MountStep::CheckEncrypted);
    lemma_success_did(request, replies, resolved, MountStep::Unmount);
    lemma_success_did(request, replies, resolved, MountStep::RemoveSymlink);
    lemma_success_did(request, replies, resolved, MountStep::Close);
    lemma_success_probed(request, t, resolved);
}

/// A set-up that succeeded has tried the steps of its list and no others, and all but
/// the checks were answered by nothing but that they were done.
proof fn lemma_success_did(
    request: MountRequest,
    replies: Seq<Reply>,
    resolved: SourceType,
    step: MountStep,
)
    requires
        ({
            let t = mount_laws::trace(request, replies);
            let s = request.setup(resolved);
            &&& mount_laws::shows_state(request, t, resolved)
            &&& t.len() == mount_laws::probes(request) + s.len()
            &&& mount_laws::succeeded(request, t, resolved, s.len() as int)
        }),
        rank(step) >= 2,
    ensures
        tried(mount_laws::trace(request, replies), step) <==> request.setup(resolved).contains(
            step,
        ),
        rank(step) != 6 ==> (did(mount_laws::trace(request, replies), step) <==> request.setup(
            resolved,
        ).contains(step)),
{
    let t = mount_laws::trace(request, replies);
    let s = request.setup(resolved);
    let p = mount_laws::probes(request);
    if s.contains(step) {
        let i = choose|i: int| 0 <= i < s.len() && s[i] == step;
        mount_laws::lemma_answered(request, replies, p + i);
        assert(t[p + i].0 == s[i]);
    }
    if tried(t, step) {
        let i = choose|i: int| 0 <= i < t.len() && (#[trigger] t[i]).0 == step;
        assert(i >= p);
        assert(s[i - p] == step);
    }
}

/// The probes of a set-up that succeeded, and what they have found.
proof fn lemma_success_probed(
    request: MountRequest,
    t: Seq<(MountStep, Reply)>,
    resolved: SourceType,
)
    requires
        mount_laws::shows_state(request, t, resolved),
        t.len() == mount_laws::probes(request) + request.setup(resolved).len(),
        mount_laws::succeeded(request, t, resolved, request.setup(resolved).len() as int),
    ensures
        request.source == SourceType::Auto <==> tried(t, MountStep::ReadProbe),
        request.source == SourceType::Auto <==> tried(t, MountStep::ProbeLuks2),
        request.source == SourceType::Auto ==> (found_unused(t) <==> resolved
            == SourceType::Empty),
{
    let s = request.setup(resolved);
    let p = mount_laws::probes(request);
    lemma_setup_order(request, resolved);
    assert forall|i: int| p <= i < t.len() implies rank((#[trigger] t[i]).0) >= 2 by {
        assert(t[i].0 == s[i - p]);
    }
    if request.source == SourceType::Auto {
        assert(t[0].0 == MountStep::ReadProbe);
        assert(t[1].0 == MountStep::ProbeLuks2);
    }
}

/// What was done is undone where the set-up failed, and nothing else: the device is
/// closed exactly where it was opened, unmounted exactly where it was mounted, and
/// unlinked exactly where it was linked.
pub proof fn law_failure_undoes_what_was_done(
    request: MountRequest,
    replies: Seq<Reply>,
    error: Luks2Error,
)
    requires
        is_accepted(request),
        mount_laws::stage_after(request, replies) == (MountStage::Finished {
            failure: Some(error),
        }),
    ensures
        ({
            let t = mount_laws::trace(request, replies);
            &&& did(t, MountStep::Open) <==> tried(t, MountStep::Close)
            &&& did(t, MountStep::Mount) <==> tried(t, MountStep::Unmount)
            &&& did(t, MountStep::Symlink) <==> tried(t, MountStep::RemoveSymlink)
        }),
{
    mount_laws::lemma_explained(request, replies);
    let t = mount_laws::trace(request, replies);
    if mount_laws::unresolved(request, t, error) {
        assert forall|i: int| 0 <= i < t.len() implies rank((#[trigger] t[i]).0) < 2 by {}
    } else {
        let (resolved, k): (SourceType, int) = choose|resolved: SourceType, k: int|
            {
                #[trigger] mount_laws::undoing(
                    request,
                    t,
                    error,
                    resolved,
                    k,
                    mount_laws::undo(request, resolved, k).len() as int,
                )
            };
        let s = request.setup(resolved);
        let done = s.take(k);
        lemma_undo_members(done);
        lemma_failure_did(request, replies, error, resolved, k, MountStep::Open);
        lemma_failure_did(request, replies, error, resolved, k, MountStep::Mount);
        lemma_failure_did(request, replies, error, resolved, k, MountStep::Symlink);
        lemma_failure_undid(request, t, error, resolved, k, MountStep::Close);
        lemma_failure_undid(request, t, error, resolved, k, MountStep::Unmount);
        lemma_failure_undid(request, t, error, resolved, k, MountStep::RemoveSymlink);
        if done.contains(MountStep::Mount) {
            mount_laws::lemma_undo_of_a_mount(request, resolved, k);
        }
        if done.contains(MountStep::Symlink) {
            let i = choose|i: int| 0 <= i < done.len() && done[i] == MountStep::Symlink;
            assert(s[i] == MountStep::Symlink);
            lemma_link_is_last(request, resolved, i);
            assert(false);
        }
    }
}

/// Of a set-up that failed, the steps before the one that failed were done.
proof fn lemma_failure_did(
    request: MountRequest,
    replies: Seq<Reply>,
    error: Luks2Error,
    resolved: SourceType,
    k: int,
    step: MountStep,
)
    requires
        mount_laws::undoing(
            request,
            mount_laws::trace(request, replies),
            error,
            resolved,
            k,
            mount_laws::undo(request, resolved, k).len() as int,
        ),
        rank(step) == 4 || rank(step) == 7,
    ensures
        did(mount_laws::trace(request, replies), step) <==> request.setup(resolved).take(
            k,
        ).contains(step),
{
    let t = mount_laws::trace(request, replies);
    let p = mount_laws::probes(request);
    let s = request.setup(resolved);
    let done = s.take(k);
    let u = mount_laws::undo(request, resolved, k);
    lemma_undo_order(done);
    if done.contains(step) {
        let i = choose|i: int| 0 <= i < done.len() && done[i] == step;
        assert(t[p + i].0 == s[i]);
        mount_laws::lemma_answered(request, replies, p + i);
    }
    if did(t, step) {
        let i = choose|i: int| 0 <= i < t.len() && (#[trigger] t[i]).0 == step && t[i].1 is Done;
        if i > p + k {
            assert(t[i].0 == u[i - (p + k + 1)]);
        }
        assert(done[i - p] == step);
    }
}

/// Of a set-up that failed, the steps that undo are those of their list.
proof fn lemma_failure_undid(
    request: MountRequest,
    t: Seq<(MountStep, Reply)>,
    error: Luks2Error,
    resolved: SourceType,
    k: int,
    step: MountStep,
)
    requires
        mount_laws::undoing(
            request,
            t,
            error,
            resolved,
            k,
            mount_laws::undo(request, resolved, k).len() as int,
        ),
        rank(step) >= 9,
    ensures
        tried(t, step) <==> mount_laws::undo(request, resolved, k).contains(step),
{
    let p = mount_laws::probes(request);
    let s = request.setup(resolved);
    let u = mount_laws::undo(request, resolved, k);
    lemma_setup_order(request, resolved);
    if u.contains(step) {
        let i = choose|i: int| 0 <= i < u.len() && u[i] == step;
        assert(t[p + k + 1 + i].0 == u[i]);
    }
    if tried(t, step) {
        let i = choose|i: int| 0 <= i < t.len() && (#[trigger] t[i]).0 == step;
        if p <= i <= p + k {
            assert(t[i].0 == s[i - p]);
        }
        assert(u[i - (p + k + 1)] == step);
    }
}

proof fn lemma_link_is_last(request: MountRequest, resolved: SourceType, i: int)
    requires
        0 <= i < request.setup(resolved).len(),
        request.setup(resolved)[i] == MountStep::Symlink,
    ensures
        i == request.setup(resolved).len() - 1,
{
}

/// The reply tells that the step did what it was to do. An ext4 superblock has the
/// number 0xEF53, the low byte first.
pub open spec fn tells_success(step: MountStep, reply: Reply) -> bool {
    match step {
        MountStep::ReadProbe => reply matches Reply::Bytes(b) && b@.len() >= 4194304,
        MountStep::ProbeLuks2 => reply is Exit,
        MountStep::CheckInitialized | MountStep::CheckEncrypted => reply matches Reply::Bytes(b)
            && b@.len() >= 2 && b@[0] + 256 * b@[1] == 0xEF53,
        _ => reply is Done,
    }
}

/// The first 4 MiB were all zero.
pub open spec fn read_zero(reply: Reply) -> bool {
    reply matches Reply::Bytes(b) && forall|i: int| 0 <= i < 4194304 ==> b@[i] == 0
}

/// The volume is still being set up.
pub open spec fn in_progress(stage: MountStage) -> bool {
    !(stage is Undoing) && !(stage is Finished)
}

/// What is known while the volume is set up: where it is in its steps, and what was
/// found when the device was probed.
proof fn lemma_in_progress(request: MountRequest, replies: Seq<Reply>)
    requires
        is_accepted(request),
        in_progress(mount_laws::stage_after(request, replies)),
    ensures
        match mount_laws::stage_after(request, replies) {
            MountStage::Asking { zeroed } => zeroed == read_zero(
                mount_laws::trace(request, replies)[0].1,
            ),
            MountStage::SettingUp { resolved, steps } => {
                &&& !steps.stopped
                &&& 0 <= steps.done < steps.steps.len()
                &&& 2 <= rank(steps.steps[steps.done]) <= 8
            },
            _ => true,
        },
{
    mount_laws::lemma_explained(request, replies);
    if let MountStage::SettingUp { resolved, steps } = mount_laws::stage_after(request, replies) {
        lemma_setup_order(request, resolved);
        assert(2 <= rank(request.setup(resolved)[steps.done]) <= 8);
    }
}

/// A step that did what it was to do leads on: it is on record with its reply, and the
/// set-up goes on or is finished without failure. Only a device that is neither LUKS2
/// nor zero where it was probed is refused.
pub proof fn law_success_leads_on(request: MountRequest, replies: Seq<Reply>, reply: Reply)
    requires
        is_accepted(request),
        in_progress(mount_laws::stage_after(request, replies)),
        ({
            let step = mount_laws::stage_after(request, replies).next()->0;
            &&& tells_success(step, reply)
            &&& step == MountStep::ProbeLuks2 ==> reply == (Reply::Exit { success: true })
                || read_zero(mount_laws::trace(request, replies)[0].1)
        }),
    ensures
        ({
            let step = mount_laws::stage_after(request, replies).next()->0;
            let after = mount_laws::stage_after(request, replies.push(reply));
            &&& mount_laws::stage_after(request, replies).next() is Some
            &&& in_progress(after) || after == (MountStage::Finished { failure: None })
            &&& mount_laws::trace(request, replies.push(reply)) == mount_laws::trace(
                request,
                replies,
            ).push((step, reply))
        }),
{
    lemma_in_progress(request, replies);
    assert(replies.push(reply).drop_last() =~= replies);
    assert(replies.push(reply).last() == reply);
    assert(mount::answers(mount_laws::stage_after(request, replies).next()->0, reply));
}

/// A reply that tells of a failure is the failure that the set-up ends with: of the
/// step that it answers, with the cause that it gives.
pub proof fn law_failure_is_told(request: MountRequest, replies: Seq<Reply>, reply: Reply)
    requires
        is_accepted(request),
        in_progress(mount_laws::stage_after(request, replies)),
    ensures
        ({
            let step = mount_laws::stage_after(request, replies).next()->0;
            let after = mount_laws::stage_after(request, replies.push(reply));
            let by_cryptsetup = step == MountStep::FormatDetached || step
                == MountStep::FormatOnDevice || step == MountStep::Open;
            let checks = step == MountStep::CheckInitialized || step == MountStep::CheckEncrypted;
            &&& !by_cryptsetup && reply is Failed ==> ends_with(
                after,
                Luks2Error::StepFailed { step, cause: reply->cause },
            )
            &&& step == MountStep::Open && reply is CryptsetupFailed && reply->error.action
                == CryptsetupAction::Open ==> ends_with(
                after,
                Luks2Error::CryptsetupFailed { at: step, error: reply->error },
            )
            &&& by_cryptsetup && step != MountStep::Open && reply is CryptsetupFailed
                && reply->error.action == CryptsetupAction::Format ==> ends_with(
                after,
                Luks2Error::CryptsetupFailed { at: step, error: reply->error },
            )
            &&& step == MountStep::ReadProbe && reply is ReadFailed ==> ends_with(
                after,
                Luks2Error::ProbeTooSmall { stopped_by: Some(reply->ReadFailed_reason) },
            )
            &&& step == MountStep::ReadProbe && (reply matches Reply::Bytes(b) && b@.len()
                < 4194304) ==> ends_with(after, Luks2Error::ProbeTooSmall { stopped_by: None })
            &&& step == MountStep::ProbeLuks2 && reply == (Reply::Exit { success: false })
                && !read_zero(mount_laws::trace(request, replies)[0].1) ==> ends_with(
                after,
                Luks2Error::AutoRefused,
            )
            &&& checks && reply is ReadFailed ==> ends_with(
                after,
                Luks2Error::ShortSuperblock { stopped_by: Some(reply->ReadFailed_reason) },
            )
            &&& checks && reply is Unreached ==> ends_with(
                after,
                Luks2Error::SeekFailed { reason: reply->Unreached_reason },
            )
            &&& checks && (reply matches Reply::Bytes(b) && b@.len() < 2) ==> ends_with(
                after,
                Luks2Error::ShortSuperblock { stopped_by: None },
            )
            &&& step == MountStep::CheckInitialized && (reply matches Reply::Bytes(b) && b@.len()
                >= 2 && b@[0] + 256 * b@[1] != 0xEF53) ==> ends_with(
                after,
                Luks2Error::InitializedNotExt4,
            )
            &&& step == MountStep::CheckEncrypted && (reply matches Reply::Bytes(b) && b@.len()
                >= 2 && b@[0] + 256 * b@[1] != 0xEF53) ==> ends_with(
                after,
                Luks2Error::EncryptedNotExt4,
            )
        }),
{
    lemma_in_progress(request, replies);
    assert(replies.push(reply).drop_last() =~= replies);
    assert(replies.push(reply).last() == reply);
}

/// The set-up has failed with `error`, and is undone or finished.
pub open spec fn ends_with(stage: MountStage, error: Luks2Error) -> bool {
    ||| stage == (MountStage::Finished { failure: Some(error) })
    ||| stage matches MountStage::Undoing { error: e, .. } && e == error
}

/// A set-up that has failed keeps its error, whatever becomes of the steps that undo,
/// and one that is finished stays as it is.
pub proof fn law_failure_is_kept(
    request: MountRequest,
    replies: Seq<Reply>,
    reply: Reply,
    error: Luks2Error,
)
    ensures
        ends_with(mount_laws::stage_after(request, replies), error) ==> ends_with(
            mount_laws::stage_after(request, replies.push(reply)),
            error,
        ),
        mount_laws::stage_after(request, replies) is Finished ==> mount_laws::stage_after(
            request,
            replies.push(reply),
        ) == mount_laws::stage_after(request, replies),
{
    assert(replies.push(reply).drop_last() =~= replies);
    assert(replies.push(reply).last() == reply);
}

/// What does not speak of the step changes nothing: that it was done says nothing of
/// what was read or asked, bytes or an exit status say nothing of what was done, and what
/// `cryptsetup` failed to do says nothing of another step.
pub proof fn law_other_replies_change_nothing(
    request: MountRequest,
    replies: Seq<Reply>,
    reply: Reply,
)
    requires
        ({
            let step = mount_laws::stage_after(request, replies).next()->0;
            let reads = step == MountStep::ReadProbe || step == MountStep::CheckInitialized || step
                == MountStep::CheckEncrypted;
            let formats = step == MountStep::FormatDetached || step == MountStep::FormatOnDevice;
            let opens = step == MountStep::Open;
            let closes = step == MountStep::Close;
            ||| reply is Done && (reads || step == MountStep::ProbeLuks2)
            ||| (reply is Bytes || reply is ReadFailed || reply is Unreached) && !reads
            ||| reply is Unreached && step == MountStep::ReadProbe
            ||| reply is Exit && step != MountStep::ProbeLuks2
            ||| reply is Failed && (formats || opens || closes)
            ||| reply is CryptsetupFailed && !formats && reply->error.action
                == CryptsetupAction::Format
            ||| reply is CryptsetupFailed && !opens && reply->error.action
                == CryptsetupAction::Open
            ||| reply is CryptsetupFailed && !closes && reply->error.action
                == CryptsetupAction::Close
        }),
    ensures
        mount_laws::stage_after(request, replies.push(reply)) == mount_laws::stage_after(
            request,
            replies,
        ),
{
    assert(replies.push(reply).drop_last() =~= replies);
    assert(replies.push(reply).last() == reply);
}

/// A volume is undone in no more than two steps, of which the last closes the device.
pub open spec fn closes_last(steps: Seq<MountStep>) -> bool {
    ||| steps == seq![MountStep::Close]
    ||| steps == seq![MountStep::Unmount, MountStep::Close]
    ||| steps == seq![MountStep::RemoveSymlink, MountStep::Close]
}

proof fn lemma_undo_closes_last(request: MountRequest, resolved: SourceType, k: int)
    requires
        0 <= k <= request.setup(resolved).len(),
        mount_laws::undo(request, resolved, k).len() > 0,
    ensures
        closes_last(mount_laws::undo(request, resolved, k)),
{
    let done = request.setup(resolved).take(k);
    if done.contains(MountStep::Mount) && done.contains(MountStep::Symlink) {
        let i = choose|i: int| 0 <= i < done.len() && done[i] == MountStep::Mount;
        let j = choose|j: int| 0 <= j < done.len() && done[j] == MountStep::Symlink;
        lemma_setup_order(request, resolved);
        assert(request.setup(resolved)[i] == MountStep::Mount);
        assert(request.setup(resolved)[j] == MountStep::Symlink);
    }
    let steps = mount_laws::undo(request, resolved, k);
    if done.contains(MountStep::Mount) {
        assert(steps =~= seq![MountStep::Unmount, MountStep::Close]);
    } else if done.contains(MountStep::Symlink) {
        assert(steps =~= seq![MountStep::RemoveSymlink, MountStep::Close]);
    } else {
        assert(steps =~= seq![MountStep::Close]);
    }
}

proof fn lemma_undoing_closes_last(request: MountRequest, replies: Seq<Reply>)
    requires
        is_accepted(request),
        mount_laws::stage_after(request, replies) is Undoing,
    ensures
        ({
            let steps = mount_laws::stage_after(request, replies)->Undoing_steps;
            &&& closes_last(steps.steps)
            &&& !steps.stopped
            &&& 0 <= steps.done < steps.steps.len()
        }),
{
    mount_laws::lemma_explained(request, replies);
    let t = mount_laws::trace(request, replies);
    let error = mount_laws::stage_after(request, replies)->Undoing_error;
    let steps = mount_laws::stage_after(request, replies)->Undoing_steps;
    let (resolved, k): (SourceType, int) = choose|resolved: SourceType, k: int|
        {
            &&& #[trigger] mount_laws::undoing(request, t, error, resolved, k, steps.done)
            &&& steps.steps == mount_laws::undo(request, resolved, k)
            &&& !steps.stopped
            &&& 0 <= steps.done < steps.steps.len()
        };
    lemma_undo_closes_last(request, resolved, k);
}

/// Undoing goes on whether or not a step of it succeeds: each is tried once, and the next
/// one follows until all were tried.
pub proof fn law_undoing_goes_on(request: MountRequest, replies: Seq<Reply>, reply: Reply)
    requires
        is_accepted(request),
        mount_laws::stage_after(request, replies) is Undoing,
        ({
            let step = mount_laws::stage_after(request, replies).next()->0;
            ||| reply is Done
            ||| reply is Failed && step != MountStep::Close
            ||| reply is CryptsetupFailed && step == MountStep::Close && reply->error.action
                == CryptsetupAction::Close
        }),
    ensures
        ({
            let step = mount_laws::stage_after(request, replies).next()->0;
            let after = mount_laws::stage_after(request, replies.push(reply));
            &&& step == MountStep::Unmount || step == MountStep::RemoveSymlink || step
                == MountStep::Close
            &&& mount_laws::trace(request, replies.push(reply)) == mount_laws::trace(
                request,
                replies,
            ).push((step, reply))
            &&& after is Finished <==> step == MountStep::Close
            &&& step != MountStep::Close ==> after.next() == Some(MountStep::Close)
        }),
{
    lemma_undoing_closes_last(request, replies);
    assert(replies.push(reply).drop_last() =~= replies);
    assert(replies.push(reply).last() == reply);
}

} // verus!
