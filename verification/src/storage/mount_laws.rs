//! What holds of setting a LUKS2 volume up, whatever the replies are.

use crate::storage::luks2;
use crate::storage::luks2::{Luks2Error, SourceType};
use crate::storage::mount::{MountRequest, MountStage, MountStep, Reply};
use vstd::prelude::*;

verus! {

/// The stage that a list of replies leads to.
pub open spec fn stage_after(request: MountRequest, replies: Seq<Reply>) -> MountStage
    decreases replies.len(),
{
    if replies.len() == 0 {
        MountStage::start(request)
    } else {
        stage_after(request, replies.drop_last()).after(request, replies.last())
    }
}

/// The steps that were done, each with the reply that answered it.
pub open spec fn trace(request: MountRequest, replies: Seq<Reply>) -> Seq<(MountStep, Reply)>
    decreases replies.len(),
{
    if replies.len() == 0 {
        Seq::empty()
    } else {
        let before = trace(request, replies.drop_last());
        match stage_after(request, replies.drop_last()).next() {
            Some(step) => if crate::storage::mount::answers(step, replies.last()) {
                before.push((step, replies.last()))
            } else {
                before
            },
            None => before,
        }
    }
}

/// How many steps find out the state of the device.
pub open spec fn probes(request: MountRequest) -> int {
    if request.source == SourceType::Auto {
        2
    } else {
        0
    }
}

/// The trace shows that the device is in the state `resolved`: because the caller
/// said so, or because the probe and LUKS2 did.
pub open spec fn shows_state(
    request: MountRequest,
    t: Seq<(MountStep, Reply)>,
    resolved: SourceType,
) -> bool {
    if request.source == SourceType::Auto {
        &&& t.len() >= 2
        &&& t[0].0 == MountStep::ReadProbe
        &&& t[1].0 == MountStep::ProbeLuks2
        &&& t[0].1 matches Reply::Bytes(probe) && probe@.len()
            >= luks2::AUTO_INITIALIZATION_PROBE_BYTES && (t[1].1 matches Reply::Exit { success }
            && luks2::resolution(luks2::probe_zeroed(probe@), success) == Some(resolved))
    } else {
        resolved == request.source
    }
}

/// After the probes, the first `k` steps of the set-up stand in the trace, and
/// each succeeded.
pub open spec fn succeeded(
    request: MountRequest,
    t: Seq<(MountStep, Reply)>,
    resolved: SourceType,
    k: int,
) -> bool {
    let steps = request.setup(resolved);
    let p = probes(request);
    &&& 0 <= k <= steps.len()
    &&& p + k <= t.len()
    &&& forall|i: int|
        p <= i < p + k ==> (#[trigger] t[i]).0 == steps[i - p]
            && crate::storage::mount::step_failure(t[i].0, t[i].1) is None
}

/// The step after the first `k` of the set-up failed with `error`.
pub open spec fn failed_with(
    request: MountRequest,
    t: Seq<(MountStep, Reply)>,
    resolved: SourceType,
    k: int,
    error: Luks2Error,
) -> bool {
    let steps = request.setup(resolved);
    let p = probes(request);
    &&& succeeded(request, t, resolved, k)
    &&& k < steps.len()
    &&& p + k < t.len()
    &&& t[p + k].0 == steps[k]
    &&& crate::storage::mount::step_failure(t[p + k].0, t[p + k].1) == Some(error)
}

/// The steps that undo the first `k` of the set-up.
pub open spec fn undo(request: MountRequest, resolved: SourceType, k: int) -> Seq<MountStep> {
    crate::storage::mount::undo_steps(request.setup(resolved).take(k))
}

/// After the step that failed, the first `n` of the steps that undo stand in the
/// trace, and nothing else.
pub open spec fn undone(
    request: MountRequest,
    t: Seq<(MountStep, Reply)>,
    resolved: SourceType,
    k: int,
    n: int,
) -> bool {
    let p = probes(request);
    &&& 0 <= n <= undo(request, resolved, k).len()
    &&& t.len() == p + k + 1 + n
    &&& forall|i: int|
        p + k + 1 <= i < t.len() ==> (#[trigger] t[i]).0 == undo(request, resolved, k)[i - (p + k
            + 1)]
}

/// The set-up got as far as its step `k`, failed there with `error`, and `n`
/// steps were undone.
pub open spec fn undoing(
    request: MountRequest,
    t: Seq<(MountStep, Reply)>,
    error: Luks2Error,
    resolved: SourceType,
    k: int,
    n: int,
) -> bool {
    &&& shows_state(request, t, resolved)
    &&& failed_with(request, t, resolved, k, error)
    &&& undone(request, t, resolved, k, n)
}

/// The state of the device was not found out, and nothing but the probes was done.
pub open spec fn unresolved(
    request: MountRequest,
    t: Seq<(MountStep, Reply)>,
    error: Luks2Error,
) -> bool {
    &&& request.source == SourceType::Auto
    &&& 1 <= t.len() <= 2
    &&& t[0].0 == MountStep::ReadProbe
    &&& t.len() == 2 ==> t[1].0 == MountStep::ProbeLuks2
    &&& match t.last().1 {
        Reply::Failed { cause } => error == (Luks2Error::StepFailed { step: t.last().0, cause }),
        Reply::Bytes(probe) => t.len() == 1 && probe@.len()
            < luks2::AUTO_INITIALIZATION_PROBE_BYTES && error == (Luks2Error::ProbeTooSmall {
            stopped_by: None,
        }),
        Reply::ReadFailed { reason } => t.len() == 1 && error == (Luks2Error::ProbeTooSmall {
            stopped_by: Some(reason),
        }),
        Reply::Exit { success } => {
            &&& t.len() == 2 && !success && error is AutoRefused
            &&& t[0].1 matches Reply::Bytes(probe) && !luks2::probe_zeroed(probe@)
        },
        _ => false,
    }
}

/// What a stage says of the steps that led to it.
pub open spec fn explains(
    request: MountRequest,
    t: Seq<(MountStep, Reply)>,
    stage: MountStage,
) -> bool {
    match stage {
        MountStage::Probing => request.source == SourceType::Auto && t.len() == 0,
        MountStage::Asking { zeroed } => {
            &&& request.source == SourceType::Auto
            &&& t.len() == 1
            &&& t[0].0 == MountStep::ReadProbe
            &&& t[0].1 matches Reply::Bytes(probe) && probe@.len()
                >= luks2::AUTO_INITIALIZATION_PROBE_BYTES && zeroed == luks2::probe_zeroed(probe@)
        },
        MountStage::SettingUp { resolved, steps } => {
            &&& shows_state(request, t, resolved)
            &&& steps.steps == request.setup(resolved)
            &&& !steps.stopped
            &&& 0 <= steps.done < steps.steps.len()
            &&& t.len() == probes(request) + steps.done
            &&& succeeded(request, t, resolved, steps.done)
        },
        MountStage::Undoing { error, steps } => exists|resolved: SourceType, k: int|
            {
                &&& #[trigger] undoing(request, t, error, resolved, k, steps.done)
                &&& steps.steps == undo(request, resolved, k)
                &&& !steps.stopped
                &&& 0 <= steps.done < steps.steps.len()
            },
        MountStage::Finished { failure: None } => exists|resolved: SourceType|
            {
                &&& #[trigger] shows_state(request, t, resolved)
                &&& t.len() == probes(request) + request.setup(resolved).len()
                &&& succeeded(request, t, resolved, request.setup(resolved).len() as int)
            },
        MountStage::Finished { failure: Some(error) } => {
            ||| unresolved(request, t, error)
            ||| exists|resolved: SourceType, k: int|
                {
                    #[trigger] undoing(
                        request,
                        t,
                        error,
                        resolved,
                        k,
                        undo(request, resolved, k).len() as int,
                    )
                }
        },
    }
}

proof fn lemma_setup_is_not_empty(request: MountRequest, resolved: SourceType)
    ensures
        request.setup(resolved).len() > 0,
{
}

/// A step of the set-up that succeeds or fails leaves an explained stage.
proof fn lemma_setup_step(
    request: MountRequest,
    t: Seq<(MountStep, Reply)>,
    stage: MountStage,
    reply: Reply,
)
    requires
        stage is SettingUp,
        explains(request, t, stage),
        crate::storage::mount::answers(stage.next()->0, reply),
    ensures
        explains(request, t.push((stage.next()->0, reply)), stage.after(request, reply)),
{
    let resolved = stage->SettingUp_resolved;
    let steps = stage->SettingUp_steps;
    let step = stage.next()->0;
    let u = t.push((step, reply));
    let p = probes(request);
    let k = steps.done;
    assert(shows_state(request, u, resolved));
    assert forall|i: int| p <= i < p + k implies (#[trigger] u[i]).0 == request.setup(resolved)[i
        - p] && crate::storage::mount::step_failure(u[i].0, u[i].1) is None by {
        assert(u[i] == t[i]);
    }
    match crate::storage::mount::step_failure(step, reply) {
        Some(error) => {
            let todo = undo(request, resolved, k);
            assert(steps.steps.take(k) == request.setup(resolved).take(k));
            assert(failed_with(request, u, resolved, k, error));
            assert(undone(request, u, resolved, k, 0));
            assert(undoing(request, u, error, resolved, k, 0));
            if todo.len() == 0 {
                assert(undoing(request, u, error, resolved, k, todo.len() as int));
            }
            assert(explains(request, u, MountStage::failed(error, steps.steps.take(k))));
            assert(stage.after(request, reply) == MountStage::failed(error, steps.steps.take(k)));
        },
        None => {
            assert(succeeded(request, u, resolved, k + 1));
            assert(explains(request, u, stage.after(request, reply)));
        },
    }
}

/// A step that undoes leaves an explained stage.
proof fn lemma_undo_step(
    request: MountRequest,
    t: Seq<(MountStep, Reply)>,
    stage: MountStage,
    reply: Reply,
)
    requires
        stage is Undoing,
        explains(request, t, stage),
        crate::storage::mount::answers(stage.next()->0, reply),
    ensures
        explains(request, t.push((stage.next()->0, reply)), stage.after(request, reply)),
{
    let error = stage->Undoing_error;
    let steps = stage->Undoing_steps;
    let step = stage.next()->0;
    let u = t.push((step, reply));
    let p = probes(request);
    let (resolved, k): (SourceType, int) = choose|resolved: SourceType, k: int|
        {
            &&& #[trigger] undoing(request, t, error, resolved, k, steps.done)
            &&& steps.steps == undo(request, resolved, k)
            &&& !steps.stopped
            &&& 0 <= steps.done < steps.steps.len()
        };
    assert(shows_state(request, u, resolved));
    assert forall|i: int| p <= i < p + k implies (#[trigger] u[i]).0 == request.setup(resolved)[i
        - p] && crate::storage::mount::step_failure(u[i].0, u[i].1) is None by {
        assert(u[i] == t[i]);
    }
    assert(u[p + k] == t[p + k]);
    assert(failed_with(request, u, resolved, k, error));
    assert(undone(request, u, resolved, k, steps.done + 1)) by {
        assert forall|i: int| p + k + 1 <= i < u.len() implies (#[trigger] u[i]).0 == undo(
            request,
            resolved,
            k,
        )[i - (p + k + 1)] by {
            if i < t.len() {
                assert(u[i] == t[i]);
            }
        }
    }
    assert(undoing(request, u, error, resolved, k, steps.done + 1));
    assert(steps.after(true).done == steps.done + 1);
    if steps.after(true).complete() {
        assert(steps.done + 1 == undo(request, resolved, k).len());
        assert(undoing(request, u, error, resolved, k, undo(request, resolved, k).len() as int));
        assert(explains(request, u, MountStage::Finished { failure: Some(error) }));
        assert(stage.after(request, reply) == (MountStage::Finished { failure: Some(error) }));
    } else {
        let next = steps.after(true);
        assert(undoing(request, u, error, resolved, k, next.done));
        assert(next.steps == undo(request, resolved, k));
        assert(explains(request, u, MountStage::Undoing { error, steps: next }));
        assert(stage.after(request, reply) == (MountStage::Undoing { error, steps: next }));
    }
}

/// Every stage that is reached is explained by the steps that were done.
pub proof fn lemma_explained(request: MountRequest, replies: Seq<Reply>)
    requires
        request.source == SourceType::Auto ==> request.filesystem is Some,
    ensures
        explains(request, trace(request, replies), stage_after(request, replies)),
    decreases replies.len(),
{
    if replies.len() == 0 {
        lemma_setup_is_not_empty(request, request.source);
    } else {
        let before = replies.drop_last();
        let reply = replies.last();
        lemma_explained(request, before);
        let stage = stage_after(request, before);
        let t = trace(request, before);
        if let Some(step) = stage.next() {
            if crate::storage::mount::answers(step, reply) {
                let u = t.push((step, reply));
                match stage {
                    MountStage::Probing => {
                        assert(u.last() == (step, reply));
                    },
                    MountStage::Asking { zeroed } => {
                        assert(u[0] == t[0]);
                        assert(u[1] == (step, reply));
                        assert(u.last() == u[1]);
                        lemma_setup_is_not_empty(request, SourceType::Empty);
                        lemma_setup_is_not_empty(request, SourceType::Encrypted);
                    },
                    MountStage::SettingUp { .. } => {
                        lemma_setup_step(request, t, stage, reply);
                    },
                    MountStage::Undoing { .. } => {
                        lemma_undo_step(request, t, stage, reply);
                    },
                    MountStage::Finished { .. } => {},
                }
            }
        }
    }
}

/// The step destroys what the device holds.
pub open spec fn overwrites(step: MountStep) -> bool {
    step == MountStep::FormatDetached || step == MountStep::FormatOnDevice || step
        == MountStep::MakeFilesystem
}

/// Where a step of the trace comes from.
proof fn lemma_origin(request: MountRequest, replies: Seq<Reply>, i: int) -> (resolved: SourceType)
    requires
        request.source == SourceType::Auto ==> request.filesystem is Some,
        0 <= i < trace(request, replies).len(),
    ensures
        ({
            let t = trace(request, replies);
            let p = probes(request);
            let step = t[i].0;
            ||| i < p && (step == MountStep::ReadProbe || step == MountStep::ProbeLuks2)
            ||| shows_state(request, t, resolved) && p <= i < p + request.setup(resolved).len()
                && step == request.setup(resolved)[i - p] && succeeded(
                request,
                t,
                resolved,
                i - p,
            )
            ||| step == MountStep::Unmount || step == MountStep::RemoveSymlink || step
                == MountStep::Close
        }),
{
    lemma_explained(request, replies);
    let t = trace(request, replies);
    let p = probes(request);
    match stage_after(request, replies) {
        MountStage::Probing => SourceType::Empty,
        MountStage::Asking { .. } => SourceType::Empty,
        MountStage::SettingUp { resolved, steps } => resolved,
        MountStage::Undoing { error, steps } => {
            let (resolved, k): (SourceType, int) = choose|resolved: SourceType, k: int|
                {
                    &&& #[trigger] undoing(request, t, error, resolved, k, steps.done)
                    &&& steps.steps == undo(request, resolved, k)
                    &&& !steps.stopped
                    &&& 0 <= steps.done < steps.steps.len()
                };
            lemma_origin_undoing(request, t, error, resolved, k, steps.done, i);
            resolved
        },
        MountStage::Finished { failure: None } => {
            choose|resolved: SourceType|
                {
                    &&& #[trigger] shows_state(request, t, resolved)
                    &&& t.len() == probes(request) + request.setup(resolved).len()
                    &&& succeeded(request, t, resolved, request.setup(resolved).len() as int)
                }
        },
        MountStage::Finished { failure: Some(error) } => {
            if unresolved(request, t, error) {
                SourceType::Empty
            } else {
                let (resolved, k): (SourceType, int) = choose|resolved: SourceType, k: int|
                    {
                        #[trigger] undoing(
                            request,
                            t,
                            error,
                            resolved,
                            k,
                            undo(request, resolved, k).len() as int,
                        )
                    };
                lemma_origin_undoing(
                    request,
                    t,
                    error,
                    resolved,
                    k,
                    undo(request, resolved, k).len() as int,
                    i,
                );
                resolved
            }
        },
    }
}

proof fn lemma_origin_undoing(
    request: MountRequest,
    t: Seq<(MountStep, Reply)>,
    error: Luks2Error,
    resolved: SourceType,
    k: int,
    n: int,
    i: int,
)
    requires
        undoing(request, t, error, resolved, k, n),
        0 <= i < t.len(),
    ensures
        ({
            let p = probes(request);
            let step = t[i].0;
            ||| i < p
            ||| p <= i < p + request.setup(resolved).len() && step == request.setup(resolved)[i - p]
                && succeeded(request, t, resolved, i - p)
            ||| step == MountStep::Unmount || step == MountStep::RemoveSymlink || step
                == MountStep::Close
        }),
{
    let p = probes(request);
    if p <= i <= p + k {
        assert(t[i].0 == request.setup(resolved)[i - p]);
    } else if i > p + k {
        let todo = undo(request, resolved, k);
        let j = i - (p + k + 1);
        assert(t[i].0 == todo[j]);
        assert(todo[j] == MountStep::Unmount || todo[j] == MountStep::RemoveSymlink || todo[j]
            == MountStep::Close);
    }
}

/// What a device holds is overwritten only where the caller said that the device
/// is empty, or where its probed region was found to be zero and it was found not
/// to be LUKS2.
pub proof fn law_only_unused_media_is_overwritten(
    request: MountRequest,
    replies: Seq<Reply>,
    i: int,
)
    requires
        request.source == SourceType::Auto ==> request.filesystem is Some,
        0 <= i < trace(request, replies).len(),
        overwrites(trace(request, replies)[i].0),
    ensures
        request.source == SourceType::Empty || {
            let t = trace(request, replies);
            &&& request.source == SourceType::Auto
            &&& t.len() >= 2
            &&& t[0].0 == MountStep::ReadProbe
            &&& t[0].1 matches Reply::Bytes(probe) && probe@.len()
                >= luks2::AUTO_INITIALIZATION_PROBE_BYTES && luks2::probe_zeroed(probe@)
            &&& t[1].0 == MountStep::ProbeLuks2
            &&& t[1].1 == (Reply::Exit { success: false })
        },
{
    let resolved = lemma_origin(request, replies, i);
    let t = trace(request, replies);
    let j = i - probes(request);
    let steps = request.setup(resolved);
    if request.source != SourceType::Empty && resolved != SourceType::Empty {
        assert(forall|n: int| 0 <= n < steps.len() ==> !overwrites(#[trigger] steps[n]));
    }
}

/// A device whose state was found out is mounted only after a step that read its
/// superblock found that of ext4.
pub proof fn law_auto_volume_is_checked_before_mount(
    request: MountRequest,
    replies: Seq<Reply>,
    i: int,
)
    requires
        request.source == SourceType::Auto,
        request.filesystem is Some,
        0 <= i < trace(request, replies).len(),
        trace(request, replies)[i].0 == MountStep::Mount,
    ensures
        exists|j: int|
            0 <= j < i && {
                let (step, reply) = #[trigger] trace(request, replies)[j];
                &&& step == MountStep::CheckEncrypted || step == MountStep::CheckInitialized
                &&& reply matches Reply::Bytes(magic) && magic@.len() >= 2
                    && luks2::is_ext4_magic(magic@)
            },
{
    let resolved = lemma_origin(request, replies, i);
    let t = trace(request, replies);
    let p = probes(request);
    let steps = request.setup(resolved);
    let n = i - p;
    assert(steps[n] == MountStep::Mount);
    let c: int = if resolved == SourceType::Empty {
        3
    } else {
        1
    };
    assert(steps[c] == MountStep::CheckInitialized || steps[c] == MountStep::CheckEncrypted);
    assert(c < n);
    let (step, reply) = t[p + c];
    lemma_answered(request, replies, p + c);
    assert(crate::storage::mount::step_failure(step, reply) is None);
}

/// Each step of the trace was answered.
pub proof fn lemma_answered(request: MountRequest, replies: Seq<Reply>, i: int)
    requires
        0 <= i < trace(request, replies).len(),
    ensures
        crate::storage::mount::answers(
            trace(request, replies)[i].0,
            trace(request, replies)[i].1,
        ),
    decreases replies.len(),
{
    if replies.len() > 0 {
        let before = trace(request, replies.drop_last());
        if i < before.len() {
            lemma_answered(request, replies.drop_last(), i);
        }
    }
}

/// The set-up ends: no more than eleven steps are ever done, and as long as it is
/// not finished there is a step to do.
pub proof fn law_setup_ends(request: MountRequest, replies: Seq<Reply>)
    requires
        request.source == SourceType::Auto ==> request.filesystem is Some,
    ensures
        trace(request, replies).len() <= 11,
        stage_after(request, replies).next() is None <==> stage_after(
            request,
            replies,
        ) is Finished,
{
    lemma_explained(request, replies);
    let t = trace(request, replies);
    match stage_after(request, replies) {
        MountStage::SettingUp { resolved, steps } => {
            lemma_lengths(request, resolved, 0);
        },
        MountStage::Undoing { error, steps } => {
            let (resolved, k): (SourceType, int) = choose|resolved: SourceType, k: int|
                {
                    &&& #[trigger] undoing(request, t, error, resolved, k, steps.done)
                    &&& steps.steps == undo(request, resolved, k)
                    &&& !steps.stopped
                    &&& 0 <= steps.done < steps.steps.len()
                };
            lemma_lengths(request, resolved, k);
        },
        MountStage::Finished { failure: None } => {
            let resolved = choose|resolved: SourceType|
                {
                    &&& #[trigger] shows_state(request, t, resolved)
                    &&& t.len() == probes(request) + request.setup(resolved).len()
                    &&& succeeded(request, t, resolved, request.setup(resolved).len() as int)
                };
            lemma_lengths(request, resolved, 0);
        },
        MountStage::Finished { failure: Some(error) } => {
            if !unresolved(request, t, error) {
                let (resolved, k): (SourceType, int) = choose|resolved: SourceType, k: int|
                    {
                        #[trigger] undoing(
                            request,
                            t,
                            error,
                            resolved,
                            k,
                            undo(request, resolved, k).len() as int,
                        )
                    };
                lemma_lengths(request, resolved, k);
            }
        },
        _ => {},
    }
}

proof fn lemma_lengths(request: MountRequest, resolved: SourceType, k: int)
    ensures
        request.setup(resolved).len() <= 6,
        undo(request, resolved, k).len() <= 3,
{
}

/// A set-up that succeeded did all of its steps, in order, and each succeeded.
pub proof fn law_success_means_all_done(request: MountRequest, replies: Seq<Reply>)
    requires
        request.source == SourceType::Auto ==> request.filesystem is Some,
        stage_after(request, replies) == (MountStage::Finished { failure: None }),
    ensures
        exists|resolved: SourceType|
            {
                &&& #[trigger] shows_state(request, trace(request, replies), resolved)
                &&& trace(request, replies).len() == probes(request) + request.setup(resolved).len()
                &&& succeeded(
                    request,
                    trace(request, replies),
                    resolved,
                    request.setup(resolved).len() as int,
                )
            },
{
    lemma_explained(request, replies);
}

/// A set-up that failed has been undone, and its error is that of the step that
/// failed first: the mapping was closed last if the device had been opened, and
/// what had been mounted or linked was unmounted or unlinked before. How the steps
/// that undo end has no influence on it.
pub proof fn law_failed_setup_is_undone(
    request: MountRequest,
    replies: Seq<Reply>,
    error: Luks2Error,
)
    requires
        request.source == SourceType::Auto ==> request.filesystem is Some,
        stage_after(request, replies) == (MountStage::Finished { failure: Some(error) }),
    ensures
        unresolved(request, trace(request, replies), error) || exists|
            resolved: SourceType,
            k: int,
        |
            {
                let t = trace(request, replies);
                let done = request.setup(resolved).take(k);
                &&& #[trigger] undoing(
                    request,
                    trace(request, replies),
                    error,
                    resolved,
                    k,
                    undo(request, resolved, k).len() as int,
                )
                &&& done.contains(MountStep::Open) ==> t.last().0 == MountStep::Close
                &&& done.contains(MountStep::Mount) ==> t[t.len() - 2].0 == MountStep::Unmount
            },
{
    lemma_explained(request, replies);
    let t = trace(request, replies);
    if !unresolved(request, t, error) {
        let (resolved, k): (SourceType, int) = choose|resolved: SourceType, k: int|
            {
                #[trigger] undoing(
                    request,
                    t,
                    error,
                    resolved,
                    k,
                    undo(request, resolved, k).len() as int,
                )
            };
        let p = probes(request);
        let todo = undo(request, resolved, k);
        let done = request.setup(resolved).take(k);
        if done.contains(MountStep::Open) {
            lemma_undo_closes_last(request, resolved, k);
            assert(t.last().0 == todo[todo.len() - 1]);
        }
        if done.contains(MountStep::Mount) {
            lemma_undo_of_a_mount(request, resolved, k);
            assert(t[p + k + 1].0 == todo[0]);
        }
    }
}

proof fn lemma_undo_closes_last(request: MountRequest, resolved: SourceType, k: int)
    requires
        request.setup(resolved).take(k).contains(MountStep::Open),
    ensures
        undo(request, resolved, k).len() > 0,
        undo(request, resolved, k).last() == MountStep::Close,
{
}

pub proof fn lemma_undo_of_a_mount(request: MountRequest, resolved: SourceType, k: int)
    requires
        0 <= k <= request.setup(resolved).len(),
        request.setup(resolved).take(k).contains(MountStep::Mount),
    ensures
        undo(request, resolved, k) == seq![MountStep::Unmount, MountStep::Close],
{
    let steps = request.setup(resolved);
    let done = steps.take(k);
    let m = choose|m: int| 0 <= m < done.len() && done[m] == MountStep::Mount;
    assert(steps[m] == MountStep::Mount);
    lemma_open_comes_before_mount(request, resolved, m);
    let o = choose|o: int| 0 <= o < m && steps[o] == MountStep::Open;
    assert(done[o] == MountStep::Open);
    lemma_no_link_to_a_filesystem(request, resolved);
    assert(!done.contains(MountStep::Symlink));
    assert(undo(request, resolved, k) =~= seq![MountStep::Unmount, MountStep::Close]);
}

proof fn lemma_no_link_to_a_filesystem(request: MountRequest, resolved: SourceType)
    requires
        request.filesystem is Some,
    ensures
        forall|n: int|
            0 <= n < request.setup(resolved).len() ==> request.setup(resolved)[n]
                != MountStep::Symlink,
{
}

proof fn lemma_open_comes_before_mount(request: MountRequest, resolved: SourceType, m: int)
    requires
        0 <= m < request.setup(resolved).len(),
        request.setup(resolved)[m] == MountStep::Mount,
    ensures
        exists|o: int| 0 <= o < m && request.setup(resolved)[o] == MountStep::Open,
        request.filesystem is Some,
{
    let e = crate::storage::mount::encrypt_steps(request.source, resolved);
    assert(request.setup(resolved)[e.len() as int] == MountStep::Open);
}

} // verus!
