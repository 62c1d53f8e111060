//! The order in which a secure volume is activated.

use crate::hub;
use crate::hub::{Error, Hub};
use crate::sequence::{Sequence, SequenceView};
use vstd::prelude::*;
use vstd::string::*;

verus! {

/// One step of activating a volume.
#[derive(Clone, Copy, PartialEq, Eq, Debug, Structural)]
pub enum VolumeStep {
    /// Check that the manifest URI names a resource of the key broker.
    ValidateUri,
    /// Get the manifest.
    FetchManifest,
    /// Read the manifest, bound to its URI.
    ParseManifest,
    /// Check that the manifest grants the access that is asked for.
    CheckAccess,
    /// Get the key that the manifest names.
    FetchKey,
    /// Check that the key is the one that the manifest is bound to.
    VerifyKey,
    /// Activate the device.
    Activate,
}

/// The steps of activating a volume.
pub open spec fn volume_steps() -> Seq<VolumeStep> {
    seq![
        VolumeStep::ValidateUri,
        VolumeStep::FetchManifest,
        VolumeStep::ParseManifest,
        VolumeStep::CheckAccess,
        VolumeStep::FetchKey,
        VolumeStep::VerifyKey,
        VolumeStep::Activate,
    ]
}

/// How a step ended.
pub enum VolumeReply<M, T> {
    /// What was to be checked is in order.
    Done,
    /// A resource was handed out.
    Fetched { resource: Vec<u8> },
    /// The manifest was read, and it names this key.
    Manifest { manifest: M, key_uri: String },
    /// The device was activated.
    Activated { activation: T },
    Failed { error: Error },
}

/// Whether `reply` answers `step`.
pub open spec fn answers<M, T>(step: VolumeStep, reply: VolumeReply<M, T>) -> bool {
    match reply {
        VolumeReply::Failed { .. } => true,
        VolumeReply::Fetched { .. } => step == VolumeStep::FetchManifest || step
            == VolumeStep::FetchKey,
        VolumeReply::Manifest { .. } => step == VolumeStep::ParseManifest,
        VolumeReply::Activated { .. } => step == VolumeStep::Activate,
        VolumeReply::Done => step == VolumeStep::ValidateUri || step == VolumeStep::CheckAccess
            || step == VolumeStep::VerifyKey,
    }
}

fn is_answer<M, T>(step: VolumeStep, reply: &VolumeReply<M, T>) -> (r: bool)
    ensures
        r == answers(step, *reply),
{
    match reply {
        VolumeReply::Failed { .. } => true,
        VolumeReply::Fetched { .. } => step == VolumeStep::FetchManifest || step
            == VolumeStep::FetchKey,
        VolumeReply::Manifest { .. } => step == VolumeStep::ParseManifest,
        VolumeReply::Activated { .. } => step == VolumeStep::Activate,
        VolumeReply::Done => step == VolumeStep::ValidateUri || step == VolumeStep::CheckAccess
            || step == VolumeStep::VerifyKey,
    }
}

/// Whether `e` is the error with which an activation ends whose `step` failed with
/// `error`: one that could not get a resource says which, every other one stands
/// as it is.
pub open spec fn is_step_error(step: VolumeStep, error: Error, e: Error) -> bool {
    match step {
        VolumeStep::FetchManifest => hub::is_secure_volume_resource_error(
            e,
            "manifest_fetch"@,
            error,
        ),
        VolumeStep::FetchKey => hub::is_secure_volume_resource_error(e, "key_fetch"@, error),
        _ => e == error,
    }
}

/// How far an activation has got, and what it has found.
#[verifier::ext_equal]
pub struct VolumeView<A, M, T> {
    pub device_id: Seq<char>,
    pub manifest_uri: Seq<char>,
    /// The access that is asked for.
    pub access: A,
    pub steps: SequenceView<VolumeStep>,
    /// The manifest as it was handed out.
    pub manifest_bytes: Option<Seq<u8>>,
    /// The manifest that was read.
    pub manifest: Option<M>,
    /// The key that the manifest names.
    pub key_uri: Option<Seq<char>>,
    /// The key as it was handed out.
    pub key: Option<Seq<u8>>,
    /// What activating the device came to.
    pub activation: Option<T>,
}

impl<A, M, T> VolumeView<A, M, T> {
    /// An activation before its first step.
    pub open spec fn start(device_id: Seq<char>, manifest_uri: Seq<char>, access: A) -> Self {
        VolumeView {
            device_id,
            manifest_uri,
            access,
            steps: SequenceView::start(volume_steps()),
            manifest_bytes: None,
            manifest: None,
            key_uri: None,
            key: None,
            activation: None,
        }
    }

    /// The step that is to be done now.
    pub open spec fn next(self) -> Option<VolumeStep> {
        self.steps.next()
    }

    /// The state after the step that is to be done now has ended. What is no answer
    /// to it changes nothing.
    pub open spec fn after(self, reply: VolumeReply<M, T>) -> Self {
        match self.next() {
            Some(step) if answers(step, reply) => {
                let steps = self.steps.after(!(reply is Failed));
                match reply {
                    VolumeReply::Fetched { resource } => if step == VolumeStep::FetchManifest {
                        VolumeView { steps, manifest_bytes: Some(resource@), ..self }
                    } else {
                        VolumeView { steps, key: Some(resource@), ..self }
                    },
                    VolumeReply::Manifest { manifest, key_uri } => VolumeView {
                        steps,
                        manifest: Some(manifest),
                        key_uri: Some(key_uri@),
                        ..self
                    },
                    VolumeReply::Activated { activation } => VolumeView {
                        steps,
                        activation: Some(activation),
                        ..self
                    },
                    _ => VolumeView { steps, ..self },
                }
            },
            _ => self,
        }
    }

    /// The state after a number of replies.
    pub open spec fn after_all(self, replies: Seq<VolumeReply<M, T>>) -> Self
        decreases replies.len(),
    {
        if replies.len() == 0 {
            self
        } else {
            self.after_all(replies.drop_last()).after(replies.last())
        }
    }
}

/// A volume that is being activated, with the access that is asked for, the manifest
/// that describes it and the key that opens it.
pub struct VolumeActivation<A, M, T> {
    device_id: String,
    manifest_uri: String,
    requested_access: A,
    steps: Sequence<VolumeStep>,
    manifest_bytes: Option<Vec<u8>>,
    manifest: Option<M>,
    key_uri: Option<String>,
    key: Option<Vec<u8>>,
    activation: Option<T>,
    error: Option<Error>,
}

/// The bytes of an optional vector.
spec fn optional_bytes(v: Option<Vec<u8>>) -> Option<Seq<u8>> {
    match v {
        Some(v) => Some(v@),
        None => None,
    }
}

impl<A, M, T> View for VolumeActivation<A, M, T> {
    type V = VolumeView<A, M, T>;

    closed spec fn view(&self) -> VolumeView<A, M, T> {
        VolumeView {
            device_id: self.device_id@,
            manifest_uri: self.manifest_uri@,
            access: self.requested_access,
            steps: self.steps@,
            manifest_bytes: optional_bytes(self.manifest_bytes),
            manifest: self.manifest,
            key_uri: match self.key_uri {
                Some(uri) => Some(uri@),
                None => None,
            },
            key: optional_bytes(self.key),
            activation: self.activation,
        }
    }
}

/// Where each step stands among the others.
proof fn lemma_places()
    ensures
        volume_steps().len() == 7,
        forall|i: int|
            #![trigger volume_steps()[i]]
            0 <= i < 7 ==> {
                &&& volume_steps()[i] == VolumeStep::ValidateUri <==> i == 0
                &&& volume_steps()[i] == VolumeStep::FetchManifest <==> i == 1
                &&& volume_steps()[i] == VolumeStep::ParseManifest <==> i == 2
                &&& volume_steps()[i] == VolumeStep::CheckAccess <==> i == 3
                &&& volume_steps()[i] == VolumeStep::FetchKey <==> i == 4
                &&& volume_steps()[i] == VolumeStep::VerifyKey <==> i == 5
                &&& volume_steps()[i] == VolumeStep::Activate <==> i == 6
            },
{
}

impl<A, M, T> VolumeActivation<A, M, T> {
    /// The steps are those of an activation, and what a step finds is there once it
    /// was done. The key is there to be verified; after that it can be taken.
    #[verifier::type_invariant]
    spec fn inv(self) -> bool {
        &&& self.steps@.steps == volume_steps()
        &&& self.steps@.done > 1 ==> self.manifest_bytes is Some
        &&& self.steps@.done > 2 ==> self.manifest is Some && self.key_uri is Some
        &&& self.steps@.done == 5 ==> self.key is Some
        &&& self.steps@.done > 6 ==> self.activation is Some
    }

    /// The error with which it has ended, if it has.
    pub closed spec fn error(&self) -> Option<Error> {
        self.error
    }

    /// The step that is to be done now, if there is one.
    pub fn next_step(&self) -> (r: Option<VolumeStep>)
        ensures
            r == self@.next(),
    {
        self.steps.next()
    }

    /// The device that is activated.
    pub fn device_id(&self) -> (r: &str)
        ensures
            r@ == self@.device_id,
    {
        self.device_id.as_str()
    }

    /// The resource that holds the manifest.
    pub fn manifest_uri(&self) -> (r: &str)
        ensures
            r@ == self@.manifest_uri,
    {
        self.manifest_uri.as_str()
    }

    /// The access that the manifest has to grant, and with which the device is
    /// activated.
    pub fn requested_access(&self) -> (r: &A)
        ensures
            *r == self@.access,
    {
        &self.requested_access
    }

    /// The resource to get, where the step that is to be done now gets one: the
    /// manifest first, and later the key that it names.
    pub fn fetch_uri(&self) -> (r: Option<&str>)
        ensures
            match self@.next() {
                Some(VolumeStep::FetchManifest) => r matches Some(uri) && uri@
                    == self@.manifest_uri,
                Some(VolumeStep::FetchKey) => r matches Some(uri) && Some(uri@) == self@.key_uri,
                _ => r is None,
            },
    {
        proof {
            use_type_invariant(self);
            lemma_places();
        }
        match self.steps.next() {
            Some(VolumeStep::FetchManifest) => Some(self.manifest_uri.as_str()),
            Some(VolumeStep::FetchKey) => match &self.key_uri {
                Some(uri) => Some(uri.as_str()),
                None => None,
            },
            _ => None,
        }
    }

    /// The bytes to read the manifest from, where that is to be done now: those that
    /// were handed out for its URI.
    pub fn manifest_to_parse(&self) -> (r: Option<&[u8]>)
        ensures
            match self@.next() {
                Some(VolumeStep::ParseManifest) => r matches Some(bytes) && Some(bytes@)
                    == self@.manifest_bytes,
                _ => r is None,
            },
    {
        proof {
            use_type_invariant(self);
            lemma_places();
        }
        match self.steps.next() {
            Some(VolumeStep::ParseManifest) => match &self.manifest_bytes {
                Some(bytes) => Some(bytes.as_slice()),
                None => None,
            },
            _ => None,
        }
    }

    /// The manifest that was read: the one that grants the access, to which the key
    /// is bound, and with which the device is activated.
    pub fn manifest(&self) -> (r: Option<&M>)
        ensures
            match self@.manifest {
                Some(manifest) => r matches Some(m) && *m == manifest,
                None => r is None,
            },
            self@.steps.done > 2 ==> r is Some,
    {
        proof {
            use_type_invariant(self);
        }
        match &self.manifest {
            Some(manifest) => Some(manifest),
            None => None,
        }
    }

    /// The key to verify, where that is to be done now: the one that was handed out.
    pub fn key_to_verify(&self) -> (r: Option<&[u8]>)
        ensures
            match self@.next() {
                Some(VolumeStep::VerifyKey) => r matches Some(key) && Some(key@) == self@.key,
                _ => r is None,
            },
    {
        proof {
            use_type_invariant(self);
            lemma_places();
        }
        match self.steps.next() {
            Some(VolumeStep::VerifyKey) => match &self.key {
                Some(key) => Some(key.as_slice()),
                None => None,
            },
            _ => None,
        }
    }

    /// Hands out the key with which the device is activated, once, where that is to be
    /// done now. No copy of it is left here.
    pub fn take_key(&mut self) -> (r: Option<Vec<u8>>)
        ensures
            final(self).error() == old(self).error(),
            match old(self)@.next() {
                Some(VolumeStep::Activate) => {
                    &&& final(self)@ == (VolumeView { key: None, ..old(self)@ })
                    &&& match old(self)@.key {
                        Some(key) => r matches Some(k) && k@ == key,
                        None => r is None,
                    }
                },
                _ => r is None && final(self)@ == old(self)@,
            },
    {
        proof {
            use_type_invariant(&*self);
            lemma_places();
        }
        match self.steps.next() {
            Some(VolumeStep::Activate) => {
                let mut key: Option<Vec<u8>> = None;
                std::mem::swap(&mut self.key, &mut key);
                key
            },
            _ => None,
        }
    }

    /// Goes on after the step that was to be done has ended. What is no answer to
    /// it changes nothing.
    pub fn report(&mut self, reply: VolumeReply<M, T>)
        ensures
            final(self)@ == old(self)@.after(reply),
            match old(self)@.next() {
                Some(step) if reply is Failed => final(self).error() matches Some(e)
                    && is_step_error(step, reply->error, e),
                _ => final(self).error() == old(self).error(),
            },
    {
        proof {
            use_type_invariant(&*self);
            lemma_places();
        }
        let step = match self.steps.next() {
            Some(step) => step,
            None => {
                return;
            },
        };
        if !is_answer(step, &reply) {
            return;
        }
        match reply {
            VolumeReply::Failed { error } => {
                self.steps.record(false);
                self.error = Some(
                    match step {
                        VolumeStep::FetchManifest => hub::secure_volume_resource_error(
                            "manifest_fetch",
                            error,
                        ),
                        VolumeStep::FetchKey => hub::secure_volume_resource_error(
                            "key_fetch",
                            error,
                        ),
                        _ => error,
                    },
                );
            },
            VolumeReply::Fetched { resource } => {
                if step == VolumeStep::FetchManifest {
                    self.manifest_bytes = Some(resource);
                } else {
                    self.key = Some(resource);
                }
                self.steps.record(true);
            },
            VolumeReply::Manifest { manifest, key_uri } => {
                self.manifest = Some(manifest);
                self.key_uri = Some(key_uri);
                self.steps.record(true);
            },
            VolumeReply::Activated { activation } => {
                self.activation = Some(activation);
                self.steps.record(true);
            },
            VolumeReply::Done => {
                self.steps.record(true);
            },
        }
    }

    /// What activating the device came to, or why it is not active, once the
    /// activation has ended.
    pub fn finish(self) -> (r: Option<Result<T, Error>>)
        ensures
            match self.error() {
                Some(error) => r == Some(Err::<T, Error>(error)),
                None => if self@.steps.complete() {
                    r matches Some(Ok(activation)) && Some(activation) == self@.activation
                } else {
                    r is None
                },
            },
    {
        proof {
            use_type_invariant(&self);
            lemma_places();
        }
        let complete = self.steps.is_complete();
        match self.error {
            Some(error) => Some(Err(error)),
            None => if complete {
                match self.activation {
                    Some(activation) => Some(Ok(activation)),
                    None => None,
                }
            } else {
                None
            },
        }
    }
}

impl Hub {
    /// Starts to activate the volume that a manifest describes on a device.
    pub fn activate_volume<A, M, T>(
        &self,
        device_id: &str,
        manifest_uri: &str,
        requested_access: A,
    ) -> (r: VolumeActivation<A, M, T>)
        ensures
            r@ == VolumeView::<A, M, T>::start(device_id@, manifest_uri@, requested_access),
            r.error() is None,
    {
        let mut steps: Vec<VolumeStep> = Vec::new();
        steps.push(VolumeStep::ValidateUri);
        steps.push(VolumeStep::FetchManifest);
        steps.push(VolumeStep::ParseManifest);
        steps.push(VolumeStep::CheckAccess);
        steps.push(VolumeStep::FetchKey);
        steps.push(VolumeStep::VerifyKey);
        steps.push(VolumeStep::Activate);
        assert(steps@ =~= volume_steps());
        VolumeActivation {
            device_id: device_id.to_owned(),
            manifest_uri: manifest_uri.to_owned(),
            requested_access,
            steps: Sequence::new(steps),
            manifest_bytes: None,
            manifest: None,
            key_uri: None,
            key: None,
            activation: None,
            error: None,
        }
    }
}

/// What holds of an activation at every point.
pub open spec fn consistent<A, M, T>(state: VolumeView<A, M, T>) -> bool {
    &&& state.steps.steps == volume_steps()
    &&& state.steps.valid()
    &&& state.steps.done > 1 ==> state.manifest_bytes is Some
    &&& state.steps.done > 2 ==> state.manifest is Some && state.key_uri is Some
    &&& state.steps.done > 4 ==> state.key is Some
    &&& state.steps.done > 6 ==> state.activation is Some
}

proof fn lemma_consistent<A, M, T>(
    start: VolumeView<A, M, T>,
    replies: Seq<VolumeReply<M, T>>,
)
    requires
        consistent(start),
    ensures
        consistent(start.after_all(replies)),
    decreases replies.len(),
{
    lemma_places();
    if replies.len() > 0 {
        lemma_consistent(start, replies.drop_last());
    }
}

/// The state that the first `n` replies lead to.
pub open spec fn state_at<A, M, T>(
    start: VolumeView<A, M, T>,
    replies: Seq<VolumeReply<M, T>>,
    n: int,
) -> VolumeView<A, M, T> {
    start.after_all(replies.take(n))
}

proof fn lemma_next_state<A, M, T>(
    start: VolumeView<A, M, T>,
    replies: Seq<VolumeReply<M, T>>,
    n: int,
)
    requires
        0 <= n < replies.len(),
    ensures
        state_at(start, replies, n + 1) == state_at(start, replies, n).after(replies[n]),
{
    assert(replies.take(n + 1).drop_last() =~= replies.take(n));
    assert(replies.take(n + 1).last() == replies[n]);
}

/// What was found is what is used: once a step was done, no reply changes what it has
/// found. The manifest that was read is the one that grants the access, names the key
/// and is activated; the key that was verified is the one that is handed on. The
/// device and the access never change at all.
pub proof fn law_what_was_found_is_used<A, M, T>(
    start: VolumeView<A, M, T>,
    replies: Seq<VolumeReply<M, T>>,
    n: int,
    m: int,
)
    requires
        start == VolumeView::<A, M, T>::start(start.device_id, start.manifest_uri, start.access),
        0 <= n <= m <= replies.len(),
    ensures
        ({
            let early = state_at(start, replies, n);
            let late = state_at(start, replies, m);
            &&& late.device_id == start.device_id
            &&& late.manifest_uri == start.manifest_uri
            &&& late.access == start.access
            &&& early.steps.done <= late.steps.done
            &&& early.steps.done > 1 ==> late.manifest_bytes == early.manifest_bytes
            &&& early.steps.done > 2 ==> late.manifest == early.manifest && late.key_uri
                == early.key_uri
            &&& early.steps.done > 4 ==> late.key == early.key
            &&& early.steps.done > 6 ==> late.activation == early.activation
        }),
    decreases m,
{
    lemma_places();
    lemma_consistent(start, replies.take(n));
    if n < m {
        law_what_was_found_is_used(start, replies, n, m - 1);
        lemma_consistent(start, replies.take(m - 1));
        lemma_next_state(start, replies, m - 1);
    } else if m > 0 {
        law_what_was_found_is_used(start, replies, m - 1, m - 1);
        lemma_next_state(start, replies, m - 1);
    }
}

/// The first `n` replies led to the key being verified, and it passed.
pub open spec fn verified_at<A, M, T>(
    start: VolumeView<A, M, T>,
    replies: Seq<VolumeReply<M, T>>,
    n: int,
) -> bool {
    &&& 0 <= n < replies.len()
    &&& state_at(start, replies, n).next() == Some(VolumeStep::VerifyKey)
    &&& replies[n] is Done
}

proof fn lemma_was_verified<A, M, T>(
    start: VolumeView<A, M, T>,
    replies: Seq<VolumeReply<M, T>>,
    m: int,
) -> (n: int)
    requires
        start == VolumeView::<A, M, T>::start(start.device_id, start.manifest_uri, start.access),
        0 <= m <= replies.len(),
        state_at(start, replies, m).steps.done > 5,
    ensures
        n < m,
        verified_at(start, replies, n),
    decreases m,
{
    lemma_places();
    lemma_consistent(start, replies.take(m));
    if m > 0 {
        lemma_consistent(start, replies.take(m - 1));
        lemma_next_state(start, replies, m - 1);
        if state_at(start, replies, m - 1).steps.done > 5 {
            lemma_was_verified(start, replies, m - 1)
        } else {
            m - 1
        }
    } else {
        0
    }
}

/// A device is activated with the very key and manifest that were verified against
/// each other: where it is about to be activated, both are there, and an earlier step
/// verified them and passed.
pub proof fn law_device_is_activated_with_the_verified_key<A, M, T>(
    start: VolumeView<A, M, T>,
    replies: Seq<VolumeReply<M, T>>,
)
    requires
        start == VolumeView::<A, M, T>::start(start.device_id, start.manifest_uri, start.access),
        start.after_all(replies).next() == Some(VolumeStep::Activate),
    ensures
        start.after_all(replies).key is Some,
        start.after_all(replies).manifest is Some,
        exists|n: int|
            {
                &&& #[trigger] verified_at(start, replies, n)
                &&& state_at(start, replies, n).key == start.after_all(replies).key
                &&& state_at(start, replies, n).manifest == start.after_all(replies).manifest
            },
{
    lemma_places();
    let m = replies.len() as int;
    assert(replies.take(m) =~= replies);
    lemma_consistent(start, replies);
    let n = lemma_was_verified(start, replies, m);
    lemma_consistent(start, replies.take(n));
    law_what_was_found_is_used(start, replies, n, m);
}

/// No key is fetched before the manifest was validated, read and found to grant
/// the access.
pub proof fn law_key_is_fetched_after_access_check(outcomes: Seq<bool>)
    requires
        SequenceView::start(volume_steps()).after_all(outcomes).next() == Some(
            VolumeStep::FetchKey,
        ),
    ensures
        outcomes.len() >= 4,
        forall|i: int| 0 <= i < 4 ==> outcomes[i],
        volume_steps().take(4) == seq![
            VolumeStep::ValidateUri,
            VolumeStep::FetchManifest,
            VolumeStep::ParseManifest,
            VolumeStep::CheckAccess,
        ],
{
    let state = SequenceView::start(volume_steps()).after_all(outcomes);
    lemma_steps_are_kept(outcomes);
    assert(volume_steps()[state.done] == VolumeStep::FetchKey);
    assert(state.done == 4);
    assert forall|i: int| 0 <= i < 4 implies i < outcomes.len() && outcomes[i] by {
        crate::sequence::law_earlier_steps_succeeded(volume_steps(), outcomes, i);
    }
    crate::sequence::law_earlier_steps_succeeded(volume_steps(), outcomes, 3);
    assert(volume_steps().take(4) =~= seq![
        VolumeStep::ValidateUri,
        VolumeStep::FetchManifest,
        VolumeStep::ParseManifest,
        VolumeStep::CheckAccess,
    ]);
}

/// No device is touched before the key was found to be the one that the manifest
/// is bound to, and every check before that had passed.
pub proof fn law_device_is_activated_last(outcomes: Seq<bool>)
    requires
        SequenceView::start(volume_steps()).after_all(outcomes).next() == Some(
            VolumeStep::Activate,
        ),
    ensures
        outcomes.len() >= 6,
        forall|i: int| 0 <= i < 6 ==> outcomes[i],
        volume_steps()[5] == VolumeStep::VerifyKey,
        volume_steps().len() == 7,
{
    let state = SequenceView::start(volume_steps()).after_all(outcomes);
    lemma_steps_are_kept(outcomes);
    assert(volume_steps()[state.done] == VolumeStep::Activate);
    assert(state.done == 6);
    assert forall|i: int| 0 <= i < 6 implies i < outcomes.len() && outcomes[i] by {
        crate::sequence::law_earlier_steps_succeeded(volume_steps(), outcomes, i);
    }
    crate::sequence::law_earlier_steps_succeeded(volume_steps(), outcomes, 5);
}

proof fn lemma_steps_are_kept(outcomes: Seq<bool>)
    ensures
        SequenceView::start(volume_steps()).after_all(outcomes).steps == volume_steps(),
    decreases outcomes.len(),
{
    if outcomes.len() > 0 {
        lemma_steps_are_kept(outcomes.drop_last());
    }
}

/// The reply with number `i` answered the given step.
pub open spec fn answered_at<A, M, T>(
    start: VolumeView<A, M, T>,
    replies: Seq<VolumeReply<M, T>>,
    i: int,
    step: VolumeStep,
) -> bool {
    &&& 0 <= i < replies.len()
    &&& state_at(start, replies, i).next() == Some(step)
}

/// The reply with number `i` handed out the given bytes in answer to the given step.
pub open spec fn handed_out_at<A, M, T>(
    start: VolumeView<A, M, T>,
    replies: Seq<VolumeReply<M, T>>,
    i: int,
    step: VolumeStep,
    bytes: Seq<u8>,
) -> bool {
    &&& answered_at(start, replies, i, step)
    &&& replies[i] matches VolumeReply::Fetched { resource } && resource@ == bytes
}

/// The reply with number `i` gave the manifest and the key that it names.
pub open spec fn read_at<A, M, T>(
    start: VolumeView<A, M, T>,
    replies: Seq<VolumeReply<M, T>>,
    i: int,
    manifest: M,
    key_uri: Seq<char>,
) -> bool {
    &&& answered_at(start, replies, i, VolumeStep::ParseManifest)
    &&& replies[i] matches VolumeReply::Manifest { manifest: m, key_uri: uri } && m == manifest
        && uri@ == key_uri
}

/// The reply with number `i` told what activating the device came to.
pub open spec fn activated_at<A, M, T>(
    start: VolumeView<A, M, T>,
    replies: Seq<VolumeReply<M, T>>,
    i: int,
    activation: T,
) -> bool {
    &&& answered_at(start, replies, i, VolumeStep::Activate)
    &&& replies[i] matches VolumeReply::Activated { activation: a } && a == activation
}

/// What was handed out, byte for byte and of any length, is what is read, verified and
/// used: the manifest is read from all bytes that answered its request, the key that is
/// verified and handed on is all bytes that answered the request for it, which was made
/// to the URI that came with the manifest, and the outcome is what activating came to.
pub proof fn law_what_was_handed_out_is_used<A, M, T>(
    start: VolumeView<A, M, T>,
    replies: Seq<VolumeReply<M, T>>,
)
    requires
        start == VolumeView::<A, M, T>::start(start.device_id, start.manifest_uri, start.access),
    ensures
        ({
            let state = start.after_all(replies);
            &&& state.manifest_bytes matches Some(bytes) ==> exists|i: int| #[trigger]
                handed_out_at(start, replies, i, VolumeStep::FetchManifest, bytes)
            &&& state.key matches Some(bytes) ==> exists|i: int| #[trigger]
                handed_out_at(start, replies, i, VolumeStep::FetchKey, bytes)
            &&& state.manifest is Some <==> state.key_uri is Some
            &&& state.manifest is Some ==> exists|i: int| #[trigger]
                read_at(start, replies, i, state.manifest->0, state.key_uri->0)
            &&& state.activation matches Some(activation) ==> exists|i: int| #[trigger]
                activated_at(start, replies, i, activation)
            &&& state.steps.done > 1 ==> state.manifest_bytes is Some
            &&& state.steps.done > 2 ==> state.manifest is Some
            &&& state.steps.done > 4 ==> state.key is Some
            &&& state.steps.complete() ==> state.activation is Some
        }),
{
    lemma_consistent(start, replies);
    lemma_manifest_bytes_origin(start, replies);
    lemma_key_origin(start, replies);
    lemma_manifest_origin(start, replies);
    lemma_activation_origin(start, replies);
    lemma_places();
}

/// What was answered before the last reply is what was answered.
proof fn lemma_before_last<A, M, T>(
    start: VolumeView<A, M, T>,
    replies: Seq<VolumeReply<M, T>>,
    i: int,
)
    requires
        0 <= i < replies.len(),
    ensures
        i < replies.len() - 1 ==> replies.drop_last()[i] == replies[i] && state_at(
            start,
            replies.drop_last(),
            i,
        ) == state_at(start, replies, i),
        i == replies.len() - 1 ==> state_at(start, replies, i) == start.after_all(
            replies.drop_last(),
        ) && replies[i] == replies.last(),
{
    if i < replies.len() - 1 {
        assert(replies.drop_last().take(i) =~= replies.take(i));
    } else {
        assert(replies.take(i) =~= replies.drop_last());
    }
}

proof fn lemma_manifest_bytes_origin<A, M, T>(
    start: VolumeView<A, M, T>,
    replies: Seq<VolumeReply<M, T>>,
)
    requires
        start == VolumeView::<A, M, T>::start(start.device_id, start.manifest_uri, start.access),
    ensures
        start.after_all(replies).manifest_bytes is Some ==> exists|i: int| #[trigger]
            handed_out_at(start, replies, i, VolumeStep::FetchManifest, start.after_all(replies).manifest_bytes->0),
    decreases replies.len(),
{
    lemma_consistent(start, replies);
    if replies.len() > 0 && start.after_all(replies).manifest_bytes is Some {
        let before = replies.drop_last();
        let last = replies.len() - 1;
        lemma_consistent(start, before);
        lemma_manifest_bytes_origin(start, before);
        let prior = start.after_all(before);
        let state = start.after_all(replies);
        lemma_before_last(start, replies, last);
        if prior.manifest_bytes == state.manifest_bytes {
            let i = choose|i: int| #[trigger] handed_out_at(start, before, i, VolumeStep::FetchManifest, start.after_all(replies).manifest_bytes->0);
            lemma_before_last(start, replies, i);
            assert(handed_out_at(start, replies, i, VolumeStep::FetchManifest, start.after_all(replies).manifest_bytes->0));
        } else {
            assert(handed_out_at(start, replies, last, VolumeStep::FetchManifest, start.after_all(replies).manifest_bytes->0));
        }
    }
}

proof fn lemma_key_origin<A, M, T>(
    start: VolumeView<A, M, T>,
    replies: Seq<VolumeReply<M, T>>,
)
    requires
        start == VolumeView::<A, M, T>::start(start.device_id, start.manifest_uri, start.access),
    ensures
        start.after_all(replies).key is Some ==> exists|i: int| #[trigger]
            handed_out_at(start, replies, i, VolumeStep::FetchKey, start.after_all(replies).key->0),
    decreases replies.len(),
{
    lemma_consistent(start, replies);
    if replies.len() > 0 && start.after_all(replies).key is Some {
        let before = replies.drop_last();
        let last = replies.len() - 1;
        lemma_consistent(start, before);
        lemma_key_origin(start, before);
        let prior = start.after_all(before);
        let state = start.after_all(replies);
        lemma_before_last(start, replies, last);
        if prior.key == state.key {
            let i = choose|i: int| #[trigger] handed_out_at(start, before, i, VolumeStep::FetchKey, start.after_all(replies).key->0);
            lemma_before_last(start, replies, i);
            assert(handed_out_at(start, replies, i, VolumeStep::FetchKey, start.after_all(replies).key->0));
        } else {
            assert(handed_out_at(start, replies, last, VolumeStep::FetchKey, start.after_all(replies).key->0));
        }
    }
}

proof fn lemma_activation_origin<A, M, T>(
    start: VolumeView<A, M, T>,
    replies: Seq<VolumeReply<M, T>>,
)
    requires
        start == VolumeView::<A, M, T>::start(start.device_id, start.manifest_uri, start.access),
    ensures
        start.after_all(replies).activation is Some ==> exists|i: int| #[trigger]
            activated_at(start, replies, i, start.after_all(replies).activation->0),
    decreases replies.len(),
{
    lemma_consistent(start, replies);
    if replies.len() > 0 && start.after_all(replies).activation is Some {
        let before = replies.drop_last();
        let last = replies.len() - 1;
        lemma_consistent(start, before);
        lemma_activation_origin(start, before);
        let prior = start.after_all(before);
        let state = start.after_all(replies);
        lemma_before_last(start, replies, last);
        if prior.activation == state.activation {
            let i = choose|i: int| #[trigger] activated_at(start, before, i, start.after_all(replies).activation->0);
            lemma_before_last(start, replies, i);
            assert(activated_at(start, replies, i, start.after_all(replies).activation->0));
        } else {
            assert(activated_at(start, replies, last, start.after_all(replies).activation->0));
        }
    }
}

proof fn lemma_manifest_origin<A, M, T>(
    start: VolumeView<A, M, T>,
    replies: Seq<VolumeReply<M, T>>,
)
    requires
        start == VolumeView::<A, M, T>::start(start.device_id, start.manifest_uri, start.access),
    ensures
        ({
            let state = start.after_all(replies);
            &&& state.manifest is Some <==> state.key_uri is Some
            &&& state.manifest is Some ==> exists|i: int| #[trigger]
                read_at(start, replies, i, state.manifest->0, state.key_uri->0)
        }),
    decreases replies.len(),
{
    if replies.len() > 0 {
        let before = replies.drop_last();
        let last = replies.len() - 1;
        lemma_manifest_origin(start, before);
        let prior = start.after_all(before);
        let state = start.after_all(replies);
        lemma_before_last(start, replies, last);
        if state.manifest is Some {
            if prior.manifest == state.manifest && prior.key_uri == state.key_uri {
                let i = choose|i: int| #[trigger]
                    read_at(start, before, i, state.manifest->0, state.key_uri->0);
                lemma_before_last(start, replies, i);
                assert(read_at(start, replies, i, state.manifest->0, state.key_uri->0));
            } else {
                assert(read_at(start, replies, last, state.manifest->0, state.key_uri->0));
            }
        }
    }
}

/// A volume whose steps all succeed is activated, whatever the manifest, the key and
/// the outcome are: the steps come in their order, each is given what the ones before
/// it have found, and the end is what activating came to.
pub proof fn law_activation_runs_through<A, M, T>(
    start: VolumeView<A, M, T>,
    bytes: Vec<u8>,
    manifest: M,
    key_uri: String,
    key: Vec<u8>,
    activation: T,
)
    requires
        start == VolumeView::<A, M, T>::start(start.device_id, start.manifest_uri, start.access),
    ensures
        ({
            let fetched = start.after(VolumeReply::Done);
            let parsed = fetched.after(VolumeReply::Fetched { resource: bytes });
            let checked = parsed.after(VolumeReply::Manifest { manifest, key_uri });
            let named = checked.after(VolumeReply::Done);
            let verified = named.after(VolumeReply::Fetched { resource: key });
            let ready = verified.after(VolumeReply::Done);
            let active = ready.after(VolumeReply::Activated { activation });
            &&& start.next() == Some(VolumeStep::ValidateUri)
            &&& fetched.next() == Some(VolumeStep::FetchManifest)
            &&& parsed.next() == Some(VolumeStep::ParseManifest)
            &&& parsed.manifest_bytes == Some(bytes@)
            &&& checked.next() == Some(VolumeStep::CheckAccess)
            &&& checked.manifest == Some(manifest)
            &&& named.next() == Some(VolumeStep::FetchKey)
            &&& named.key_uri == Some(key_uri@)
            &&& verified.next() == Some(VolumeStep::VerifyKey)
            &&& verified.key == Some(key@)
            &&& verified.manifest == Some(manifest)
            &&& ready.next() == Some(VolumeStep::Activate)
            &&& ready.key == Some(key@)
            &&& ready.manifest == Some(manifest)
            &&& ready.access == start.access
            &&& ready.device_id == start.device_id
            &&& active.next() is None
            &&& active.steps.complete()
            &&& active.activation == Some(activation)
        }),
{
    lemma_places();
}

/// A step that failed ends the activation: there is nothing more to do, whatever comes
/// after, and the volume is not active.
pub proof fn law_failed_step_ends_the_activation<A, M, T>(
    start: VolumeView<A, M, T>,
    replies: Seq<VolumeReply<M, T>>,
    error: Error,
    more: Seq<VolumeReply<M, T>>,
)
    requires
        start == VolumeView::<A, M, T>::start(start.device_id, start.manifest_uri, start.access),
        start.after_all(replies).next() is Some,
    ensures
        ({
            let ended = start.after_all(replies).after(VolumeReply::Failed { error });
            &&& ended.after_all(more) == ended
            &&& ended.next() is None
            &&& !ended.steps.complete()
        }),
    decreases more.len(),
{
    if more.len() > 0 {
        law_failed_step_ends_the_activation(start, replies, error, more.drop_last());
    }
}

/// An error tells what could not be had: the manifest or the key, and whether the key
/// broker was not reached or did not hand it out. Every other error stands as it is.
pub proof fn law_error_tells_what_could_not_be_had(step: VolumeStep, error: Error, e: Error)
    requires
        is_step_error(step, error, e),
    ensures
        step != VolumeStep::FetchManifest && step != VolumeStep::FetchKey ==> e == error,
        step == VolumeStep::FetchManifest || step == VolumeStep::FetchKey ==> (e matches
            Error::SecureVolumeResource { stage, reason, source } && {
            &&& *source == error
            &&& step == VolumeStep::FetchManifest ==> stage@ == "manifest_fetch"@
            &&& step == VolumeStep::FetchKey ==> stage@ == "key_fetch"@
            &&& error is KbsClient ==> reason@ == "client_initialization"@
            &&& error is GetResource ==> reason@ == "resource_request"@
            &&& !(error is KbsClient) && !(error is GetResource) ==> reason@ == "unexpected"@
        }),
{
}

} // verus!
