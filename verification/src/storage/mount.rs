//! The order in which a LUKS2 volume is set up, and taken down again on failure.

use crate::sequence::{Sequence, SequenceView};
use crate::storage::command::CommandLine;
use crate::storage::header::luks_header_path;
use crate::storage::luks2;
use crate::storage::luks2::{
    CryptsetupAction, CryptsetupError, FsType, Luks2Error, Luks2Formatter, SourceType, TargetType,
};
use crate::text;
use vstd::prelude::*;
use vstd::string::*;

verus! {

/// One step of setting a volume up.
#[derive(Clone, Copy, PartialEq, Eq, Debug, Structural)]
pub enum MountStep {
    /// Read the start of the device.
    ReadProbe,
    /// Ask whether the device is LUKS2.
    ProbeLuks2,
    /// Create the file of the detached header and give it its size.
    PrepareHeader,
    /// Encrypt the device with a detached header.
    FormatDetached,
    /// Encrypt the device with the header on it.
    FormatOnDevice,
    /// Open the device under its mapper name.
    Open,
    /// Link the mount point to the opened device.
    Symlink,
    /// Make a filesystem on the opened device.
    MakeFilesystem,
    /// Read the magic number of the filesystem that was just made.
    CheckInitialized,
    /// Read the magic number of the filesystem that an encrypted device holds.
    CheckEncrypted,
    /// Mount the opened device.
    Mount,
    /// Grow the mounted filesystem to the size of the device.
    Grow,
    /// Unmount the device.
    Unmount,
    /// Remove the link.
    RemoveSymlink,
    /// Close the device.
    Close,
}

/// How a step ended.
pub enum Reply {
    /// It was done.
    Done,
    /// It read these bytes: all that were asked for, or those up to the end.
    Bytes(Vec<u8>),
    /// The device was opened, but reading it failed.
    ReadFailed { reason: String },
    /// The device was opened, but the place to read could not be reached.
    Unreached { reason: String },
    /// The question was answered by the exit status of a command.
    Exit { success: bool },
    /// `cryptsetup` failed.
    CryptsetupFailed { error: CryptsetupError },
    /// Something else failed.
    Failed { cause: String },
}

/// What `cryptsetup` is run for by a step, where it does the step.
pub open spec fn step_action(step: MountStep) -> Option<CryptsetupAction> {
    match step {
        MountStep::FormatDetached => Some(CryptsetupAction::Format),
        MountStep::FormatOnDevice => Some(CryptsetupAction::Format),
        MountStep::Open => Some(CryptsetupAction::Open),
        MountStep::Close => Some(CryptsetupAction::Close),
        _ => None,
    }
}

impl MountStep {
    /// What `cryptsetup` is run for by the step, where it does the step.
    pub fn action(self) -> (r: Option<CryptsetupAction>)
        ensures
            r == step_action(self),
    {
        match self {
            MountStep::FormatDetached => Some(CryptsetupAction::Format),
            MountStep::FormatOnDevice => Some(CryptsetupAction::Format),
            MountStep::Open => Some(CryptsetupAction::Open),
            MountStep::Close => Some(CryptsetupAction::Close),
            _ => None,
        }
    }
}

/// Whether `reply` answers `step`.
pub open spec fn answers(step: MountStep, reply: Reply) -> bool {
    match reply {
        Reply::Failed { .. } => step_action(step) is None,
        Reply::CryptsetupFailed { error } => step_action(step) == Some(error.action),
        Reply::Bytes(_) => step == MountStep::ReadProbe || step == MountStep::CheckInitialized
            || step == MountStep::CheckEncrypted,
        Reply::ReadFailed { .. } => step == MountStep::ReadProbe || step
            == MountStep::CheckInitialized || step == MountStep::CheckEncrypted,
        Reply::Unreached { .. } => step == MountStep::CheckInitialized || step
            == MountStep::CheckEncrypted,
        Reply::Exit { .. } => step == MountStep::ProbeLuks2,
        Reply::Done => step != MountStep::ReadProbe && step != MountStep::CheckInitialized && step
            != MountStep::CheckEncrypted && step != MountStep::ProbeLuks2,
    }
}

fn is_answer(step: MountStep, reply: &Reply) -> (r: bool)
    ensures
        r == answers(step, *reply),
{
    let reads = step == MountStep::ReadProbe || step == MountStep::CheckInitialized || step
        == MountStep::CheckEncrypted;
    match reply {
        Reply::Failed { .. } => step.action().is_none(),
        Reply::CryptsetupFailed { error } => match step.action() {
            Some(action) => action == error.action,
            None => false,
        },
        Reply::Bytes(_) => reads,
        Reply::ReadFailed { .. } => reads,
        Reply::Unreached { .. } => reads && step != MountStep::ReadProbe,
        Reply::Exit { .. } => step == MountStep::ProbeLuks2,
        Reply::Done => !reads && step != MountStep::ProbeLuks2,
    }
}

/// The steps that encrypt the device, if any: with a detached header where the
/// caller said that it is empty, with the header on it where it was found to be.
pub open spec fn encrypt_steps(source: SourceType, resolved: SourceType) -> Seq<MountStep> {
    if source == SourceType::Empty {
        seq![MountStep::PrepareHeader, MountStep::FormatDetached]
    } else if source == SourceType::Auto && resolved == SourceType::Empty {
        seq![MountStep::FormatOnDevice]
    } else {
        Seq::empty()
    }
}

/// The steps that come after the device was opened.
pub open spec fn attach_steps(
    source: SourceType,
    resolved: SourceType,
    to_device: bool,
    grow: bool,
) -> Seq<MountStep> {
    let auto = source == SourceType::Auto;
    if to_device {
        seq![MountStep::Symlink]
    } else {
        (if resolved == SourceType::Empty {
            seq![MountStep::MakeFilesystem] + (if auto {
                seq![MountStep::CheckInitialized]
            } else {
                Seq::empty()
            })
        } else if auto {
            seq![MountStep::CheckEncrypted]
        } else {
            Seq::empty()
        }) + seq![MountStep::Mount] + (if grow {
            seq![MountStep::Grow]
        } else {
            Seq::empty()
        })
    }
}

/// All steps of setting a volume up, once the state of the device is known.
pub open spec fn setup_steps(
    source: SourceType,
    resolved: SourceType,
    to_device: bool,
    grow: bool,
) -> Seq<MountStep> {
    encrypt_steps(source, resolved) + seq![MountStep::Open] + attach_steps(
        source,
        resolved,
        to_device,
        grow,
    )
}

/// The steps that undo what was done: nothing has to be undone before the device
/// is open.
pub open spec fn undo_steps(done: Seq<MountStep>) -> Seq<MountStep> {
    if done.contains(MountStep::Open) {
        (if done.contains(MountStep::Mount) {
            seq![MountStep::Unmount]
        } else {
            Seq::empty()
        }) + (if done.contains(MountStep::Symlink) {
            seq![MountStep::RemoveSymlink]
        } else {
            Seq::empty()
        }) + seq![MountStep::Close]
    } else {
        Seq::empty()
    }
}

/// Why a step counts as failed, if it does.
pub open spec fn step_failure(step: MountStep, reply: Reply) -> Option<Luks2Error> {
    match reply {
        Reply::Failed { cause } => Some(Luks2Error::StepFailed { step, cause }),
        Reply::CryptsetupFailed { error } => Some(
            Luks2Error::CryptsetupFailed { at: step, error },
        ),
        Reply::ReadFailed { reason } => Some(
            Luks2Error::ShortSuperblock { stopped_by: Some(reason) },
        ),
        Reply::Unreached { reason } => Some(Luks2Error::SeekFailed { reason }),
        Reply::Bytes(magic) => if magic@.len() < 2 {
            Some(Luks2Error::ShortSuperblock { stopped_by: None })
        } else if luks2::is_ext4_magic(magic@) {
            None
        } else if step == MountStep::CheckInitialized {
            Some(Luks2Error::InitializedNotExt4)
        } else {
            Some(Luks2Error::EncryptedNotExt4)
        },
        _ => None,
    }
}

/// What is asked for.
#[verifier::ext_equal]
pub struct MountRequest {
    pub device_path: Seq<char>,
    pub mount_point: Seq<char>,
    pub mapper_name: Seq<char>,
    pub integrity: bool,
    pub grow: bool,
    pub source: SourceType,
    /// The filesystem and the options to make it with, or none where the target is
    /// a device.
    pub filesystem: Option<(FsType, Option<Seq<char>>)>,
}

impl MountRequest {
    pub open spec fn setup(self, resolved: SourceType) -> Seq<MountStep> {
        setup_steps(self.source, resolved, self.filesystem is None, self.grow)
    }

    /// The path of the detached header, where there is one.
    pub open spec fn header_path(self) -> Option<Seq<char>> {
        if self.source == SourceType::Empty {
            Some(crate::storage::header::header_path_of(self.device_path))
        } else {
            None
        }
    }

    /// The path of the opened device.
    pub open spec fn dev_path(self) -> Seq<char> {
        "/dev/mapper/"@ + self.mapper_name
    }
}

/// How far setting a volume up has got.
pub enum MountStage {
    /// The start of the device is read.
    Probing,
    /// The start of the device was zero or not, and LUKS2 is asked for.
    Asking { zeroed: bool },
    /// The steps of the set-up are done.
    SettingUp { resolved: SourceType, steps: SequenceView<MountStep> },
    /// What was set up is undone.
    Undoing { error: Luks2Error, steps: SequenceView<MountStep> },
    /// The volume is set up, or there is an error.
    Finished { failure: Option<Luks2Error> },
}

impl MountStage {
    /// The first stage.
    pub open spec fn start(request: MountRequest) -> Self {
        if request.source == SourceType::Auto {
            MountStage::Probing
        } else {
            MountStage::SettingUp {
                resolved: request.source,
                steps: SequenceView::start(request.setup(request.source)),
            }
        }
    }

    /// The step that is to be done now.
    pub open spec fn next(self) -> Option<MountStep> {
        match self {
            MountStage::Probing => Some(MountStep::ReadProbe),
            MountStage::Asking { .. } => Some(MountStep::ProbeLuks2),
            MountStage::SettingUp { steps, .. } => steps.next(),
            MountStage::Undoing { steps, .. } => steps.next(),
            MountStage::Finished { .. } => None,
        }
    }

    /// The stage after `error` has come up and the steps `done` were done.
    pub open spec fn failed(error: Luks2Error, done: Seq<MountStep>) -> Self {
        if undo_steps(done).len() == 0 {
            MountStage::Finished { failure: Some(error) }
        } else {
            MountStage::Undoing { error, steps: SequenceView::start(undo_steps(done)) }
        }
    }

    /// The stage after the step that is to be done now ended with `reply`. What is
    /// no answer to the step changes nothing.
    pub open spec fn after(self, request: MountRequest, reply: Reply) -> Self {
        match self.next() {
            Some(step) => if answers(step, reply) {
                self.after_answer(request, reply)
            } else {
                self
            },
            None => self,
        }
    }

    /// The stage after the step that is to be done now was answered by `reply`.
    pub open spec fn after_answer(self, request: MountRequest, reply: Reply) -> Self {
        match self {
            MountStage::Probing => match reply {
                Reply::Bytes(probe) => if probe@.len() < luks2::AUTO_INITIALIZATION_PROBE_BYTES {
                    MountStage::Finished {
                        failure: Some(Luks2Error::ProbeTooSmall { stopped_by: None }),
                    }
                } else {
                    MountStage::Asking { zeroed: luks2::probe_zeroed(probe@) }
                },
                Reply::ReadFailed { reason } => MountStage::Finished {
                    failure: Some(Luks2Error::ProbeTooSmall { stopped_by: Some(reason) }),
                },
                Reply::Failed { cause } => MountStage::Finished {
                    failure: Some(Luks2Error::StepFailed { step: MountStep::ReadProbe, cause }),
                },
                _ => self,
            },
            MountStage::Asking { zeroed } => match reply {
                Reply::Exit { success } => match luks2::resolution(zeroed, success) {
                    Some(resolved) => MountStage::SettingUp {
                        resolved,
                        steps: SequenceView::start(request.setup(resolved)),
                    },
                    None => MountStage::Finished { failure: Some(Luks2Error::AutoRefused) },
                },
                Reply::Failed { cause } => MountStage::Finished {
                    failure: Some(Luks2Error::StepFailed { step: MountStep::ProbeLuks2, cause }),
                },
                _ => self,
            },
            MountStage::SettingUp { resolved, steps } => match steps.next() {
                Some(step) => match step_failure(step, reply) {
                    Some(error) => MountStage::failed(error, steps.steps.take(steps.done)),
                    None => if steps.after(true).complete() {
                        MountStage::Finished { failure: None }
                    } else {
                        MountStage::SettingUp { resolved, steps: steps.after(true) }
                    },
                },
                None => self,
            },
            MountStage::Undoing { error, steps } => if steps.after(true).complete() {
                MountStage::Finished { failure: Some(error) }
            } else {
                MountStage::Undoing { error, steps: steps.after(true) }
            },
            MountStage::Finished { .. } => self,
        }
    }
}

enum Stage {
    Probing,
    Asking { zeroed: bool },
    SettingUp { resolved: SourceType, steps: Sequence<MountStep> },
    Undoing { error: Luks2Error, steps: Sequence<MountStep> },
    Finished { failure: Option<Luks2Error> },
}

impl View for Stage {
    type V = MountStage;

    closed spec fn view(&self) -> MountStage {
        match *self {
            Stage::Probing => MountStage::Probing,
            Stage::Asking { zeroed } => MountStage::Asking { zeroed },
            Stage::SettingUp { resolved, steps } => MountStage::SettingUp {
                resolved,
                steps: steps@,
            },
            Stage::Undoing { error, steps } => MountStage::Undoing { error, steps: steps@ },
            Stage::Finished { failure } => MountStage::Finished { failure },
        }
    }
}

fn has_step(steps: &Vec<MountStep>, step: MountStep) -> (r: bool)
    ensures
        r == steps@.contains(step),
{
    for i in 0..steps.len()
        invariant
            forall|j: int| 0 <= j < i ==> steps@[j] != step,
    {
        if steps[i] == step {
            return true;
        }
    }
    false
}

/// The steps of setting a volume up.
fn plan_setup(source: SourceType, resolved: SourceType, to_device: bool, grow: bool) -> (r:
    Sequence<MountStep>)
    ensures
        r@ == SequenceView::start(setup_steps(source, resolved, to_device, grow)),
{
    let auto = source == SourceType::Auto;
    let mut steps: Vec<MountStep> = Vec::new();
    if source == SourceType::Empty {
        steps.push(MountStep::PrepareHeader);
        steps.push(MountStep::FormatDetached);
    } else if auto && resolved == SourceType::Empty {
        steps.push(MountStep::FormatOnDevice);
    }
    assert(steps@ =~= encrypt_steps(source, resolved));
    steps.push(MountStep::Open);
    if to_device {
        steps.push(MountStep::Symlink);
    } else {
        if resolved == SourceType::Empty {
            steps.push(MountStep::MakeFilesystem);
            if auto {
                steps.push(MountStep::CheckInitialized);
            }
        } else if auto {
            steps.push(MountStep::CheckEncrypted);
        }
        steps.push(MountStep::Mount);
        if grow {
            steps.push(MountStep::Grow);
        }
    }
    assert(steps@ =~= setup_steps(source, resolved, to_device, grow));
    Sequence::new(steps)
}

/// The steps that undo those that were done.
fn plan_undo(done: &Vec<MountStep>) -> (r: Vec<MountStep>)
    ensures
        r@ == undo_steps(done@),
{
    let mut steps: Vec<MountStep> = Vec::new();
    if has_step(done, MountStep::Open) {
        if has_step(done, MountStep::Mount) {
            steps.push(MountStep::Unmount);
        }
        if has_step(done, MountStep::Symlink) {
            steps.push(MountStep::RemoveSymlink);
        }
        steps.push(MountStep::Close);
    }
    assert(steps@ =~= undo_steps(done@));
    steps
}

/// The stage after an error.
fn stage_after_failure(error: Luks2Error, done: &Vec<MountStep>) -> (r: Stage)
    ensures
        r@ == MountStage::failed(error, done@),
{
    let undo = plan_undo(done);
    if undo.len() == 0 {
        Stage::Finished { failure: Some(error) }
    } else {
        Stage::Undoing { error, steps: Sequence::new(undo) }
    }
}

/// Why a step counts as failed, if it does.
fn failure_of(step: MountStep, reply: Reply) -> (r: Option<Luks2Error>)
    ensures
        r == step_failure(step, reply),
{
    match reply {
        Reply::Failed { cause } => Some(Luks2Error::StepFailed { step, cause }),
        Reply::Unreached { reason } => Some(Luks2Error::SeekFailed { reason }),
        Reply::CryptsetupFailed { error } => Some(
            Luks2Error::CryptsetupFailed { at: step, error },
        ),
        Reply::ReadFailed { reason } => match luks2::has_ext4_superblock(Err(reason)) {
            Err(error) => Some(error),
            Ok(_) => None,
        },
        Reply::Bytes(magic) => match luks2::has_ext4_superblock(Ok(magic.as_slice())) {
            Err(error) => Some(error),
            Ok(true) => None,
            Ok(false) => if step == MountStep::CheckInitialized {
                Some(Luks2Error::InitializedNotExt4)
            } else {
                Some(Luks2Error::EncryptedNotExt4)
            },
        },
        _ => None,
    }
}

/// A volume that is being set up.
///
/// The steps are done one after the other outside; each reply leads to the next
/// one. The key is no part of this: a step that needs it says so in its command.
pub struct Luks2Mount {
    device_path: String,
    mount_point: String,
    mapper_name: String,
    integrity: bool,
    grow: bool,
    source: SourceType,
    target: TargetType,
    stage: Stage,
}

/// The filesystem of a target and the options to make it with.
pub open spec fn target_filesystem(target: TargetType) -> Option<(FsType, Option<Seq<char>>)> {
    match target {
        TargetType::Device => None,
        TargetType::FileSystem { filesystem_type, mkfs_opts } => Some(
            (
                filesystem_type,
                match mkfs_opts {
                    Some(opts) => Some(opts@),
                    None => None,
                },
            ),
        ),
    }
}

impl Luks2Mount {
    /// What is asked for.
    pub closed spec fn request(&self) -> MountRequest {
        MountRequest {
            device_path: self.device_path@,
            mount_point: self.mount_point@,
            mapper_name: self.mapper_name@,
            integrity: self.integrity,
            grow: self.grow,
            source: self.source,
            filesystem: target_filesystem(self.target),
        }
    }

    /// How far it has got.
    pub closed spec fn stage(&self) -> MountStage {
        self.stage@
    }

    /// The step that is to be done now, if there is one.
    pub fn next_step(&self) -> (r: Option<MountStep>)
        ensures
            r == self.stage().next(),
    {
        match &self.stage {
            Stage::Probing => Some(MountStep::ReadProbe),
            Stage::Asking { .. } => Some(MountStep::ProbeLuks2),
            Stage::SettingUp { steps, .. } => steps.next(),
            Stage::Undoing { steps, .. } => steps.next(),
            Stage::Finished { .. } => None,
        }
    }

    fn stage_after(&self, stage: Stage, reply: Reply) -> (r: Stage)
        ensures
            r@ == stage@.after_answer(self.request(), reply),
    {
        match stage {
            Stage::Probing => match reply {
                Reply::Bytes(probe) => match luks2::initialization_probe_is_zeroed(
                    Ok(probe.as_slice()),
                ) {
                    Ok(zeroed) => Stage::Asking { zeroed },
                    Err(error) => Stage::Finished { failure: Some(error) },
                },
                Reply::ReadFailed { reason } => match luks2::initialization_probe_is_zeroed(
                    Err(reason),
                ) {
                    Ok(zeroed) => Stage::Asking { zeroed },
                    Err(error) => Stage::Finished { failure: Some(error) },
                },
                Reply::Failed { cause } => Stage::Finished {
                    failure: Some(Luks2Error::StepFailed { step: MountStep::ReadProbe, cause }),
                },
                _ => Stage::Probing,
            },
            Stage::Asking { zeroed } => match reply {
                Reply::Exit { success } => {
                    let formatter = Luks2Formatter { integrity: self.integrity };
                    match formatter.resolve_auto_source(zeroed, success) {
                        Ok(resolved) => Stage::SettingUp {
                            resolved,
                            steps: plan_setup(
                                self.source,
                                resolved,
                                self.is_to_device(),
                                self.grow,
                            ),
                        },
                        Err(_) => Stage::Finished { failure: Some(Luks2Error::AutoRefused) },
                    }
                },
                Reply::Failed { cause } => Stage::Finished {
                    failure: Some(Luks2Error::StepFailed { step: MountStep::ProbeLuks2, cause }),
                },
                _ => Stage::Asking { zeroed },
            },
            Stage::SettingUp { resolved, steps } => match steps.next() {
                Some(step) => match failure_of(step, reply) {
                    Some(error) => stage_after_failure(error, &steps.done_steps()),
                    None => {
                        let mut steps = steps;
                        steps.record(true);
                        if steps.is_complete() {
                            Stage::Finished { failure: None }
                        } else {
                            Stage::SettingUp { resolved, steps }
                        }
                    },
                },
                None => Stage::SettingUp { resolved, steps },
            },
            Stage::Undoing { error, steps } => {
                let mut steps = steps;
                steps.record(true);
                if steps.is_complete() {
                    Stage::Finished { failure: Some(error) }
                } else {
                    Stage::Undoing { error, steps }
                }
            },
            Stage::Finished { failure } => Stage::Finished { failure },
        }
    }

    /// Whether the target is a device.
    fn is_to_device(&self) -> (r: bool)
        ensures
            r == (self.request().filesystem is None),
    {
        match self.target {
            TargetType::Device => true,
            TargetType::FileSystem { .. } => false,
        }
    }

    /// Goes on after the step that was to be done has ended.
    pub fn report(&mut self, reply: Reply)
        ensures
            final(self).request() == old(self).request(),
            final(self).stage() == old(self).stage().after(old(self).request(), reply),
    {
        match self.next_step() {
            Some(step) => {
                if !is_answer(step, &reply) {
                    return;
                }
            },
            None => {
                return;
            },
        }
        let mut stage = Stage::Probing;
        std::mem::swap(&mut self.stage, &mut stage);
        self.stage = self.stage_after(stage, reply);
    }
}

impl Luks2Mount {
    pub fn device_path(&self) -> (r: &str)
        ensures
            r@ == self.request().device_path,
    {
        self.device_path.as_str()
    }

    pub fn mount_point(&self) -> (r: &str)
        ensures
            r@ == self.request().mount_point,
    {
        self.mount_point.as_str()
    }

    /// The path of the opened device.
    pub fn dev_path(&self) -> (r: String)
        ensures
            r@ == self.request().dev_path(),
    {
        text::joined("/dev/mapper/", self.mapper_name.as_str())
    }

    /// The path of the detached header, where there is one.
    pub fn header_path(&self) -> (r: Option<String>)
        ensures
            owned_text(r) == self.request().header_path(),
    {
        if self.source == SourceType::Empty {
            Some(luks_header_path(self.device_path.as_str()))
        } else {
            None
        }
    }

    /// The filesystem that is mounted, where the target is one.
    pub fn filesystem(&self) -> (r: Option<FsType>)
        ensures
            r == match self.request().filesystem {
                Some((fs, _)) => Some(fs),
                None => None,
            },
    {
        match self.target {
            TargetType::Device => None,
            TargetType::FileSystem { filesystem_type, .. } => Some(filesystem_type),
        }
    }

    /// How the filesystem is made, where the target is one.
    pub fn mkfs(&self) -> (r: Option<Mkfs>)
        ensures
            match self.request().filesystem {
                Some((fs, opts)) => r matches Some(mkfs) && {
                    &&& mkfs.formatter@ == mkfs_formatter(fs, opts)
                    &&& mkfs.integrity_compatible == self.request().integrity
                },
                None => r is None,
            },
    {
        match &self.target {
            TargetType::Device => None,
            TargetType::FileSystem { filesystem_type, mkfs_opts } => {
                let args = match mkfs_opts {
                    Some(opts) => text::split_words(opts.as_str()),
                    None => luks2::no_args(),
                };
                Some(
                    Mkfs {
                        formatter: FsFormatter { fs_type: *filesystem_type, force: true, args },
                        integrity_compatible: self.integrity,
                    },
                )
            },
        }
    }

    /// How the filesystem is mounted, where the target is one.
    pub fn mount_call(&self) -> (r: Option<MountCall>)
        ensures
            match self.request().filesystem {
                Some((fs, _)) => r matches Some(call) && {
                    &&& call.source@ == self.request().dev_path()
                    &&& call.target@ == self.request().mount_point
                    &&& call.fs_type == fs
                    &&& call.noatime
                    &&& call.data@.len() == 0
                },
                None => r is None,
            },
    {
        match self.target {
            TargetType::Device => None,
            TargetType::FileSystem { filesystem_type, .. } => Some(
                MountCall {
                    source: self.dev_path(),
                    target: self.mount_point.clone(),
                    fs_type: filesystem_type,
                    noatime: true,
                    data: String::new(),
                },
            ),
        }
    }

    /// With what the mounted filesystem is grown, while the volume is set up.
    pub fn grow_formatter(&self) -> (r: Option<FsFormatter>)
        ensures
            match (self.stage(), self.request().filesystem) {
                (MountStage::SettingUp { resolved, .. }, Some((fs, opts))) => r matches Some(f)
                    && f@ == grow_formatter_of(resolved, fs, opts),
                _ => r is None,
            },
    {
        let resolved = match &self.stage {
            Stage::SettingUp { resolved, .. } => *resolved,
            _ => {
                return None;
            },
        };
        if resolved == SourceType::Empty {
            match self.mkfs() {
                Some(mkfs) => Some(mkfs.formatter),
                None => None,
            }
        } else {
            match self.target {
                TargetType::Device => None,
                TargetType::FileSystem { filesystem_type, .. } => Some(
                    FsFormatter { fs_type: filesystem_type, force: false, args: luks2::no_args() },
                ),
            }
        }
    }

    /// The command of a step, where `cryptsetup` does it.
    pub fn command(&self, step: MountStep) -> (r: Option<CommandLine>)
        ensures
            match step_command(self.request(), step) {
                Some(command) => r matches Some(c) && c@ == command,
                None => r is None,
            },
    {
        let formatter = Luks2Formatter::default().with_integrity(self.integrity);
        let device = self.device_path.as_str();
        let name = self.mapper_name.as_str();
        let header = self.header_path();
        let header = match &header {
            Some(h) => Some(h.as_str()),
            None => None,
        };
        match step {
            MountStep::ProbeLuks2 => Some(formatter.probe_device(device)),
            MountStep::FormatDetached => Some(formatter.encrypt_device(device, header)),
            MountStep::FormatOnDevice => Some(formatter.encrypt_device(device, None)),
            MountStep::Open => Some(formatter.open_device(device, header, name)),
            MountStep::Close => Some(formatter.close_device(name)),
            _ => None,
        }
    }

    /// What setting the volume up has come to, once it is finished.
    pub fn finish(self) -> (r: Option<Result<Luks2MountOutcome, Luks2Error>>)
        ensures
            match self.stage() {
                MountStage::Finished { failure: None } => r matches Some(Ok(outcome)) && {
                    &&& outcome.mapper_name@ == self.request().mapper_name
                    &&& owned_text(outcome.header_path) == self.request().header_path()
                },
                MountStage::Finished { failure: Some(error) } => r == Some(
                    Err::<Luks2MountOutcome, Luks2Error>(error),
                ),
                _ => r is None,
            },
    {
        let header_path = self.header_path();
        match self.stage {
            Stage::Finished { failure } => match failure {
                None => Some(Ok(Luks2MountOutcome { header_path, mapper_name: self.mapper_name })),
                Some(error) => Some(Err(error)),
            },
            _ => None,
        }
    }
}

/// The text of an optional string.
pub open spec fn owned_text(s: Option<String>) -> Option<Seq<char>> {
    match s {
        Some(s) => Some(s@),
        None => None,
    }
}

/// What a volume that was set up leaves to be known.
pub struct Luks2MountOutcome {
    pub header_path: Option<String>,
    pub mapper_name: String,
}

/// The tool that makes and grows a filesystem, and how it is called.
pub struct FsFormatter {
    pub fs_type: FsType,
    /// Whether what the device holds is overwritten.
    pub force: bool,
    pub args: Vec<String>,
}

/// The texts of a formatter.
#[verifier::ext_equal]
pub struct FsFormatterView {
    pub fs_type: FsType,
    pub force: bool,
    pub args: Seq<Seq<char>>,
}

impl View for FsFormatter {
    type V = FsFormatterView;

    open spec fn view(&self) -> FsFormatterView {
        FsFormatterView {
            fs_type: self.fs_type,
            force: self.force,
            args: text::texts(self.args@),
        }
    }
}

/// How a filesystem is made.
pub struct Mkfs {
    pub formatter: FsFormatter,
    /// Whether the filesystem has to suit a device with integrity tags that were
    /// never written.
    pub integrity_compatible: bool,
}

/// How a filesystem is mounted.
pub struct MountCall {
    /// The device that is mounted.
    pub source: String,
    /// Where it is mounted.
    pub target: String,
    pub fs_type: FsType,
    /// Whether the times of access are left alone.
    pub noatime: bool,
    /// What else the filesystem is told.
    pub data: String,
}

/// The formatter that makes a filesystem: it overwrites what the device holds.
pub open spec fn mkfs_formatter(fs_type: FsType, opts: Option<Seq<char>>) -> FsFormatterView {
    FsFormatterView { fs_type, force: true, args: mkfs_args(opts) }
}

/// The formatter that grows a filesystem: the one that made it where the device was
/// empty, else one that overwrites nothing and has no arguments.
pub open spec fn grow_formatter_of(
    resolved: SourceType,
    fs_type: FsType,
    opts: Option<Seq<char>>,
) -> FsFormatterView {
    if resolved == SourceType::Empty {
        mkfs_formatter(fs_type, opts)
    } else {
        FsFormatterView { fs_type, force: false, args: Seq::empty() }
    }
}

/// The arguments that a text of options gives.
pub open spec fn mkfs_args(opts: Option<Seq<char>>) -> Seq<Seq<char>> {
    match opts {
        Some(opts) => text::words(opts),
        None => Seq::empty(),
    }
}

/// The `cryptsetup` command of a step, where it has one.
pub open spec fn step_command(request: MountRequest, step: MountStep) -> Option<
    crate::storage::command::CommandLineView,
> {
    let device = request.device_path;
    match step {
        MountStep::ProbeLuks2 => Some(
            luks2::cryptsetup(seq!["isLuks"@, "--type"@, "luks2"@, device], false),
        ),
        MountStep::FormatDetached => Some(
            luks2::cryptsetup(
                luks2::format_args(request.integrity, device, request.header_path()),
                true,
            ),
        ),
        MountStep::FormatOnDevice => Some(
            luks2::cryptsetup(luks2::format_args(request.integrity, device, None), true),
        ),
        MountStep::Open => Some(
            luks2::cryptsetup(
                luks2::open_args(device, request.header_path(), request.mapper_name),
                true,
            ),
        ),
        MountStep::Close => Some(
            luks2::cryptsetup(seq!["luksClose"@, request.mapper_name], false),
        ),
        _ => None,
    }
}

/// How a LUKS2 volume is to be mounted.
pub struct Luks2MountParameters {
    /// Whether to enable dm-integrity: exactly where the text is `true`.
    pub data_integrity: Option<String>,
    /// The name of the opened device under `/dev/mapper`. Where there is none, a
    /// random one is taken.
    pub mapper_name: Option<String>,
    /// Whether to grow the mounted filesystem to the size of the device: `true` or
    /// `false`.
    pub grow: Option<String>,
    /// The type of the target mount point.
    pub target_type: TargetType,
}

impl Luks2MountParameters {
    /// Whether integrity is asked for.
    pub open spec fn integrity(self) -> bool {
        owned_text(self.data_integrity) == Some("true"@)
    }

    /// Why a volume is refused before anything is done to the device, if it is.
    pub open spec fn refusal(self, source_type: SourceType) -> Option<Luks2Error> {
        if luks2::grow_option(owned_text(self.grow)) is None {
            Some(Luks2Error::InvalidGrow)
        } else if source_type == SourceType::Auto && self.target_type is Device {
            Some(Luks2Error::AutoNeedsFilesystem)
        } else {
            None
        }
    }

    /// What is asked for.
    pub open spec fn request(
        self,
        device_path: Seq<char>,
        mount_point: Seq<char>,
        source_type: SourceType,
        mapper_name: Seq<char>,
    ) -> MountRequest {
        MountRequest {
            device_path,
            mount_point,
            mapper_name,
            integrity: self.integrity(),
            grow: luks2::grow_option(owned_text(self.grow)) == Some(true),
            source: source_type,
            filesystem: target_filesystem(self.target_type),
        }
    }

    /// Starts to mount the device under the given mapper name.
    pub fn do_mount_as(
        self,
        device_path: &str,
        mount_point: &str,
        source_type: SourceType,
        mapper_name: String,
    ) -> (r: Result<Luks2Mount, Luks2Error>)
        ensures
            match self.refusal(source_type) {
                Some(error) => r == Err::<Luks2Mount, Luks2Error>(error),
                None => r matches Ok(mount) && {
                    &&& mount.request() == self.request(
                        device_path@,
                        mount_point@,
                        source_type,
                        mapper_name@,
                    )
                    &&& mount.stage() == MountStage::start(mount.request())
                },
            },
    {
        let integrity = match &self.data_integrity {
            Some(s) => text::same_text(s.as_str(), "true"),
            None => false,
        };
        let grow = match luks2::parse_grow(
            match &self.grow {
                Some(s) => Some(s.as_str()),
                None => None,
            },
        ) {
            Ok(grow) => grow,
            Err(e) => {
                return Err(e);
            },
        };
        let to_device = match self.target_type {
            TargetType::Device => true,
            TargetType::FileSystem { .. } => false,
        };
        let auto = source_type == SourceType::Auto;
        if auto && to_device {
            return Err(Luks2Error::AutoNeedsFilesystem);
        }
        let stage = if auto {
            Stage::Probing
        } else {
            Stage::SettingUp {
                resolved: source_type,
                steps: plan_setup(source_type, source_type, to_device, grow),
            }
        };
        Ok(
            Luks2Mount {
                device_path: device_path.to_owned(),
                mount_point: mount_point.to_owned(),
                mapper_name,
                integrity,
                grow,
                source: source_type,
                target: self.target_type,
                stage,
            },
        )
    }

    /// Starts to mount the device: under the mapper name that was asked for, else
    /// under a random one.
    pub fn do_mount(self, device_path: &str, mount_point: &str, source_type: SourceType) -> (r:
        Result<Luks2Mount, Luks2Error>)
        ensures
            match self.refusal(source_type) {
                Some(error) => r == Err::<Luks2Mount, Luks2Error>(error),
                None => r matches Ok(mount) && {
                    let name = mount.request().mapper_name;
                    &&& match self.mapper_name {
                        Some(given) => name == given@,
                        None => luks2::is_random_uuid(name),
                    }
                    &&& mount.request() == self.request(
                        device_path@,
                        mount_point@,
                        source_type,
                        name,
                    )
                    &&& mount.stage() == MountStage::start(mount.request())
                },
            },
    {
        let name = match &self.mapper_name {
            Some(name) => name.clone(),
            None => luks2::random_uuid(),
        };
        self.do_mount_as(device_path, mount_point, source_type, name)
    }
}

/// The text of the error of a step that failed.
pub open spec fn step_error_text(
    step: MountStep,
    cause: Seq<char>,
    dev_path: Seq<char>,
    mount_point: Seq<char>,
) -> Seq<char> {
    match step {
        MountStep::ReadProbe => "failed to open auto source device"@,
        MountStep::ProbeLuks2 => "failed to probe LUKS2 device"@,
        MountStep::FormatDetached => "Failed to encrypt LUKS2 device"@,
        MountStep::FormatOnDevice => "Failed to initialize LUKS2 device"@,
        MountStep::Open => "Failed to open LUKS2 device"@,
        MountStep::Symlink => "Failed to create symlink from "@ + dev_path + " to "@ + mount_point,
        MountStep::MakeFilesystem => "Failed to make filesystem Ext4 of device "@ + dev_path,
        MountStep::CheckInitialized => "failed to open decrypted device"@,
        MountStep::CheckEncrypted => "failed to open decrypted device"@,
        MountStep::Mount => "Failed to mount device "@ + dev_path + " to mount point "@
            + mount_point,
        MountStep::Grow => "Failed to grow mounted ext4 filesystem"@,
        _ => cause,
    }
}

/// The text of an error.
pub open spec fn luks2_error_text(
    error: Luks2Error,
    dev_path: Seq<char>,
    mount_point: Seq<char>,
) -> Seq<char> {
    match error {
        Luks2Error::InvalidGrow => "grow must be `true` or `false`"@,
        Luks2Error::AutoNeedsFilesystem => "sourceType=auto requires an ext4 filesystem target"@,
        Luks2Error::ProbeTooSmall { .. } =>
            "auto source device is smaller than the initialization probe region"@,
        Luks2Error::AutoRefused =>
            "auto source refused: device is not valid LUKS2 and its initialization probe region is not completely zeroed"@,
        Luks2Error::SeekFailed { .. } => "failed to seek to ext4 superblock"@,
        Luks2Error::ShortSuperblock { .. } => "failed to read ext4 superblock"@,
        Luks2Error::EncryptedNotExt4 => "auto source refused: decrypted filesystem is not ext4"@,
        Luks2Error::InitializedNotExt4 => "initialized filesystem is not ext4"@,
        Luks2Error::CryptsetupFailed { at, error } => step_error_text(
            at,
            luks2::action_text(error.action),
            dev_path,
            mount_point,
        ),
        Luks2Error::StepFailed { step, cause } => step_error_text(
            step,
            cause@,
            dev_path,
            mount_point,
        ),
    }
}

/// Whether a step that failed is told by a text of its own and not by its cause.
pub open spec fn has_own_text(step: MountStep) -> bool {
    step != MountStep::PrepareHeader && step != MountStep::Unmount && step
        != MountStep::RemoveSymlink && step != MountStep::Close
}

/// What is said of a device that ends before all that was to be read.
pub const END_OF_DEVICE: &'static str = "failed to fill whole buffer";

/// Why reading stopped: an error, or the end of the device.
pub open spec fn stop_text(stopped_by: Option<String>) -> Seq<char> {
    match stopped_by {
        Some(reason) => reason@,
        None => END_OF_DEVICE@,
    }
}

/// The texts of the causes beneath the text of an error, the outermost first.
pub open spec fn luks2_error_causes(error: Luks2Error) -> Seq<Seq<char>> {
    match error {
        Luks2Error::ProbeTooSmall { stopped_by } => seq![stop_text(stopped_by)],
        Luks2Error::ShortSuperblock { stopped_by } => seq![stop_text(stopped_by)],
        Luks2Error::SeekFailed { reason } => seq![reason@],
        Luks2Error::CryptsetupFailed { at, error } => if has_own_text(at) {
            luks2::cryptsetup_error_chain(error)
        } else {
            luks2::cryptsetup_error_chain(error).skip(1)
        },
        Luks2Error::StepFailed { step, cause } => if has_own_text(step) {
            seq![cause@]
        } else {
            Seq::empty()
        },
        _ => Seq::empty(),
    }
}

fn own_text(step: MountStep) -> (r: bool)
    ensures
        r == has_own_text(step),
{
    step != MountStep::PrepareHeader && step != MountStep::Unmount && step
        != MountStep::RemoveSymlink && step != MountStep::Close
}

fn stop_of(stopped_by: &Option<String>) -> (r: &str)
    ensures
        r@ == stop_text(*stopped_by),
{
    match stopped_by {
        Some(reason) => reason.as_str(),
        None => END_OF_DEVICE,
    }
}

/// The text of a step that failed.
fn step_message(step: MountStep, cause: &str, dev_path: &str, mount_point: &str) -> (r: String)
    ensures
        r@ == step_error_text(step, cause@, dev_path@, mount_point@),
{
    match step {
        MountStep::ReadProbe => "failed to open auto source device".to_owned(),
        MountStep::ProbeLuks2 => "failed to probe LUKS2 device".to_owned(),
        MountStep::FormatDetached => "Failed to encrypt LUKS2 device".to_owned(),
        MountStep::FormatOnDevice => "Failed to initialize LUKS2 device".to_owned(),
        MountStep::Open => "Failed to open LUKS2 device".to_owned(),
        MountStep::Symlink => {
            let mut r = text::joined("Failed to create symlink from ", dev_path);
            r.append(" to ");
            r.append(mount_point);
            r
        },
        MountStep::MakeFilesystem => text::joined(
            "Failed to make filesystem Ext4 of device ",
            dev_path,
        ),
        MountStep::CheckInitialized => "failed to open decrypted device".to_owned(),
        MountStep::CheckEncrypted => "failed to open decrypted device".to_owned(),
        MountStep::Mount => {
            let mut r = text::joined("Failed to mount device ", dev_path);
            r.append(" to mount point ");
            r.append(mount_point);
            r
        },
        MountStep::Grow => "Failed to grow mounted ext4 filesystem".to_owned(),
        _ => cause.to_owned(),
    }
}

impl Luks2Error {
    /// The text of the error, for the device that was opened at `dev_path` to be
    /// mounted at `mount_point`.
    pub fn message(&self, dev_path: &str, mount_point: &str) -> (r: String)
        ensures
            r@ == luks2_error_text(*self, dev_path@, mount_point@),
    {
        match self {
            Luks2Error::InvalidGrow => "grow must be `true` or `false`".to_owned(),
            Luks2Error::AutoNeedsFilesystem =>
                "sourceType=auto requires an ext4 filesystem target".to_owned(),
            Luks2Error::ProbeTooSmall { .. } =>
                "auto source device is smaller than the initialization probe region".to_owned(),
            Luks2Error::AutoRefused =>
                "auto source refused: device is not valid LUKS2 and its initialization probe region is not completely zeroed".to_owned(),
            Luks2Error::SeekFailed { .. } => "failed to seek to ext4 superblock".to_owned(),
            Luks2Error::ShortSuperblock { .. } => "failed to read ext4 superblock".to_owned(),
            Luks2Error::EncryptedNotExt4 =>
                "auto source refused: decrypted filesystem is not ext4".to_owned(),
            Luks2Error::InitializedNotExt4 => "initialized filesystem is not ext4".to_owned(),
            Luks2Error::CryptsetupFailed { at, error } => step_message(
                *at,
                error.action.context(),
                dev_path,
                mount_point,
            ),
            Luks2Error::StepFailed { step, cause } => step_message(
                *step,
                cause.as_str(),
                dev_path,
                mount_point,
            ),
        }
    }

    /// The text of the error and those of its causes, the outermost first.
    pub fn chain(&self, dev_path: &str, mount_point: &str) -> (r: Vec<String>)
        ensures
            text::texts(r@) == seq![luks2_error_text(*self, dev_path@, mount_point@)]
                + luks2_error_causes(*self),
    {
        let message = self.message(dev_path, mount_point);
        let mut r = text::one_text(message.as_str());
        match self {
            Luks2Error::ProbeTooSmall { stopped_by } => text::add_text(&mut r, stop_of(stopped_by)),
            Luks2Error::ShortSuperblock { stopped_by } => text::add_text(
                &mut r,
                stop_of(stopped_by),
            ),
            Luks2Error::SeekFailed { reason } => text::add_text(&mut r, reason.as_str()),
            Luks2Error::CryptsetupFailed { at, error } => {
                let causes = error.chain();
                assert(text::texts(causes@).len() == causes@.len());
                if own_text(*at) {
                    text::add_texts(&mut r, &causes, 0);
                } else {
                    text::add_texts(&mut r, &causes, 1);
                }
            },
            Luks2Error::StepFailed { step, cause } => {
                if own_text(*step) {
                    text::add_text(&mut r, cause.as_str());
                }
            },
            _ => {},
        }
        assert(text::texts(r@) =~= seq![luks2_error_text(*self, dev_path@, mount_point@)]
            + luks2_error_causes(*self));
        r
    }
}

} // verus!
