//! LUKS2 devices: the `cryptsetup` commands that work on them, and the probes by
//! which a device is judged.

use crate::storage::command;
use crate::storage::command::{CommandError, CommandLine, CommandLineView};
use crate::text;
use vstd::prelude::*;
use vstd::string::*;

verus! {

/// Algorithm of the integrity hash (dm-integrity format name).
pub const HMAC_SHA256: &'static str = "hmac-sha256";

/// The sector size of an encrypted device in bytes.
pub const SECTOR_SIZE: &'static str = "4096";

pub const CRYPTSETUP_BIN: &'static str = "cryptsetup";

/// How many bytes at the start of a device have to be zero before it is taken to
/// be unused.
pub const AUTO_INITIALIZATION_PROBE_BYTES: usize = 4 * 1024 * 1024;

/// Where the magic number of an ext4 superblock stands.
pub const EXT4_SUPERBLOCK_MAGIC_OFFSET: u64 = 1024 + 56;

/// The state that a device is in before it is mounted.
#[derive(Clone, Copy, PartialEq, Eq, Debug, Structural)]
pub enum SourceType {
    /// The device holds nothing that matters.
    Empty,
    /// The device is encrypted and holds a filesystem.
    Encrypted,
    /// The device is one of the two, and which one is to be found out.
    Auto,
}

/// A filesystem that a volume can hold.
#[derive(Clone, Copy, PartialEq, Eq, Debug, Structural)]
pub enum FsType {
    Ext4,
}

impl FsType {
    pub open spec fn spec_name(self) -> Seq<char> {
        "ext4"@
    }

    /// The name by which `mount` knows the filesystem.
    pub fn name(&self) -> (r: &'static str)
        ensures
            r@ == self.spec_name(),
    {
        "ext4"
    }
}

impl Default for FsType {
    fn default() -> (r: Self)
        ensures
            r == FsType::Ext4,
    {
        FsType::Ext4
    }
}

/// The type of the target mount point.
pub enum TargetType {
    /// The target is a device.
    Device,
    /// The target is a filesystem directory.
    FileSystem {
        /// The type of the target filesystem.
        filesystem_type: FsType,
        /// Extra options for the program that makes the filesystem.
        mkfs_opts: Option<String>,
    },
}

/// Why a device was not set up.
pub enum Luks2Error {
    /// The option `grow` is neither `true` nor `false`.
    InvalidGrow,
    /// A device whose state is to be found out cannot be handed on as a device.
    AutoNeedsFilesystem,
    /// The region that is probed could not be read whole: reading stopped with an
    /// error, or the device ended.
    ProbeTooSmall { stopped_by: Option<String> },
    /// The device is neither LUKS2 nor unused.
    AutoRefused,
    /// The place of the superblock could not be reached.
    SeekFailed { reason: String },
    /// The superblock could not be read whole: reading stopped with an error, or the
    /// device ended.
    ShortSuperblock { stopped_by: Option<String> },
    /// An encrypted device does not hold ext4.
    EncryptedNotExt4,
    /// A device that was just initialized does not hold ext4.
    InitializedNotExt4,
    /// A step that `cryptsetup` does failed.
    CryptsetupFailed { at: crate::storage::mount::MountStep, error: CryptsetupError },
    /// Another step failed.
    StepFailed { step: crate::storage::mount::MountStep, cause: String },
}

/// Formats, opens and closes LUKS2 devices.
pub struct Luks2Formatter {
    pub integrity: bool,
}

impl Default for Luks2Formatter {
    fn default() -> (r: Self)
        ensures
            !r.integrity,
    {
        Luks2Formatter { integrity: false }
    }
}

/// The option that names a detached header.
pub open spec fn header_args(header_path: Option<Seq<char>>) -> Seq<Seq<char>> {
    match header_path {
        Some(h) => seq!["--header"@, h],
        None => Seq::empty(),
    }
}

/// The arguments that format a device.
pub open spec fn format_args(
    integrity: bool,
    device_path: Seq<char>,
    header_path: Option<Seq<char>>,
) -> Seq<Seq<char>> {
    seq![
        "--batch-mode"@,
        "luksFormat"@,
        "--type"@,
        "luks2"@,
        "--cipher"@,
        "aes-xts-plain64"@,
        "--sector-size"@,
        SECTOR_SIZE@,
    ] + header_args(header_path) + (if integrity {
        seq!["--integrity"@, HMAC_SHA256@, "--integrity-no-wipe"@, "--integrity-no-journal"@]
    } else {
        Seq::empty()
    }) + seq![device_path, "-"@]
}

/// The arguments that open a device.
pub open spec fn open_args(
    device_path: Seq<char>,
    header_path: Option<Seq<char>>,
    name: Seq<char>,
) -> Seq<Seq<char>> {
    seq!["luksOpen"@] + header_args(header_path) + seq!["-d"@, "-"@, device_path, name]
}

/// The text of an optional string.
pub open spec fn optional_text(s: Option<&str>) -> Option<Seq<char>> {
    match s {
        Some(s) => Some(s@),
        None => None,
    }
}

/// A `cryptsetup` command with the given arguments.
pub open spec fn cryptsetup(args: Seq<Seq<char>>, passphrase_on_stdin: bool) -> CommandLineView {
    CommandLineView { program: CRYPTSETUP_BIN@, args, passphrase_on_stdin }
}

/// The command that runs `cryptsetup` and hands it the passphrase.
fn run_cryptsetup_stdin(args: Vec<String>) -> (r: CommandLine)
    ensures
        r@ == cryptsetup(text::texts(args@), true),
{
    CommandLine { program: CRYPTSETUP_BIN.to_owned(), args, passphrase_on_stdin: true }
}

/// The command that runs `cryptsetup` without input.
pub fn run_cryptsetup(args: Vec<String>) -> (r: CommandLine)
    ensures
        r@ == cryptsetup(text::texts(args@), false),
{
    CommandLine { program: CRYPTSETUP_BIN.to_owned(), args, passphrase_on_stdin: false }
}

/// No arguments.
pub(crate) fn no_args() -> (r: Vec<String>)
    ensures
        text::texts(r@) == Seq::<Seq<char>>::empty(),
{
    let r: Vec<String> = Vec::new();
    assert(text::texts(r@) =~= Seq::<Seq<char>>::empty());
    r
}

impl Luks2Formatter {
    pub fn with_integrity(self, integrity: bool) -> (r: Self)
        ensures
            r == (Luks2Formatter { integrity }),
    {
        Luks2Formatter { integrity }
    }

    /// The command that encrypts (formats) a block device as LUKS2.
    pub fn encrypt_device(&self, device_path: &str, header_path: Option<&str>) -> (r: CommandLine)
        ensures
            r@ == cryptsetup(
                format_args(self.integrity, device_path@, optional_text(header_path)),
                true,
            ),
    {
        let mut args = no_args();
        text::add_text(&mut args, "--batch-mode");
        text::add_text(&mut args, "luksFormat");
        text::add_text(&mut args, "--type");
        text::add_text(&mut args, "luks2");
        text::add_text(&mut args, "--cipher");
        text::add_text(&mut args, "aes-xts-plain64");
        text::add_text(&mut args, "--sector-size");
        text::add_text(&mut args, SECTOR_SIZE);
        if let Some(h) = header_path {
            text::add_text(&mut args, "--header");
            text::add_text(&mut args, h);
        }
        if self.integrity {
            text::add_text(&mut args, "--integrity");
            text::add_text(&mut args, HMAC_SHA256);
            text::add_text(&mut args, "--integrity-no-wipe");
            text::add_text(&mut args, "--integrity-no-journal");
        }
        text::add_text(&mut args, device_path);
        text::add_text(&mut args, "-");
        assert(text::texts(args@) =~= format_args(
            self.integrity,
            device_path@,
            optional_text(header_path),
        ));
        run_cryptsetup_stdin(args)
    }

    /// The command that opens a LUKS2 device under the given name.
    pub fn open_device(&self, device_path: &str, header_path: Option<&str>, name: &str) -> (r:
        CommandLine)
        ensures
            r@ == cryptsetup(open_args(device_path@, optional_text(header_path), name@), true),
    {
        let mut args = no_args();
        text::add_text(&mut args, "luksOpen");
        if let Some(h) = header_path {
            text::add_text(&mut args, "--header");
            text::add_text(&mut args, h);
        }
        text::add_text(&mut args, "-d");
        text::add_text(&mut args, "-");
        text::add_text(&mut args, device_path);
        text::add_text(&mut args, name);
        assert(text::texts(args@) =~= open_args(device_path@, optional_text(header_path), name@));
        run_cryptsetup_stdin(args)
    }

    /// The command that closes a LUKS2 mapping.
    pub fn close_device(&self, name: &str) -> (r: CommandLine)
        ensures
            r@ == cryptsetup(seq!["luksClose"@, name@], false),
    {
        let mut args = no_args();
        text::add_text(&mut args, "luksClose");
        text::add_text(&mut args, name);
        assert(text::texts(args@) =~= seq!["luksClose"@, name@]);
        run_cryptsetup(args)
    }

    /// The command that succeeds exactly on a LUKS2 device.
    pub fn probe_device(&self, device_path: &str) -> (r: CommandLine)
        ensures
            r@ == cryptsetup(seq!["isLuks"@, "--type"@, "luks2"@, device_path@], false),
    {
        let mut args = no_args();
        text::add_text(&mut args, "isLuks");
        text::add_text(&mut args, "--type");
        text::add_text(&mut args, "luks2");
        text::add_text(&mut args, device_path);
        assert(text::texts(args@) =~= seq!["isLuks"@, "--type"@, "luks2"@, device_path@]);
        run_cryptsetup(args)
    }

    /// Resolve a persistent direct-volume source without ever guessing that
    /// non-zero media is safe to initialize.
    pub fn resolve_auto_source(&self, probe_is_zeroed: bool, is_luks2: bool) -> (r: Result<
        SourceType,
        Luks2Error,
    >)
        ensures
            match resolution(probe_is_zeroed, is_luks2) {
                Some(source) => r == Ok::<SourceType, Luks2Error>(source),
                None => r == Err::<SourceType, Luks2Error>(Luks2Error::AutoRefused),
            },
    {
        if is_luks2 {
            return Ok(SourceType::Encrypted);
        }
        if probe_is_zeroed {
            return Ok(SourceType::Empty);
        }
        Err(Luks2Error::AutoRefused)
    }
}

/// What `cryptsetup` is run for.
#[derive(Clone, Copy, PartialEq, Eq, Debug, Structural)]
pub enum CryptsetupAction {
    Format,
    Open,
    Close,
}

/// What is said of an action that failed.
pub open spec fn action_text(action: CryptsetupAction) -> Seq<char> {
    match action {
        CryptsetupAction::Format => "cryptsetup luksFormat failed"@,
        CryptsetupAction::Open => "cryptsetup luksOpen failed"@,
        CryptsetupAction::Close => "cryptsetup luksClose failed"@,
    }
}

/// What is said of a run of `cryptsetup` that failed: only closing takes no
/// passphrase.
pub open spec fn run_text(action: CryptsetupAction) -> Seq<char> {
    match action {
        CryptsetupAction::Close => "failed to run cryptsetup"@,
        _ => "failed to run cryptsetup with stdin"@,
    }
}

impl CryptsetupAction {
    /// What is said of the action where it failed.
    pub fn context(self) -> (r: &'static str)
        ensures
            r@ == action_text(self),
    {
        match self {
            CryptsetupAction::Format => "cryptsetup luksFormat failed",
            CryptsetupAction::Open => "cryptsetup luksOpen failed",
            CryptsetupAction::Close => "cryptsetup luksClose failed",
        }
    }

    /// What is said of the run of `cryptsetup` where the action failed.
    pub fn run_context(self) -> (r: &'static str)
        ensures
            r@ == run_text(self),
    {
        match self {
            CryptsetupAction::Close => "failed to run cryptsetup",
            _ => "failed to run cryptsetup with stdin",
        }
    }
}

/// Why `cryptsetup` did not do what it was run for.
pub struct CryptsetupError {
    pub action: CryptsetupAction,
    pub error: CommandError,
}

/// The texts of an error of `cryptsetup` and of its causes, the outermost first.
pub open spec fn cryptsetup_error_chain(e: CryptsetupError) -> Seq<Seq<char>> {
    seq![action_text(e.action), run_text(e.action)] + command::command_error_chain(e.error)
}

impl CryptsetupError {
    /// The texts of the error and of its causes, the outermost first.
    pub fn chain(&self) -> (r: Vec<String>)
        ensures
            text::texts(r@) == cryptsetup_error_chain(*self),
    {
        let mut r = text::one_text(self.action.context());
        text::add_text(&mut r, self.action.run_context());
        let causes = self.error.chain();
        text::add_texts(&mut r, &causes, 0);
        assert(text::texts(r@) =~= cryptsetup_error_chain(*self));
        r
    }
}

/// What running the command of an action came to, given what the command came to.
pub fn cryptsetup_result(
    action: CryptsetupAction,
    result: Result<(String, String), CommandError>,
) -> (r: Result<(), CryptsetupError>)
    ensures
        match result {
            Ok(_) => r is Ok,
            Err(error) => r == Err::<(), CryptsetupError>(CryptsetupError { action, error }),
        },
{
    match result {
        Ok(_) => Ok(()),
        Err(error) => Err(CryptsetupError { action, error }),
    }
}

/// What a device is taken to be: encrypted where it is LUKS2, else empty where the
/// probed region is zero, else nothing.
pub open spec fn resolution(probe_is_zeroed: bool, is_luks2: bool) -> Option<SourceType> {
    if is_luks2 {
        Some(SourceType::Encrypted)
    } else if probe_is_zeroed {
        Some(SourceType::Empty)
    } else {
        None
    }
}

/// Whether all of the probed region is zero.
pub open spec fn probe_zeroed(probe: Seq<u8>) -> bool {
    forall|i: int| 0 <= i < AUTO_INITIALIZATION_PROBE_BYTES ==> probe[i] == 0
}

/// Judges what reading the start of a device came to: the bytes up to its end, or
/// the error with which reading stopped.
pub fn initialization_probe_is_zeroed(read: Result<&[u8], String>) -> (r: Result<
    bool,
    Luks2Error,
>)
    ensures
        match read {
            Ok(probe) => if probe@.len() >= AUTO_INITIALIZATION_PROBE_BYTES {
                r == Ok::<bool, Luks2Error>(probe_zeroed(probe@))
            } else {
                r == Err::<bool, Luks2Error>(Luks2Error::ProbeTooSmall { stopped_by: None })
            },
            Err(reason) => r == Err::<bool, Luks2Error>(
                Luks2Error::ProbeTooSmall { stopped_by: Some(reason) },
            ),
        },
{
    let probe = match read {
        Ok(probe) => probe,
        Err(reason) => {
            return Err(Luks2Error::ProbeTooSmall { stopped_by: Some(reason) });
        },
    };
    if probe.len() < AUTO_INITIALIZATION_PROBE_BYTES {
        return Err(Luks2Error::ProbeTooSmall { stopped_by: None });
    }
    let mut i: usize = 0;
    while i < AUTO_INITIALIZATION_PROBE_BYTES
        invariant
            i <= AUTO_INITIALIZATION_PROBE_BYTES <= probe@.len(),
            read == Ok::<&[u8], String>(probe),
            forall|j: int| 0 <= j < i ==> probe@[j] == 0,
        decreases AUTO_INITIALIZATION_PROBE_BYTES - i,
    {
        if probe[i] != 0 {
            return Ok(false);
        }
        i = i + 1;
    }
    Ok(true)
}

/// Whether the bytes at the offset of the magic number are those of ext4.
pub open spec fn is_ext4_magic(magic: Seq<u8>) -> bool {
    magic[0] == 0x53 && magic[1] == 0xef
}

/// Judges what reading the place of an ext4 superblock's magic number came to: the
/// bytes up to the end of the device, or the error with which reading stopped.
pub fn has_ext4_superblock(read: Result<&[u8], String>) -> (r: Result<bool, Luks2Error>)
    ensures
        match read {
            Ok(magic) => if magic@.len() >= 2 {
                r == Ok::<bool, Luks2Error>(is_ext4_magic(magic@))
            } else {
                r == Err::<bool, Luks2Error>(Luks2Error::ShortSuperblock { stopped_by: None })
            },
            Err(reason) => r == Err::<bool, Luks2Error>(
                Luks2Error::ShortSuperblock { stopped_by: Some(reason) },
            ),
        },
{
    let magic = match read {
        Ok(magic) => magic,
        Err(reason) => {
            return Err(Luks2Error::ShortSuperblock { stopped_by: Some(reason) });
        },
    };
    if magic.len() < 2 {
        return Err(Luks2Error::ShortSuperblock { stopped_by: None });
    }
    Ok(magic[0] == 0x53 && magic[1] == 0xef)
}

/// What the option `grow` means: nothing where it is neither `true` nor `false`.
pub open spec fn grow_option(value: Option<Seq<char>>) -> Option<bool> {
    match value {
        None => Some(false),
        Some(text) => if text == "false"@ {
            Some(false)
        } else if text == "true"@ {
            Some(true)
        } else {
            None
        },
    }
}

/// Reads the option `grow`.
pub fn parse_grow(value: Option<&str>) -> (r: Result<bool, Luks2Error>)
    ensures
        match grow_option(optional_text(value)) {
            Some(grow) => r == Ok::<bool, Luks2Error>(grow),
            None => r == Err::<bool, Luks2Error>(Luks2Error::InvalidGrow),
        },
{
    match value {
        None => Ok(false),
        Some(text) => {
            if text::same_text(text, "false") {
                Ok(false)
            } else if text::same_text(text, "true") {
                Ok(true)
            } else {
                Err(Luks2Error::InvalidGrow)
            }
        },
    }
}

/// Whether `s` is the text of a random UUID: lower case hexadecimal digits in
/// groups of 8, 4, 4, 4 and 12, with the version and the variant in their places.
pub open spec fn is_random_uuid(s: Seq<char>) -> bool {
    &&& s.len() == 36
    &&& forall|i: int|
        0 <= i < 36 ==> if i == 8 || i == 13 || i == 18 || i == 23 {
            #[trigger] s[i] == '-'
        } else {
            is_hex_digit(s[i])
        }
    &&& s[14] == '4'
    &&& s[19] == '8' || s[19] == '9' || s[19] == 'a' || s[19] == 'b'
}

pub open spec fn is_hex_digit(c: char) -> bool {
    ('0' <= c && c <= '9') || ('a' <= c && c <= 'f')
}

/// `uuid::Uuid::new_v4` and its text: a random UUID. Which one is left to chance.
#[verifier::external_body]
pub(crate) fn random_uuid() -> (r: String)
    ensures
        is_random_uuid(r@),
{
    uuid::Uuid::new_v4().to_string()
}

} // verus!
