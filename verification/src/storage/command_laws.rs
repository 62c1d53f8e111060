//! What the commands of a volume and the texts around them say.

use crate::storage::command;
use crate::storage::command::{CommandError, CommandStep};
use crate::storage::header;
use crate::storage::luks2;
use crate::storage::luks2::{CryptsetupError, FsType, Luks2Error, SourceType};
use crate::storage::mount;
use crate::storage::mount::{Luks2MountParameters, MountRequest, MountStep};
use crate::text;
use vstd::prelude::*;
use vstd::string::*;

verus! {

/// The arguments of the command of a step.
pub open spec fn args_of(request: MountRequest, step: MountStep) -> Seq<Seq<char>> {
    mount::step_command(request, step)->0.args
}

/// The arguments before the last two, which are no options whatever they read.
pub open spec fn options(args: Seq<Seq<char>>) -> Seq<Seq<char>> {
    args.take(args.len() - 2)
}

/// `value` follows `option`.
pub open spec fn has_option(
    args: Seq<Seq<char>>,
    option: Seq<char>,
    value: Seq<char>,
) -> bool {
    exists|i: int|
        0 <= i && i + 1 < options(args).len() && #[trigger] options(args)[i] == option && options(
            args,
        )[i + 1] == value
}

pub proof fn lemma_dashes()
    ensures
        "--header"@ != "luksOpen"@,
        "--header"@ != "-d"@,
        "--header"@ != "-"@,
        "--header"@ != "--batch-mode"@,
        "--header"@ != "luksFormat"@,
        "--header"@ != "--type"@,
        "--header"@ != "luks2"@,
        "--header"@ != "--cipher"@,
        "--header"@ != "aes-xts-plain64"@,
        "--header"@ != "--sector-size"@,
        "--header"@ != "4096"@,
        "--header"@ != "--integrity"@,
        "--header"@ != "hmac-sha256"@,
        "--header"@ != "--integrity-no-wipe"@,
        "--header"@ != "--integrity-no-journal"@,
{
    reveal_strlit("--header");
    reveal_strlit("luksOpen");
    reveal_strlit("-d");
    reveal_strlit("-");
    reveal_strlit("--batch-mode");
    reveal_strlit("luksFormat");
    reveal_strlit("--type");
    reveal_strlit("luks2");
    reveal_strlit("--cipher");
    reveal_strlit("aes-xts-plain64");
    reveal_strlit("--sector-size");
    reveal_strlit("4096");
    reveal_strlit("--integrity");
    reveal_strlit("hmac-sha256");
    reveal_strlit("--integrity-no-wipe");
    reveal_strlit("--integrity-no-journal");
    assert("-d"@.len() == 2 && "-"@.len() == 1 && "--header"@.len() == 8);
    assert("luksOpen"@[0] == 'l');
    assert("--header"@[0] == '-');
    assert("--cipher"@[2] == 'c');
    assert("--header"@[2] == 'h');
}

/// A device is opened with the header that it was formatted with. Where the set-up
/// formats it with a detached header, both commands name the same one, and it is the
/// one of the outcome; everywhere else neither names any.
pub proof fn law_opened_with_the_header_of_its_format(request: MountRequest, resolved: SourceType)
    ensures
        ({
            let open = args_of(request, MountStep::Open);
            let detached = args_of(request, MountStep::FormatDetached);
            let on_device = args_of(request, MountStep::FormatOnDevice);
            &&& request.setup(resolved).contains(MountStep::FormatDetached) ==> {
                &&& request.header_path() is Some
                &&& has_option(open, "--header"@, request.header_path()->0)
                &&& has_option(detached, "--header"@, request.header_path()->0)
            }
            &&& !request.setup(resolved).contains(MountStep::FormatDetached) ==> {
                &&& request.header_path() is None
                &&& !options(open).contains("--header"@)
            }
            &&& !options(on_device).contains("--header"@)
        }),
{
    lemma_dashes();
    let open = args_of(request, MountStep::Open);
    let detached = args_of(request, MountStep::FormatDetached);
    let on_device = args_of(request, MountStep::FormatOnDevice);
    if request.source == SourceType::Empty {
        let s = request.setup(resolved);
        assert(s[1] == MountStep::FormatDetached);
        let h = request.header_path()->0;
        assert(options(open)[1] == "--header"@ && options(open)[2] == h);
        assert(options(detached)[8] == "--header"@ && options(detached)[9] == h);
    } else {
        assert(options(open) =~= seq!["luksOpen"@, "-d"@, "-"@]);
    }
    let base = seq![
        "--batch-mode"@,
        "luksFormat"@,
        "--type"@,
        "luks2"@,
        "--cipher"@,
        "aes-xts-plain64"@,
        "--sector-size"@,
        "4096"@,
    ];
    if request.integrity {
        assert(options(on_device) =~= base + seq![
            "--integrity"@,
            "hmac-sha256"@,
            "--integrity-no-wipe"@,
            "--integrity-no-journal"@,
        ]);
    } else {
        assert(options(on_device) =~= base);
    }
}

/// Every command works on the device of the request, and closes what was opened: the
/// name under which the device is opened, at which it is mounted and which the outcome
/// has is the name that is closed.
pub proof fn law_commands_work_on_the_device(request: MountRequest)
    ensures
        ({
            let open = args_of(request, MountStep::Open);
            let detached = args_of(request, MountStep::FormatDetached);
            let on_device = args_of(request, MountStep::FormatOnDevice);
            let probe = args_of(request, MountStep::ProbeLuks2);
            let close = args_of(request, MountStep::Close);
            &&& open[0] == "luksOpen"@
            &&& has_option(open, "-d"@, "-"@)
            &&& open[open.len() - 2] == request.device_path
            &&& open.last() == request.mapper_name
            &&& close.len() == 2
            &&& close[0] == "luksClose"@
            &&& close.last() == open.last()
            &&& request.dev_path() == "/dev/mapper/"@ + close.last()
            &&& options(detached).contains("luksFormat"@)
            &&& detached[detached.len() - 2] == request.device_path
            &&& detached.last() == "-"@
            &&& options(on_device).contains("luksFormat"@)
            &&& on_device[on_device.len() - 2] == request.device_path
            &&& on_device.last() == "-"@
            &&& probe[0] == "isLuks"@
            &&& probe.len() == 4
            &&& probe[1] == "--type"@ && probe[2] == "luks2"@
            &&& probe.last() == request.device_path
        }),
{
    let open = args_of(request, MountStep::Open);
    let n: int = if request.source == SourceType::Empty {
        3
    } else {
        1
    };
    assert(options(open)[n] == "-d"@ && options(open)[n + 1] == "-"@);
    assert(options(args_of(request, MountStep::FormatDetached))[1] == "luksFormat"@);
    assert(options(args_of(request, MountStep::FormatOnDevice))[1] == "luksFormat"@);
}

/// A device is always formatted the same way but for its integrity, which it has
/// exactly where that was asked for.
pub proof fn law_format_is_fixed(
    integrity: bool,
    device_path: Seq<char>,
    header_path: Option<Seq<char>>,
)
    ensures
        ({
            let args = luks2::format_args(integrity, device_path, header_path);
            &&& options(args).contains("--batch-mode"@)
            &&& has_option(args, "--type"@, "luks2"@)
            &&& has_option(args, "--cipher"@, "aes-xts-plain64"@)
            &&& has_option(args, "--sector-size"@, "4096"@)
            &&& integrity ==> {
                &&& has_option(args, "--integrity"@, "hmac-sha256"@)
                &&& options(args).contains("--integrity-no-wipe"@)
                &&& options(args).contains("--integrity-no-journal"@)
            }
            &&& args.len() == 10 + (if header_path is Some {
                2int
            } else {
                0int
            }) + (if integrity {
                4int
            } else {
                0int
            })
        }),
{
    let args = luks2::format_args(integrity, device_path, header_path);
    let o = options(args);
    assert(o[0] == "--batch-mode"@);
    assert(o[2] == "--type"@ && o[3] == "luks2"@);
    assert(o[4] == "--cipher"@ && o[5] == "aes-xts-plain64"@);
    assert(o[6] == "--sector-size"@ && o[7] == "4096"@);
    if integrity {
        let n: int = if header_path is Some {
            10
        } else {
            8
        };
        assert(o[n] == "--integrity"@ && o[n + 1] == "hmac-sha256"@);
        assert(o[n + 2] == "--integrity-no-wipe"@);
        assert(o[n + 3] == "--integrity-no-journal"@);
    }
}

/// The passphrase goes to the commands that need it and to no others, and `cryptsetup`
/// is the program of all of them.
pub proof fn law_passphrase_goes_where_it_is_needed(request: MountRequest, step: MountStep)
    ensures
        mount::step_command(request, step) matches Some(command) ==> {
            &&& command.program == "cryptsetup"@
            &&& command.passphrase_on_stdin <==> step == MountStep::FormatDetached || step
                == MountStep::FormatOnDevice || step == MountStep::Open
        },
        mount::step_command(request, step) is Some <==> step == MountStep::FormatDetached || step
            == MountStep::FormatOnDevice || step == MountStep::Open || step == MountStep::Close
            || step == MountStep::ProbeLuks2,
{
}

/// A header has its place by the device alone: in the one directory, under the one
/// suffix.
pub proof fn law_header_has_its_place(request: MountRequest)
    ensures
        request.source == SourceType::Empty <==> request.header_path() is Some,
        request.source == SourceType::Empty ==> {
            let h = request.header_path()->0;
            let dir = "/run/confidential-containers/cdh/luks-headers/"@;
            &&& dir.is_prefix_of(h)
            &&& h.len() >= dir.len() + 7
            &&& h.skip(h.len() - 7) == ".header"@
            &&& h == header::header_path_of(request.device_path)
        },
{
    if request.source == SourceType::Empty {
        reveal_strlit("/run/confidential-containers/cdh/luks-headers/");
        reveal_strlit("/run/confidential-containers/cdh/luks-headers");
        reveal_strlit("/");
        reveal_strlit(".header");
        let h = request.header_path()->0;
        let dir = "/run/confidential-containers/cdh/luks-headers/"@;
        assert("/run/confidential-containers/cdh/luks-headers"@ + "/"@ =~= dir);
        assert(h.take(dir.len() as int) =~= dir);
        assert(".header"@.len() == 7);
        assert(h.skip(h.len() - 7) =~= ".header"@);
    }
}

/// The text of an optional string.
pub open spec fn is_text(s: Option<String>, text: Seq<char>) -> bool {
    s matches Some(s) && s@ == text
}

/// What is asked for is what is set up: the device, the mount point and the name are
/// those that were given, a volume has integrity exactly where the option reads `true`,
/// it is grown exactly where that option reads `true`, and the filesystem and its
/// options are those of the target.
pub proof fn law_request_is_what_was_asked_for(
    parameters: Luks2MountParameters,
    device_path: Seq<char>,
    mount_point: Seq<char>,
    source: SourceType,
    mapper_name: Seq<char>,
)
    ensures
        ({
            let request = parameters.request(device_path, mount_point, source, mapper_name);
            &&& request.device_path == device_path
            &&& request.mount_point == mount_point
            &&& request.mapper_name == mapper_name
            &&& request.source == source
            &&& request.integrity <==> is_text(parameters.data_integrity, "true"@)
            &&& request.grow <==> is_text(parameters.grow, "true"@)
            &&& parameters.target_type is Device <==> request.filesystem is None
            &&& request.filesystem matches Some((fs, opts)) ==> {
                &&& fs == parameters.target_type->filesystem_type
                &&& opts is Some <==> parameters.target_type->mkfs_opts is Some
                &&& opts matches Some(text) ==> is_text(parameters.target_type->mkfs_opts, text)
            }
        }),
{
    reveal_strlit("true");
    reveal_strlit("false");
    assert("true"@.len() == 4 && "false"@.len() == 5);
}

/// A volume is refused before anything is done to the device exactly where the option
/// `grow` is there and reads neither `true` nor `false`, or else where a device whose
/// state is to be found out is to be handed on as a device.
pub proof fn law_refused_only_where_impossible(
    parameters: Luks2MountParameters,
    source: SourceType,
)
    ensures
        ({
            let bad_grow = parameters.grow is Some && !is_text(parameters.grow, "true"@)
                && !is_text(parameters.grow, "false"@);
            let bad_target = source == SourceType::Auto && parameters.target_type is Device;
            &&& parameters.refusal(source) is None <==> !bad_grow && !bad_target
            &&& bad_grow ==> parameters.refusal(source) == Some(Luks2Error::InvalidGrow)
            &&& bad_target && !bad_grow ==> parameters.refusal(source) == Some(
                Luks2Error::AutoNeedsFilesystem,
            )
        }),
{
}

/// The option `grow` is off unless it is there and reads `true`, and no other text but
/// `false` turns it off.
pub proof fn law_grow_is_on_by_true_alone(value: Option<Seq<char>>)
    ensures
        luks2::grow_option(value) == Some(true) <==> value == Some("true"@),
        luks2::grow_option(value) == Some(false) <==> value is None || value == Some("false"@),
{
    reveal_strlit("true");
    reveal_strlit("false");
    assert("true"@.len() == 4 && "false"@.len() == 5);
}

/// A device is taken to be encrypted exactly where it is LUKS2, and to be empty exactly
/// where it is not and each of its first 4 MiB is zero.
pub proof fn law_state_is_never_guessed(probe: Seq<u8>, is_luks2: bool)
    ensures
        ({
            let zero = forall|i: int| 0 <= i < 4194304 ==> probe[i] == 0;
            let state = luks2::resolution(luks2::probe_zeroed(probe), is_luks2);
            &&& state == Some(SourceType::Encrypted) <==> is_luks2
            &&& state == Some(SourceType::Empty) <==> !is_luks2 && zero
            &&& state is None <==> !is_luks2 && !zero
        }),
        luks2::AUTO_INITIALIZATION_PROBE_BYTES == 4194304,
        luks2::EXT4_SUPERBLOCK_MAGIC_OFFSET == 1080,
        header::LUKS2_HEADER_MIN_SIZE_BYTES == 16777216,
{
}

/// The number of an ext4 superblock is 0xEF53, the low byte first.
pub proof fn law_ext4_has_its_number(magic: Seq<u8>)
    requires
        magic.len() >= 2,
    ensures
        luks2::is_ext4_magic(magic) <==> magic[0] + 256 * magic[1] == 0xEF53,
{
}

/// The options of a filesystem are handed on word for word: a list of words with one
/// space between each two is the list of arguments. A filesystem is made over what the
/// device holds; it is grown by what made it where the device was empty, and else
/// without options and without overwriting anything.
pub proof fn law_filesystem_gets_its_options(
    fs_type: FsType,
    list: Seq<Seq<char>>,
    resolved: SourceType,
)
    requires
        text::are_words(list),
    ensures
        ({
            let opts = Some(text::spaced(list));
            let made = mount::mkfs_formatter(fs_type, opts);
            let grown = mount::grow_formatter_of(resolved, fs_type, opts);
            &&& made.args == list
            &&& made.force
            &&& made.fs_type == fs_type
            &&& grown.fs_type == fs_type
            &&& resolved == SourceType::Empty ==> grown == made
            &&& resolved != SourceType::Empty ==> !grown.force && grown.args.len() == 0
        }),
        mount::mkfs_formatter(fs_type, None).args.len() == 0,
        mount::mkfs_formatter(fs_type, None).force,
{
    text::law_words_of_a_spaced_list(list);
}

/// The cause of an error is kept beneath its text, at the very bottom.
pub proof fn law_cause_is_kept(step: MountStep, cause: String, command: String, error: CryptsetupError)
    ensures
        command::command_error_chain(CommandError::NotFound { command, cause }).last() == cause@,
        command::command_error_chain(CommandError::NotFound { command, cause }).len() == 2,
        command::command_error_chain(CommandError::Io { cause }) == seq![cause@],
        luks2::cryptsetup_error_chain(error).len() == 2 + command::command_error_chain(
            error.error,
        ).len(),
        luks2::cryptsetup_error_chain(error).skip(2) == command::command_error_chain(error.error),
        ({
            let text = mount::luks2_error_text(
                Luks2Error::StepFailed { step, cause },
                Seq::empty(),
                Seq::empty(),
            );
            let causes = mount::luks2_error_causes(Luks2Error::StepFailed { step, cause });
            (causes.len() == 1 && causes[0] == cause@) || (causes.len() == 0 && text == cause@)
        }),
        mount::luks2_error_causes(Luks2Error::SeekFailed { reason: cause }) == seq![cause@],
        mount::luks2_error_causes(Luks2Error::ProbeTooSmall { stopped_by: Some(cause) })
            == seq![cause@],
        mount::luks2_error_causes(Luks2Error::ShortSuperblock { stopped_by: Some(cause) })
            == seq![cause@],
        step == MountStep::Open || step == MountStep::FormatDetached || step
            == MountStep::FormatOnDevice ==> mount::luks2_error_causes(
            Luks2Error::CryptsetupFailed { at: step, error },
        ) == luks2::cryptsetup_error_chain(error),
{
    assert(luks2::cryptsetup_error_chain(error).skip(2) =~= command::command_error_chain(
        error.error,
    ));
}

/// What is said of a device that could not be mounted or linked names the device and
/// the mount point, whatever they are.
pub proof fn law_error_names_device_and_mount_point(
    cause: Seq<char>,
    dev_path: Seq<char>,
    mount_point: Seq<char>,
)
    ensures
        mount::step_error_text(MountStep::Mount, cause, dev_path, mount_point)
            == "Failed to mount device "@ + dev_path + " to mount point "@ + mount_point,
        mount::step_error_text(MountStep::Symlink, cause, dev_path, mount_point)
            == "Failed to create symlink from "@ + dev_path + " to "@ + mount_point,
        mount::step_error_text(MountStep::MakeFilesystem, cause, dev_path, mount_point)
            == "Failed to make filesystem Ext4 of device "@ + dev_path,
{
}

/// A command is found before it is started, started before its input is written, and
/// waited for last. Its input is written exactly where there is some, and a file is
/// kept open for it exactly where there is one.
pub proof fn law_command_is_run_in_order(has_inputs: bool, inherits_file: bool)
    ensures
        ({
            let s = command::command_steps(has_inputs, inherits_file);
            &&& s[0] == CommandStep::Locate
            &&& s.last() == CommandStep::Wait
            &&& s.contains(CommandStep::Spawn)
            &&& s.contains(CommandStep::InheritFile) <==> inherits_file
            &&& s.contains(CommandStep::TakeStdin) <==> has_inputs
            &&& s.contains(CommandStep::WriteInputs) <==> has_inputs
            &&& forall|i: int, j: int|
                0 <= i < j < s.len() ==> command_rank(#[trigger] s[i]) < command_rank(
                    #[trigger] s[j],
                )
        }),
{
    let s = command::command_steps(has_inputs, inherits_file);
    let n: int = if inherits_file {
        2
    } else {
        1
    };
    assert(s[n] == CommandStep::Spawn);
    if inherits_file {
        assert(s[1] == CommandStep::InheritFile);
    }
    if has_inputs {
        assert(s[n + 1] == CommandStep::TakeStdin);
        assert(s[n + 2] == CommandStep::WriteInputs);
    }
}

/// The place of a step in any run of a command.
pub open spec fn command_rank(step: CommandStep) -> int {
    match step {
        CommandStep::Locate => 0,
        CommandStep::InheritFile => 1,
        CommandStep::Spawn => 2,
        CommandStep::TakeStdin => 3,
        CommandStep::WriteInputs => 4,
        CommandStep::Wait => 5,
    }
}

/// A command that succeeded has its whole output read, each line after the first behind
/// a tab, and one that failed shows the command, its arguments and the whole output.
/// Output of one line stands as it is.
pub proof fn law_output_is_shown_whole(
    name: Seq<char>,
    args: Seq<char>,
    success: bool,
    stdout: Seq<char>,
    stderr: Seq<char>,
    r: Result<(String, String), CommandError>,
)
    requires
        command::is_command_result(name, args, success, stdout, stderr, r),
        forall|i: int| 0 <= i < stdout.len() ==> stdout[i] != '\n',
        forall|i: int| 0 <= i < stderr.len() ==> stderr[i] != '\n',
    ensures
        r is Ok <==> success,
        r matches Ok(texts) ==> texts.0@ == stdout && texts.1@ == stderr,
        r matches Err(e) ==> command::command_error_text(e) == "Failed to run command "@ + name
            + " with args: "@ + args + "\nstdout: "@ + stdout + "\nstderr: "@ + stderr,
{
    text::law_indent_without_line_feed(stdout);
    text::law_indent_without_line_feed(stderr);
}

} // verus!
