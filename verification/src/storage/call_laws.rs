//! What the calls that set volumes up give, whatever they are given.

use crate::sequence::Sequence;
use crate::storage::command;
use crate::storage::command::{
    command_result, command_step_error, inheritable_fd_flags, run_command, run_command_steps,
    CommandError, CommandLine, CommandOutput, CommandStep, TempFileLoopDevice,
};
use crate::storage::command_laws;
use crate::storage::header;
use crate::storage::header::luks_header_path;
use crate::storage::luks2;
use crate::storage::luks2::{
    cryptsetup_result, has_ext4_superblock, initialization_probe_is_zeroed, parse_grow,
    run_cryptsetup, CryptsetupAction, CryptsetupError, FsType, Luks2Error, Luks2Formatter, SourceType,
};
use crate::storage::mount;
use crate::storage::mount::{
    FsFormatter, Luks2Mount, Luks2MountOutcome, Luks2MountParameters, Mkfs, MountCall, MountStage,
    MountStep, Reply,
};
use crate::text;
use vstd::prelude::*;
use vstd::string::*;

verus! {

/// No two devices share a header, and each header stands in its directory.
pub proof fn law_each_device_has_its_header(a: &str, b: &str, r: String, s: String)
    requires
        call_ensures(luks_header_path, (a,), r),
        call_ensures(luks_header_path, (b,), s),
    ensures
        r@ == s@ <==> a@ == b@,
        "/run/confidential-containers/cdh/luks-headers/"@.is_prefix_of(r@),
        r@.len() >= 7 && r@.skip(r@.len() - 7) == ".header"@,
{
    if r@ == s@ {
        header::law_header_path_determines_device(a@, b@);
    }
    let request = mount::MountRequest {
        device_path: a@,
        mount_point: Seq::empty(),
        mapper_name: Seq::empty(),
        integrity: false,
        grow: false,
        source: SourceType::Empty,
        filesystem: None,
    };
    command_laws::law_header_has_its_place(request);
}

/// A device is opened with the header that it is formatted with, by the formatter and
/// whatever the paths and the name are; without one neither command names any. Only
/// formatting and opening take the passphrase, and integrity has no influence on opening
/// and closing.
pub proof fn law_format_and_open_go_together(
    f: Luks2Formatter,
    g: Luks2Formatter,
    device: &str,
    h: &str,
    name: &str,
    format: CommandLine,
    open: CommandLine,
    plain: CommandLine,
    reopen: CommandLine,
    close: CommandLine,
)
    requires
        call_ensures(Luks2Formatter::encrypt_device, (&f, device, Some(h)), format),
        call_ensures(Luks2Formatter::open_device, (&g, device, Some(h), name), open),
        call_ensures(Luks2Formatter::encrypt_device, (&f, device, None), plain),
        call_ensures(Luks2Formatter::open_device, (&g, device, None, name), reopen),
        call_ensures(Luks2Formatter::close_device, (&g, name), close),
    ensures
        command_laws::has_option(format@.args, "--header"@, h@),
        command_laws::has_option(open@.args, "--header"@, h@),
        !command_laws::options(reopen@.args).contains("--header"@),
        format@.args[format@.args.len() - 2] == device@,
        plain@.args[plain@.args.len() - 2] == device@,
        open@.args[open@.args.len() - 2] == device@,
        reopen@.args[reopen@.args.len() - 2] == device@,
        open@.args.last() == name@ && reopen@.args.last() == name@,
        close@.args == seq!["luksClose"@, name@],
        open@.args[0] == "luksOpen"@ && reopen@.args[0] == "luksOpen"@,
        f.integrity ==> command_laws::has_option(format@.args, "--integrity"@, "hmac-sha256"@)
            && command_laws::has_option(plain@.args, "--integrity"@, "hmac-sha256"@),
        command_laws::has_option(plain@.args, "--sector-size"@, "4096"@),
        format@.passphrase_on_stdin && open@.passphrase_on_stdin && plain@.passphrase_on_stdin
            && reopen@.passphrase_on_stdin && !close@.passphrase_on_stdin,
        format@.program == "cryptsetup"@ && open@.program == "cryptsetup"@ && close@.program
            == "cryptsetup"@,
{
    command_laws::law_format_is_fixed(f.integrity, device@, Some(h@));
    command_laws::law_format_is_fixed(f.integrity, device@, None);
    command_laws::lemma_dashes();
    let o = command_laws::options(format@.args);
    assert(o[8] == "--header"@ && o[9] == h@);
    let p = command_laws::options(open@.args);
    assert(p[1] == "--header"@ && p[2] == h@);
    assert(command_laws::options(reopen@.args) =~= seq!["luksOpen"@, "-d"@, "-"@]);
}

/// The option `grow` is read by its two texts alone, a superblock by its number, a probe
/// by every one of its bytes, and a device is resolved by what was found.
pub proof fn law_device_is_judged_by_what_was_read(
    value: Option<&str>,
    grow: Result<bool, Luks2Error>,
    magic: &[u8],
    ext4: Result<bool, Luks2Error>,
    probe: &[u8],
    zeroed: Result<bool, Luks2Error>,
    reason: String,
    failed: Result<bool, Luks2Error>,
    unread: Result<bool, Luks2Error>,
    f: Luks2Formatter,
    luks2_found: bool,
    source: Result<SourceType, Luks2Error>,
)
    requires
        call_ensures(parse_grow, (value,), grow),
        call_ensures(has_ext4_superblock, (Ok(magic),), ext4),
        call_ensures(initialization_probe_is_zeroed, (Ok(probe),), zeroed),
        call_ensures(initialization_probe_is_zeroed, (Err(reason),), failed),
        call_ensures(has_ext4_superblock, (Err(reason),), unread),
        zeroed is Ok ==> call_ensures(
            Luks2Formatter::resolve_auto_source,
            (&f, zeroed->Ok_0, luks2_found),
            source,
        ),
    ensures
        grow == Ok::<bool, Luks2Error>(true) <==> (value matches Some(s) && s@ == "true"@),
        grow == Ok::<bool, Luks2Error>(false) <==> (value is None || (value matches Some(s) && s@
            == "false"@)),
        grow matches Err(e) ==> e is InvalidGrow,
        magic@.len() >= 2 ==> ext4 == Ok::<bool, Luks2Error>(
            magic@[0] + 256 * magic@[1] == 0xEF53,
        ),
        magic@.len() < 2 ==> ext4 == Err::<bool, Luks2Error>(
            Luks2Error::ShortSuperblock { stopped_by: None },
        ),
        unread == Err::<bool, Luks2Error>(Luks2Error::ShortSuperblock { stopped_by: Some(reason) }),
        zeroed is Ok <==> probe@.len() >= 4194304,
        zeroed == Ok::<bool, Luks2Error>(true) <==> probe@.len() >= 4194304 && (forall|i: int|
            0 <= i < 4194304 ==> probe@[i] == 0),
        zeroed matches Err(e) ==> e == (Luks2Error::ProbeTooSmall { stopped_by: None }),
        failed == Err::<bool, Luks2Error>(Luks2Error::ProbeTooSmall { stopped_by: Some(reason) }),
        zeroed is Ok && source is Err ==> source->Err_0 is AutoRefused,
        zeroed is Ok && luks2_found ==> source == Ok::<SourceType, Luks2Error>(
            SourceType::Encrypted,
        ),
        zeroed is Ok && !luks2_found ==> (source == Ok::<SourceType, Luks2Error>(SourceType::Empty)
            <==> forall|i: int| 0 <= i < 4194304 ==> probe@[i] == 0),
        zeroed is Ok && !luks2_found ==> (source is Ok <==> forall|i: int|
            0 <= i < 4194304 ==> probe@[i] == 0),
{
    command_laws::law_grow_is_on_by_true_alone(luks2::optional_text(value));
    reveal_strlit("true");
    reveal_strlit("false");
    assert("true"@.len() == 4 && "false"@.len() == 5);
}

/// A volume that is asked for is set up as asked, from its first step, under the name
/// that was given; it is refused exactly where that is impossible.
pub proof fn law_volume_starts_as_asked(
    p: Luks2MountParameters,
    device: &str,
    at: &str,
    source: SourceType,
    name: String,
    r: Result<Luks2Mount, Luks2Error>,
    s: Result<Luks2Mount, Luks2Error>,
)
    requires
        call_ensures(Luks2MountParameters::do_mount_as, (p, device, at, source, name), r),
        call_ensures(Luks2MountParameters::do_mount, (p, device, at, source), s),
    ensures
        ({
            let bad_grow = p.grow is Some && !command_laws::is_text(p.grow, "true"@)
                && !command_laws::is_text(p.grow, "false"@);
            let bad_target = source == SourceType::Auto && p.target_type is Device;
            &&& r is Ok <==> !bad_grow && !bad_target
            &&& s is Ok <==> !bad_grow && !bad_target
            &&& bad_grow ==> r->Err_0 is InvalidGrow && s->Err_0 is InvalidGrow
            &&& bad_target && !bad_grow ==> r->Err_0 is AutoNeedsFilesystem && s->Err_0
                is AutoNeedsFilesystem
        }),
        r matches Ok(m) ==> {
            &&& m.request().device_path == device@
            &&& m.request().mount_point == at@
            &&& m.request().mapper_name == name@
            &&& m.request().source == source
            &&& m.request().integrity <==> command_laws::is_text(p.data_integrity, "true"@)
            &&& m.request().grow <==> command_laws::is_text(p.grow, "true"@)
            &&& m.request().filesystem is Some <==> p.target_type is FileSystem
            &&& m.request().filesystem matches Some((fs, opts)) ==> {
                &&& fs == p.target_type->filesystem_type
                &&& opts is Some <==> p.target_type->mkfs_opts is Some
                &&& opts matches Some(t) ==> command_laws::is_text(p.target_type->mkfs_opts, t)
            }
            &&& source == SourceType::Auto ==> m.stage().next() == Some(MountStep::ReadProbe)
            &&& source == SourceType::Empty ==> m.stage().next() == Some(MountStep::PrepareHeader)
            &&& source == SourceType::Encrypted ==> m.stage().next() == Some(MountStep::Open)
        },
        s matches Ok(m) ==> {
            &&& m.request().device_path == device@
            &&& m.request().mount_point == at@
            &&& m.request().source == source
            &&& p.mapper_name matches Some(given) ==> m.request().mapper_name == given@
            &&& p.mapper_name is None ==> m.request().mapper_name.len() == 36
            &&& m.request().integrity <==> command_laws::is_text(p.data_integrity, "true"@)
            &&& m.request().grow <==> command_laws::is_text(p.grow, "true"@)
            &&& r matches Ok(named) ==> m.request().filesystem == named.request().filesystem
            &&& source == SourceType::Auto ==> m.stage().next() == Some(MountStep::ReadProbe)
            &&& source == SourceType::Empty ==> m.stage().next() == Some(MountStep::PrepareHeader)
            &&& source == SourceType::Encrypted ==> m.stage().next() == Some(MountStep::Open)
        },
{
    command_laws::law_refused_only_where_impossible(p, source);
    command_laws::law_request_is_what_was_asked_for(p, device@, at@, source, name@);
}

/// The commands of a volume belong together: it is opened with the header that it was
/// formatted with, which is the one of the outcome, under the name that is closed, at
/// which it is mounted and which the outcome has.
pub proof fn law_volume_keeps_its_header_and_name(
    m: Luks2Mount,
    format: Option<CommandLine>,
    open: Option<CommandLine>,
    close: Option<CommandLine>,
    h: Option<String>,
    dev: String,
    call: Option<MountCall>,
    r: Option<Result<Luks2MountOutcome, Luks2Error>>,
)
    requires
        call_ensures(Luks2Mount::command, (&m, MountStep::FormatDetached), format),
        call_ensures(Luks2Mount::command, (&m, MountStep::Open), open),
        call_ensures(Luks2Mount::command, (&m, MountStep::Close), close),
        call_ensures(Luks2Mount::header_path, (&m,), h),
        call_ensures(Luks2Mount::dev_path, (&m,), dev),
        call_ensures(Luks2Mount::mount_call, (&m,), call),
        call_ensures(Luks2Mount::finish, (m,), r),
    ensures
        format is Some && open is Some && close is Some,
        m.request().source == SourceType::Empty <==> h is Some,
        h matches Some(path) ==> {
            &&& command_laws::has_option(open->0@.args, "--header"@, path@)
            &&& command_laws::has_option(format->0@.args, "--header"@, path@)
        },
        h is None ==> !command_laws::options(open->0@.args).contains("--header"@),
        open->0@.args.last() == m.request().mapper_name,
        close->0@.args.last() == m.request().mapper_name,
        open->0@.args[open->0@.args.len() - 2] == m.request().device_path,
        dev@ == "/dev/mapper/"@ + m.request().mapper_name,
        m.request().filesystem is Some <==> call is Some,
        call matches Some(c) ==> {
            &&& c.source@ == dev@
            &&& c.target@ == m.request().mount_point
            &&& c.fs_type == (m.request().filesystem->0).0
            &&& c.noatime
            &&& c.data@.len() == 0
        },
        r matches Some(Ok(o)) ==> {
            &&& o.mapper_name@ == m.request().mapper_name
            &&& o.header_path is Some <==> h is Some
            &&& h matches Some(path) ==> o.header_path->0@ == path@
        },
        m.stage() == (MountStage::Finished { failure: None }) ==> (r matches Some(Ok(_))),
        m.stage() matches MountStage::Finished { failure: Some(e) } ==> (r matches Some(Err(f))
            && f == e),
        !(m.stage() is Finished) ==> r is None,
{
    let resolved = SourceType::Empty;
    command_laws::law_opened_with_the_header_of_its_format(m.request(), resolved);
    command_laws::law_commands_work_on_the_device(m.request());
    if m.request().source == SourceType::Empty {
        assert(m.request().setup(resolved)[1] == MountStep::FormatDetached);
    } else {
        assert(!m.request().setup(resolved).contains(MountStep::FormatDetached));
    }
}

/// A filesystem is made with force and with the words of its options, and for integrity
/// exactly where that is asked for; it is grown by what made it where the device was
/// empty, and else with nothing.
pub proof fn law_filesystem_is_made_as_asked(
    m: Luks2Mount,
    list: Seq<Seq<char>>,
    made: Option<Mkfs>,
    grown: Option<FsFormatter>,
)
    requires
        call_ensures(Luks2Mount::mkfs, (&m,), made),
        call_ensures(Luks2Mount::grow_formatter, (&m,), grown),
        text::are_words(list),
    ensures
        m.request().filesystem is Some <==> made is Some,
        made matches Some(mkfs) ==> {
            &&& mkfs.formatter@.force
            &&& mkfs.formatter@.fs_type == (m.request().filesystem->0).0
            &&& mkfs.integrity_compatible == m.request().integrity
            &&& (m.request().filesystem->0).1 is None ==> mkfs.formatter@.args.len() == 0
            &&& (m.request().filesystem->0).1 == Some(text::spaced(list)) ==> mkfs.formatter@.args
                == list
        },
        m.stage() is SettingUp && made is Some ==> grown is Some,
        grown matches Some(f) ==> m.stage() is SettingUp && made is Some,
        grown matches Some(f) ==> (m.stage()->SettingUp_resolved == SourceType::Empty ==> f@
            == made->0.formatter@),
        grown matches Some(f) ==> (m.stage()->SettingUp_resolved != SourceType::Empty
            ==> !f@.force && f@.args.len() == 0 && f@.fs_type == (m.request().filesystem->0).0),
{
    text::law_words_of_a_spaced_list(list);
}

/// A command that was run is told by what it wrote: success by the two texts, failure by
/// the command, its arguments and the two texts, each line but the first behind a tab.
pub proof fn law_command_is_told_by_its_output(
    name: &str,
    args: &str,
    success: bool,
    out: &str,
    err: &str,
    r: Result<(String, String), CommandError>,
    list: Vec<String>,
    output: CommandOutput,
    s: Result<(String, String), CommandError>,
)
    requires
        call_ensures(command_result, (name, args, success, out, err), r),
        call_ensures(run_command, (name, &list, &output), s),
    ensures
        r is Ok <==> success,
        s is Ok <==> output.success,
        r matches Ok(texts) ==> texts.0@ == text::indented(out@) && texts.1@ == text::indented(err@),
        r matches Err(e) ==> command::command_error_text(e) == "Failed to run command "@ + name@
            + " with args: "@ + args@ + "\nstdout: "@ + text::indented(out@) + "\nstderr: "@
            + text::indented(err@),
        s matches Ok(texts) ==> texts.0@ == text::indented(text::utf8_lossy(output.stdout@))
            && texts.1@ == text::indented(text::utf8_lossy(output.stderr@)),
        s matches Err(e) ==> command::command_error_text(e) == "Failed to run command "@ + name@
            + " with args: "@ + command::pretty_list(text::texts(list@)) + "\nstdout: "@
            + text::indented(text::utf8_lossy(output.stdout@)) + "\nstderr: "@ + text::indented(
            text::utf8_lossy(output.stderr@),
        ),
{
}

/// A step of running a command that failed keeps its cause, and what `cryptsetup` came to
/// is told by the action.
pub proof fn law_command_error_keeps_its_cause(
    step: CommandStep,
    name: &str,
    cause: String,
    e: CommandError,
    action: CryptsetupAction,
    texts: (String, String),
    done: Result<(), CryptsetupError>,
    failed: Result<(), CryptsetupError>,
)
    requires
        call_ensures(command_step_error, (step, name, cause), e),
        call_ensures(cryptsetup_result, (action, Ok(texts)), done),
        call_ensures(cryptsetup_result, (action, Err(e)), failed),
    ensures
        step == CommandStep::Locate ==> command::command_error_chain(e) == seq![
            "command `"@ + name@ + "` not found"@,
            cause@,
        ],
        step == CommandStep::TakeStdin ==> e is NoStdin,
        step != CommandStep::Locate && step != CommandStep::TakeStdin
            ==> command::command_error_chain(e) == seq![cause@],
        done is Ok,
        failed is Err,
        luks2::cryptsetup_error_chain(failed->Err_0) == seq![
            match action {
                CryptsetupAction::Format => "cryptsetup luksFormat failed"@,
                CryptsetupAction::Open => "cryptsetup luksOpen failed"@,
                CryptsetupAction::Close => "cryptsetup luksClose failed"@,
            },
            if action == CryptsetupAction::Close {
                "failed to run cryptsetup"@
            } else {
                "failed to run cryptsetup with stdin"@
            },
        ] + command::command_error_chain(e),
{
}

/// A command is run in its order, step by step.
pub proof fn law_command_steps_are_in_order(
    has_inputs: bool,
    inherits_file: bool,
    r: Sequence<CommandStep>,
)
    requires
        call_ensures(run_command_steps, (has_inputs, inherits_file), r),
    ensures
        r@.next() == Some(CommandStep::Locate),
        r@.done == 0 && !r@.stopped,
        r@.steps.last() == CommandStep::Wait,
        r@.steps.contains(CommandStep::WriteInputs) <==> has_inputs,
        r@.steps.contains(CommandStep::InheritFile) <==> inherits_file,
        r@.steps.contains(CommandStep::Spawn),
{
    command_laws::law_command_is_run_in_order(has_inputs, inherits_file);
}

/// A file that a child inherits is not closed by executing another program, and no other
/// flag of it changes; a failure to read the flags is told.
pub proof fn law_inherited_file_stays_open(flags: i32, r: Option<i32>)
    requires
        call_ensures(inheritable_fd_flags, (flags,), r),
    ensures
        r is None <==> flags == -1,
        r matches Some(kept) ==> kept & 1 == 0 && kept | 1 == flags | 1,
{
}

/// The device that `losetup` names on a line of its own, read as any output is, is the
/// device that is used and detached.
pub proof fn law_loop_device_is_the_one_shown(
    path: Seq<char>,
    stdout: &str,
    device: TempFileLoopDevice,
    used: &str,
    detach: Vec<String>,
)
    requires
        path.len() > 0,
        forall|i: int| 0 <= i < path.len() ==> !text::is_white_space(path[i]),
        stdout@ == text::indented(path.push('\n')),
        call_ensures(TempFileLoopDevice::new, (stdout,), device),
        call_ensures(TempFileLoopDevice::dev_path, (&device,), used),
        call_ensures(TempFileLoopDevice::detach_args, (&device,), detach),
    ensures
        used@ == path,
        text::texts(detach@) == seq!["-d"@, path],
{
    command::law_loop_path_survives_reading(path, used@);
}

/// A reply to a set-up moves it as the set-up goes, and what is asked for stays; a step
/// that is recorded counts exactly where it succeeded.
pub proof fn law_set_up_report_is_taken_up()
    ensures
        forall|m: &mut Luks2Mount, reply: Reply| #[trigger]
            call_ensures(Luks2Mount::report, (m, reply), ()) ==> {
                &&& final(m).request() == m.request()
                &&& final(m).stage() == m.stage().after(m.request(), reply)
            },
        forall|s: &mut Sequence<CommandStep>, success: bool| #[trigger]
            call_ensures(Sequence::<CommandStep>::record, (s, success), ()) ==> {
                &&& final(s)@.steps == s@.steps
                &&& s@.next() is Some && success ==> final(s)@.done == s@.done + 1
                    && final(s)@.stopped == s@.stopped
                &&& s@.next() is Some && !success ==> final(s)@.stopped && final(s)@.done == s@.done
                &&& s@.next() is None ==> final(s)@ == s@
            },
{
}

/// A volume shows what it was asked for, and each step that `cryptsetup` does has its
/// command, for its own device; no other step has one.
pub proof fn law_volume_shows_what_was_asked_for(
    m: Luks2Mount,
    device: &str,
    at: &str,
    fs: Option<FsType>,
    next: Option<MountStep>,
    probe: Option<CommandLine>,
    format: Option<CommandLine>,
    detached: Option<CommandLine>,
    step: MountStep,
    other: Option<CommandLine>,
    action: Option<CryptsetupAction>,
)
    requires
        call_ensures(Luks2Mount::device_path, (&m,), device),
        call_ensures(Luks2Mount::mount_point, (&m,), at),
        call_ensures(Luks2Mount::filesystem, (&m,), fs),
        call_ensures(Luks2Mount::next_step, (&m,), next),
        call_ensures(Luks2Mount::command, (&m, MountStep::ProbeLuks2), probe),
        call_ensures(Luks2Mount::command, (&m, MountStep::FormatOnDevice), format),
        call_ensures(Luks2Mount::command, (&m, MountStep::FormatDetached), detached),
        call_ensures(Luks2Mount::command, (&m, step), other),
        call_ensures(MountStep::action, (step,), action),
    ensures
        device@ == m.request().device_path,
        at@ == m.request().mount_point,
        fs is Some <==> m.request().filesystem is Some,
        fs matches Some(f) ==> f == (m.request().filesystem->0).0,
        next == m.stage().next(),
        probe matches Some(c) && c@.args == seq![
            "isLuks"@,
            "--type"@,
            "luks2"@,
            m.request().device_path,
        ] && !c@.passphrase_on_stdin && c@.program == "cryptsetup"@,
        format matches Some(c) && {
            &&& c@.args[c@.args.len() - 2] == m.request().device_path
            &&& c@.args.last() == "-"@
            &&& command_laws::options(c@.args).contains("luksFormat"@)
            &&& !command_laws::options(c@.args).contains("--header"@)
            &&& command_laws::has_option(c@.args, "--cipher"@, "aes-xts-plain64"@)
            &&& command_laws::has_option(c@.args, "--sector-size"@, "4096"@)
            &&& m.request().integrity ==> command_laws::has_option(
                c@.args,
                "--integrity"@,
                "hmac-sha256"@,
            )
            &&& !m.request().integrity ==> c@.args.len() == 10
            &&& c@.passphrase_on_stdin
        },
        detached matches Some(c) && {
            &&& c@.args[c@.args.len() - 2] == m.request().device_path
            &&& c@.args.last() == "-"@
            &&& command_laws::options(c@.args).contains("luksFormat"@)
            &&& command_laws::has_option(c@.args, "--cipher"@, "aes-xts-plain64"@)
            &&& command_laws::has_option(c@.args, "--sector-size"@, "4096"@)
            &&& m.request().integrity ==> command_laws::has_option(
                c@.args,
                "--integrity"@,
                "hmac-sha256"@,
            )
            &&& c@.passphrase_on_stdin
        },
        other is Some <==> step == MountStep::ProbeLuks2 || step == MountStep::FormatOnDevice
            || step == MountStep::FormatDetached || step == MountStep::Open || step
            == MountStep::Close,
        action == Some(CryptsetupAction::Format) <==> step == MountStep::FormatOnDevice || step
            == MountStep::FormatDetached,
        action == Some(CryptsetupAction::Open) <==> step == MountStep::Open,
        action == Some(CryptsetupAction::Close) <==> step == MountStep::Close,
{
    let request = m.request();
    command_laws::law_commands_work_on_the_device(request);
    command_laws::law_opened_with_the_header_of_its_format(request, SourceType::Empty);
    command_laws::law_format_is_fixed(request.integrity, request.device_path, None);
    command_laws::law_format_is_fixed(
        request.integrity,
        request.device_path,
        request.header_path(),
    );
}

/// A formatter has the integrity that it was given, and none by default; it probes the
/// device for LUKS2 and runs what it is told. The one filesystem is ext4.
pub proof fn law_formatter_is_as_it_was_made(
    usual: Luks2Formatter,
    integrity: bool,
    f: Luks2Formatter,
    device: &str,
    probe: CommandLine,
    args: Vec<String>,
    run: CommandLine,
    fs: FsType,
    name: &'static str,
    path: &str,
    attach: Vec<String>,
)
    requires
        call_ensures(Luks2Formatter::default, (), usual),
        call_ensures(Luks2Formatter::with_integrity, (usual, integrity), f),
        call_ensures(Luks2Formatter::probe_device, (&f, device), probe),
        call_ensures(run_cryptsetup, (args,), run),
        call_ensures(FsType::name, (&fs,), name),
        call_ensures(TempFileLoopDevice::attach_args, (path,), attach),
    ensures
        !usual.integrity,
        f.integrity == integrity,
        probe@.args == seq!["isLuks"@, "--type"@, "luks2"@, device@],
        probe@.program == "cryptsetup"@ && !probe@.passphrase_on_stdin,
        run@.args == text::texts(args@),
        run@.program == "cryptsetup"@ && !run@.passphrase_on_stdin,
        name@ == "ext4"@,
        text::texts(attach@) == seq!["--find"@, "--show"@, path@],
{
}

/// What is said of an error stands first and its causes below it, down to the last.
pub proof fn law_error_and_causes_are_shown(
    e: CommandError,
    message: String,
    chain: Vec<String>,
    action: CryptsetupAction,
    said: &'static str,
    ran: &'static str,
    failed: CryptsetupError,
    below: Vec<String>,
)
    requires
        call_ensures(CommandError::message, (&e,), message),
        call_ensures(CommandError::chain, (&e,), chain),
        call_ensures(CryptsetupAction::context, (action,), said),
        call_ensures(CryptsetupAction::run_context, (action,), ran),
        failed == (CryptsetupError { action, error: e }),
        call_ensures(CryptsetupError::chain, (&failed,), below),
    ensures
        e matches CommandError::NotFound { command, .. } ==> message@ == "command `"@ + command@
            + "` not found"@,
        e is NoStdin ==> message@
            == "Failed to get stdin from the command thus failed to write inputs to the command"@,
        e matches CommandError::Io { cause } ==> message@ == cause@,
        e matches CommandError::Failed { message: m } ==> message@ == m@,
        e matches CommandError::NotFound { cause, .. } ==> text::texts(chain@) == seq![
            message@,
            cause@,
        ],
        !(e is NotFound) ==> text::texts(chain@) == seq![message@],
        said@ == (match action {
            CryptsetupAction::Format => "cryptsetup luksFormat failed"@,
            CryptsetupAction::Open => "cryptsetup luksOpen failed"@,
            CryptsetupAction::Close => "cryptsetup luksClose failed"@,
        }),
        action == CryptsetupAction::Close ==> ran@ == "failed to run cryptsetup"@,
        action != CryptsetupAction::Close ==> ran@ == "failed to run cryptsetup with stdin"@,
        text::texts(below@) == seq![said@, ran@] + text::texts(chain@),
{
}

/// What is said of a volume that could not be set up: why it was refused, what the device
/// was found not to be, or the step that failed; and beneath it every cause.
pub proof fn law_volume_error_is_shown(
    e: Luks2Error,
    dev_path: &str,
    mount_point: &str,
    message: String,
    chain: Vec<String>,
)
    requires
        call_ensures(Luks2Error::message, (&e, dev_path, mount_point), message),
        call_ensures(Luks2Error::chain, (&e, dev_path, mount_point), chain),
    ensures
        chain@.len() > 0 && text::texts(chain@)[0] == message@,
        match e {
            Luks2Error::InvalidGrow => message@ == "grow must be `true` or `false`"@ && chain@.len()
                == 1,
            Luks2Error::AutoNeedsFilesystem => message@
                == "sourceType=auto requires an ext4 filesystem target"@ && chain@.len() == 1,
            Luks2Error::AutoRefused => message@
                == "auto source refused: device is not valid LUKS2 and its initialization probe region is not completely zeroed"@
                && chain@.len() == 1,
            Luks2Error::EncryptedNotExt4 => message@
                == "auto source refused: decrypted filesystem is not ext4"@ && chain@.len() == 1,
            Luks2Error::InitializedNotExt4 => message@ == "initialized filesystem is not ext4"@
                && chain@.len() == 1,
            Luks2Error::ProbeTooSmall { stopped_by } => {
                &&& message@ == "auto source device is smaller than the initialization probe region"@
                &&& chain@.len() == 2
                &&& stopped_by matches Some(reason) ==> text::texts(chain@)[1] == reason@
                &&& stopped_by is None ==> text::texts(chain@)[1] == "failed to fill whole buffer"@
            },
            Luks2Error::ShortSuperblock { stopped_by } => {
                &&& message@ == "failed to read ext4 superblock"@
                &&& chain@.len() == 2
                &&& stopped_by matches Some(reason) ==> text::texts(chain@)[1] == reason@
                &&& stopped_by is None ==> text::texts(chain@)[1] == "failed to fill whole buffer"@
            },
            Luks2Error::SeekFailed { reason } => message@ == "failed to seek to ext4 superblock"@
                && text::texts(chain@) == seq![message@, reason@],
            Luks2Error::CryptsetupFailed { at, error } => {
                &&& at == MountStep::FormatDetached ==> message@
                    == "Failed to encrypt LUKS2 device"@
                &&& at == MountStep::FormatOnDevice ==> message@
                    == "Failed to initialize LUKS2 device"@
                &&& at == MountStep::Open ==> message@ == "Failed to open LUKS2 device"@
                &&& at == MountStep::FormatDetached || at == MountStep::FormatOnDevice || at
                    == MountStep::Open ==> text::texts(chain@) == seq![message@]
                    + luks2::cryptsetup_error_chain(error)
                &&& at == MountStep::Close ==> text::texts(chain@)
                    == luks2::cryptsetup_error_chain(error)
            },
            Luks2Error::StepFailed { step, cause } => {
                let told = step == MountStep::PrepareHeader || step == MountStep::Unmount || step
                    == MountStep::RemoveSymlink || step == MountStep::Close;
                &&& told ==> text::texts(chain@) == seq![cause@]
                &&& !told ==> text::texts(chain@) == seq![message@, cause@]
                &&& step == MountStep::ReadProbe ==> message@
                    == "failed to open auto source device"@
                &&& step == MountStep::ProbeLuks2 ==> message@ == "failed to probe LUKS2 device"@
                &&& step == MountStep::CheckInitialized || step == MountStep::CheckEncrypted
                    ==> message@ == "failed to open decrypted device"@
                &&& step == MountStep::Grow ==> message@
                    == "Failed to grow mounted ext4 filesystem"@
                &&& step == MountStep::Symlink ==> message@ == "Failed to create symlink from "@
                    + dev_path@ + " to "@ + mount_point@
                &&& step == MountStep::MakeFilesystem ==> message@
                    == "Failed to make filesystem Ext4 of device "@ + dev_path@
                &&& step == MountStep::Mount ==> message@ == "Failed to mount device "@ + dev_path@
                    + " to mount point "@ + mount_point@
            },
        },
{
    assert(text::texts(chain@).len() == chain@.len());
    if let Luks2Error::CryptsetupFailed { at, error } = e {
        let all = luks2::cryptsetup_error_chain(error);
        assert(all[0] == luks2::action_text(error.action));
        assert(seq![all[0]] + all.skip(1) =~= all);
    }
}

/// A command and a formatter are seen as they are: the program, every argument, and where
/// the passphrase goes; the filesystem and whether it overwrites.
pub proof fn law_command_is_seen_whole(c: CommandLine, f: FsFormatter, i: int)
    ensures
        c@.program == c.program@,
        c@.passphrase_on_stdin == c.passphrase_on_stdin,
        c@.args.len() == c.args@.len(),
        0 <= i < c.args@.len() ==> c@.args[i] == c.args@[i]@,
        f@.fs_type == f.fs_type,
        f@.force == f.force,
        f@.args.len() == f.args@.len(),
        0 <= i < f.args@.len() ==> f@.args[i] == f.args@[i]@,
{
}

} // verus!
