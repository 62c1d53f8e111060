//! LUKS2 devices: commands, probes and the order of the set-up.

use guest_components::storage::command::{
    command_result, command_step_error, inheritable_fd_flags, run_command, run_command_steps,
    CommandError, CommandLine, CommandOutput, CommandStep, TempFileLoopDevice,
};
use guest_components::storage::header::luks_header_path;
use guest_components::storage::luks2::{
    cryptsetup_result, has_ext4_superblock, initialization_probe_is_zeroed, parse_grow,
    CryptsetupAction, CryptsetupError, FsType, Luks2Error, Luks2Formatter, SourceType, TargetType, AUTO_INITIALIZATION_PROBE_BYTES,
};
use guest_components::storage::mount::{
    Luks2Mount, Luks2MountOutcome, Luks2MountParameters, MountStep, Reply,
};

const NAME: &str = "test";

fn flat(command: &CommandLine) -> String {
    format!("{} {}", command.program, command.args.join(" "))
}

#[test]
fn auto_probe_accepts_only_a_complete_zeroed_region() {
    let mut zeroed = vec![0u8; AUTO_INITIALIZATION_PROBE_BYTES];
    assert!(matches!(initialization_probe_is_zeroed(Ok(&zeroed)), Ok(true)));

    zeroed[4096] = 1;
    assert!(matches!(initialization_probe_is_zeroed(Ok(&zeroed)), Ok(false)));

    let too_small = vec![0u8; 4096];
    assert!(initialization_probe_is_zeroed(Ok(&too_small)).is_err());
    assert!(matches!(
        initialization_probe_is_zeroed(Err("input/output error".to_string())),
        Err(Luks2Error::ProbeTooSmall { stopped_by: Some(reason) }) if reason == "input/output error"
    ));
}

#[test]
fn auto_source_resolves_zeroed_and_refuses_unknown_media() {
    let mut device = vec![0u8; AUTO_INITIALIZATION_PROBE_BYTES];
    let formatter = Luks2Formatter::default();
    let zeroed = matches!(initialization_probe_is_zeroed(Ok(&device)), Ok(true));
    assert!(matches!(
        formatter.resolve_auto_source(zeroed, false),
        Ok(SourceType::Empty)
    ));

    device[..13].copy_from_slice(b"unknown-media");
    let zeroed = matches!(initialization_probe_is_zeroed(Ok(&device)), Ok(true));
    assert!(formatter.resolve_auto_source(zeroed, false).is_err());
    assert!(matches!(
        formatter.resolve_auto_source(zeroed, true),
        Ok(SourceType::Encrypted)
    ));
}

#[test]
fn cryptsetup_errors_never_include_the_passphrase() {
    let canary = "codewire-secret-canary-never-log";
    let command = Luks2Formatter::default().open_device("/definitely/missing", None, "missing");
    assert_eq!(
        command.args,
        ["luksOpen", "-d", "-", "/definitely/missing", "missing"]
    );
    let output = missing_device(&command, canary.as_bytes());
    let result = run_command(&command.program, &command.args, &output);
    let err = match cryptsetup_result(CryptsetupAction::Open, result) {
        Err(err) => err,
        Ok(_) => panic!("a failed command succeeded"),
    };
    let told = err.chain().join(": ");
    assert!(!told.contains(canary));
    assert!(told.contains("does not exist"));
}

/// Stands for a `cryptsetup` that reads its input and does not find the device: it
/// tells its arguments, as anything else that runs on the machine can see them.
fn missing_device(command: &CommandLine, input: &[u8]) -> CommandOutput {
    assert!(command.passphrase_on_stdin && !input.is_empty());
    CommandOutput {
        success: false,
        stdout: command.args.join(" ").into_bytes(),
        stderr: b"Device /definitely/missing does not exist or access denied.".to_vec(),
    }
}

#[test]
fn cryptsetup_errors_keep_their_context() {
    for (action, texts) in [
        (
            CryptsetupAction::Format,
            ["cryptsetup luksFormat failed", "failed to run cryptsetup with stdin"],
        ),
        (
            CryptsetupAction::Open,
            ["cryptsetup luksOpen failed", "failed to run cryptsetup with stdin"],
        ),
        (
            CryptsetupAction::Close,
            ["cryptsetup luksClose failed", "failed to run cryptsetup"],
        ),
    ] {
        let not_found = command_step_error(CommandStep::Locate, "cryptsetup", "why".to_string());
        let chain = match cryptsetup_result(action, Err(not_found)) {
            Err(err) => err.chain(),
            Ok(()) => panic!("a failed command succeeded"),
        };
        assert_eq!(
            chain,
            [texts[0], texts[1], "command `cryptsetup` not found", "why"]
        );
    }
    let done = Ok(("out".to_string(), String::new()));
    assert!(cryptsetup_result(CryptsetupAction::Close, done).is_ok());
}

#[test]
fn volume_errors_keep_their_causes() {
    let mut mount = start(parameters(filesystem(None), None), SourceType::Encrypted);
    run(&mut mount, false, Some(MountStep::Open));
    assert_eq!(
        error(mount).chain("", ""),
        [
            "Failed to open LUKS2 device",
            "cryptsetup luksOpen failed",
            "failed to run cryptsetup with stdin",
            "cause"
        ]
    );
    let mut mount = start(parameters(filesystem(None), None), SourceType::Encrypted);
    run(&mut mount, false, Some(MountStep::Mount));
    assert_eq!(
        error(mount).chain("/dev/mapper/volume", "/mnt"),
        [
            "Failed to mount device /dev/mapper/volume to mount point /mnt",
            "cause"
        ]
    );
    let mut mount = start(parameters(filesystem(None), None), SourceType::Empty);
    run(&mut mount, false, Some(MountStep::PrepareHeader));
    assert_eq!(error(mount).chain("", ""), ["cause"]);
}

#[test]
fn encrypt_open_device_no_integrity() {
    let path = "/tmp/device.img";
    let luks2_formatter = Luks2Formatter { integrity: false };
    let command = luks2_formatter.encrypt_device(path, None);
    assert_eq!(
        flat(&command),
        "cryptsetup --batch-mode luksFormat --type luks2 --cipher aes-xts-plain64 \
         --sector-size 4096 /tmp/device.img -"
    );
    assert!(command.passphrase_on_stdin);

    let command = luks2_formatter.open_device(path, None, NAME);
    assert_eq!(flat(&command), "cryptsetup luksOpen -d - /tmp/device.img test");
    assert!(command.passphrase_on_stdin);
    assert_eq!(
        flat(&Luks2Formatter::default().close_device(NAME)),
        "cryptsetup luksClose test"
    );
}

#[test]
fn encrypt_open_device_integrity() {
    let path = "/tmp/device.img";
    let luks2_formatter = Luks2Formatter { integrity: true };
    assert_eq!(
        flat(&luks2_formatter.encrypt_device(path, None)),
        "cryptsetup --batch-mode luksFormat --type luks2 --cipher aes-xts-plain64 \
         --sector-size 4096 --integrity hmac-sha256 --integrity-no-wipe --integrity-no-journal \
         /tmp/device.img -"
    );
    assert_eq!(
        flat(&luks2_formatter.open_device(path, None, NAME)),
        "cryptsetup luksOpen -d - /tmp/device.img test"
    );
}

#[test]
fn encrypt_open_device_no_integrity_with_header() {
    let path = "/tmp/device.img";
    let header_path = luks_header_path(path);
    let luks2_formatter = Luks2Formatter { integrity: false };
    assert_eq!(
        flat(&luks2_formatter.encrypt_device(path, Some(&header_path))),
        format!(
            "cryptsetup --batch-mode luksFormat --type luks2 --cipher aes-xts-plain64 \
             --sector-size 4096 --header {header_path} /tmp/device.img -"
        )
    );
    assert_eq!(
        flat(&luks2_formatter.open_device(path, Some(&header_path), NAME)),
        format!("cryptsetup luksOpen --header {header_path} -d - /tmp/device.img test")
    );
}

#[test]
fn encrypt_open_device_integrity_with_header() {
    let path = "/tmp/device.img";
    let header_path = luks_header_path(path);
    let luks2_formatter = Luks2Formatter::default().with_integrity(true);
    assert_eq!(
        flat(&luks2_formatter.encrypt_device(path, Some(&header_path))),
        format!(
            "cryptsetup --batch-mode luksFormat --type luks2 --cipher aes-xts-plain64 \
             --sector-size 4096 --header {header_path} --integrity hmac-sha256 \
             --integrity-no-wipe --integrity-no-journal /tmp/device.img -"
        )
    );
    assert_eq!(
        flat(&luks2_formatter.open_device(path, Some(&header_path), NAME)),
        format!("cryptsetup luksOpen --header {header_path} -d - /tmp/device.img test")
    );
}

#[test]
fn create_encrypt_close_test() {
    let luks2_formatter = Luks2Formatter { integrity: false };
    let command = luks2_formatter.close_device("d7920c40-e7dc-48a4-aff7-6eab51c7d2d5");
    assert_eq!(
        flat(&command),
        "cryptsetup luksClose d7920c40-e7dc-48a4-aff7-6eab51c7d2d5"
    );
    assert!(!command.passphrase_on_stdin);
}

#[test]
fn header_paths_are_base64_of_the_device() {
    assert_eq!(
        luks_header_path("/dev/sda"),
        "/run/confidential-containers/cdh/luks-headers/L2Rldi9zZGE.header"
    );
    assert_eq!(
        luks_header_path(""),
        "/run/confidential-containers/cdh/luks-headers/.header"
    );
    assert_eq!(
        luks_header_path("\u{3ff}?>~"),
        "/run/confidential-containers/cdh/luks-headers/z78_Pn4.header"
    );
    assert_ne!(luks_header_path("/dev/sda"), luks_header_path("/dev/sdb"));
    for device in ["../../etc/passwd", "/dev/disk/by-id/\u{ff}\u{fe}", "???>>>"] {
        let path = luks_header_path(device);
        let name = path.strip_prefix("/run/confidential-containers/cdh/luks-headers/");
        assert!(name.is_some_and(|name| !name.contains('/')));
    }
}

#[test]
fn grow_is_true_or_false() {
    assert!(matches!(parse_grow(None), Ok(false)));
    assert!(matches!(parse_grow(Some("false")), Ok(false)));
    assert!(matches!(parse_grow(Some("true")), Ok(true)));
    for value in ["", "True", "yes", "true "] {
        assert!(matches!(parse_grow(Some(value)), Err(Luks2Error::InvalidGrow)));
    }
}

#[test]
fn superblock_magic_is_compared() {
    assert!(matches!(has_ext4_superblock(Ok(&[0x53, 0xef])), Ok(true)));
    assert!(matches!(has_ext4_superblock(Ok(&[0xef, 0x53])), Ok(false)));
    assert!(matches!(
        has_ext4_superblock(Ok(&[0x53])),
        Err(Luks2Error::ShortSuperblock { stopped_by: None })
    ));
    assert!(matches!(
        has_ext4_superblock(Err("x".to_string())),
        Err(Luks2Error::ShortSuperblock { stopped_by: Some(reason) }) if reason == "x"
    ));
}

fn filesystem(opts: Option<&str>) -> TargetType {
    TargetType::FileSystem {
        filesystem_type: FsType::default(),
        mkfs_opts: opts.map(|s| s.to_string()),
    }
}

fn parameters(target_type: TargetType, grow: Option<&str>) -> Luks2MountParameters {
    Luks2MountParameters {
        data_integrity: None,
        mapper_name: Some("volume".to_string()),
        grow: grow.map(|s| s.to_string()),
        target_type,
    }
}

fn start(parameters: Luks2MountParameters, source: SourceType) -> Luks2Mount {
    match parameters.do_mount("/dev/sda", "/mnt", source) {
        Ok(mount) => mount,
        Err(_) => panic!("the volume was refused"),
    }
}

fn zeroed() -> Reply {
    Reply::Bytes(vec![0u8; AUTO_INITIALIZATION_PROBE_BYTES])
}

/// The reply to a step that failed.
fn failed(step: MountStep) -> Reply {
    match step.action() {
        Some(action) => Reply::CryptsetupFailed {
            error: CryptsetupError {
                action,
                error: CommandError::Io {
                    cause: "cause".to_string(),
                },
            },
        },
        None => Reply::Failed {
            cause: "cause".to_string(),
        },
    }
}

/// Does every step with success until one of them is `stop`, which fails, and
/// returns the steps that were done.
fn run(mount: &mut Luks2Mount, is_luks2: bool, stop: Option<MountStep>) -> Vec<MountStep> {
    let mut done = vec![];
    while let Some(step) = mount.next_step() {
        done.push(step);
        let reply = if Some(step) == stop {
            failed(step)
        } else {
            match step {
                MountStep::ReadProbe => zeroed(),
                MountStep::ProbeLuks2 => Reply::Exit { success: is_luks2 },
                MountStep::CheckInitialized | MountStep::CheckEncrypted => {
                    Reply::Bytes(vec![0x53, 0xef])
                }
                _ => Reply::Done,
            }
        };
        mount.report(reply);
    }
    done
}

fn outcome(mount: Luks2Mount) -> Luks2MountOutcome {
    match mount.finish() {
        Some(Ok(outcome)) => outcome,
        _ => panic!("the volume was not set up"),
    }
}

fn error(mount: Luks2Mount) -> Luks2Error {
    match mount.finish() {
        Some(Err(error)) => error,
        _ => panic!("the volume was set up"),
    }
}

#[test]
fn encrypt_with_existing_header_file() {
    let mut mount = start(parameters(TargetType::Device, None), SourceType::Empty);
    let header_path = luks_header_path("/dev/sda");
    assert_eq!(mount.next_step(), Some(MountStep::PrepareHeader));
    assert_eq!(mount.header_path(), Some(header_path.clone()));
    mount.report(Reply::Done);
    assert_eq!(mount.next_step(), Some(MountStep::FormatDetached));
    let command = mount.command(MountStep::FormatDetached).unwrap();
    assert!(flat(&command).contains(&format!("--header {header_path}")));
    mount.report(Reply::Done);
    assert_eq!(mount.next_step(), Some(MountStep::Open));
}

#[test]
fn explicit_empty_device_is_formatted_with_a_detached_header() {
    let mut mount = start(
        parameters(filesystem(Some(" -O  ^has_journal\t-m 0 ")), Some("true")),
        SourceType::Empty,
    );
    let mkfs = mount.mkfs().unwrap();
    assert_eq!(mkfs.formatter.args, ["-O", "^has_journal", "-m", "0"]);
    assert!(mkfs.formatter.force && !mkfs.integrity_compatible);
    assert_eq!(mkfs.formatter.fs_type.name(), "ext4");
    let grow = mount.grow_formatter().unwrap();
    assert!(grow.force);
    assert_eq!(grow.args, ["-O", "^has_journal", "-m", "0"]);
    assert_eq!(mount.dev_path(), "/dev/mapper/volume");
    assert_eq!(mount.device_path(), "/dev/sda");
    assert_eq!(mount.mount_point(), "/mnt");
    assert_eq!(
        run(&mut mount, false, None),
        [
            MountStep::PrepareHeader,
            MountStep::FormatDetached,
            MountStep::Open,
            MountStep::MakeFilesystem,
            MountStep::Mount,
            MountStep::Grow,
        ]
    );
    let outcome = outcome(mount);
    assert_eq!(outcome.header_path, Some(luks_header_path("/dev/sda")));
    assert_eq!(outcome.mapper_name, "volume");
}

#[test]
fn encrypted_device_is_opened_and_mounted() {
    let mut mount = start(parameters(filesystem(None), None), SourceType::Encrypted);
    assert_eq!(
        flat(&mount.command(MountStep::Open).unwrap()),
        "cryptsetup luksOpen -d - /dev/sda volume"
    );
    assert!(mount.mkfs().unwrap().formatter.args.is_empty());
    let grow = mount.grow_formatter().unwrap();
    assert!(!grow.force && grow.args.is_empty());
    let call = mount.mount_call().unwrap();
    assert_eq!(call.source, "/dev/mapper/volume");
    assert_eq!(call.target, "/mnt");
    assert_eq!(call.fs_type.name(), "ext4");
    assert!(call.noatime && call.data.is_empty());
    assert_eq!(mount.filesystem(), Some(FsType::Ext4));
    assert_eq!(
        run(&mut mount, false, None),
        [MountStep::Open, MountStep::Mount]
    );
    assert_eq!(outcome(mount).header_path, None);

    let mut mount = start(
        parameters(TargetType::Device, Some("true")),
        SourceType::Encrypted,
    );
    assert!(mount.mkfs().is_none() && mount.mount_call().is_none());
    assert!(mount.grow_formatter().is_none());
    assert!(mount.filesystem().is_none());
    assert_eq!(
        run(&mut mount, false, None),
        [MountStep::Open, MountStep::Symlink]
    );
}

#[test]
fn auto_device_is_initialized_only_where_it_is_unused() {
    let mut mount = start(parameters(filesystem(None), None), SourceType::Auto);
    assert_eq!(
        run(&mut mount, false, None),
        [
            MountStep::ReadProbe,
            MountStep::ProbeLuks2,
            MountStep::FormatOnDevice,
            MountStep::Open,
            MountStep::MakeFilesystem,
            MountStep::CheckInitialized,
            MountStep::Mount,
        ]
    );
    assert!(!flat(&mount.command(MountStep::FormatOnDevice).unwrap()).contains("--header"));
    assert_eq!(outcome(mount).header_path, None);

    let mut mount = start(parameters(filesystem(None), Some("true")), SourceType::Auto);
    assert_eq!(
        run(&mut mount, true, None),
        [
            MountStep::ReadProbe,
            MountStep::ProbeLuks2,
            MountStep::Open,
            MountStep::CheckEncrypted,
            MountStep::Mount,
            MountStep::Grow,
        ]
    );

    let mut mount = start(parameters(filesystem(None), None), SourceType::Auto);
    let mut media = vec![0u8; AUTO_INITIALIZATION_PROBE_BYTES];
    media[AUTO_INITIALIZATION_PROBE_BYTES - 1] = 7;
    mount.report(Reply::Bytes(media));
    mount.report(Reply::Exit { success: false });
    assert_eq!(mount.next_step(), None);
    let refused = error(mount);
    assert!(matches!(refused, Luks2Error::AutoRefused));
    assert_eq!(
        refused.message("/dev/mapper/volume", "/mnt"),
        "auto source refused: device is not valid LUKS2 and its initialization probe region is not completely zeroed"
    );
}

#[test]
fn auto_device_is_refused_where_it_cannot_be_judged() {
    let mut mount = start(parameters(filesystem(None), None), SourceType::Auto);
    mount.report(Reply::Bytes(vec![0u8; 512]));
    assert_eq!(
        error(mount).chain("", ""),
        [
            "auto source device is smaller than the initialization probe region",
            "failed to fill whole buffer"
        ]
    );

    let mut mount = start(parameters(filesystem(None), None), SourceType::Auto);
    mount.report(Reply::ReadFailed {
        reason: "bad sector".to_string(),
    });
    assert_eq!(
        error(mount).chain("", ""),
        [
            "auto source device is smaller than the initialization probe region",
            "bad sector"
        ]
    );

    let mut mount = start(parameters(filesystem(None), None), SourceType::Auto);
    assert_eq!(
        run(&mut mount, false, Some(MountStep::ProbeLuks2)),
        [MountStep::ReadProbe, MountStep::ProbeLuks2]
    );
    assert_eq!(
        error(mount).message("", ""),
        "failed to probe LUKS2 device"
    );

    let mut mount = start(parameters(filesystem(None), None), SourceType::Auto);
    run(&mut mount, false, Some(MountStep::ReadProbe));
    assert_eq!(
        error(mount).message("", ""),
        "failed to open auto source device"
    );
}

#[test]
fn other_filesystems_are_not_mounted() {
    let mut mount = start(parameters(filesystem(None), None), SourceType::Auto);
    mount.report(zeroed());
    mount.report(Reply::Exit { success: true });
    mount.report(Reply::Done);
    assert_eq!(mount.next_step(), Some(MountStep::CheckEncrypted));
    mount.report(Reply::Done);
    assert_eq!(mount.next_step(), Some(MountStep::CheckEncrypted));
    mount.report(Reply::Bytes(vec![0, 0]));
    assert_eq!(mount.next_step(), Some(MountStep::Close));
    mount.report(Reply::Done);
    let refused = error(mount);
    assert!(matches!(refused, Luks2Error::EncryptedNotExt4));

    let mut mount = start(parameters(filesystem(None), None), SourceType::Auto);
    mount.report(zeroed());
    mount.report(Reply::Exit { success: false });
    mount.report(Reply::Done);
    mount.report(Reply::Done);
    mount.report(Reply::Done);
    assert_eq!(mount.next_step(), Some(MountStep::CheckInitialized));
    mount.report(Reply::Bytes(vec![1, 2]));
    mount.report(Reply::Failed {
        cause: "no answer".to_string(),
    });
    assert_eq!(mount.next_step(), Some(MountStep::Close));
    mount.report(failed(MountStep::Close));
    assert!(matches!(error(mount), Luks2Error::InitializedNotExt4));

    let mut mount = start(parameters(filesystem(None), None), SourceType::Auto);
    mount.report(zeroed());
    mount.report(Reply::Exit { success: true });
    mount.report(Reply::Done);
    mount.report(Reply::Bytes(vec![]));
    mount.report(Reply::Done);
    let short = error(mount);
    assert_eq!(
        short.chain("", ""),
        [
            "failed to read ext4 superblock",
            "failed to fill whole buffer"
        ]
    );

    let unreached = || Reply::Unreached {
        reason: "x".to_string(),
    };
    let mut mount = start(parameters(filesystem(None), None), SourceType::Auto);
    mount.report(unreached());
    assert_eq!(mount.next_step(), Some(MountStep::ReadProbe));
    mount.report(zeroed());
    mount.report(Reply::Exit { success: true });
    mount.report(Reply::Done);
    mount.report(unreached());
    mount.report(Reply::Done);
    assert_eq!(
        error(mount).chain("", ""),
        ["failed to seek to ext4 superblock", "x"]
    );
}

#[test]
fn failed_set_up_is_undone() {
    let mut mount = start(
        parameters(filesystem(None), Some("true")),
        SourceType::Encrypted,
    );
    assert_eq!(
        run(&mut mount, false, Some(MountStep::Grow)),
        [
            MountStep::Open,
            MountStep::Mount,
            MountStep::Grow,
            MountStep::Unmount,
            MountStep::Close,
        ]
    );
    assert_eq!(
        flat(&mount.command(MountStep::Close).unwrap()),
        "cryptsetup luksClose volume"
    );
    assert_eq!(
        error(mount).message("/dev/mapper/volume", "/mnt"),
        "Failed to grow mounted ext4 filesystem"
    );

    let mut mount = start(parameters(filesystem(None), None), SourceType::Encrypted);
    assert_eq!(
        run(&mut mount, false, Some(MountStep::Open)),
        [MountStep::Open]
    );
    assert_eq!(
        error(mount).message("", ""),
        "Failed to open LUKS2 device"
    );

    for (step, text) in [
        (
            MountStep::MakeFilesystem,
            "Failed to make filesystem Ext4 of device /dev/mapper/volume",
        ),
        (
            MountStep::Mount,
            "Failed to mount device /dev/mapper/volume to mount point /mnt",
        ),
    ] {
        let mut mount = start(parameters(filesystem(None), None), SourceType::Empty);
        let done = run(&mut mount, false, Some(step));
        assert_eq!(done.last(), Some(&MountStep::Close));
        assert_eq!(error(mount).message("/dev/mapper/volume", "/mnt"), text);
    }

    let mut mount = start(parameters(TargetType::Device, None), SourceType::Empty);
    assert_eq!(
        run(&mut mount, false, Some(MountStep::Symlink)),
        [
            MountStep::PrepareHeader,
            MountStep::FormatDetached,
            MountStep::Open,
            MountStep::Symlink,
            MountStep::Close,
        ]
    );
    assert_eq!(
        error(mount).message("/dev/mapper/volume", "/mnt"),
        "Failed to create symlink from /dev/mapper/volume to /mnt"
    );
}

#[test]
fn failed_preparation_is_told() {
    for (source, step, text) in [
        (SourceType::Empty, MountStep::PrepareHeader, "cause"),
        (
            SourceType::Empty,
            MountStep::FormatDetached,
            "Failed to encrypt LUKS2 device",
        ),
        (
            SourceType::Auto,
            MountStep::FormatOnDevice,
            "Failed to initialize LUKS2 device",
        ),
    ] {
        let mut mount = start(parameters(filesystem(None), None), source);
        let done = run(&mut mount, false, Some(step));
        assert_eq!(done.last(), Some(&step));
        assert_eq!(error(mount).message("", ""), text);
    }
    let mut mount = start(parameters(filesystem(None), None), SourceType::Auto);
    run(&mut mount, true, Some(MountStep::CheckEncrypted));
    assert_eq!(
        error(mount).message("", ""),
        "failed to open decrypted device"
    );
}

#[test]
fn impossible_requests_are_refused_at_once() {
    let refused = parameters(TargetType::Device, None).do_mount("/dev/sda", "/mnt", SourceType::Auto);
    match refused {
        Err(e) => assert_eq!(
            e.message("", ""),
            "sourceType=auto requires an ext4 filesystem target"
        ),
        Ok(_) => panic!("accepted"),
    }
    let refused =
        parameters(TargetType::Device, Some("maybe")).do_mount("/dev/sda", "/mnt", SourceType::Auto);
    match refused {
        Err(e) => assert_eq!(e.message("", ""), "grow must be `true` or `false`"),
        Ok(_) => panic!("accepted"),
    }
}

#[test]
fn unnamed_volume_gets_a_random_name() {
    let unnamed = || Luks2MountParameters {
        data_integrity: Some("true".to_string()),
        mapper_name: None,
        grow: None,
        target_type: filesystem(None),
    };
    let mut first = start(unnamed(), SourceType::Encrypted);
    assert!(first.mkfs().unwrap().integrity_compatible);
    run(&mut first, false, None);
    let mut second = start(unnamed(), SourceType::Encrypted);
    run(&mut second, false, None);
    let first = outcome(first).mapper_name;
    let second = outcome(second).mapper_name;
    assert_eq!(first.len(), 36);
    assert_eq!(first.as_bytes()[14], b'4');
    for at in [8, 13, 18, 23] {
        assert_eq!(first.as_bytes()[at], b'-');
    }
    assert_ne!(first, second);
    let named = match unnamed().do_mount_as("/d", "/m", SourceType::Encrypted, "given".to_string()) {
        Ok(mount) => mount,
        Err(_) => panic!("refused"),
    };
    assert_eq!(named.dev_path(), "/dev/mapper/given");
}

#[test]
fn command_output_is_read() {
    let args = vec!["-l".to_string(), "a\"b".to_string()];
    let output = CommandOutput {
        success: true,
        stdout: b"one\ntwo\n".to_vec(),
        stderr: vec![b'x', 0xff],
    };
    match run_command("ls", &args, &output) {
        Ok((stdout, stderr)) => {
            assert_eq!(stdout, "one\n\ttwo\n\t");
            assert_eq!(stderr, "x\u{fffd}");
        }
        Err(_) => panic!("a successful command failed"),
    }
    let output = CommandOutput {
        success: false,
        stdout: vec![],
        stderr: b"no\nway".to_vec(),
    };
    match run_command("ls", &args, &output) {
        Err(e) => assert_eq!(
            e.message(),
            "Failed to run command ls with args: [\n    \"-l\",\n    \"a\\\"b\",\n]\nstdout: \nstderr: no\n\tway"
        ),
        Ok(_) => panic!("a failed command succeeded"),
    }
    match command_result("c", "[]", false, "o", "e") {
        Err(CommandError::Failed { message }) => assert_eq!(
            message,
            "Failed to run command c with args: []\nstdout: o\nstderr: e"
        ),
        _ => panic!("another result"),
    }
}

#[test]
fn commands_are_run_step_by_step() {
    let mut steps = run_command_steps(true, true);
    let mut done = vec![];
    while let Some(step) = steps.next() {
        done.push(step);
        steps.record(true);
    }
    assert_eq!(
        done,
        [
            CommandStep::Locate,
            CommandStep::InheritFile,
            CommandStep::Spawn,
            CommandStep::TakeStdin,
            CommandStep::WriteInputs,
            CommandStep::Wait,
        ]
    );
    let mut steps = run_command_steps(false, false);
    assert_eq!(steps.next(), Some(CommandStep::Locate));
    steps.record(true);
    assert_eq!(steps.next(), Some(CommandStep::Spawn));
    steps.record(false);
    assert_eq!(steps.next(), None);
    assert!(!steps.is_complete());
    assert_eq!(steps.done_steps(), [CommandStep::Locate]);

    let text = |step| command_step_error(step, "cmd", "why".to_string()).message();
    assert_eq!(text(CommandStep::Locate), "command `cmd` not found");
    assert_eq!(
        command_step_error(CommandStep::Locate, "cmd", "why".to_string()).chain(),
        ["command `cmd` not found", "why"]
    );
    assert_eq!(
        command_step_error(CommandStep::Wait, "cmd", "why".to_string()).chain(),
        ["why"]
    );
    assert_eq!(
        text(CommandStep::TakeStdin),
        "Failed to get stdin from the command thus failed to write inputs to the command"
    );
    assert_eq!(text(CommandStep::Spawn), "why");
}

#[test]
fn inherited_files_stay_open() {
    assert_eq!(inheritable_fd_flags(-1), None);
    assert_eq!(inheritable_fd_flags(1), Some(0));
    assert_eq!(inheritable_fd_flags(0), Some(0));
    assert_eq!(inheritable_fd_flags(7), Some(6));
}

#[test]
fn loop_device_path_is_taken_from_the_output() {
    let device = TempFileLoopDevice::new(" \t/dev/loop7\n\t");
    assert_eq!(device.dev_path(), "/dev/loop7");
    assert_eq!(device.detach_args(), ["-d", "/dev/loop7"]);
    assert_eq!(
        TempFileLoopDevice::attach_args("/tmp/x"),
        ["--find", "--show", "/tmp/x"]
    );
}
