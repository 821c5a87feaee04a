use zloader::adb::{run, DeployError, Device, Invocation};
use zloader::args::{target_path, Args, BuildConfigs, Device as Kind};
use zloader::compat::{
    hook_for, ApiAbi, AppSpecializeArgs, DaemonSocketAction, Hook, ModuleAbi, ModulesHeader,
    ServerSpecializeArgs, Shown, ZygiskModule,
};
use zloader::error::{Error, Transient};
use zloader::ext::Also;
use zloader::filter::{check_process, Change, Scope, ScopeInfo, ScopeMonitor};
use zloader::kinds::{to_unsigned, SizeKind, SizedKind, SliceKind, UnsizedKind};
use zloader::lazy::{LateInit, Lazy};
use zloader::remote::Arg;
use zloader::text::{bytes_eq, bytes_start_with, decode, str_eq, str_starts_with};
use zloader::zygote::Field;

fn words(call: &Invocation) -> Vec<&str> {
    call.args.iter().map(|s| s.as_str()).collect()
}

#[test]
fn emulator_takes_root_through_xbin() {
    let device = Device::from_serial("emulator-5554", "/system/xbin/su\n");
    assert_eq!(device.serial, "emulator-5554");
    assert_eq!(device.sudo_command("id"), "su 0 sh -c id");
    let device = Device::from_serial("R58M", "/system/bin/su\n");
    assert_eq!(device.sudo_command("id"), "su -c id");
    let device = Device::from_serial("R58M", "");
    assert_eq!(device.sudo_command("id"), "su -c id");
}

#[test]
fn initialize_settles_root_again() {
    let mut device = Device::from_serial("R58M", "");
    device.initialize("/system/xbin/su");
    assert_eq!(device.sudo_command("id"), "su 0 sh -c id");
    assert_eq!(device.serial, "R58M");
}

#[test]
fn calls_name_the_device() {
    let device = Device::from_serial("R58M", "");
    assert_eq!(
        device.prepend_serial(vec!["shell".to_string(), "ls".to_string()]),
        vec!["-s", "R58M", "shell", "ls"]
    );
    assert_eq!(device.prepend_serial(Vec::new()), vec!["-s", "R58M"]);
    let call = device.push("target/zloader", "/data/local/tmp/zloader");
    assert_eq!(words(&call), vec!["-s", "R58M", "push", "target/zloader", "/data/local/tmp/zloader"]);
    assert!(call.piped);
    let call = device.shell("which su");
    assert_eq!(words(&call), vec!["-s", "R58M", "shell", "which su"]);
    assert!(!call.piped);
    let call = device.shell_piped("logcat");
    assert_eq!(words(&call), vec!["-s", "R58M", "shell", "logcat"]);
    assert!(call.piped);
}

#[test]
fn command_for_root_is_quoted_as_one_word() {
    let device = Device::from_serial("R58M", "");
    let script = device.sudo_command("killall zloader");
    assert!(script.starts_with("su -c "));
    assert_ne!(script, "su -c killall zloader");
    assert!(script.contains("killall zloader"));
    let call = device.sudo("killall zloader");
    assert_eq!(words(&call), vec!["-s", "R58M", "shell", script.as_str()]);
    assert!(!call.piped);
    let call = device.sudo_piped("killall zloader");
    assert_eq!(words(&call), vec!["-s", "R58M", "shell", script.as_str()]);
    assert!(call.piped);
    assert_eq!(device.sudo_command(""), "su -c ''");
}

#[test]
fn build_follows_the_kind_of_device() {
    assert_eq!(Kind::Avd.target(), "x86_64-linux-android");
    assert_eq!(Kind::Physical.target(), "aarch64-linux-android");
    assert_eq!(Kind::from_name("avd"), Some(Kind::Avd));
    assert_eq!(Kind::from_name("phys"), Some(Kind::Physical));
    assert_eq!(Kind::from_name("Avd"), None);
    assert_eq!(Kind::from_name(""), None);
    let configs = BuildConfigs::from(&Args { device: Kind::Physical, release: true, run: false });
    assert_eq!(configs.target, "aarch64-linux-android");
    assert!(configs.release);
    assert_eq!(configs.profile(), "release");
    assert_eq!(
        target_path(&configs, "zloader"),
        vec!["target", "aarch64-linux-android", "release", "zloader"]
    );
    let configs = BuildConfigs::from(&Args { device: Kind::Avd, release: false, run: true });
    assert_eq!(configs.profile(), "debug");
    assert_eq!(
        target_path(&configs, "zloader"),
        vec!["target", "x86_64-linux-android", "debug", "zloader"]
    );
}

#[test]
fn cell_is_filled_once() {
    let mut cell: LateInit<String> = LateInit::new();
    assert!(!cell.initialized());
    assert_eq!(cell.get(), None);
    assert_eq!(cell.init("first".to_string()), Ok(()));
    assert!(cell.initialized());
    assert_eq!(cell.init("second".to_string()), Err("second".to_string()));
    assert_eq!(cell.get().map(|s| s.as_str()), Some("first"));
}

#[test]
fn lazy_cell_is_filled_on_first_use() {
    let calls = std::cell::Cell::new(0);
    let mut cell = Lazy::new(|| {
        calls.set(calls.get() + 1);
        41 + calls.get()
    });
    assert_eq!(calls.get(), 0);
    assert_eq!(*cell.force(), 42);
    assert_eq!(*cell.force(), 42);
    assert_eq!(calls.get(), 1);
}

#[test]
fn values_become_arguments_by_their_kind() {
    assert!(matches!(UnsizedKind::into_arg(7u32), Arg::Numeric(7)));
    assert!(matches!(UnsizedKind::into_arg(u64::MAX), Arg::Numeric(u64::MAX)));
    assert!(matches!(SizedKind::into_arg(-1i32), Arg::Numeric(u64::MAX)));
    assert!(matches!(SizedKind::into_arg(i64::MIN), Arg::Numeric(0x8000_0000_0000_0000)));
    assert!(matches!(SizedKind::into_arg(5i8), Arg::Numeric(5)));
    assert!(matches!(SizeKind::into_arg(9usize), Arg::Numeric(9)));
    assert!(matches!(SizeKind::into_arg(3u8), Arg::Numeric(3)));
    let bytes: &[u8] = b"abc";
    assert!(matches!(SliceKind::into_arg(bytes), Arg::Slice(data) if data == b"abc"));
    assert_eq!(to_unsigned(-2), u64::MAX - 1);
    assert_eq!(to_unsigned(i64::MAX), i64::MAX as u64);
}

#[test]
fn step_in_passing_hands_the_value_on() {
    let mut value = vec![1, 2];
    value.also(|v| v.push(3)).also(|v| v.push(4)).push(5);
    assert_eq!(value, vec![1, 2, 3, 4, 5]);
    let mut count = 7u32;
    let after = count.also(|n| *n += 1);
    assert_eq!(*after, 8);
    assert_eq!(count, 8);
}

#[test]
fn socket_action_is_one_byte() {
    assert_eq!(DaemonSocketAction::ReadModules.into(), 0);
    assert_eq!(DaemonSocketAction::from(0), Some(DaemonSocketAction::ReadModules));
    assert_eq!(DaemonSocketAction::from(1), None);
    assert_eq!(DaemonSocketAction::from(255), None);
}

#[test]
fn module_is_taken_by_version_and_addresses() {
    let module = ModuleAbi { version: 4, imp: 0x1000, pras: 0x11, poas: 0x31, prss: 0x51, poss: 0x71 };
    assert!(module.is_valid());
    assert!(!ModuleAbi { version: 0, ..module }.is_valid());
    assert!(!ModuleAbi { version: 5, ..module }.is_valid());
    assert!(ModuleAbi { version: 1, ..module }.is_valid());
    assert!(!ModuleAbi { imp: 0, ..module }.is_valid());
    assert!(!ModuleAbi { poss: 0, ..module }.is_valid());
    assert!(!ModuleAbi { pras: 0x10, poas: 0x20, ..module }.is_valid());
}

#[test]
fn modules_are_shown_arguments_by_version() {
    let old = AppSpecializeArgs::new(2).shown;
    assert_eq!(old.len(), 15);
    assert_eq!(old[0], Shown::Argument(Field::Uid));
    assert_eq!(old[4], Shown::Argument(Field::MountExternal));
    assert_eq!(old[8], Shown::Argument(Field::ManagedAppDataDir));
    assert_eq!(old[9], Shown::Argument(Field::IsChildZygote));
    assert_eq!(old[14], Shown::Argument(Field::MountStorageDirs));
    assert_eq!(AppSpecializeArgs::new(1).shown, old);
    let new = AppSpecializeArgs::new(3).shown;
    assert_eq!(new.len(), 17);
    assert_eq!(new[4], Shown::Argument(Field::Rlimits));
    assert_eq!(new[5], Shown::Argument(Field::MountExternal));
    assert_eq!(new[10], Shown::Nothing);
    assert_eq!(new[11], Shown::Argument(Field::IsChildZygote));
    assert_eq!(new[16], Shown::Argument(Field::MountStorageDirs));
    assert_eq!(AppSpecializeArgs::new(4).shown, new);
    assert_eq!(
        ServerSpecializeArgs::new(4).shown,
        vec![
            Shown::Argument(Field::Uid),
            Shown::Argument(Field::Gid),
            Shown::Argument(Field::Gids),
            Shown::Argument(Field::RuntimeFlags),
            Shown::Argument(Field::PermittedCapabilities),
            Shown::Argument(Field::EffectiveCapabilities),
        ]
    );
}

#[test]
fn filter_wants_the_system_the_manager_and_the_scope() {
    let mut scope = Scope::new();
    assert!(scope.insert(ScopeInfo { pkg: "com.example.app".to_string(), user: 0 }));
    assert!(scope.insert(ScopeInfo { pkg: "com.example.work".to_string(), user: 10 }));
    assert!(check_process(1000, None, &scope));
    assert!(check_process(1000, Some("anything"), &scope));
    assert!(!check_process(10123, None, &scope));
    assert!(check_process(2000, Some("com.android.shell"), &scope));
    assert!(check_process(10001, Some("org.lsposed.manager"), &scope));
    assert!(check_process(10123, Some("com.example.app"), &scope));
    assert!(!check_process(1_010_123, Some("com.example.app"), &scope));
    assert!(check_process(1_010_123, Some("com.example.work"), &scope));
    assert!(!check_process(10123, Some("com.example.work"), &scope));
    assert!(!check_process(10123, Some("com.example.other"), &scope));
    assert!(!check_process(10123, Some("com.example.app"), &Scope::new()));
}

#[test]
fn scope_holds_each_application_once() {
    let mut scope = Scope::new();
    assert_eq!(scope.len(), 0);
    assert!(!scope.contains(0, "com.example.app"));
    assert!(scope.insert(ScopeInfo { pkg: "com.example.app".to_string(), user: 0 }));
    assert!(!scope.insert(ScopeInfo { pkg: "com.example.app".to_string(), user: 0 }));
    assert!(scope.insert(ScopeInfo { pkg: "com.example.app".to_string(), user: 10 }));
    assert!(scope.insert(ScopeInfo { pkg: "com.example.ap".to_string(), user: 0 }));
    assert_eq!(scope.len(), 3);
    assert!(scope.contains(0, "com.example.app"));
    assert!(scope.contains(10, "com.example.app"));
    assert!(scope.contains(0, "com.example.ap"));
    assert!(!scope.contains(10, "com.example.ap"));
    assert!(!scope.contains(1, "com.example.app"));
}

#[test]
fn changes_close_together_lead_to_one_reading() {
    let mut monitor = ScopeMonitor::new();
    assert_eq!(monitor.setup(false), Change::Settle);
    assert_eq!(monitor.setup(false), Change::Ignore);
    assert_eq!(monitor.setup(false), Change::Ignore);
    assert_eq!(monitor.setup(true), Change::Reload);
    assert_eq!(monitor.setup(false), Change::Settle);
    assert_eq!(monitor.setup(true), Change::Reload);
    assert_eq!(monitor.setup(true), Change::Reload);
}

#[test]
fn texts_are_compared_by_their_bytes() {
    assert!(bytes_eq(b"abc", b"abc"));
    assert!(!bytes_eq(b"abc", b"abd"));
    assert!(!bytes_eq(b"abc", b"ab"));
    assert!(bytes_eq(b"", b""));
    assert!(bytes_start_with(b"abc", b"ab"));
    assert!(bytes_start_with(b"abc", b""));
    assert!(!bytes_start_with(b"ab", b"abc"));
    assert!(!bytes_start_with(b"abc", b"b"));
    assert!(str_eq("zygote", "zygote"));
    assert!(!str_eq("zygote", "Zygote"));
    assert!(str_starts_with("/adb/modules/x", "/adb/modules"));
    assert!(!str_starts_with("/data/adb/modules", "/adb/modules"));
}

#[test]
fn bytes_are_read_as_text_only_when_they_are_text() {
    assert_eq!(decode(b"plain"), Some("plain".to_string()));
    assert_eq!(decode("\u{4f60}\u{597d}".as_bytes()), Some("\u{4f60}\u{597d}".to_string()));
    assert_eq!(decode(b""), Some(String::new()));
    assert_eq!(decode(&[0xff]), None);
    assert_eq!(decode(&[0xe4, 0xbd]), None);
}

#[test]
fn only_three_errors_stop_the_daemon() {
    assert!(Error::TracerLoadFailed.fatal());
    assert!(Error::TracepointAttachFailed.fatal());
    assert!(Error::BootloopExceeded.fatal());
    let survived = [
        Error::SymbolNotFound,
        Error::RemotePtraceFailed,
        Error::RemoteCallFailed { expected_return: 1, observed_pc: 2 },
        Error::RemoteDlopenFailed { message: "no".to_string() },
        Error::BridgeExportMissing,
        Error::FilterLibraryLoadFailed,
        Error::MountNamespaceJoinFailed,
        Error::ChannelDecodeFailed,
        Error::InvalidText,
        Error::UnsupportedSdk,
        Error::Transient(Transient::NoSuchProcess),
        Error::Transient(Transient::Interrupted),
    ];
    for error in survived {
        assert!(!error.fatal(), "{:?}", error);
        assert_eq!(format!("{:?}", error.duplicate()), format!("{:?}", error));
    }
}

#[test]
fn loader_goes_to_the_only_device() {
    assert_eq!(run(&Vec::new()), Err(DeployError::NoDevice));
    assert_eq!(run(&vec!["a".to_string()]), Ok("a".to_string()));
    assert_eq!(run(&vec!["a".to_string(), "b".to_string()]), Err(DeployError::ManyDevices));
}

#[test]
fn deployment_copies_prepares_stops_and_starts() {
    let device = Device::from_serial("R58M", "/system/xbin/su");
    let calls = device.deploy("target/zloader");
    assert_eq!(calls.len(), 4);
    assert_eq!(
        words(&calls[0]),
        vec!["-s", "R58M", "push", "target/zloader", "/data/local/tmp/zloader"]
    );
    assert_eq!(words(&calls[1]), vec!["-s", "R58M", "shell", "chmod +x /data/local/tmp/zloader"]);
    assert_eq!(words(&calls[2])[..3], ["-s", "R58M", "shell"]);
    assert_eq!(words(&calls[2])[3], device.sudo_command("killall zloader"));
    assert_eq!(
        words(&calls[3])[3],
        device.sudo_command("RUST_LOG=debug /data/local/tmp/zloader")
    );
    let piped: Vec<bool> = calls.iter().map(|call| call.piped).collect();
    assert_eq!(piped, vec![true, false, false, true]);
}

#[test]
fn module_is_registered_only_when_it_is_taken() {
    let module = ModuleAbi { version: 2, imp: 1, pras: 1, poas: 1, prss: 1, poss: 1 };
    let mut api = ApiAbi::new();
    assert_eq!(api.module_abi, None);
    assert!(!api.register(None));
    assert!(!api.register(Some(ModuleAbi { version: 9, ..module })));
    assert_eq!(api.module_abi, None);
    assert!(api.register(Some(module)));
    assert_eq!(api.module_abi, Some(module));
    assert!(!api.register(Some(ModuleAbi { imp: 0, ..module })));
    assert_eq!(api.module_abi, Some(module));
}

#[test]
fn hook_follows_the_kind_of_child_and_the_moment() {
    assert_eq!(hook_for(false, false), Hook::PreAppSpecialize);
    assert_eq!(hook_for(false, true), Hook::PostAppSpecialize);
    assert_eq!(hook_for(true, false), Hook::PreServerSpecialize);
    assert_eq!(hook_for(true, true), Hook::PostServerSpecialize);
}

#[test]
fn header_of_the_modules_is_two_numbers() {
    let header = ModulesHeader { fds_len: 3, buffer_len: 0x0102_0304_0506_0708 };
    assert_eq!(
        header.encode(),
        vec![3, 0, 0, 0, 0, 0, 0, 0, 8, 7, 6, 5, 4, 3, 2, 1]
    );
    assert_eq!(ModulesHeader::decode(&header.encode()), Some(header));
    assert_eq!(ModulesHeader::decode(&[0; 15]), None);
    assert_eq!(ModulesHeader::decode(&[0; 17]), None);
    assert_eq!(
        ModulesHeader::decode(&[0xff; 16]),
        Some(ModulesHeader { fds_len: u64::MAX, buffer_len: u64::MAX })
    );
}

#[test]
fn module_is_shown_arguments_once_it_has_registered() {
    let mut module = ZygiskModule::new("LSPosed");
    assert_eq!(module.id(), "LSPosed");
    assert!(module.args_app().is_none());
    assert!(module.args_server().is_none());
    let abi = ModuleAbi { version: 3, imp: 1, pras: 1, poas: 1, prss: 1, poss: 1 };
    assert!(!module.entry(Some(ModuleAbi { version: 7, ..abi })));
    assert!(module.args_app().is_none());
    assert!(module.entry(Some(abi)));
    assert_eq!(module.args_app().unwrap().shown.len(), 17);
    assert_eq!(module.args_server().unwrap().shown.len(), 6);
    assert!(module.entry(Some(ModuleAbi { version: 1, ..abi })));
    assert_eq!(module.args_app().unwrap().shown.len(), 15);
    assert_eq!(module.id(), "LSPosed");
}
