use zloader::umount::{
    check, filter_mounts_kernelsu, filter_mounts_magisk, find_loop_device, place,
    select_kernelsu, umount_module_files, Mount, Placed, RootImpl,
};

fn mount(point: &str, source: Option<&str>, fs_type: &str, root: &str) -> Mount {
    Mount {
        root: root.to_string(),
        mount_point: point.to_string(),
        fs_type: fs_type.to_string(),
        mount_source: source.map(|s| s.to_string()),
    }
}

#[test]
fn kernelsu_scrub_detaches_in_reverse_order() {
    let mounts = vec![
        mount("/data/adb/modules", Some("/dev/loop7"), "ext4", "/"),
        mount("/data/adb/foo", Some("KSU"), "overlay", "/"),
        mount("/data/other", Some("KSU"), "tmpfs", "/"),
    ];
    assert_eq!(
        filter_mounts_kernelsu(&mounts),
        vec![
            "/data/adb/modules".to_string(),
            "/data/adb/foo".to_string(),
            "/data/other".to_string()
        ]
    );
    assert_eq!(
        umount_module_files(&mounts, RootImpl::KernelSU),
        vec![
            "/data/other".to_string(),
            "/data/adb/foo".to_string(),
            "/data/adb/modules".to_string()
        ]
    );
}

#[test]
fn kernelsu_adds_what_the_loop_device_backs() {
    let mounts = vec![
        mount("/system/app/Foo", Some("/dev/loop7"), "ext4", "/"),
        mount("/data/adb/modules", Some("/dev/loop7"), "ext4", "/"),
        mount("/system/etc/hosts", Some("/dev/loop7"), "ext4", "/"),
        mount("/vendor", Some("/dev/block/dm-3"), "ext4", "/"),
    ];
    assert_eq!(
        filter_mounts_kernelsu(&mounts),
        vec![
            "/system/app/Foo".to_string(),
            "/data/adb/modules".to_string(),
            "/system/etc/hosts".to_string()
        ]
    );
    assert_eq!(
        umount_module_files(&mounts, RootImpl::KernelSU),
        vec![
            "/system/etc/hosts".to_string(),
            "/data/adb/modules".to_string(),
            "/system/app/Foo".to_string()
        ]
    );
}

#[test]
fn kernelsu_without_loop_device_skips_derived_mounts() {
    let mounts = vec![
        mount("/system/app/Foo", None, "ext4", "/"),
        mount("/data/adb/ksu", Some("tmpfs"), "tmpfs", "/"),
        mount("/proc", None, "proc", "/"),
    ];
    assert_eq!(filter_mounts_kernelsu(&mounts), vec!["/data/adb/ksu".to_string()]);
}

#[test]
fn kernelsu_takes_the_last_loop_device() {
    let mounts = vec![
        mount("/data/adb/modules", Some("/dev/loop1"), "ext4", "/"),
        mount("/data/adb/modules", Some("/dev/loop2"), "ext4", "/"),
        mount("/a", Some("/dev/loop1"), "ext4", "/"),
        mount("/b", Some("/dev/loop2"), "ext4", "/"),
    ];
    assert_eq!(
        filter_mounts_kernelsu(&mounts),
        vec!["/data/adb/modules".to_string(), "/data/adb/modules".to_string(), "/b".to_string()]
    );
}

#[test]
fn kernelsu_module_directory_without_source_counts_as_data() {
    let mounts = vec![mount("/data/adb/modules", None, "ext4", "/")];
    assert_eq!(filter_mounts_kernelsu(&mounts), vec!["/data/adb/modules".to_string()]);
}

#[test]
fn kernelsu_selects_a_mount_once_when_several_rules_apply() {
    let mounts = vec![
        mount("/data/adb/modules", Some("/dev/loop7"), "ext4", "/"),
        mount("/data/adb/modules/foo", Some("/dev/loop7"), "ext4", "/"),
    ];
    assert_eq!(
        filter_mounts_kernelsu(&mounts),
        vec!["/data/adb/modules".to_string(), "/data/adb/modules/foo".to_string()]
    );
}

#[test]
fn kernelsu_compares_whole_path_components() {
    let mounts = vec![
        mount("/data/adbfoo", Some("x"), "ext4", "/"),
        mount("/data/adb", Some("x"), "ext4", "/"),
        mount("/data/adb/modules/", Some("/dev/loop9"), "ext4", "/"),
        mount("/mnt/x", Some("/dev/loop9"), "ext4", "/"),
    ];
    assert_eq!(
        filter_mounts_kernelsu(&mounts),
        vec!["/data/adb".to_string(), "/data/adb/modules/".to_string(), "/mnt/x".to_string()]
    );
}

#[test]
fn kernelsu_needs_overlay_or_tmpfs_for_its_own_source() {
    let mounts = vec![
        mount("/system/bin", Some("KSU"), "overlay", "/"),
        mount("/system/lib", Some("KSU"), "tmpfs", "/"),
        mount("/system/etc", Some("KSU"), "ext4", "/"),
        mount("/system/xyz", Some("ksu"), "overlay", "/"),
    ];
    assert_eq!(
        filter_mounts_kernelsu(&mounts),
        vec!["/system/bin".to_string(), "/system/lib".to_string()]
    );
}

#[test]
fn magisk_selects_by_source_and_root() {
    let mounts = vec![
        mount("/system/bin/su", Some("magisk"), "tmpfs", "/"),
        mount("/sbin", Some("worker"), "tmpfs", "/"),
        mount("/system/app/X", Some("/dev/block/dm-1"), "ext4", "/adb/modules/x/system/app/X"),
        mount("/vendor", Some("/dev/block/dm-3"), "ext4", "/"),
        mount("/data", Some("magiskx"), "ext4", "/data/adb/modules"),
        mount("/proc", None, "proc", "/"),
    ];
    assert_eq!(
        filter_mounts_magisk(&mounts),
        vec!["/system/bin/su".to_string(), "/sbin".to_string(), "/system/app/X".to_string()]
    );
    assert_eq!(
        umount_module_files(&mounts, RootImpl::Magisk),
        vec!["/system/app/X".to_string(), "/sbin".to_string(), "/system/bin/su".to_string()]
    );
}

#[test]
fn empty_table_detaches_nothing() {
    let mounts: Vec<Mount> = Vec::new();
    assert!(umount_module_files(&mounts, RootImpl::Magisk).is_empty());
    assert!(umount_module_files(&mounts, RootImpl::KernelSU).is_empty());
}

#[test]
fn root_solution_follows_the_environment() {
    assert_eq!(RootImpl::current(true), RootImpl::KernelSU);
    assert_eq!(RootImpl::current(false), RootImpl::Magisk);
}

#[test]
fn denylist_names_the_users_to_scrub_for() {
    let denylist = vec![10123u32, 10200];
    assert!(check(&denylist, 10123));
    assert!(check(&denylist, 10200));
    assert!(!check(&denylist, 10124));
    assert!(!check(&Vec::new(), 10123));
}

#[test]
fn mount_points_are_placed_by_whole_components() {
    let placed = place(&mount("/data/adb/modules/", Some("x"), "ext4", "/"));
    assert!(placed.is_module_dir && placed.under_data_adb);
    assert_eq!(placed.mount.mount_point, "/data/adb/modules/");
    assert_eq!(placed.mount.mount_source.as_deref(), Some("x"));
    let placed = place(&mount("/data/adb/modules/foo", None, "ext4", "/r"));
    assert!(!placed.is_module_dir && placed.under_data_adb);
    assert_eq!((placed.mount.fs_type.as_str(), placed.mount.root.as_str()), ("ext4", "/r"));
    let placed = place(&mount("/data/adbx", None, "ext4", "/"));
    assert!(!placed.is_module_dir && !placed.under_data_adb);
    let placed = place(&mount("/data", None, "ext4", "/"));
    assert!(!placed.is_module_dir && !placed.under_data_adb);
}

#[test]
fn placed_lines_are_selected_by_their_marks() {
    let line = |point: &str, source: Option<&str>, module: bool, under: bool| Placed {
        mount: mount(point, source, "ext4", "/"),
        is_module_dir: module,
        under_data_adb: under,
    };
    let table = vec![
        line("/one", Some("/dev/loop3"), false, false),
        line("/two", Some("/dev/loop3"), true, true),
        line("/three", None, false, true),
        line("/four", None, true, false),
        line("/five", Some("/dev/loop4"), false, false),
    ];
    assert_eq!(find_loop_device(&table), Some("/dev/loop3".to_string()));
    assert_eq!(
        select_kernelsu(&table),
        vec!["/one".to_string(), "/two".to_string(), "/three".to_string()]
    );
}

#[test]
fn loop_device_is_the_source_of_the_module_directory() {
    let line = |point: &str, source: Option<&str>| place(&mount(point, source, "ext4", "/"));
    assert_eq!(find_loop_device(&Vec::new()), None);
    assert_eq!(find_loop_device(&vec![line("/data/adb/modules", None)]), None);
    assert_eq!(find_loop_device(&vec![line("/data/adb/modulesx", Some("/dev/loop1"))]), None);
    assert_eq!(
        find_loop_device(&vec![
            line("/data/adb/modules", Some("/dev/loop1")),
            line("/data/adb/modules", None),
            line("/x", Some("/dev/loop5")),
        ]),
        Some("/dev/loop1".to_string())
    );
}
