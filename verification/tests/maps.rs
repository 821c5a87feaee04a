use zloader::maps::{Indexed, MapEntry, MapName, ProcessMaps};

fn sample() -> String {
    [
        "5591a000-5591b000 r--p 00000000 fd:00 1234 /system/bin/app_process64",
        "70000000-70010000 r-xp 00001000 fd:00 2000 /apex/com.android.runtime/lib64/bionic/libc.so",
        "70010000-70020000 rw-p 00011000 fd:00 2000 /apex/com.android.runtime/lib64/bionic/libc.so",
        "6f000000-6f001000 r--p 00000000 fd:00 2000 /apex/com.android.runtime/lib64/bionic/libc.so",
        "71000000-71001000 r-xp 00000000 fd:00 2001 /apex/com.android.runtime/lib64/bionic/libdl.so",
        "72000000-72001000 r-xp 00000000 00:00 0 [uprobes]",
        "7ffd0000-7ffe0000 rw-p 00000000 00:00 0 [stack]",
        "7ffe0000-7ffe1000 r-xp 00000000 00:00 0 [vdso]",
        "this line is no mapping",
        "80000000-80001000 rw-p 00000000 00:00 0 ",
        "",
    ]
    .join("\n")
}

#[test]
fn lines_that_cannot_be_read_are_left_out() {
    let maps = ProcessMaps::parse(&sample());
    assert_eq!(maps.len(), 9);
    assert_eq!(ProcessMaps::parse("").len(), 0);
    assert_eq!(ProcessMaps::parse("nothing\nhere\n").len(), 0);
}

#[test]
fn module_is_found_by_file_name_at_its_lowest_mapping() {
    let maps = ProcessMaps::parse(&sample());
    assert_eq!(
        maps.find_module("libc.so"),
        Some(("/apex/com.android.runtime/lib64/bionic/libc.so".to_string(), 0x6f00_0000))
    );
    assert_eq!(
        maps.find_module("libdl.so"),
        Some(("/apex/com.android.runtime/lib64/bionic/libdl.so".to_string(), 0x7100_0000))
    );
    assert_eq!(maps.find_module("libm.so"), None);
    assert_eq!(maps.find_module("bionic"), None);
    assert_eq!(maps.find_module("[stack]"), None);
}

#[test]
fn first_of_two_equally_low_mappings_wins() {
    let maps = ProcessMaps::new(vec![
        MapEntry { begin: 0x2000, end: 0x3000, name: MapName::Path("/b/libx.so".to_string()) },
        MapEntry { begin: 0x1000, end: 0x2000, name: MapName::Path("/a/libx.so".to_string()) },
        MapEntry { begin: 0x1000, end: 0x2000, name: MapName::Path("/c/libx.so".to_string()) },
    ]);
    assert_eq!(maps.find_module("libx.so"), Some(("/a/libx.so".to_string(), 0x1000)));
}

#[test]
fn file_name_is_the_last_component_of_the_path() {
    let maps = ProcessMaps::new(vec![
        MapEntry { begin: 0x1000, end: 0x2000, name: MapName::Path("/a/dir/".to_string()) },
        MapEntry { begin: 0x3000, end: 0x4000, name: MapName::Path("/a/..".to_string()) },
        MapEntry { begin: 0x5000, end: 0x6000, name: MapName::Pseudo("lib.so".to_string()) },
    ]);
    assert_eq!(maps.find_module("dir"), Some(("/a/dir/".to_string(), 0x1000)));
    assert_eq!(maps.find_module(".."), None);
    assert_eq!(maps.find_module("lib.so"), None);
}

#[test]
fn probe_page_is_found() {
    assert_eq!(ProcessMaps::parse(&sample()).uprobes_range(), Some((0x7200_0000, 0x7200_1000)));
    assert_eq!(ProcessMaps::empty().uprobes_range(), None);
    let maps = ProcessMaps::new(vec![
        MapEntry { begin: 0x9000, end: 0xa000, name: MapName::Pseudo("[uprobes]".to_string()) },
        MapEntry { begin: 0x1000, end: 0x2000, name: MapName::Pseudo("[uprobes]".to_string()) },
        MapEntry { begin: 0x500, end: 0x600, name: MapName::Path("[uprobes]".to_string()) },
        MapEntry { begin: 0x100, end: 0x200, name: MapName::Other },
    ]);
    assert_eq!(maps.uprobes_range(), Some((0x1000, 0x2000)));
}

#[test]
fn mapping_is_looked_up_under_the_name_given_with_it() {
    let entry = |begin: u64, path: &str, name: Option<&str>| Indexed {
        entry: MapEntry { begin, end: begin + 0x1000, name: MapName::Path(path.to_string()) },
        file_name: name.map(|n| n.to_string()),
    };
    let maps = ProcessMaps::from_indexed(vec![
        entry(0x3000, "/a/libx.so", Some("libx.so")),
        entry(0x2000, "/b/liby.so", Some("libx.so")),
        entry(0x1000, "/c/libx.so", None),
        Indexed {
            entry: MapEntry { begin: 0x100, end: 0x200, name: MapName::Other },
            file_name: Some("libx.so".to_string()),
        },
    ]);
    assert_eq!(maps.len(), 4);
    assert_eq!(maps.find_module("libx.so"), Some(("/b/liby.so".to_string(), 0x2000)));
    assert_eq!(maps.find_module("liby.so"), None);
}

#[test]
fn address_is_told_by_its_place_in_its_mapping() {
    let maps = ProcessMaps::parse(&sample());
    assert_eq!(maps.fault_offset(0x7000_0123), Some(0x123));
    assert_eq!(maps.fault_offset(0x7001_0000), Some(0));
    assert_eq!(maps.fault_offset(0x6f00_0fff), Some(0xfff));
    assert_eq!(maps.fault_offset(0x6f00_1000), None);
    assert_eq!(maps.fault_offset(0), None);
    assert_eq!(ProcessMaps::empty().fault_offset(5), None);
    let overlapping = ProcessMaps::new(vec![
        MapEntry { begin: 0x1000, end: 0x3000, name: MapName::Other },
        MapEntry { begin: 0x2000, end: 0x4000, name: MapName::Other },
    ]);
    assert_eq!(overlapping.fault_offset(0x2800), Some(0x1800));
    assert_eq!(overlapping.fault_offset(0x3800), Some(0x1800));
}
