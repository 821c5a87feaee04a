use std::io::BufReader;

use zloader::error::Error;
use zloader::symbols::{
    find_symbol, lookup, probe_offset, resolve, resolve_for_uprobe, unpack, Lookup, ObjectKind,
    Pattern, SectionEntry, SymbolEntry,
};

const ET_REL: u16 = 1;
const ET_DYN: u16 = 3;
const SHT_PROGBITS: u32 = 1;
const SHT_SYMTAB: u32 = 2;
const SHT_STRTAB: u32 = 3;
const SHT_NOBITS: u32 = 8;
const SHT_DYNSYM: u32 = 11;

struct Section {
    name: &'static str,
    kind: u32,
    addr: u64,
    data: Vec<u8>,
    size: u64,
    link: u32,
    entsize: u64,
}

fn code(name: &'static str, addr: u64, len: usize) -> Section {
    Section { name, kind: SHT_PROGBITS, addr, data: vec![0x90; len], size: len as u64, link: 0, entsize: 0 }
}

fn nobits(name: &'static str, addr: u64, len: u64) -> Section {
    Section { name, kind: SHT_NOBITS, addr, data: Vec::new(), size: len, link: 0, entsize: 0 }
}

fn blob(name: &'static str, data: Vec<u8>) -> Section {
    let size = data.len() as u64;
    Section { name, kind: SHT_PROGBITS, addr: 0, data, size, link: 0, entsize: 0 }
}

/// A symbol table and its strings. `link` is the index that the section of
/// the strings will have.
fn table(
    kind: u32,
    names: (&'static str, &'static str),
    link: u32,
    symbols: &[(&str, u64, u16)],
) -> [Section; 2] {
    let mut strings = vec![0u8];
    let mut entries = vec![0u8; 24];
    for (name, value, section) in symbols {
        entries.extend_from_slice(&(strings.len() as u32).to_le_bytes());
        entries.push(0x12);
        entries.push(0);
        entries.extend_from_slice(&section.to_le_bytes());
        entries.extend_from_slice(&value.to_le_bytes());
        entries.extend_from_slice(&0u64.to_le_bytes());
        strings.extend_from_slice(name.as_bytes());
        strings.push(0);
    }
    let size = entries.len() as u64;
    let strings_size = strings.len() as u64;
    [
        Section { name: names.0, kind, addr: 0, data: entries, size, link, entsize: 24 },
        Section {
            name: names.1,
            kind: SHT_STRTAB,
            addr: 0,
            data: strings,
            size: strings_size,
            link: 0,
            entsize: 0,
        },
    ]
}

/// A 64-bit little-endian ELF file with the given sections, which get the
/// indices 1, 2, ... in their order. Hands back the file and the offset of
/// each section in it.
fn elf(kind: u16, mut sections: Vec<Section>) -> (Vec<u8>, Vec<u64>) {
    let mut names = vec![0u8];
    let mut name_offsets = Vec::new();
    for section in &sections {
        name_offsets.push(names.len() as u32);
        names.extend_from_slice(section.name.as_bytes());
        names.push(0);
    }
    name_offsets.push(names.len() as u32);
    names.extend_from_slice(b".shstrtab\0");
    let size = names.len() as u64;
    sections.push(Section {
        name: ".shstrtab",
        kind: SHT_STRTAB,
        addr: 0,
        data: names,
        size,
        link: 0,
        entsize: 0,
    });

    let mut file = vec![0u8; 64];
    let mut offsets = Vec::new();
    for section in &sections {
        while file.len() % 8 != 0 {
            file.push(0);
        }
        offsets.push(file.len() as u64);
        file.extend_from_slice(&section.data);
    }
    while file.len() % 8 != 0 {
        file.push(0);
    }
    let headers = file.len() as u64;
    file.extend_from_slice(&[0u8; 64]);
    for (index, section) in sections.iter().enumerate() {
        file.extend_from_slice(&name_offsets[index].to_le_bytes());
        file.extend_from_slice(&section.kind.to_le_bytes());
        file.extend_from_slice(&0u64.to_le_bytes());
        file.extend_from_slice(&section.addr.to_le_bytes());
        file.extend_from_slice(&offsets[index].to_le_bytes());
        file.extend_from_slice(&section.size.to_le_bytes());
        file.extend_from_slice(&section.link.to_le_bytes());
        file.extend_from_slice(&(if section.entsize == 24 { 1u32 } else { 0u32 }).to_le_bytes());
        file.extend_from_slice(&8u64.to_le_bytes());
        file.extend_from_slice(&section.entsize.to_le_bytes());
    }

    let mut header = Vec::new();
    header.extend_from_slice(&[0x7f, b'E', b'L', b'F', 2, 1, 1, 0, 0, 0, 0, 0, 0, 0, 0, 0]);
    header.extend_from_slice(&kind.to_le_bytes());
    header.extend_from_slice(&62u16.to_le_bytes());
    header.extend_from_slice(&1u32.to_le_bytes());
    header.extend_from_slice(&0u64.to_le_bytes());
    header.extend_from_slice(&0u64.to_le_bytes());
    header.extend_from_slice(&headers.to_le_bytes());
    header.extend_from_slice(&0u32.to_le_bytes());
    header.extend_from_slice(&64u16.to_le_bytes());
    header.extend_from_slice(&56u16.to_le_bytes());
    header.extend_from_slice(&0u16.to_le_bytes());
    header.extend_from_slice(&64u16.to_le_bytes());
    header.extend_from_slice(&(sections.len() as u16 + 1).to_le_bytes());
    header.extend_from_slice(&(sections.len() as u16).to_le_bytes());
    assert_eq!(header.len(), 64);
    file[..64].copy_from_slice(&header);
    (file, offsets)
}

fn packed(data: &[u8]) -> Vec<u8> {
    let mut out = Vec::new();
    lzma_rs::xz_compress(&mut BufReader::new(data), &mut out).unwrap();
    out
}

const SPECIALIZE: &str = "_ZN12_GLOBAL__N_116SpecializeCommonEP7_JNIEnvjj";

/// A library with code at 0x1000 and `SpecializeCommon` at 0x1234 in its
/// static table.
fn whole() -> (Vec<u8>, Vec<u64>) {
    let [symtab, strtab] = table(
        SHT_SYMTAB,
        (".symtab", ".strtab"),
        3,
        &[("helper", 0x1100, 1), (SPECIALIZE, 0x1234, 1), ("_ZN12_GLOBAL__N_1later", 0x1300, 1)],
    );
    elf(ET_DYN, vec![code(".text", 0x1000, 0x400), symtab, strtab])
}

#[test]
fn symbol_is_resolved_to_its_place_in_the_file() {
    let (library, offsets) = whole();
    let resolved = resolve_for_uprobe(&library, "_ZN12_GLOBAL__N_116SpecializeCommon");
    assert_eq!(offsets[0], 64);
    match resolved {
        Ok((name, offset)) => {
            assert_eq!(name, SPECIALIZE);
            assert_eq!(offset, 0x1234 - 0x1000 + 64);
        }
        Err(error) => panic!("{:?}", error),
    }
}

#[test]
fn first_symbol_with_the_prefix_wins() {
    let (library, _) = whole();
    let resolved = resolve_for_uprobe(&library, "_ZN12_GLOBAL__N_1").unwrap();
    assert_eq!(resolved, (SPECIALIZE.to_string(), 0x234 + 64));
    let resolved = resolve_for_uprobe(&library, "").unwrap();
    assert_eq!(resolved, ("helper".to_string(), 0x100 + 64));
}

#[test]
fn dynamic_symbols_come_first() {
    let [dynsym, dynstr] = table(SHT_DYNSYM, (".dynsym", ".dynstr"), 3, &[("munmap_dyn", 0x1010, 1)]);
    let [symtab, strtab] = table(
        SHT_SYMTAB,
        (".symtab", ".strtab"),
        5,
        &[("munmap_static", 0x1020, 1), ("munmap_dyn", 0x1030, 1)],
    );
    let (library, _) =
        elf(ET_DYN, vec![code(".text", 0x1000, 0x100), dynsym, dynstr, symtab, strtab]);
    assert_eq!(
        resolve_for_uprobe(&library, "munmap").unwrap(),
        ("munmap_dyn".to_string(), 0x10 + 64)
    );
    assert!(matches!(resolve(&library, "munmap_dyn"), Ok(0x1010)));
    assert!(matches!(resolve(&library, "munmap_static"), Ok(0x1020)));
    assert!(matches!(resolve(&library, "munmap"), Err(Error::SymbolNotFound)));
}

#[test]
fn missing_symbol_and_unreadable_file_are_not_found() {
    let (library, _) = whole();
    assert!(matches!(resolve_for_uprobe(&library, "absent"), Err(Error::SymbolNotFound)));
    assert!(matches!(resolve(&library, "absent"), Err(Error::SymbolNotFound)));
    assert!(matches!(resolve_for_uprobe(b"no object file", ""), Err(Error::SymbolNotFound)));
    assert!(matches!(resolve(b"", "helper"), Err(Error::SymbolNotFound)));
}

#[test]
fn relocatable_object_reports_the_address_itself() {
    let [symtab, strtab] = table(SHT_SYMTAB, (".symtab", ".strtab"), 3, &[("helper", 0x44, 1)]);
    let (object, _) = elf(ET_REL, vec![code(".text", 0, 0x100), symtab, strtab]);
    assert_eq!(resolve_for_uprobe(&object, "help").unwrap(), ("helper".to_string(), 0x44));
}

#[test]
fn symbol_in_a_section_without_room_in_the_file_fails() {
    let [symtab, strtab] = table(SHT_SYMTAB, (".symtab", ".strtab"), 3, &[("counter", 0x2010, 1)]);
    let (library, _) = elf(ET_DYN, vec![nobits(".bss", 0x2000, 0x100), symtab, strtab]);
    assert!(matches!(resolve_for_uprobe(&library, "counter"), Err(Error::SymbolNotFound)));
    assert!(matches!(lookup(&library, Pattern::Prefix("counter"), None), Lookup::Failed));
    assert!(matches!(resolve(&library, "counter"), Ok(0x2010)));
}

#[test]
fn symbol_without_section_fails() {
    let [symtab, strtab] = table(SHT_SYMTAB, (".symtab", ".strtab"), 3, &[("absolute", 0x10, 0)]);
    let (library, _) = elf(ET_DYN, vec![code(".text", 0x1000, 0x100), symtab, strtab]);
    assert!(matches!(resolve_for_uprobe(&library, "absolute"), Err(Error::SymbolNotFound)));
}

/// The library of `whole` without its static table, with the table in a
/// companion object packed into the debug data.
fn stripped() -> (Vec<u8>, Vec<u64>) {
    let [symtab, strtab] = table(
        SHT_SYMTAB,
        (".symtab", ".strtab"),
        4,
        &[("helper", 0x1100, 2), (SPECIALIZE, 0x1234, 2), ("_ZN12_GLOBAL__N_1later", 0x1300, 2)],
    );
    let (companion, _) = elf(
        ET_DYN,
        vec![nobits(".note", 0x200, 0x20), nobits(".text", 0x1000, 0x400), symtab, strtab],
    );
    elf(ET_DYN, vec![code(".text", 0x1000, 0x400), blob(".gnu_debugdata", packed(&companion))])
}

#[test]
fn mirrored_symbol_resolves_like_the_direct_one() {
    let (whole, _) = whole();
    let (stripped, offsets) = stripped();
    assert_eq!(offsets[0], 64);
    let direct = resolve_for_uprobe(&whole, "_ZN12_GLOBAL__N_116SpecializeCommon").unwrap();
    let mirrored = resolve_for_uprobe(&stripped, "_ZN12_GLOBAL__N_116SpecializeCommon").unwrap();
    assert_eq!(direct, mirrored);
    assert_eq!(mirrored, (SPECIALIZE.to_string(), 0x234 + 64));
    assert!(matches!(lookup(&stripped, Pattern::Prefix("helper"), None), Lookup::Missing));
    assert!(matches!(resolve(&stripped, "helper"), Err(Error::SymbolNotFound)));
}

#[test]
fn mirrored_symbol_is_placed_by_the_section_of_the_library() {
    let [symtab, strtab] = table(SHT_SYMTAB, (".symtab", ".strtab"), 3, &[("hidden", 0x5010, 1)]);
    let (companion, _) = elf(ET_DYN, vec![code(".text", 0x5000, 0x40), symtab, strtab]);
    // The library keeps its code elsewhere than the companion says.
    let (library, offsets) = elf(
        ET_DYN,
        vec![
            blob(".gnu_debugdata", packed(&companion)),
            code(".init", 0x3000, 0x10),
            code(".text", 0x4000, 0x40),
        ],
    );
    assert_eq!(
        resolve_for_uprobe(&library, "hidden").unwrap(),
        ("hidden".to_string(), 0x5010u64.wrapping_sub(0x4000).wrapping_add(offsets[2]))
    );
}

#[test]
fn mirrored_symbol_without_its_section_in_the_library_fails() {
    let [symtab, strtab] = table(SHT_SYMTAB, (".symtab", ".strtab"), 3, &[("hidden", 0x5010, 1)]);
    let (companion, _) = elf(ET_DYN, vec![code(".extra", 0x5000, 0x40), symtab, strtab]);
    let (library, _) = elf(
        ET_DYN,
        vec![code(".text", 0x4000, 0x40), blob(".gnu_debugdata", packed(&companion))],
    );
    assert!(matches!(resolve_for_uprobe(&library, "hidden"), Err(Error::SymbolNotFound)));
}

#[test]
fn debug_data_that_cannot_be_unpacked_fails() {
    let (library, _) = elf(
        ET_DYN,
        vec![code(".text", 0x4000, 0x40), blob(".gnu_debugdata", b"not an xz stream".to_vec())],
    );
    assert!(matches!(resolve_for_uprobe(&library, "hidden"), Err(Error::SymbolNotFound)));
    let (library, _) = elf(
        ET_DYN,
        vec![code(".text", 0x4000, 0x40), blob(".gnu_debugdata", packed(b"no object file"))],
    );
    assert!(matches!(resolve_for_uprobe(&library, "hidden"), Err(Error::SymbolNotFound)));
}

fn symbol(name: Option<&str>, address: u64, section: Option<usize>) -> SymbolEntry {
    SymbolEntry { name: name.map(|n| n.to_string()), address, section }
}

#[test]
fn symbols_are_searched_in_table_order() {
    let dynamic = vec![symbol(None, 1, None), symbol(Some("alpha"), 2, Some(1))];
    let symbols = vec![symbol(Some("alphabet"), 3, Some(1)), symbol(Some("beta"), 4, None)];
    let found = find_symbol(&dynamic, &symbols, Pattern::Prefix("alpha")).unwrap();
    assert_eq!(found.address, 2);
    let found = find_symbol(&dynamic, &symbols, Pattern::Prefix("alphab")).unwrap();
    assert_eq!(found.address, 3);
    let found = find_symbol(&dynamic, &symbols, Pattern::Exact("beta")).unwrap();
    assert_eq!(found.address, 4);
    assert!(find_symbol(&dynamic, &symbols, Pattern::Exact("alph")).is_none());
    assert!(find_symbol(&dynamic, &symbols, Pattern::Prefix("gamma")).is_none());
    assert!(find_symbol(&Vec::new(), &Vec::new(), Pattern::Prefix("")).is_none());
    assert!(Pattern::Prefix("").matches(&symbols[0]));
    assert!(!Pattern::Prefix("").matches(&dynamic[0]));
}

#[test]
fn offset_is_the_distance_from_the_section_added_to_its_place() {
    let text = SectionEntry {
        name: Some(".text".to_string()),
        address: 0x1000,
        file_range: Some((0x400, 0x2000)),
    };
    let found = symbol(Some("f"), 0x1234, Some(1));
    assert_eq!(probe_offset(ObjectKind::Dynamic, &found, Some(&text)), Some(0x634));
    assert_eq!(probe_offset(ObjectKind::Executable, &found, Some(&text)), Some(0x634));
    assert_eq!(probe_offset(ObjectKind::Other, &found, Some(&text)), Some(0x1234));
    assert_eq!(probe_offset(ObjectKind::Other, &found, None), Some(0x1234));
    assert_eq!(probe_offset(ObjectKind::Dynamic, &found, None), None);
    let bss = SectionEntry { name: Some(".bss".to_string()), address: 0x1000, file_range: None };
    assert_eq!(probe_offset(ObjectKind::Dynamic, &found, Some(&bss)), None);
    let unnamed = SectionEntry { name: None, address: 0x1000, file_range: Some((0x400, 0x2000)) };
    assert_eq!(probe_offset(ObjectKind::Dynamic, &found, Some(&unnamed)), None);
    let below = symbol(Some("g"), 0x10, Some(1));
    assert_eq!(
        probe_offset(ObjectKind::Dynamic, &below, Some(&text)),
        Some(0x10u64.wrapping_sub(0x1000).wrapping_add(0x400))
    );
}

/// The header of a stream and an index without records.
fn stream_without_blocks() -> Vec<u8> {
    let mut stream = vec![0xFD, 0x37, 0x7A, 0x58, 0x5A, 0x00, 0x00, 0x04, 0xE6, 0xD6, 0xB4, 0x46];
    stream.extend_from_slice(&[0x00, 0x00, 0x00, 0x00, 0x1C, 0xDF, 0x44, 0x21]);
    stream
}

#[test]
fn stream_is_unpacked_to_what_was_packed() {
    assert_eq!(unpack(&packed(b"some bytes")), Some(b"some bytes".to_vec()));
    let mut empty = stream_without_blocks();
    empty.extend_from_slice(&[0x1F, 0xB6, 0xF3, 0x7D, 0x01, 0x00, 0x00, 0x00, 0x00, 0x04, 0x59, 0x5A]);
    assert_eq!(unpack(&empty), Some(Vec::new()));
    assert_eq!(unpack(b"not an xz stream"), None);
    assert_eq!(unpack(&[]), None);
}

fn holds_ones_word(bytes: &[u8]) -> bool {
    bytes.windows(4).any(|word| word == [0xFF; 4])
}

#[test]
fn stream_whose_footer_holds_a_size_of_all_ones_is_refused() {
    let mut stream = stream_without_blocks();
    stream.extend_from_slice(&[0x00, 0x00, 0x00, 0x00, 0xFF, 0xFF, 0xFF, 0xFF, 0x00, 0x04, 0x59, 0x5A]);
    assert_eq!(unpack(&stream), None);
    let (library, _) = elf(
        ET_DYN,
        vec![code(".text", 0x4000, 0x40), blob(".gnu_debugdata", stream)],
    );
    assert!(matches!(resolve_for_uprobe(&library, "hidden"), Err(Error::SymbolNotFound)));
}

#[test]
fn stream_whose_footer_is_all_ones_is_refused() {
    let mut stream = stream_without_blocks();
    stream.extend_from_slice(&[0xFF; 12]);
    assert_eq!(unpack(&stream), None);
    let mut stream = stream_without_blocks();
    stream.extend_from_slice(&[0xFF; 7]);
    assert_eq!(unpack(&stream), None);
}

#[test]
fn stream_that_holds_words_of_ones_elsewhere_is_unpacked() {
    let plain = vec![0xFFu8; 40];
    let stream = packed(&plain);
    assert!(holds_ones_word(&stream));
    assert_eq!(unpack(&stream), Some(plain));

    let mut plain = b"before".to_vec();
    plain.extend_from_slice(&[0xFF; 5]);
    plain.extend_from_slice(b"behind");
    let stream = packed(&plain);
    assert!(holds_ones_word(&stream));
    assert_eq!(unpack(&stream), Some(plain));
}

#[test]
fn stream_with_words_of_ones_that_is_damaged_is_not_unpacked() {
    let mut stream = packed(&[0xFFu8; 40]);
    let last = stream.len() - 1;
    stream[last] ^= 1;
    assert_eq!(unpack(&stream), None);
    let mut stream = packed(&[0xFFu8; 40]);
    stream.truncate(last - 4);
    assert_eq!(unpack(&stream), None);
}

#[test]
fn mirrored_symbol_is_found_in_debug_data_that_holds_words_of_ones() {
    let [symtab, strtab] = table(SHT_SYMTAB, (".symtab", ".strtab"), 4, &[("hidden", 0x5010, 2)]);
    let (companion, _) = elf(
        ET_DYN,
        vec![blob(".filler", vec![0xFF; 32]), nobits(".text", 0x5000, 0x40), symtab, strtab],
    );
    let stream = packed(&companion);
    assert!(holds_ones_word(&stream));
    let (library, offsets) = elf(
        ET_DYN,
        vec![code(".text", 0x5000, 0x40), blob(".gnu_debugdata", stream)],
    );
    assert_eq!(
        resolve_for_uprobe(&library, "hidden").unwrap(),
        ("hidden".to_string(), 0x10 + offsets[0])
    );
}
