//! Symbols of a library: how many arguments a function takes, judged by its
//! demangled name, and where a symbol lies in the library's file.

use crate::error::Error;
use crate::text::{str_eq, str_starts_with};
use object::{Object, ObjectSection, ObjectSymbol};
use vstd::prelude::*;
use vstd::string::StringSliceAdditionalSpecFns;
use vstd::utf8::encode_utf8;

verus! {

/// `(`
pub const OPEN: u8 = 0x28;

/// `)`
pub const CLOSE: u8 = 0x29;

/// `,`
pub const COMMA: u8 = 0x2c;

/// A blank.
pub const BLANK: u8 = 0x20;

/// How many parentheses are open in front of position `i` of `text`. A
/// closing parenthesis that closes nothing is passed over.
pub open spec fn depth(text: Seq<u8>, i: int) -> nat
    decreases i,
{
    if i <= 0 {
        0
    } else {
        let before = depth(text, i - 1);
        if text[i - 1] == OPEN {
            before + 1
        } else if text[i - 1] == CLOSE && before > 0 {
            (before - 1) as nat
        } else {
            before
        }
    }
}

/// The last parenthesis in front of position `i` that opens while no other is
/// open: that of the outermost parameter list.
pub open spec fn last_open(text: Seq<u8>, i: int) -> Option<int>
    decreases i,
{
    if i <= 0 {
        None
    } else if text[i - 1] == OPEN && depth(text, i - 1) == 0 {
        Some(i - 1)
    } else {
        last_open(text, i - 1)
    }
}

/// The byte at position `j` separates two parameters of the outermost list.
pub open spec fn separates(text: Seq<u8>, j: int) -> bool {
    text[j] == COMMA && depth(text, j) == 1
}

/// The byte at position `j` belongs to what a parameter list holds: it lies
/// inside the list, is no blank, and is not the parenthesis that closes the
/// list.
pub open spec fn is_content(text: Seq<u8>, j: int) -> bool {
    &&& depth(text, j) >= 1
    &&& text[j] != BLANK
    &&& !(text[j] == CLOSE && depth(text, j) == 1)
}

/// Number of separators at the positions `from..to`.
pub open spec fn separators(text: Seq<u8>, from: int, to: int) -> nat
    decreases to - from,
{
    if to <= from {
        0
    } else {
        separators(text, from, to - 1) + if separates(text, to - 1) {
            1nat
        } else {
            0nat
        }
    }
}

/// Whether the positions `from..to` hold any content.
pub open spec fn has_content(text: Seq<u8>, from: int, to: int) -> bool
    decreases to - from,
{
    if to <= from {
        false
    } else {
        has_content(text, from, to - 1) || is_content(text, to - 1)
    }
}

/// Number of parameters that a demangled name shows: the separators of its
/// outermost parameter list and one more, or none where the list is empty or
/// the name has no list.
pub open spec fn arity(text: Seq<u8>) -> nat {
    match last_open(text, text.len() as int) {
        Some(open) => if has_content(text, open + 1, text.len() as int) {
            separators(text, open + 1, text.len() as int) + 1
        } else {
            0
        },
        None => 0,
    }
}

/// What `cpp_demangle` prints for a mangled name, with its default options:
/// `None` for a text that it does not take for a mangled name.
pub uninterp spec fn demangled(symbol: Seq<char>) -> Option<Seq<char>>;

/// `cpp_demangle::Symbol::new` followed by `Symbol::demangle`. The text that
/// the crate prints for the symbol; `None` where it refuses the symbol or
/// fails to print it.
#[verifier::external_body]
fn demangle(symbol: &str) -> (text: Option<String>)
    ensures
        match text {
            Some(t) => demangled(symbol@) == Some(t@),
            None => demangled(symbol@) is None,
        },
{
    cpp_demangle::Symbol::new(symbol).ok().and_then(|parsed| parsed.demangle().ok())
}

/// Counts the parameters of a function while its demangled name is written
/// into it piece by piece.
pub struct ArgCounter {
    depth: usize,
    count: usize,
    open: bool,
    content: bool,
    seen: Ghost<Seq<u8>>,
}

impl ArgCounter {
    /// The text written so far.
    pub closed spec fn text(&self) -> Seq<u8> {
        self.seen@
    }

    /// The counts agree with the text written so far.
    pub closed spec fn wf(&self) -> bool {
        let text = self.seen@;
        let n = text.len() as int;
        &&& n <= usize::MAX
        &&& self.depth == depth(text, n)
        &&& self.open == (last_open(text, n) is Some)
        &&& match last_open(text, n) {
            Some(open) => {
                &&& self.count == separators(text, open + 1, n)
                &&& self.content == has_content(text, open + 1, n)
            },
            None => self.count == 0 && !self.content,
        }
    }

    /// A counter into which nothing has been written.
    pub fn new() -> (counter: Self)
        ensures
            counter.wf(),
            counter.text() == Seq::<u8>::empty(),
    {
        Self { depth: 0, count: 0, open: false, content: false, seen: Ghost(Seq::empty()) }
    }

    /// Writes a piece of the name. All that is written must stay below the
    /// size that the machine can count.
    pub fn write_string(&mut self, s: &str)
        requires
            old(self).wf(),
            old(self).text().len() + s.spec_bytes().len() <= usize::MAX,
        ensures
            final(self).wf(),
            final(self).text() == old(self).text() + s.spec_bytes(),
    {
        let bytes = s.as_bytes();
        let ghost start = self.seen@;
        let mut i: usize = 0;
        assert(start + bytes@.take(0) =~= start);
        while i < bytes.len()
            invariant
                i <= bytes@.len(),
                start.len() + bytes@.len() <= usize::MAX,
                self.wf(),
                self.seen@ == start + bytes@.take(i as int),
            decreases bytes@.len() - i,
        {
            let byte: u8 = bytes[i];
            let ghost before = self.seen@;
            let ghost after = before.push(byte);
            let ghost n = before.len() as int;
            proof {
                assert(after[n] == byte);
                assert(after =~= start + bytes@.take(i + 1));
                lemma_prefix_keeps(before, byte, n);
                lemma_depth_bounded(before, n);
                lemma_deep_means_open(before, n);
                lemma_last_open_bounded(before, n);
                if last_open(before, n) is Some {
                    let open = last_open(before, n)->0;
                    lemma_range_keeps(before, byte, open + 1, n);
                    lemma_separators_bounded(before, open + 1, n);
                }
            }
            if byte == OPEN {
                if self.depth == 0 {
                    self.open = true;
                    self.count = 0;
                    self.content = false;
                } else {
                    self.content = true;
                }
                self.depth = self.depth + 1;
            } else if byte == CLOSE {
                if self.depth > 1 {
                    self.content = true;
                }
                if self.depth > 0 {
                    self.depth = self.depth - 1;
                }
            } else if byte == COMMA {
                if self.depth == 1 {
                    self.count = self.count + 1;
                }
                if self.depth >= 1 {
                    self.content = true;
                }
            } else if byte != BLANK {
                if self.depth >= 1 {
                    self.content = true;
                }
            }
            self.seen = Ghost(after);
            i += 1;
        }
        assert(bytes@.take(bytes@.len() as int) == bytes@);
    }

    /// Number of parameters that the name written so far shows.
    pub fn args(&self) -> (n: usize)
        requires
            self.wf(),
        ensures
            n == arity(self.text()),
    {
        if self.open && self.content {
            proof {
                let text = self.seen@;
                lemma_last_open_bounded(text, text.len() as int);
                lemma_separators_bounded(
                    text,
                    last_open(text, text.len() as int)->0 + 1,
                    text.len() as int,
                );
            }
            self.count + 1
        } else {
            0
        }
    }
}

/// The text in which the parameters of a symbol are counted: what the
/// demangler prints for it, or the symbol itself where the demangler does
/// not take it for a mangled name.
pub open spec fn shown(symbol: Seq<char>) -> Seq<char> {
    match demangled(symbol) {
        Some(text) => text,
        None => symbol,
    }
}

/// Number of parameters that a demangled name shows.
pub fn count_args(text: &str) -> (n: usize)
    ensures
        n == arity(text.spec_bytes()),
{
    let mut counter = ArgCounter::new();
    let size: usize = text.as_bytes().len();
    assert(text.spec_bytes().len() == size);
    counter.write_string(text);
    assert(Seq::<u8>::empty() + text.spec_bytes() =~= text.spec_bytes());
    counter.args()
}

impl ArgCounter {
    /// Number of parameters of the function that a symbol names. A mangled
    /// name is demangled first; any other text is read as it stands.
    pub fn count(symbol: &str) -> (n: usize)
        ensures
            n == arity(encode_utf8(shown(symbol@))),
    {
        match demangle(symbol) {
            Some(text) => count_args(text.as_str()),
            None => count_args(symbol),
        }
    }
}

proof fn lemma_depth_bounded(text: Seq<u8>, i: int)
    requires
        0 <= i,
    ensures
        depth(text, i) <= i,
    decreases i,
{
    if i > 0 {
        lemma_depth_bounded(text, i - 1);
    }
}

proof fn lemma_deep_means_open(text: Seq<u8>, i: int)
    ensures
        depth(text, i) > 0 ==> last_open(text, i) is Some,
    decreases i,
{
    if i > 0 {
        lemma_deep_means_open(text, i - 1);
    }
}

proof fn lemma_last_open_bounded(text: Seq<u8>, i: int)
    ensures
        last_open(text, i) is Some ==> 0 <= last_open(text, i)->0 < i,
    decreases i,
{
    if i > 0 {
        lemma_last_open_bounded(text, i - 1);
    }
}

proof fn lemma_separators_bounded(text: Seq<u8>, from: int, to: int)
    requires
        0 <= from,
    ensures
        separators(text, from, to) <= if to > from {
            to - from
        } else {
            0
        },
    decreases to - from,
{
    if to > from {
        lemma_separators_bounded(text, from, to - 1);
    }
}

/// A byte added at the end changes nothing of what is said of the positions
/// in front of it.
proof fn lemma_prefix_keeps(text: Seq<u8>, byte: u8, i: int)
    requires
        0 <= i <= text.len(),
    ensures
        depth(text.push(byte), i) == depth(text, i),
        last_open(text.push(byte), i) == last_open(text, i),
    decreases i,
{
    if i > 0 {
        lemma_prefix_keeps(text, byte, i - 1);
        assert(text.push(byte)[i - 1] == text[i - 1]);
    }
}

proof fn lemma_range_keeps(text: Seq<u8>, byte: u8, from: int, to: int)
    requires
        0 <= from,
        to <= text.len(),
    ensures
        separators(text.push(byte), from, to) == separators(text, from, to),
        has_content(text.push(byte), from, to) == has_content(text, from, to),
    decreases to - from,
{
    if to > from {
        lemma_range_keeps(text, byte, from, to - 1);
        lemma_prefix_keeps(text, byte, to - 1);
        assert(text.push(byte)[to - 1] == text[to - 1]);
    }
}

/// What kind of object a file is, as far as the resolver tells kinds apart.
#[derive(Clone, Copy, Debug, PartialEq, Eq, Structural)]
pub enum ObjectKind {
    /// A shared object.
    Dynamic,
    /// An executable.
    Executable,
    /// Anything else, such as a relocatable object.
    Other,
}

/// An entry of a symbol table.
#[derive(Debug)]
pub struct SymbolEntry {
    /// The name, where it is a text.
    pub name: Option<String>,
    /// The virtual address.
    pub address: u64,
    /// Index of the section in which the symbol is defined, if it is
    /// defined in one.
    pub section: Option<usize>,
}

/// An entry of a symbol table as a plain value.
pub struct SymbolView {
    pub name: Option<Seq<char>>,
    pub address: u64,
    pub section: Option<usize>,
}

impl View for SymbolEntry {
    type V = SymbolView;

    open spec fn view(&self) -> SymbolView {
        SymbolView {
            name: match self.name {
                Some(n) => Some(n@),
                None => None,
            },
            address: self.address,
            section: self.section,
        }
    }
}

/// A symbol table as plain values.
pub open spec fn symbols_view(table: Seq<SymbolEntry>) -> Seq<SymbolView> {
    table.map_values(|s: SymbolEntry| s@)
}

/// A section of an object file.
#[derive(Debug)]
pub struct SectionEntry {
    /// The name, where it is a text.
    pub name: Option<String>,
    /// The virtual address at which the section is loaded.
    pub address: u64,
    /// Offset and size of the section in the file, if it takes room there.
    pub file_range: Option<(u64, u64)>,
}

/// A section as a plain value.
pub struct SectionView {
    pub name: Option<Seq<char>>,
    pub address: u64,
    pub file_range: Option<(u64, u64)>,
}

impl View for SectionEntry {
    type V = SectionView;

    open spec fn view(&self) -> SectionView {
        SectionView {
            name: match self.name {
                Some(n) => Some(n@),
                None => None,
            },
            address: self.address,
            file_range: self.file_range,
        }
    }
}

/// A section, if there is one, as a plain value.
pub open spec fn section_view(section: Option<SectionEntry>) -> Option<SectionView> {
    match section {
        Some(s) => Some(s@),
        None => None,
    }
}

/// The contents of a section that is looked up by name.
#[derive(Debug)]
pub enum SectionData {
    /// The file has no such section, or is no object file.
    Absent,
    /// The section is there, its contents cannot be read.
    Unreadable,
    Present(Vec<u8>),
}

/// The contents of a section as a plain value.
pub enum SectionDataView {
    Absent,
    Unreadable,
    Present(Seq<u8>),
}

impl View for SectionData {
    type V = SectionDataView;

    open spec fn view(&self) -> SectionDataView {
        match self {
            SectionData::Absent => SectionDataView::Absent,
            SectionData::Unreadable => SectionDataView::Unreadable,
            SectionData::Present(bytes) => SectionDataView::Present(bytes@),
        }
    }
}

/// The kind that `object` reads from a file; `None` where it cannot read the
/// file.
pub uninterp spec fn object_kind_of(data: Seq<u8>) -> Option<ObjectKind>;

/// The dynamic symbols that `object` reads from a file, in its order.
pub uninterp spec fn dynamic_symbols_of(data: Seq<u8>) -> Seq<SymbolView>;

/// The symbols of the static table that `object` reads from a file, in its
/// order.
pub uninterp spec fn symbols_of(data: Seq<u8>) -> Seq<SymbolView>;

/// The section that `object` finds at an index of a file.
pub uninterp spec fn section_at(data: Seq<u8>, index: usize) -> Option<SectionView>;

/// The section that `object` finds under a name in a file.
pub uninterp spec fn section_named(data: Seq<u8>, name: Seq<char>) -> Option<SectionView>;

/// The contents of the section that `object` finds under a name in a file.
pub uninterp spec fn section_data_of(data: Seq<u8>, name: Seq<char>) -> SectionDataView;

/// What `lzma_rs` unpacks from an xz stream; `None` where it reports an
/// error, and where the size field of the stream's footer is all ones, on
/// which its arithmetic overflows.
pub uninterp spec fn xz_decompressed(packed: Seq<u8>) -> Option<Seq<u8>>;

/// How many bytes of an xz stream `lzma_rs` has left unread when it returns.
pub uninterp spec fn xz_left(packed: Seq<u8>) -> usize;

/// The words with which `lzma_rs` refuses an xz stream for its container;
/// `None` where it unpacks the stream or fails otherwise.
pub uninterp spec fn xz_complaint(packed: Seq<u8>) -> Option<Seq<char>>;

/// `object::File::parse` and `Object::kind`. `None` where the file cannot be
/// parsed; kinds other than shared object and executable are not told
/// apart.
#[verifier::external_body]
fn object_kind(data: &[u8]) -> (kind: Option<ObjectKind>)
    ensures
        kind == object_kind_of(data@),
{
    object::File::parse(data).ok().map(|file| match file.kind() {
        object::ObjectKind::Dynamic => ObjectKind::Dynamic,
        object::ObjectKind::Executable => ObjectKind::Executable,
        _ => ObjectKind::Other,
    })
}

/// `Object::dynamic_symbols`, walked to its end: name, address and section
/// index of every symbol that the crate hands out, in its order. A file that
/// cannot be parsed has none.
#[verifier::external_body]
fn dynamic_symbols(data: &[u8]) -> (table: Vec<SymbolEntry>)
    ensures
        symbols_view(table@) == dynamic_symbols_of(data@),
{
    match object::File::parse(data) {
        Ok(file) => file.dynamic_symbols().map(|symbol| SymbolEntry {
            name: symbol.name().ok().map(|name| name.to_owned()),
            address: symbol.address(),
            section: symbol.section_index().map(|index| index.0),
        }).collect(),
        Err(_) => Vec::new(),
    }
}

/// `Object::symbols`, walked to its end: name, address and section index of
/// every symbol that the crate hands out, in its order. A file that cannot be
/// parsed has none.
#[verifier::external_body]
fn static_symbols(data: &[u8]) -> (table: Vec<SymbolEntry>)
    ensures
        symbols_view(table@) == symbols_of(data@),
{
    match object::File::parse(data) {
        Ok(file) => file.symbols().map(|symbol| SymbolEntry {
            name: symbol.name().ok().map(|name| name.to_owned()),
            address: symbol.address(),
            section: symbol.section_index().map(|index| index.0),
        }).collect(),
        Err(_) => Vec::new(),
    }
}

/// `Object::section_by_index`: name, address and file range of the section.
/// `None` where the file cannot be parsed or has no section at the index.
#[verifier::external_body]
fn section_by_index(data: &[u8], index: usize) -> (section: Option<SectionEntry>)
    ensures
        section_view(section) == section_at(data@, index),
{
    let file = object::File::parse(data).ok()?;
    let section = file.section_by_index(object::SectionIndex(index)).ok()?;
    Some(SectionEntry {
        name: section.name().ok().map(|name| name.to_owned()),
        address: section.address(),
        file_range: section.file_range(),
    })
}

/// `Object::section_by_name`: name, address and file range of the section.
/// `None` where the file cannot be parsed or has no section of that name.
#[verifier::external_body]
fn section_by_name(data: &[u8], name: &str) -> (section: Option<SectionEntry>)
    ensures
        section_view(section) == section_named(data@, name@),
{
    let file = object::File::parse(data).ok()?;
    let section = file.section_by_name(name)?;
    Some(SectionEntry {
        name: section.name().ok().map(|name| name.to_owned()),
        address: section.address(),
        file_range: section.file_range(),
    })
}

/// `Object::section_by_name` and `ObjectSection::data`: the raw contents of
/// the section of that name.
#[verifier::external_body]
fn section_data(data: &[u8], name: &str) -> (contents: SectionData)
    ensures
        contents@ == section_data_of(data@, name@),
{
    let section = object::File::parse(data).ok().and_then(|file| {
        file.section_by_name(name).map(|section| section.data().map(|bytes| bytes.to_vec()))
    });
    match section {
        None => SectionData::Absent,
        Some(Err(_)) => SectionData::Unreadable,
        Some(Ok(bytes)) => SectionData::Present(bytes),
    }
}

/// Whether the four bytes from `at` on are all ones.
pub open spec fn ones_at(bytes: Seq<u8>, at: int) -> bool {
    &&& bytes[at] == 0xFF
    &&& bytes[at + 1] == 0xFF
    &&& bytes[at + 2] == 0xFF
    &&& bytes[at + 3] == 0xFF
}

/// How the complaint about the size field of a footer begins.
pub const INDEX_SIZE: &'static str = "Invalid index size";

/// The complaint is the one about the size field of the footer.
pub open spec fn about_size(complaint: Option<Seq<char>>) -> bool {
    match complaint {
        Some(words) => encode_utf8(INDEX_SIZE@).is_prefix_of(encode_utf8(words)),
        None => false,
    }
}

/// The stream `packed` as far as the third byte of the word at `at`, then
/// `last` in place of the word's fourth byte, then zeros to the length of
/// `packed`.
pub open spec fn blunted(packed: Seq<u8>, at: int, last: u8) -> Seq<u8> {
    packed.take(at + 3).push(last) + Seq::new((packed.len() - at - 4) as nat, |i: int| 0u8)
}

/// `lzma_rs` refuses the stream for the size field of its footer, and that
/// field is the last thing it read: the four bytes from `at` on.
pub open spec fn refuses_size_at(packed: Seq<u8>, at: int) -> bool {
    about_size(xz_complaint(packed)) && xz_left(packed) + at + 4 == packed.len()
}

/// `lzma_rs` takes the four bytes from `at` on for the size field of the
/// footer. It reads a stream from front to back and decides by what it has
/// read, so this shows on a stream that is the same up to the field's last
/// byte: there the field is refused. Two such streams are asked, with last
/// bytes `0x3F` and `0x00`, because a field is only refused where the size
/// that it stands for differs from the size of the index, and the two fields
/// stand for different sizes.
pub open spec fn reads_size_at(packed: Seq<u8>, at: int) -> bool {
    refuses_size_at(blunted(packed, at, 0x3F), at) || refuses_size_at(
        blunted(packed, at, 0x00),
        at,
    )
}

/// No word of all ones in the stream is taken for the size field of the
/// footer.
pub open spec fn overflow_free(packed: Seq<u8>) -> bool {
    forall|at: int|
        0 <= at && at + 4 <= packed.len() && #[trigger] ones_at(packed, at) ==> !reads_size_at(
            packed,
            at,
        )
}

/// `other` has the length of `packed` and the same bytes before `at + 3`,
/// and holds a word of all ones at `at`.
pub open spec fn same_but_ones(other: Seq<u8>, packed: Seq<u8>, at: int) -> bool {
    &&& other.len() == packed.len()
    &&& 0 <= at
    &&& at + 4 <= packed.len()
    &&& other.take(at + 3) == packed.take(at + 3)
    &&& ones_at(other, at)
}

/// What came of unpacking a stream.
struct Unpacking {
    /// The unpacked bytes.
    bytes: Option<Vec<u8>>,
    /// How many bytes of the stream were left unread.
    left: usize,
    /// The words with which the container was refused.
    complaint: Option<String>,
}

impl Unpacking {
    spec fn unpacked(&self) -> Option<Seq<u8>> {
        match self.bytes {
            Some(bytes) => Some(bytes@),
            None => None,
        }
    }

    spec fn words(&self) -> Option<Seq<char>> {
        match self.complaint {
            Some(words) => Some(words@),
            None => None,
        }
    }
}

/// `lzma_rs::xz_decompress` on a slice: what it unpacked, how much of the
/// slice it left unread, and its words where it refused the container.
///
/// The crate adds one to the size field of the stream's footer before it
/// looks at it, and on a field of all ones that addition overflows. Such
/// streams are left out: the stream must be one in which no word of all ones
/// is taken for that field. The crate reads front to back and decides by
/// what it has read; so where it refuses a size field, a stream of the same
/// length that differs only from the field's last byte on, and has a field of
/// all ones there, is one on which it overflows, and nothing is unpacked
/// from it.
#[verifier::external_body]
fn xz_decompress(packed: &[u8]) -> (answer: Unpacking)
    requires
        overflow_free(packed@),
    ensures
        answer.unpacked() == xz_decompressed(packed@),
        answer.left == xz_left(packed@),
        answer.words() == xz_complaint(packed@),
        answer.left <= packed@.len(),
        about_size(answer.words()) ==> forall|other: Seq<u8>| #[trigger]
            same_but_ones(other, packed@, packed@.len() - answer.left - 4) ==> xz_decompressed(
                other,
            ) is None,
{
    let mut input = packed;
    let mut output = Vec::new();
    let result = lzma_rs::xz_decompress(&mut input, &mut output);
    let left = input.len();
    match result {
        Ok(()) => Unpacking { bytes: Some(output), left, complaint: None },
        Err(lzma_rs::error::Error::XzError(words)) => {
            Unpacking { bytes: None, left, complaint: Some(words) }
        },
        Err(_) => Unpacking { bytes: None, left, complaint: None },
    }
}

/// A word of all ones in a blunted stream lies before the place at which the
/// stream was blunted, and is a word of the stream itself; and it is taken
/// for the size field in the one stream where it is in the other.
proof fn lemma_blunted_keeps_earlier_words(packed: Seq<u8>, at: int, last: u8, k: int)
    requires
        0 <= at,
        at + 4 <= packed.len(),
        last != 0xFF,
        0 <= k,
        k + 4 <= packed.len(),
        ones_at(blunted(packed, at, last), k),
    ensures
        k < at,
        ones_at(packed, k),
        reads_size_at(blunted(packed, at, last), k) == reads_size_at(packed, k),
{
    let blunt = blunted(packed, at, last);
    assert(blunt.len() == packed.len());
    assert(blunt[at + 3] == last);
    assert(forall|j: int| at + 3 < j < packed.len() ==> blunt[j] == 0u8);
    assert(forall|j: int| 0 <= j < at + 3 ==> blunt[j] == packed[j]);
    if k >= at {
        if k <= at + 3 {
            assert(blunt[at + 3] == 0xFF);
        } else {
            assert(blunt[k] == 0xFF);
        }
    }
    assert(blunt.take(k + 3) =~= packed.take(k + 3));
    assert(blunted(blunt, k, 0x3F) =~= blunted(packed, k, 0x3F));
    assert(blunted(blunt, k, 0x00) =~= blunted(packed, k, 0x00));
}

/// The stream `packed` blunted at `at`.
fn blunt(packed: &[u8], at: usize, last: u8) -> (stream: Vec<u8>)
    requires
        at + 4 <= packed@.len(),
    ensures
        stream@ == blunted(packed@, at as int, last),
{
    let length = packed.len();
    let mut stream: Vec<u8> = Vec::new();
    let mut i: usize = 0;
    while i < length
        invariant
            length == packed@.len(),
            at + 4 <= length,
            i <= length,
            stream@.len() == i,
            forall|k: int| 0 <= k < i ==> stream@[k] == blunted(packed@, at as int, last)[k],
        decreases length - i,
    {
        if i < at + 3 {
            stream.push(packed[i]);
        } else if i == at + 3 {
            stream.push(last);
        } else {
            stream.push(0);
        }
        i += 1;
    }
    assert(stream@ =~= blunted(packed@, at as int, last));
    stream
}

/// Asks `lzma_rs` whether it takes the word at `at` for the size field of
/// the footer, on the stream blunted there with `last`.
fn refuses_blunted(packed: &[u8], at: usize, last: u8) -> (refused: bool)
    requires
        at + 4 <= packed@.len(),
        last != 0xFF,
        ones_at(packed@, at as int),
        forall|k: int| 0 <= k < at && #[trigger] ones_at(packed@, k) ==> !reads_size_at(packed@, k),
    ensures
        refused == refuses_size_at(blunted(packed@, at as int, last), at as int),
        refused ==> xz_decompressed(packed@) is None,
{
    let stream = blunt(packed, at, last);
    proof {
        assert forall|k: int|
            0 <= k && k + 4 <= stream@.len() && #[trigger] ones_at(stream@, k) implies !reads_size_at(
            stream@,
            k,
        ) by {
            lemma_blunted_keeps_earlier_words(packed@, at as int, last, k);
        }
    }
    let answer = xz_decompress(stream.as_slice());
    let about = match &answer.complaint {
        Some(words) => str_starts_with(words.as_str(), INDEX_SIZE),
        None => false,
    };
    let refused = about && answer.left == packed.len() - at - 4;
    proof {
        if refused {
            assert(stream@.take(at + 3) =~= packed@.take(at + 3));
            assert(stream@.len() - answer.left - 4 == at);
            assert(same_but_ones(packed@, stream@, stream@.len() - answer.left - 4));
        }
    }
    refused
}

/// Unpacks an xz stream: what `lzma_rs` unpacks from it, `None` where it
/// reports an error. A stream on which it would overflow is found out
/// beforehand and gives `None` too: for each word of all ones in the stream,
/// `lzma_rs` is first asked, on a stream without that word, whether it takes
/// the word for the size field of the footer.
pub fn unpack(packed: &[u8]) -> (bytes: Option<Vec<u8>>)
    ensures
        match xz_decompressed(packed@) {
            Some(plain) => bytes matches Some(b) && b@ == plain,
            None => bytes is None,
        },
{
    let length = packed.len();
    if length >= 4 {
        let mut at: usize = 0;
        while at <= length - 4
            invariant
                length == packed@.len(),
                length >= 4,
                at <= length - 3,
                forall|k: int|
                    0 <= k < at && #[trigger] ones_at(packed@, k) ==> !reads_size_at(packed@, k),
            decreases length - at,
        {
            if packed[at] == 0xFF && packed[at + 1] == 0xFF && packed[at + 2] == 0xFF && packed[at
                + 3] == 0xFF {
                assert(ones_at(packed@, at as int));
                if refuses_blunted(packed, at, 0x3F) {
                    return None;
                }
                if refuses_blunted(packed, at, 0x00) {
                    return None;
                }
            }
            at += 1;
        }
    }
    xz_decompress(packed).bytes
}

/// Section that holds a companion object with the symbols that were
/// stripped from the library, packed as an xz stream.
pub const DEBUG_DATA: &'static str = ".gnu_debugdata";

/// The symbol has a name that begins with `prefix`.
pub open spec fn has_prefix(symbol: SymbolView, prefix: Seq<char>) -> bool {
    match symbol.name {
        Some(name) => encode_utf8(prefix).is_prefix_of(encode_utf8(name)),
        None => false,
    }
}

/// The symbol has exactly the name `name`.
pub open spec fn has_name(symbol: SymbolView, name: Seq<char>) -> bool {
    symbol.name == Some(name)
}

/// Index of the first entry of `table` that `keep` selects.
pub open spec fn first_index(table: Seq<SymbolView>, keep: spec_fn(SymbolView) -> bool) -> Option<
    int,
>
    decreases table.len(),
{
    if table.len() == 0 {
        None
    } else if keep(table[0]) {
        Some(0)
    } else {
        match first_index(table.drop_first(), keep) {
            Some(i) => Some(i + 1),
            None => None,
        }
    }
}

/// The first entry of `table` that `keep` selects.
pub open spec fn first_match(table: Seq<SymbolView>, keep: spec_fn(SymbolView) -> bool) -> Option<
    SymbolView,
> {
    match first_index(table, keep) {
        Some(i) => Some(table[i]),
        None => None,
    }
}

/// What `first_index` finds is the first selected entry, and it finds
/// nothing only where nothing is selected.
pub proof fn lemma_first_index(table: Seq<SymbolView>, keep: spec_fn(SymbolView) -> bool)
    ensures
        match first_index(table, keep) {
            Some(i) => {
                &&& 0 <= i < table.len()
                &&& keep(table[i])
                &&& forall|j: int| 0 <= j < i ==> !keep(#[trigger] table[j])
            },
            None => forall|j: int| 0 <= j < table.len() ==> !keep(#[trigger] table[j]),
        },
    decreases table.len(),
{
    if table.len() > 0 && !keep(table[0]) {
        let rest = table.drop_first();
        lemma_first_index(rest, keep);
        match first_index(rest, keep) {
            Some(i) => {
                assert forall|j: int| 0 <= j < i + 1 implies !keep(#[trigger] table[j]) by {
                    if j > 0 {
                        assert(table[j] == rest[j - 1]);
                    }
                }
            },
            None => {
                assert forall|j: int| 0 <= j < table.len() implies !keep(#[trigger] table[j]) by {
                    if j > 0 {
                        assert(table[j] == rest[j - 1]);
                    }
                }
            },
        }
    }
}

/// An index at which `keep` holds, with nothing selected in front of it, is
/// what `first_index` finds.
proof fn lemma_first_index_is(table: Seq<SymbolView>, keep: spec_fn(SymbolView) -> bool, i: int)
    requires
        0 <= i < table.len(),
        keep(table[i]),
        forall|j: int| 0 <= j < i ==> !keep(#[trigger] table[j]),
    ensures
        first_index(table, keep) == Some(i),
{
    lemma_first_index(table, keep);
}

/// Nothing selected means nothing found.
proof fn lemma_first_index_none(table: Seq<SymbolView>, keep: spec_fn(SymbolView) -> bool)
    requires
        forall|j: int| 0 <= j < table.len() ==> !keep(#[trigger] table[j]),
    ensures
        first_index(table, keep) is None,
{
    lemma_first_index(table, keep);
}

/// How a symbol that is looked for is recognised.
#[derive(Clone, Copy, Debug)]
pub enum Pattern<'a> {
    /// By the beginning of its name.
    Prefix(&'a str),
    /// By its whole name.
    Exact(&'a str),
}

impl<'a> Pattern<'a> {
    /// Whether the pattern selects the symbol.
    pub open spec fn selects(self, symbol: SymbolView) -> bool {
        match self {
            Pattern::Prefix(prefix) => has_prefix(symbol, prefix@),
            Pattern::Exact(name) => has_name(symbol, name@),
        }
    }

    /// Whether the symbol is one that is looked for.
    pub fn matches(&self, symbol: &SymbolEntry) -> (selected: bool)
        ensures
            selected == self.selects(symbol@),
    {
        match &symbol.name {
            Some(name) => match self {
                Pattern::Prefix(prefix) => str_starts_with(name.as_str(), prefix),
                Pattern::Exact(wanted) => str_eq(name.as_str(), wanted),
            },
            None => false,
        }
    }
}

/// The first symbol that the pattern selects, looking through the dynamic
/// table first and the static table after it.
pub fn find_symbol<'a>(
    dynamic: &'a Vec<SymbolEntry>,
    symbols: &'a Vec<SymbolEntry>,
    pattern: Pattern<'_>,
) -> (found: Option<&'a SymbolEntry>)
    ensures
        match first_match(
            symbols_view(dynamic@) + symbols_view(symbols@),
            |s: SymbolView| pattern.selects(s),
        ) {
            Some(symbol) => found is Some && found->0@ == symbol,
            None => found is None,
        },
{
    let ghost table = symbols_view(dynamic@) + symbols_view(symbols@);
    let ghost keep = |s: SymbolView| pattern.selects(s);
    let mut i: usize = 0;
    while i < dynamic.len()
        invariant
            i <= dynamic@.len(),
            table == symbols_view(dynamic@) + symbols_view(symbols@),
            keep == (|s: SymbolView| pattern.selects(s)),
            forall|j: int| 0 <= j < i ==> !keep(#[trigger] table[j]),
        decreases dynamic@.len() - i,
    {
        assert(table[i as int] == dynamic@[i as int]@);
        if pattern.matches(&dynamic[i]) {
            proof {
                lemma_first_index_is(table, keep, i as int);
            }
            return Some(&dynamic[i]);
        }
        i += 1;
    }
    let mut k: usize = 0;
    while k < symbols.len()
        invariant
            k <= symbols@.len(),
            table == symbols_view(dynamic@) + symbols_view(symbols@),
            keep == (|s: SymbolView| pattern.selects(s)),
            forall|j: int| 0 <= j < dynamic@.len() + k ==> !keep(#[trigger] table[j]),
        decreases symbols@.len() - k,
    {
        assert(table[dynamic@.len() + k] == symbols@[k as int]@);
        if pattern.matches(&symbols[k]) {
            proof {
                lemma_first_index_is(table, keep, dynamic@.len() + k);
            }
            return Some(&symbols[k]);
        }
        k += 1;
    }
    proof {
        lemma_first_index_none(table, keep);
    }
    None
}

/// The address under which a symbol is reported. In a shared object or an
/// executable it is the symbol's offset in the file: its distance from the
/// start of its section, added to the place of that section in the file.
/// This needs a section that has a name and takes room in the file. In any
/// other object it is the symbol's own address.
pub open spec fn probe_address(
    kind: ObjectKind,
    symbol: SymbolView,
    section: Option<SectionView>,
) -> Option<u64> {
    match kind {
        ObjectKind::Other => Some(symbol.address),
        _ => match section {
            Some(s) => match s.file_range {
                Some(range) => if s.name is Some {
                    Some(symbol.address.wrapping_sub(s.address).wrapping_add(range.0))
                } else {
                    None
                },
                None => None,
            },
            None => None,
        },
    }
}

/// The address under which a symbol is reported, given the section that
/// stands for the one in which it is defined.
pub fn probe_offset(kind: ObjectKind, symbol: &SymbolEntry, section: Option<&SectionEntry>) -> (at:
    Option<u64>)
    ensures
        at == probe_address(
            kind,
            symbol@,
            match section {
                Some(s) => Some(s@),
                None => None,
            },
        ),
{
    match kind {
        ObjectKind::Other => Some(symbol.address),
        _ => match section {
            Some(s) => match s.file_range {
                Some(range) => if s.name.is_some() {
                    Some(symbol.address.wrapping_sub(s.address).wrapping_add(range.0))
                } else {
                    None
                },
                None => None,
            },
            None => None,
        },
    }
}

/// The section by which a symbol found in `data` is placed in the file. A
/// symbol of the library itself is placed by its own section. A symbol of
/// the companion object is placed by the section of the library `outer`
/// that has the name of the symbol's section.
pub open spec fn placing_section(
    data: Seq<u8>,
    symbol: SymbolView,
    outer: Option<Seq<u8>>,
) -> Option<SectionView> {
    match symbol.section {
        Some(index) => match outer {
            None => section_at(data, index),
            Some(library) => match section_at(data, index) {
                Some(own) => match own.name {
                    Some(name) => section_named(library, name),
                    None => None,
                },
                None => None,
            },
        },
        None => None,
    }
}

/// What looking for a symbol in one object gives.
pub enum Lookup {
    /// The symbol, by name and reported address.
    Found(String, u64),
    /// The object has no such symbol.
    Missing,
    /// The object cannot be read, or the symbol cannot be placed.
    Failed,
}

/// What looking for a symbol gives, as a plain value.
pub enum LookupView {
    Found(Seq<char>, u64),
    Missing,
    Failed,
}

impl View for Lookup {
    type V = LookupView;

    open spec fn view(&self) -> LookupView {
        match self {
            Lookup::Found(name, at) => LookupView::Found(name@, *at),
            Lookup::Missing => LookupView::Missing,
            Lookup::Failed => LookupView::Failed,
        }
    }
}

/// What looking for a symbol in the object `data` gives.
pub open spec fn looked_up(data: Seq<u8>, pattern: Pattern<'_>, outer: Option<Seq<u8>>) -> LookupView {
    match object_kind_of(data) {
        None => LookupView::Failed,
        Some(kind) => match first_match(
            dynamic_symbols_of(data) + symbols_of(data),
            |s: SymbolView| pattern.selects(s),
        ) {
            None => LookupView::Missing,
            Some(symbol) => match kind {
                ObjectKind::Other => LookupView::Found(symbol.name->0, symbol.address),
                _ => match probe_address(kind, symbol, placing_section(data, symbol, outer)) {
                    Some(at) => LookupView::Found(symbol.name->0, at),
                    None => LookupView::Failed,
                },
            },
        },
    }
}

/// Looks for a symbol in one object. `outer` is the library in which the
/// object was found as debug data, if it was.
pub fn lookup(data: &[u8], pattern: Pattern<'_>, outer: Option<&[u8]>) -> (result: Lookup)
    ensures
        result@ == looked_up(
            data@,
            pattern,
            match outer {
                Some(library) => Some(library@),
                None => None,
            },
        ),
{
    let kind = match object_kind(data) {
        Some(kind) => kind,
        None => {
            return Lookup::Failed;
        },
    };
    let dynamic = dynamic_symbols(data);
    let symbols = static_symbols(data);
    let symbol = match find_symbol(&dynamic, &symbols, pattern) {
        Some(symbol) => symbol,
        None => {
            return Lookup::Missing;
        },
    };
    proof {
        let table = dynamic_symbols_of(data@) + symbols_of(data@);
        lemma_first_index(table, |s: SymbolView| pattern.selects(s));
    }
    let name = match &symbol.name {
        Some(name) => name.clone(),
        None => {
            return Lookup::Failed;
        },
    };
    let section = match kind {
        ObjectKind::Other => None,
        _ => match symbol.section {
            Some(index) => match outer {
                None => section_by_index(data, index),
                Some(library) => match section_by_index(data, index) {
                    Some(own) => match &own.name {
                        Some(section_name) => section_by_name(library, section_name.as_str()),
                        None => None,
                    },
                    None => None,
                },
            },
            None => None,
        },
    };
    match probe_offset(kind, symbol, section.as_ref()) {
        Some(at) => Lookup::Found(name, at),
        None => Lookup::Failed,
    }
}

/// What resolving a symbol for a probe gives: the symbol of the library
/// itself where it has one; otherwise, where the library carries debug data,
/// the symbol of the companion object unpacked from it, placed by the
/// library's sections.
pub open spec fn resolved(data: Seq<u8>, pattern: Pattern<'_>) -> Option<(Seq<char>, u64)> {
    match looked_up(data, pattern, None) {
        LookupView::Found(name, at) => Some((name, at)),
        LookupView::Failed => None,
        LookupView::Missing => match section_data_of(data, DEBUG_DATA@) {
            SectionDataView::Present(packed) => match xz_decompressed(packed) {
                Some(companion) => match looked_up(companion, pattern, Some(data)) {
                    LookupView::Found(name, at) => Some((name, at)),
                    _ => None,
                },
                None => None,
            },
            _ => None,
        },
    }
}

fn resolve_pattern(data: &[u8], pattern: Pattern<'_>) -> (result: Option<(String, u64)>)
    ensures
        match resolved(data@, pattern) {
            Some((name, at)) => result matches Some(r) && r.0@ == name && r.1 == at,
            None => result is None,
        },
{
    match lookup(data, pattern, None) {
        Lookup::Found(name, at) => Some((name, at)),
        Lookup::Failed => None,
        Lookup::Missing => match section_data(data, DEBUG_DATA) {
            SectionData::Present(packed) => match unpack(packed.as_slice()) {
                Some(companion) => match lookup(companion.as_slice(), pattern, Some(data)) {
                    Lookup::Found(name, at) => Some((name, at)),
                    _ => None,
                },
                None => None,
            },
            _ => None,
        },
    }
}

/// Finds in the library `data` the first symbol whose name begins with
/// `prefix` and gives its name and the offset in the file at which a
/// userspace probe on it goes. Fails with `SymbolNotFound` when neither the
/// library nor its debug data yields the symbol.
pub fn resolve_for_uprobe(data: &[u8], prefix: &str) -> (result: Result<(String, u64), Error>)
    ensures
        match resolved(data@, Pattern::Prefix(prefix)) {
            Some((name, at)) => result matches Ok(r) && r.0@ == name && r.1 == at,
            None => result matches Err(Error::SymbolNotFound),
        },
{
    match resolve_pattern(data, Pattern::Prefix(prefix)) {
        Some(found) => Ok(found),
        None => Err(Error::SymbolNotFound),
    }
}

/// The address of the first symbol named `name` in the tables of the object
/// `data`.
pub open spec fn address_of(data: Seq<u8>, name: Seq<char>) -> Option<u64> {
    match first_match(
        dynamic_symbols_of(data) + symbols_of(data),
        |s: SymbolView| has_name(s, name),
    ) {
        Some(symbol) => if object_kind_of(data) is Some {
            Some(symbol.address)
        } else {
            None
        },
        None => None,
    }
}

/// Finds in the object `data` the symbol named `name` and gives its virtual
/// address. Fails with `SymbolNotFound` when the object cannot be read or
/// has no such symbol.
pub fn resolve(data: &[u8], name: &str) -> (result: Result<u64, Error>)
    ensures
        match address_of(data@, name@) {
            Some(address) => result matches Ok(a) && a == address,
            None => result matches Err(Error::SymbolNotFound),
        },
{
    if object_kind(data).is_none() {
        return Err(Error::SymbolNotFound);
    }
    let dynamic = dynamic_symbols(data);
    let symbols = static_symbols(data);
    let pattern = Pattern::Exact(name);
    assert((|s: SymbolView| pattern.selects(s)) =~= (|s: SymbolView| has_name(s, name@)));
    match find_symbol(&dynamic, &symbols, pattern) {
        Some(symbol) => Ok(symbol.address),
        None => Err(Error::SymbolNotFound),
    }
}

/// The symbols of an object, the dynamic ones first.
pub open spec fn tables(data: Seq<u8>) -> Seq<SymbolView> {
    dynamic_symbols_of(data) + symbols_of(data)
}

/// A symbol is reported alike whether a library holds it in its own tables
/// or only in its debug data. `whole` is a library that has the symbol
/// itself; `stripped` is a library that has it only in the companion object
/// `companion`, unpacked from its debug data. Where both symbols have the
/// same name and address, both objects that hold them are of one kind, and
/// `stripped` has, under the name of the symbol's section, a section with
/// the address and the place in the file that the section has in `whole`,
/// the two libraries resolve the symbol to the same name and the same
/// offset.
pub proof fn lemma_mirror_resolves_alike(
    whole: Seq<u8>,
    stripped: Seq<u8>,
    packed: Seq<u8>,
    companion: Seq<u8>,
    pattern: Pattern<'_>,
    section: SectionView,
    mirrored: SectionView,
)
    requires
        first_match(tables(whole), |s: SymbolView| pattern.selects(s)) is Some,
        first_match(tables(stripped), |s: SymbolView| pattern.selects(s)) is None,
        first_match(tables(companion), |s: SymbolView| pattern.selects(s)) is Some,
        object_kind_of(stripped) is Some,
        section_data_of(stripped, DEBUG_DATA@) == SectionDataView::Present(packed),
        xz_decompressed(packed) == Some(companion),
        object_kind_of(whole) is Some,
        object_kind_of(whole) == object_kind_of(companion),
        ({
            let direct = first_match(tables(whole), |s: SymbolView| pattern.selects(s))->0;
            let mirror = first_match(tables(companion), |s: SymbolView| pattern.selects(s))->0;
            &&& direct.name == mirror.name
            &&& direct.address == mirror.address
            &&& direct.section is Some
            &&& mirror.section is Some
            &&& section_at(whole, direct.section->0) == Some(section)
            &&& section_at(companion, mirror.section->0) is Some
            &&& section_at(companion, mirror.section->0)->0.name == section.name
            &&& section.name is Some
            &&& section_named(stripped, section.name->0) == Some(mirrored)
            &&& mirrored.name is Some
            &&& mirrored.address == section.address
            &&& mirrored.file_range == section.file_range
        }),
    ensures
        resolved(whole, pattern) == resolved(stripped, pattern),
{
}

} // verus!
