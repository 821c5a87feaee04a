//! Snapshot of a target's memory mappings and the lookups that the engine
//! makes in it.

use crate::text::str_eq;
use vstd::prelude::*;

verus! {

/// What the last column of a mapping line names.
#[derive(Debug)]
pub enum MapName {
    /// A file, by its path.
    Path(String),
    /// A bracketed pseudo-path that has no meaning of its own here, such as
    /// `[uprobes]`.
    Pseudo(String),
    /// Anything else: the stack, the heap, the vDSO, an anonymous mapping.
    Other,
}

/// What a mapping line names, as a plain value.
pub enum MapNameView {
    Path(Seq<char>),
    Pseudo(Seq<char>),
    Other,
}

impl View for MapName {
    type V = MapNameView;

    open spec fn view(&self) -> MapNameView {
        match self {
            MapName::Path(p) => MapNameView::Path(p@),
            MapName::Pseudo(p) => MapNameView::Pseudo(p@),
            MapName::Other => MapNameView::Other,
        }
    }
}

/// One mapping: the address range `begin..end` and what is mapped there.
#[derive(Debug)]
pub struct MapEntry {
    pub begin: u64,
    pub end: u64,
    pub name: MapName,
}

/// A mapping as a plain value.
pub struct MapEntryView {
    pub begin: u64,
    pub end: u64,
    pub name: MapNameView,
    /// The file name of the path, for a mapping of a file whose path has
    /// one.
    pub file_name: Option<Seq<char>>,
}

impl View for MapEntry {
    type V = MapEntryView;

    open spec fn view(&self) -> MapEntryView {
        MapEntryView {
            begin: self.begin,
            end: self.end,
            name: self.name@,
            file_name: match self.name {
                MapName::Path(p) => file_name_of(p@),
                _ => None,
            },
        }
    }
}

/// A mapping together with the file name under which it is looked up.
#[derive(Debug)]
pub struct Indexed {
    pub entry: MapEntry,
    /// The file name of the mapped file.
    pub file_name: Option<String>,
}

impl View for Indexed {
    type V = MapEntryView;

    open spec fn view(&self) -> MapEntryView {
        MapEntryView {
            begin: self.entry.begin,
            end: self.entry.end,
            name: self.entry.name@,
            file_name: match self.file_name {
                Some(n) => Some(n@),
                None => None,
            },
        }
    }
}

/// The indexed mappings as a sequence of views.
pub open spec fn indexed_view(entries: Seq<Indexed>) -> Seq<MapEntryView> {
    entries.map_values(|e: Indexed| e@)
}

/// The mappings as a sequence of views.
pub open spec fn entries_view(entries: Seq<MapEntry>) -> Seq<MapEntryView> {
    entries.map_values(|e: MapEntry| e@)
}

/// The lines of a mapping file as plain values.
pub open spec fn lines_view(lines: Seq<Option<MapEntry>>) -> Seq<Option<MapEntryView>> {
    lines.map_values(
        |line: Option<MapEntry>|
            match line {
                Some(e) => Some(e@),
                None => None,
            },
    )
}

/// What `rsprocmaps` reads from a mapping file, line by line: the mapping
/// that a line describes, or `None` for a line that it refuses.
pub uninterp spec fn parsed_maps(text: Seq<char>) -> Seq<Option<MapEntryView>>;

/// What `std::path::Path::file_name` answers for a path: its final
/// component, if it has one.
pub uninterp spec fn file_name_of(path: Seq<char>) -> Option<Seq<char>>;

/// `rsprocmaps::from_str`, walked to its end. Each line becomes the mapping
/// that the crate read from it, with its range and name, or `None` where the
/// crate reported an error for the line.
#[verifier::external_body]
fn parse_lines(text: &str) -> (lines: Vec<Option<MapEntry>>)
    ensures
        lines_view(lines@) == parsed_maps(text@),
{
    rsprocmaps::from_str(text).map(|line| match line {
        Ok(map) => Some(MapEntry {
            begin: map.address_range.begin,
            end: map.address_range.end,
            name: match map.pathname {
                rsprocmaps::Pathname::Path(path) => MapName::Path(path),
                rsprocmaps::Pathname::OtherPseudo(name) => MapName::Pseudo(name),
                _ => MapName::Other,
            },
        }),
        Err(_) => None,
    }).collect()
}

/// `std::path::Path::file_name`, for a path and a name that are texts.
#[verifier::external_body]
pub(crate) fn file_name(path: &str) -> (name: Option<String>)
    ensures
        match name {
            Some(n) => file_name_of(path@) == Some(n@),
            None => file_name_of(path@) is None,
        },
{
    std::path::Path::new(path).file_name().and_then(|name| name.to_str()).map(|name| name.to_owned())
}

/// The lines that were read, in order, without those that were refused.
pub open spec fn accepted(lines: Seq<Option<MapEntryView>>) -> Seq<MapEntryView> {
    lines.filter_map(|line: Option<MapEntryView>| line)
}

/// The mapping is that of a file whose final path component is `name`.
pub open spec fn is_module(e: MapEntryView, name: Seq<char>) -> bool {
    e.name is Path && e.file_name == Some(name)
}

/// The mapping is the page of trap instructions that the kernel installs for
/// userspace probes.
pub open spec fn is_uprobes(e: MapEntryView) -> bool {
    e.name == MapNameView::Pseudo("[uprobes]"@)
}

/// `i` is the mapping with the lowest start among those that `keep` selects,
/// and the first such in the snapshot.
pub open spec fn lowest(
    entries: Seq<MapEntryView>,
    keep: spec_fn(MapEntryView) -> bool,
    i: int,
) -> bool {
    &&& 0 <= i < entries.len()
    &&& keep(entries[i])
    &&& forall|j: int|
        0 <= j < entries.len() && keep(#[trigger] entries[j]) ==> (entries[i].begin
            < entries[j].begin || (entries[i].begin == entries[j].begin && i <= j))
}

/// The mapping with the lowest start among those that `keep` selects, if
/// there is any.
pub open spec fn lowest_index(
    entries: Seq<MapEntryView>,
    keep: spec_fn(MapEntryView) -> bool,
) -> Option<int> {
    if exists|i: int| lowest(entries, keep, i) {
        Some(choose|i: int| lowest(entries, keep, i))
    } else {
        None
    }
}

/// There is at most one lowest mapping.
pub proof fn lemma_lowest_is_unique(
    entries: Seq<MapEntryView>,
    keep: spec_fn(MapEntryView) -> bool,
    i: int,
    j: int,
)
    requires
        lowest(entries, keep, i),
        lowest(entries, keep, j),
    ensures
        i == j,
{
}

/// The module of a given file name: the path and the start of the lowest
/// mapping of a file with that name.
pub open spec fn module_of(entries: Seq<MapEntryView>, name: Seq<char>) -> Option<
    (Seq<char>, u64),
> {
    match lowest_index(entries, |e: MapEntryView| is_module(e, name)) {
        Some(i) => match entries[i].name {
            MapNameView::Path(p) => Some((p, entries[i].begin)),
            _ => None,
        },
        None => None,
    }
}

/// The address range of the lowest probe page, if the target has one.
pub open spec fn uprobes_of(entries: Seq<MapEntryView>) -> Option<(u64, u64)> {
    match lowest_index(entries, |e: MapEntryView| is_uprobes(e)) {
        Some(i) => Some((entries[i].begin, entries[i].end)),
        None => None,
    }
}

/// What is looked for among the mappings.
#[derive(Clone, Copy, Debug)]
enum Sought<'a> {
    /// The mappings of the file with this name.
    Module(&'a str),
    /// The probe pages.
    Uprobes,
}

impl<'a> Sought<'a> {
    spec fn wants(self, e: MapEntryView) -> bool {
        match self {
            Sought::Module(name) => is_module(e, name@),
            Sought::Uprobes => is_uprobes(e),
        }
    }

    fn matches(&self, entry: &Indexed) -> (wanted: bool)
        ensures
            wanted == self.wants(entry@),
    {
        match (self, &entry.entry.name) {
            (Sought::Module(name), MapName::Path(_)) => match &entry.file_name {
                Some(n) => str_eq(n.as_str(), name),
                None => false,
            },
            (Sought::Uprobes, MapName::Pseudo(p)) => str_eq(p.as_str(), "[uprobes]"),
            _ => false,
        }
    }
}

/// The mapping contains the address.
pub open spec fn contains_addr(e: MapEntryView, addr: u64) -> bool {
    e.begin <= addr < e.end
}

/// Index of the first mapping that contains the address.
pub open spec fn first_containing(entries: Seq<MapEntryView>, addr: u64) -> Option<int>
    decreases entries.len(),
{
    if entries.len() == 0 {
        None
    } else {
        match first_containing(entries.drop_last(), addr) {
            Some(i) => Some(i),
            None => if contains_addr(entries.last(), addr) {
                Some(entries.len() - 1)
            } else {
                None
            },
        }
    }
}

/// Where an address lies: the distance from the start of the first mapping
/// that contains it.
pub open spec fn offset_of(entries: Seq<MapEntryView>, addr: u64) -> Option<u64> {
    match first_containing(entries, addr) {
        Some(i) => Some((addr - entries[i].begin) as u64),
        None => None,
    }
}

/// The mappings of a target at one moment.
#[derive(Debug)]
pub struct ProcessMaps {
    entries: Vec<Indexed>,
}

impl View for ProcessMaps {
    type V = Seq<MapEntryView>;

    closed spec fn view(&self) -> Seq<MapEntryView> {
        indexed_view(self.entries@)
    }
}

impl ProcessMaps {
    /// A snapshot without mappings.
    pub fn empty() -> (maps: Self)
        ensures
            maps@ == Seq::<MapEntryView>::empty(),
    {
        let maps = ProcessMaps { entries: Vec::new() };
        assert(maps@ =~= Seq::<MapEntryView>::empty());
        maps
    }

    /// A snapshot of the given mappings, each under the file name that is
    /// given with it.
    pub fn from_indexed(entries: Vec<Indexed>) -> (maps: Self)
        ensures
            maps@ == indexed_view(entries@),
    {
        ProcessMaps { entries }
    }

    /// A snapshot of the given mappings, each under the file name of its
    /// path.
    pub fn new(entries: Vec<MapEntry>) -> (maps: Self)
        ensures
            maps@ == entries_view(entries@),
    {
        let ghost given = entries@;
        let mut indexed: Vec<Indexed> = Vec::new();
        for entry in it: entries
            invariant
                it.seq() == given,
                indexed@.len() == it.index(),
                forall|k: int| 0 <= k < indexed@.len() ==> indexed@[k]@ == given[k]@,
        {
            let file_name = match &entry.name {
                MapName::Path(path) => file_name(path.as_str()),
                _ => None,
            };
            indexed.push(Indexed { entry, file_name });
        }
        assert(indexed_view(indexed@) =~= entries_view(given));
        ProcessMaps { entries: indexed }
    }

    /// Reads a snapshot from the text of a mapping file. Lines that cannot
    /// be read are left out.
    pub fn parse(text: &str) -> (maps: Self)
        ensures
            maps@ == accepted(parsed_maps(text@)),
    {
        let lines = parse_lines(text);
        let ghost all = lines_view(lines@);
        let ghost raw = lines@;
        let ghost keep = |line: Option<MapEntryView>| line;
        let mut entries: Vec<MapEntry> = Vec::new();
        assert(all.take(0).filter_map(keep) =~= Seq::<MapEntryView>::empty());
        assert(entries_view(entries@) =~= Seq::<MapEntryView>::empty());
        for line in it: lines
            invariant
                it.seq() == raw,
                all == lines_view(raw),
                keep == (|line: Option<MapEntryView>| line),
                entries_view(entries@) == all.take(it.index() as int).filter_map(keep),
        {
            proof {
                all.lemma_filter_map_take_succ(keep, it.index() as int);
            }
            match line {
                Some(entry) => {
                    let ghost before = entries@;
                    entries.push(entry);
                    assert(entries_view(entries@) =~= entries_view(before).push(entry@));
                    assert(entries_view(before) + seq![entry@] =~= entries_view(before).push(
                        entry@,
                    ));
                },
                None => {},
            }
        }
        assert(all.take(all.len() as int) == all);
        Self::new(entries)
    }

    /// The lowest mapping that is sought, and the first such.
    fn lowest_of(&self, sought: Sought<'_>) -> (found: Option<usize>)
        ensures
            match found {
                Some(i) => lowest_index(self@, |e: MapEntryView| sought.wants(e)) == Some(
                    i as int,
                ) && i < self.entries@.len() && self.entries@[i as int]@ == self@[i as int],
                None => lowest_index(self@, |e: MapEntryView| sought.wants(e)) is None,
            },
    {
        let ghost entries = self@;
        let ghost keep = |e: MapEntryView| sought.wants(e);
        let mut best: Option<usize> = None;
        let mut i: usize = 0;
        while i < self.entries.len()
            invariant
                entries == self@,
                keep == (|e: MapEntryView| sought.wants(e)),
                i <= entries.len(),
                match best {
                    Some(b) => lowest(entries.take(i as int), keep, b as int),
                    None => forall|j: int| 0 <= j < i ==> !keep(#[trigger] entries[j]),
                },
            decreases entries.len() - i,
        {
            let entry = &self.entries[i];
            assert(entries[i as int] == entry@);
            let ghost before = entries.take(i as int);
            let ghost after = entries.take(i + 1);
            let replace = sought.matches(entry) && match best {
                Some(b) => entry.entry.begin < self.entries[b].entry.begin,
                None => true,
            };
            proof {
                if replace || best is Some {
                    let winner: int = if replace {
                        i as int
                    } else {
                        best->0 as int
                    };
                    if best is Some {
                        assert(before[best->0 as int] == entries[best->0 as int]);
                    }
                    assert forall|j: int|
                        0 <= j < after.len() && keep(#[trigger] after[j]) implies (
                    after[winner].begin < after[j].begin || (after[winner].begin == after[j].begin
                        && winner <= j)) by {
                        if j < i {
                            assert(before[j] == after[j]);
                        }
                    }
                }
            }
            if replace {
                best = Some(i);
            }
            i += 1;
        }
        assert(entries.take(entries.len() as int) == entries);
        proof {
            match best {
                Some(b) => {
                    let c = choose|c: int| lowest(entries, keep, c);
                    lemma_lowest_is_unique(entries, keep, b as int, c);
                },
                None => {
                    assert forall|c: int| !lowest(entries, keep, c) by {
                        if 0 <= c < entries.len() {
                            assert(!keep(entries[c]));
                        }
                    }
                },
            }
        }
        best
    }

    /// The module with the given file name: the path of its lowest mapping
    /// and the address at which that mapping starts. `None` when no file of
    /// that name is mapped.
    pub fn find_module(&self, name: &str) -> (found: Option<(String, u64)>)
        ensures
            match module_of(self@, name@) {
                Some((path, base)) => found matches Some(f) && f.0@ == path && f.1 == base,
                None => found is None,
            },
    {
        let sought = Sought::Module(name);
        assert((|e: MapEntryView| sought.wants(e)) =~= (|e: MapEntryView| is_module(e, name@)));
        match self.lowest_of(sought) {
            Some(i) => match &self.entries[i].entry.name {
                MapName::Path(path) => Some((path.clone(), self.entries[i].entry.begin)),
                _ => None,
            },
            None => None,
        }
    }

    /// The address range of the probe page, for the lowest such page if there
    /// are several. `None` when the target has none.
    pub fn uprobes_range(&self) -> (range: Option<(u64, u64)>)
        ensures
            range == uprobes_of(self@),
    {
        assert((|e: MapEntryView| Sought::Uprobes.wants(e)) =~= (|e: MapEntryView| is_uprobes(e)));
        match self.lowest_of(Sought::Uprobes) {
            Some(i) => Some((self.entries[i].entry.begin, self.entries[i].entry.end)),
            None => None,
        }
    }

    /// Where in its mapping an address lies, for telling where a target
    /// stopped: the distance of the address from the start of the first
    /// mapping that contains it. `None` for an address that is not mapped.
    pub fn fault_offset(&self, addr: u64) -> (offset: Option<u64>)
        ensures
            offset == offset_of(self@, addr),
    {
        let ghost entries = self@;
        let mut i: usize = 0;
        assert(entries.take(0) =~= Seq::<MapEntryView>::empty());
        while i < self.entries.len()
            invariant
                entries == self@,
                i <= entries.len(),
                first_containing(entries.take(i as int), addr) is None,
            decreases entries.len() - i,
        {
            let entry = &self.entries[i].entry;
            proof {
                assert(entries[i as int] == self.entries@[i as int]@);
                assert(entries.take(i + 1).drop_last() == entries.take(i as int));
                assert(entries.take(i + 1).last() == entries[i as int]);
            }
            if entry.begin <= addr && addr < entry.end {
                proof {
                    lemma_first_containing_extends(entries, addr, i + 1);
                }
                return Some(addr - entry.begin);
            }
            i += 1;
        }
        assert(entries.take(entries.len() as int) == entries);
        None
    }

    /// Number of mappings in the snapshot.
    pub fn len(&self) -> (n: usize)
        ensures
            n == self@.len(),
    {
        self.entries.len()
    }
}

/// What is found among the first mappings is found among all.
proof fn lemma_first_containing_extends(entries: Seq<MapEntryView>, addr: u64, n: int)
    requires
        0 <= n <= entries.len(),
        first_containing(entries.take(n), addr) is Some,
    ensures
        first_containing(entries, addr) == first_containing(entries.take(n), addr),
    decreases entries.len() - n,
{
    if n < entries.len() {
        assert(entries.take(n + 1).drop_last() == entries.take(n));
        lemma_first_containing_extends(entries, addr, n + 1);
    } else {
        assert(entries.take(n) == entries);
    }
}

} // verus!
