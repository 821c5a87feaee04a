//! Mount scrubber: which mount points of a child's mount namespace are
//! detached, and in what order.

use crate::text::{str_eq, str_starts_with};
use vstd::prelude::*;
use vstd::utf8::encode_utf8;

verus! {

/// Directory under which KernelSU mounts its module image.
pub const MODULE_DIR: &'static str = "/data/adb/modules";

/// Directory that holds everything a root solution keeps on the data
/// partition.
pub const DATA_ADB: &'static str = "/data/adb";

/// Which root solution manages the device.
#[derive(Clone, Copy, Debug, PartialEq, Eq, Structural)]
pub enum RootImpl {
    Magisk,
    KernelSU,
}

impl RootImpl {
    /// The root solution in charge, given whether the environment names
    /// KernelSU.
    pub fn current(ksu: bool) -> (root: Self)
        ensures
            root == if ksu {
                RootImpl::KernelSU
            } else {
                RootImpl::Magisk
            },
    {
        if ksu {
            RootImpl::KernelSU
        } else {
            RootImpl::Magisk
        }
    }
}

/// One line of a mount table, as far as the scrubber reads it.
#[derive(Clone, Debug)]
pub struct Mount {
    /// Directory inside the mounted filesystem that forms the root of the mount.
    pub root: String,
    /// Where the filesystem is mounted.
    pub mount_point: String,
    /// Filesystem type.
    pub fs_type: String,
    /// Mount source, if the table names one.
    pub mount_source: Option<String>,
}

/// A line of a mount table as a plain value, with where its mount point
/// lies.
pub struct MountView {
    pub root: Seq<char>,
    pub mount_point: Seq<char>,
    pub fs_type: Seq<char>,
    pub mount_source: Option<Seq<char>>,
    /// Whether the mount point is the module directory.
    pub is_module_dir: bool,
    /// Whether the mount point lies under the directory of the root
    /// solution.
    pub under_data_adb: bool,
}

impl View for Mount {
    type V = MountView;

    open spec fn view(&self) -> MountView {
        MountView {
            root: self.root@,
            mount_point: self.mount_point@,
            fs_type: self.fs_type@,
            mount_source: match self.mount_source {
                Some(source) => Some(source@),
                None => None,
            },
            is_module_dir: path_equals(self.mount_point@, MODULE_DIR@),
            under_data_adb: path_starts_with(self.mount_point@, DATA_ADB@),
        }
    }
}

/// A line of a mount table together with where its mount point lies.
#[derive(Debug)]
pub struct Placed {
    pub mount: Mount,
    /// Whether the mount point is the module directory.
    pub is_module_dir: bool,
    /// Whether the mount point lies under the directory of the root
    /// solution.
    pub under_data_adb: bool,
}

impl View for Placed {
    type V = MountView;

    open spec fn view(&self) -> MountView {
        MountView {
            root: self.mount.root@,
            mount_point: self.mount.mount_point@,
            fs_type: self.mount.fs_type@,
            mount_source: match self.mount.mount_source {
                Some(source) => Some(source@),
                None => None,
            },
            is_module_dir: self.is_module_dir,
            under_data_adb: self.under_data_adb,
        }
    }
}

/// The placed mount table as a sequence of views.
pub open spec fn placed_table(mounts: Seq<Placed>) -> Seq<MountView> {
    mounts.map_values(|m: Placed| m@)
}

/// The mount table as a sequence of views.
pub open spec fn table(mounts: Seq<Mount>) -> Seq<MountView> {
    mounts.map_values(|m: Mount| m@)
}

/// The texts that a list of strings holds.
pub open spec fn texts(list: Seq<String>) -> Seq<Seq<char>> {
    list.map_values(|s: String| s@)
}

/// What `std::path::Path::starts_with` answers when `path` is asked whether
/// it begins with `base`: a comparison of whole path components.
pub uninterp spec fn path_starts_with(path: Seq<char>, base: Seq<char>) -> bool;

/// What `==` answers for the two texts taken as `std::path::Path`: a
/// comparison of their components.
pub uninterp spec fn path_equals(a: Seq<char>, b: Seq<char>) -> bool;

/// `std::path::Path::starts_with`. Nothing is claimed of the answer but that
/// it is the one std gives for these two texts.
#[verifier::external_body]
fn path_has_prefix(path: &str, base: &str) -> (under: bool)
    ensures
        under == path_starts_with(path@, base@),
{
    std::path::Path::new(path).starts_with(base)
}

/// `==` of `std::path::Path`. Nothing is claimed of the answer but that it is
/// the one std gives for these two texts.
#[verifier::external_body]
fn same_path(a: &str, b: &str) -> (same: bool)
    ensures
        same == path_equals(a@, b@),
{
    std::path::Path::new(a) == std::path::Path::new(b)
}

/// Magisk policy: the source is `magisk` or `worker`, or the root begins
/// with `/adb/modules`.
pub open spec fn magisk_selects(m: MountView) -> bool {
    ||| m.mount_source == Some("magisk"@)
    ||| m.mount_source == Some("worker"@)
    ||| encode_utf8("/adb/modules"@).is_prefix_of(encode_utf8(m.root))
}

/// The mount of the module directory itself, when the table names its
/// source: that source is the loop device that backs the modules.
pub open spec fn names_loop_device(m: MountView) -> bool {
    m.is_module_dir && m.mount_source is Some
}

/// The loop device that backs the module directory: the source of the last
/// line that names one.
pub open spec fn loop_device(ms: Seq<MountView>) -> Option<Seq<char>>
    decreases ms.len(),
{
    if ms.len() == 0 {
        None
    } else if names_loop_device(ms.last()) {
        ms.last().mount_source
    } else {
        loop_device(ms.drop_last())
    }
}

/// KernelSU policy for a single line, given the loop device that backs the
/// module directory, if the table names one: the mount point lies under
/// `/data/adb`, or the source of the line is that loop device, or its source
/// is `KSU` and its type `overlay` or `tmpfs`.
pub open spec fn kernelsu_selects(m: MountView, device: Option<Seq<char>>) -> bool {
    ||| m.under_data_adb
    ||| (device is Some && m.mount_source == device)
    ||| (m.mount_source == Some("KSU"@) && (m.fs_type == "overlay"@ || m.fs_type == "tmpfs"@))
}

/// The mount points of the lines that `keep` selects, in table order.
pub open spec fn mount_points_where(
    ms: Seq<MountView>,
    keep: spec_fn(MountView) -> bool,
) -> Seq<Seq<char>> {
    ms.filter_map(
        |m: MountView|
            if keep(m) {
                Some(m.mount_point)
            } else {
                None
            },
    )
}

/// Mount points selected under the Magisk policy, in table order.
pub open spec fn magisk_mount_points(ms: Seq<MountView>) -> Seq<Seq<char>> {
    mount_points_where(ms, |m: MountView| magisk_selects(m))
}

/// Mount points selected under the KernelSU policy, in table order, each
/// line once. The loop device is looked for in the whole table first, so a
/// line that it backs is selected wherever it stands.
pub open spec fn kernelsu_mount_points(ms: Seq<MountView>) -> Seq<Seq<char>> {
    mount_points_where(ms, |m: MountView| kernelsu_selects(m, loop_device(ms)))
}

/// Mount points that the given policy selects.
pub open spec fn selected_mount_points(ms: Seq<MountView>, root: RootImpl) -> Seq<Seq<char>> {
    match root {
        RootImpl::Magisk => magisk_mount_points(ms),
        RootImpl::KernelSU => kernelsu_mount_points(ms),
    }
}

proof fn lemma_select_step(ms: Seq<MountView>, keep: spec_fn(MountView) -> bool, i: int)
    requires
        0 <= i < ms.len(),
    ensures
        mount_points_where(ms.take(i + 1), keep) == if keep(ms[i]) {
            mount_points_where(ms.take(i), keep).push(ms[i].mount_point)
        } else {
            mount_points_where(ms.take(i), keep)
        },
{
    let f = |m: MountView|
        if keep(m) {
            Some(m.mount_point)
        } else {
            None
        };
    ms.lemma_filter_map_take_succ(f, i);
    assert(mount_points_where(ms.take(i), keep) + seq![ms[i].mount_point] == mount_points_where(
        ms.take(i),
        keep,
    ).push(ms[i].mount_point));
}

fn source_is(m: &Mount, name: &str) -> (same: bool)
    ensures
        same == (m@.mount_source == Some(name@)),
{
    match &m.mount_source {
        Some(source) => str_eq(source.as_str(), name),
        None => false,
    }
}

fn magisk_keeps(m: &Mount) -> (keep: bool)
    ensures
        keep == magisk_selects(m@),
{
    source_is(m, "magisk") || source_is(m, "worker") || str_starts_with(
        m.root.as_str(),
        "/adb/modules",
    )
}

fn is_loop_device_line(m: &Placed) -> (names: bool)
    ensures
        names == names_loop_device(m@),
{
    m.is_module_dir && m.mount.mount_source.is_some()
}

/// The text of a source, if there is one.
pub open spec fn source_text(source: Option<String>) -> Option<Seq<char>> {
    match source {
        Some(text) => Some(text@),
        None => None,
    }
}

fn kernelsu_keeps(m: &Placed, device: &Option<String>) -> (keep: bool)
    ensures
        keep == kernelsu_selects(m@, source_text(*device)),
{
    if m.under_data_adb {
        return true;
    }
    let backed = match device {
        Some(d) => source_is(&m.mount, d.as_str()),
        None => false,
    };
    backed || (source_is(&m.mount, "KSU") && (str_eq(m.mount.fs_type.as_str(), "overlay") || str_eq(
        m.mount.fs_type.as_str(),
        "tmpfs",
    )))
}

/// The loop device that backs the module directory, if the table names one.
pub fn find_loop_device(mounts: &Vec<Placed>) -> (device: Option<String>)
    ensures
        source_text(device) == loop_device(placed_table(mounts@)),
{
    let ghost ms = placed_table(mounts@);
    let mut left: usize = mounts.len();
    assert(ms.take(left as int) == ms);
    while left > 0
        invariant
            ms == placed_table(mounts@),
            left <= mounts@.len(),
            loop_device(ms) == loop_device(ms.take(left as int)),
        decreases left,
    {
        let m = &mounts[left - 1];
        proof {
            assert(ms[left - 1] == m@);
            assert(ms.take(left as int).last() == ms[left - 1]);
            assert(ms.take(left as int).drop_last() == ms.take(left - 1));
        }
        if is_loop_device_line(m) {
            return match &m.mount.mount_source {
                Some(source) => Some(source.clone()),
                None => None,
            };
        }
        left -= 1;
    }
    None
}

/// Finds out where the mount point of a line lies.
pub fn place(mount: &Mount) -> (placed: Placed)
    ensures
        placed@ == mount@,
{
    Placed {
        mount: Mount {
            root: mount.root.clone(),
            mount_point: mount.mount_point.clone(),
            fs_type: mount.fs_type.clone(),
            mount_source: match &mount.mount_source {
                Some(source) => Some(source.clone()),
                None => None,
            },
        },
        is_module_dir: same_path(mount.mount_point.as_str(), MODULE_DIR),
        under_data_adb: path_has_prefix(mount.mount_point.as_str(), DATA_ADB),
    }
}

/// Mount points to detach under the Magisk policy, in table order.
pub fn filter_mounts_magisk(mounts: &Vec<Mount>) -> (points: Vec<String>)
    ensures
        texts(points@) == magisk_mount_points(table(mounts@)),
{
    let ghost ms = table(mounts@);
    let ghost keep = |m: MountView| magisk_selects(m);
    let mut points: Vec<String> = Vec::new();
    let mut i: usize = 0;
    proof {
        assert(mount_points_where(ms.take(0), keep) =~= Seq::<Seq<char>>::empty());
        assert(texts(points@) =~= Seq::<Seq<char>>::empty());
    }
    while i < mounts.len()
        invariant
            ms == table(mounts@),
            keep == (|m: MountView| magisk_selects(m)),
            i <= mounts@.len(),
            texts(points@) == mount_points_where(ms.take(i as int), keep),
        decreases mounts@.len() - i,
    {
        let m = &mounts[i];
        proof {
            lemma_select_step(ms, keep, i as int);
            assert(ms[i as int] == m@);
        }
        if magisk_keeps(m) {
            let ghost before = points@;
            points.push(m.mount_point.clone());
            assert(texts(points@) =~= texts(before).push(m@.mount_point));
        }
        i += 1;
    }
    assert(ms.take(mounts@.len() as int) == ms);
    points
}

/// Mount points to detach under the KernelSU policy, for a table whose
/// lines have been placed: every line that the policy selects, once, in
/// table order.
pub fn select_kernelsu(mounts: &Vec<Placed>) -> (points: Vec<String>)
    ensures
        texts(points@) == kernelsu_mount_points(placed_table(mounts@)),
{
    let ghost ms = placed_table(mounts@);
    let device = find_loop_device(mounts);
    let ghost found = source_text(device);
    let ghost keep = |m: MountView| kernelsu_selects(m, found);
    assert(found == loop_device(ms));
    let mut points: Vec<String> = Vec::new();
    let mut i: usize = 0;
    proof {
        assert(mount_points_where(ms.take(0), keep) =~= Seq::<Seq<char>>::empty());
        assert(texts(points@) =~= Seq::<Seq<char>>::empty());
    }
    while i < mounts.len()
        invariant
            ms == placed_table(mounts@),
            found == source_text(device),
            keep == (|m: MountView| kernelsu_selects(m, found)),
            i <= mounts@.len(),
            texts(points@) == mount_points_where(ms.take(i as int), keep),
        decreases mounts@.len() - i,
    {
        let m = &mounts[i];
        proof {
            lemma_select_step(ms, keep, i as int);
            assert(ms[i as int] == m@);
        }
        if kernelsu_keeps(m, &device) {
            let ghost before = points@;
            points.push(m.mount.mount_point.clone());
            assert(texts(points@) =~= texts(before).push(m@.mount_point));
        }
        i += 1;
    }
    assert(ms.take(mounts@.len() as int) == ms);
    assert(keep == (|m: MountView| kernelsu_selects(m, loop_device(ms))));
    points
}

/// Mount points to detach under the KernelSU policy: every line that the
/// policy selects, once, in table order.
pub fn filter_mounts_kernelsu(mounts: &Vec<Mount>) -> (points: Vec<String>)
    ensures
        texts(points@) == kernelsu_mount_points(table(mounts@)),
{
    let mut placed: Vec<Placed> = Vec::new();
    let mut i: usize = 0;
    while i < mounts.len()
        invariant
            i <= mounts@.len(),
            placed@.len() == i,
            forall|k: int| 0 <= k < i ==> placed@[k]@ == mounts@[k]@,
        decreases mounts@.len() - i,
    {
        placed.push(place(&mounts[i]));
        i += 1;
    }
    assert(placed_table(placed@) =~= table(mounts@));
    select_kernelsu(&placed)
}

/// The mount points to detach from a mount table under the policy of `root`,
/// in the order in which they are detached: the reverse of the order in which
/// the policy selects them, so that what was mounted later goes first.
pub fn umount_module_files(mounts: &Vec<Mount>, root: RootImpl) -> (order: Vec<String>)
    ensures
        texts(order@) == selected_mount_points(table(mounts@), root).reverse(),
{
    let selected = match root {
        RootImpl::Magisk => filter_mounts_magisk(mounts),
        RootImpl::KernelSU => filter_mounts_kernelsu(mounts),
    };
    let mut order: Vec<String> = Vec::new();
    let mut left: usize = selected.len();
    while left > 0
        invariant
            left <= selected@.len(),
            order@.len() == selected@.len() - left,
            forall|k: int| 0 <= k < order@.len() ==> order@[k]@ == selected@[selected@.len() - 1 - k]@,
        decreases left,
    {
        left -= 1;
        order.push(selected[left].clone());
    }
    assert(texts(order@) =~= texts(selected@).reverse());
    order
}

/// Whether mounts are scrubbed for the processes of a user: whether the
/// list of denied users names it.
pub fn check(denylist: &Vec<u32>, uid: u32) -> (denied: bool)
    ensures
        denied == denylist@.contains(uid),
{
    let mut i: usize = 0;
    while i < denylist.len()
        invariant
            i <= denylist@.len(),
            forall|k: int| 0 <= k < i ==> denylist@[k] != uid,
        decreases denylist@.len() - i,
    {
        if denylist[i] == uid {
            return true;
        }
        i += 1;
    }
    false
}

} // verus!
