//! The arguments of the zygote's specialization function, as a versioned view
//! over the raw array of 64-bit slots that the loader captures.

use vstd::prelude::*;

verus! {

/// A parameter of the specialization function.
#[derive(Clone, Copy, Debug, PartialEq, Eq, Structural)]
pub enum Field {
    Env,
    Uid,
    Gid,
    Gids,
    RuntimeFlags,
    Rlimits,
    PermittedCapabilities,
    EffectiveCapabilities,
    BoundingCapabilities,
    MountExternal,
    ManagedSeInfo,
    ManagedNiceName,
    IsSystemServer,
    IsChildZygote,
    ManagedInstructionSet,
    ManagedAppDataDir,
    IsTopApp,
    PkgDataInfoList,
    AllowlistedDataInfoList,
    MountDataDirs,
    MountStorageDirs,
    MountSyspropOverrides,
}

/// Which parameter list the platform's specialization function has.
#[derive(Clone, Copy, Debug, PartialEq, Eq, Structural)]
pub enum Layout {
    /// SDK 31 to 34: twenty slots.
    Sdk31,
    /// SDK 35: twenty-two slots.
    Sdk35,
}

/// Why a raw array is not taken for specialization arguments.
#[derive(Clone, Copy, Debug, PartialEq, Eq, Structural)]
pub enum ArgsError {
    /// The platform's SDK version has no known layout.
    UnsupportedSdk,
    /// The raw array does not have the length that the layout asks for.
    WrongLength,
}

/// The layout of an SDK version, if it has one.
pub open spec fn layout_of(sdk: i32) -> Option<Layout> {
    if 31 <= sdk <= 34 {
        Some(Layout::Sdk31)
    } else if sdk == 35 {
        Some(Layout::Sdk35)
    } else {
        None
    }
}

/// Number of slots of a layout.
pub open spec fn slot_count(layout: Layout) -> nat {
    match layout {
        Layout::Sdk31 => 20,
        Layout::Sdk35 => 22,
    }
}

/// The slot that holds `field` under `layout`, if the layout has the field.
pub open spec fn slot_of(layout: Layout, field: Field) -> Option<nat> {
    match layout {
        Layout::Sdk31 => match field {
            Field::Env => Some(0),
            Field::Uid => Some(1),
            Field::Gid => Some(2),
            Field::Gids => Some(3),
            Field::RuntimeFlags => Some(4),
            Field::Rlimits => Some(5),
            Field::PermittedCapabilities => Some(6),
            Field::EffectiveCapabilities => Some(7),
            Field::BoundingCapabilities => None,
            Field::MountExternal => Some(8),
            Field::ManagedSeInfo => Some(9),
            Field::ManagedNiceName => Some(10),
            Field::IsSystemServer => Some(11),
            Field::IsChildZygote => Some(12),
            Field::ManagedInstructionSet => Some(13),
            Field::ManagedAppDataDir => Some(14),
            Field::IsTopApp => Some(15),
            Field::PkgDataInfoList => Some(16),
            Field::AllowlistedDataInfoList => Some(17),
            Field::MountDataDirs => Some(18),
            Field::MountStorageDirs => Some(19),
            Field::MountSyspropOverrides => None,
        },
        Layout::Sdk35 => match field {
            Field::Env => Some(0),
            Field::Uid => Some(1),
            Field::Gid => Some(2),
            Field::Gids => Some(3),
            Field::RuntimeFlags => Some(4),
            Field::Rlimits => Some(5),
            Field::PermittedCapabilities => Some(6),
            Field::EffectiveCapabilities => Some(7),
            Field::BoundingCapabilities => Some(8),
            Field::MountExternal => Some(9),
            Field::ManagedSeInfo => Some(10),
            Field::ManagedNiceName => Some(11),
            Field::IsSystemServer => Some(12),
            Field::IsChildZygote => Some(13),
            Field::ManagedInstructionSet => Some(14),
            Field::ManagedAppDataDir => Some(15),
            Field::IsTopApp => Some(16),
            Field::PkgDataInfoList => Some(17),
            Field::AllowlistedDataInfoList => Some(18),
            Field::MountDataDirs => Some(19),
            Field::MountStorageDirs => Some(20),
            Field::MountSyspropOverrides => Some(21),
        },
    }
}

/// Every slot of a layout holds exactly one field: no two fields share a
/// slot, every slot lies inside the array, and `field_at` names the field of
/// each slot.
pub proof fn lemma_slots_are_a_bijection(layout: Layout)
    ensures
        forall|f: Field, g: Field|
            slot_of(layout, f) is Some && slot_of(layout, f) == slot_of(layout, g) ==> f == g,
        forall|f: Field| slot_of(layout, f) is Some ==> slot_of(layout, f)->0 < slot_count(layout),
        forall|i: nat|
            i < slot_count(layout) ==> slot_of(layout, #[trigger] field_at(layout, i)) == Some(i),
{
}

/// The field that a slot of a layout holds.
pub open spec fn field_at(layout: Layout, i: nat) -> Field {
    let shifted = match layout {
        Layout::Sdk31 => if i >= 8 {
            i + 1
        } else {
            i
        },
        Layout::Sdk35 => i,
    };
    if shifted == 0 {
        Field::Env
    } else if shifted == 1 {
        Field::Uid
    } else if shifted == 2 {
        Field::Gid
    } else if shifted == 3 {
        Field::Gids
    } else if shifted == 4 {
        Field::RuntimeFlags
    } else if shifted == 5 {
        Field::Rlimits
    } else if shifted == 6 {
        Field::PermittedCapabilities
    } else if shifted == 7 {
        Field::EffectiveCapabilities
    } else if shifted == 8 {
        Field::BoundingCapabilities
    } else if shifted == 9 {
        Field::MountExternal
    } else if shifted == 10 {
        Field::ManagedSeInfo
    } else if shifted == 11 {
        Field::ManagedNiceName
    } else if shifted == 12 {
        Field::IsSystemServer
    } else if shifted == 13 {
        Field::IsChildZygote
    } else if shifted == 14 {
        Field::ManagedInstructionSet
    } else if shifted == 15 {
        Field::ManagedAppDataDir
    } else if shifted == 16 {
        Field::IsTopApp
    } else if shifted == 17 {
        Field::PkgDataInfoList
    } else if shifted == 18 {
        Field::AllowlistedDataInfoList
    } else if shifted == 19 {
        Field::MountDataDirs
    } else if shifted == 20 {
        Field::MountStorageDirs
    } else {
        Field::MountSyspropOverrides
    }
}

impl Field {
    /// Position of the field in the newest parameter list.
    pub fn ordinal(self) -> (n: usize)
        ensures
            slot_of(Layout::Sdk35, self) == Some(n as nat),
    {
        match self {
            Field::Env => 0,
            Field::Uid => 1,
            Field::Gid => 2,
            Field::Gids => 3,
            Field::RuntimeFlags => 4,
            Field::Rlimits => 5,
            Field::PermittedCapabilities => 6,
            Field::EffectiveCapabilities => 7,
            Field::BoundingCapabilities => 8,
            Field::MountExternal => 9,
            Field::ManagedSeInfo => 10,
            Field::ManagedNiceName => 11,
            Field::IsSystemServer => 12,
            Field::IsChildZygote => 13,
            Field::ManagedInstructionSet => 14,
            Field::ManagedAppDataDir => 15,
            Field::IsTopApp => 16,
            Field::PkgDataInfoList => 17,
            Field::AllowlistedDataInfoList => 18,
            Field::MountDataDirs => 19,
            Field::MountStorageDirs => 20,
            Field::MountSyspropOverrides => 21,
        }
    }
}

impl Layout {
    /// The layout for an SDK version. Versions without a known parameter
    /// list are refused.
    pub fn for_sdk(sdk: i32) -> (layout: Result<Layout, ArgsError>)
        ensures
            match layout_of(sdk) {
                Some(l) => layout == Ok::<Layout, ArgsError>(l),
                None => layout == Err::<Layout, ArgsError>(ArgsError::UnsupportedSdk),
            },
    {
        if sdk >= 36 || sdk < 31 {
            Err(ArgsError::UnsupportedSdk)
        } else if sdk >= 35 {
            Ok(Layout::Sdk35)
        } else {
            Ok(Layout::Sdk31)
        }
    }

    /// Number of slots in the raw array.
    pub fn len(self) -> (n: usize)
        ensures
            n == slot_count(self),
    {
        match self {
            Layout::Sdk31 => 20,
            Layout::Sdk35 => 22,
        }
    }

    /// The slot of `field`, or `None` where this layout has no such
    /// parameter.
    pub fn slot(self, field: Field) -> (slot: Option<usize>)
        ensures
            match slot_of(self, field) {
                Some(i) => slot == Some(i as usize) && i < slot_count(self),
                None => slot is None,
            },
    {
        let n: usize = field.ordinal();
        match self {
            Layout::Sdk35 => Some(n),
            Layout::Sdk31 => {
                if n < 8 {
                    Some(n)
                } else if n == 8 || n == 21 {
                    None
                } else {
                    Some(n - 1)
                }
            },
        }
    }
}

/// A snapshot of the specialization arguments: the raw slots together with
/// the layout that gives them meaning.
#[derive(Clone, Debug)]
pub struct SpecializeArgs {
    layout: Layout,
    slots: Vec<u64>,
}

/// The 32-bit integer that a slot holds in its low half.
pub open spec fn low_word(slot: u64) -> u32 {
    (slot % 0x1_0000_0000) as u32
}

/// The byte that a slot holds at its lowest address.
pub open spec fn low_byte(slot: u64) -> u8 {
    (slot % 0x100) as u8
}

impl SpecializeArgs {
    /// The layout that gives the slots their meaning.
    pub closed spec fn layout(&self) -> Layout {
        self.layout
    }

    /// The raw slots.
    pub closed spec fn slots(&self) -> Seq<u64> {
        self.slots@
    }

    /// The array has the length that the layout asks for.
    pub open spec fn wf(&self) -> bool {
        self.slots().len() == slot_count(self.layout())
    }

    /// The value of `field`, if the layout has it.
    pub open spec fn value_of(&self, field: Field) -> Option<u64> {
        match slot_of(self.layout(), field) {
            Some(i) => Some(self.slots()[i as int]),
            None => None,
        }
    }

    /// Reads a raw array captured on a platform of the given SDK version.
    pub fn from(sdk: i32, raw: &[u64]) -> (args: Result<SpecializeArgs, ArgsError>)
        ensures
            match layout_of(sdk) {
                None => args == Err::<SpecializeArgs, ArgsError>(ArgsError::UnsupportedSdk),
                Some(l) => if raw@.len() == slot_count(l) {
                    &&& args is Ok
                    &&& args->Ok_0.wf()
                    &&& args->Ok_0.layout() == l
                    &&& args->Ok_0.slots() == raw@
                } else {
                    args == Err::<SpecializeArgs, ArgsError>(ArgsError::WrongLength)
                },
            },
    {
        let layout = match Layout::for_sdk(sdk) {
            Ok(l) => l,
            Err(e) => {
                return Err(e);
            },
        };
        if raw.len() != layout.len() {
            return Err(ArgsError::WrongLength);
        }
        let slots = vstd::slice::slice_to_vec(raw);
        Ok(SpecializeArgs { layout, slots })
    }

    /// The raw slots, in the order of the parameter list.
    pub fn as_slice(&self) -> (raw: &[u64])
        ensures
            raw@ == self.slots(),
    {
        self.slots.as_slice()
    }

    /// The value of `field`, or `None` where the layout has no such
    /// parameter.
    pub fn get(&self, field: Field) -> (value: Option<u64>)
        requires
            self.wf(),
        ensures
            value == self.value_of(field),
    {
        match self.layout.slot(field) {
            Some(i) => Some(self.slots[i]),
            None => None,
        }
    }

    /// Stores `value` as `field`. Where the layout has no such parameter
    /// nothing changes and the answer is `false`.
    pub fn set(&mut self, field: Field, value: u64) -> (stored: bool)
        requires
            old(self).wf(),
        ensures
            final(self).wf(),
            final(self).layout() == old(self).layout(),
            stored == (slot_of(old(self).layout(), field) is Some),
            match slot_of(old(self).layout(), field) {
                Some(i) => final(self).slots() == old(self).slots().update(i as int, value),
                None => final(self).slots() == old(self).slots(),
            },
    {
        match self.layout.slot(field) {
            Some(i) => {
                self.slots.set(i, value);
                true
            },
            None => false,
        }
    }

    /// The JNI environment pointer.
    pub fn env(&self) -> (env: u64)
        requires
            self.wf(),
        ensures
            Some(env) == self.value_of(Field::Env),
    {
        self.slots[0]
    }

    /// The user id that the child is about to take.
    pub fn uid(&self) -> (uid: u32)
        requires
            self.wf(),
        ensures
            uid == low_word(self.value_of(Field::Uid)->0),
    {
        (self.slots[1] % 0x1_0000_0000) as u32
    }

    /// Whether the child becomes the system server.
    pub fn is_system_server(&self) -> (server: bool)
        requires
            self.wf(),
        ensures
            server == (low_byte(self.value_of(Field::IsSystemServer)->0) != 0),
    {
        let slot: u64 = match self.layout {
            Layout::Sdk31 => self.slots[11],
            Layout::Sdk35 => self.slots[12],
        };
        (slot % 0x100) as u8 != 0
    }
}

} // verus!
