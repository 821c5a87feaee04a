//! What the shim for modules of another loader decides: whether a module is
//! taken, and which of the specialization arguments a module of a given
//! version is shown, in which order.

use crate::event::{le64, lemma_le64_of_bytes};
use crate::remote::{le_bytes, word_bytes};
use crate::zygote::Field;
use vstd::prelude::*;

verus! {

/// What a client asks of the daemon that keeps the modules.
#[derive(Clone, Copy, Debug, PartialEq, Eq, Structural)]
pub enum DaemonSocketAction {
    /// The modules are sent to the client.
    ReadModules,
}

impl DaemonSocketAction {
    /// The byte that stands for the action on the socket.
    pub open spec fn code(self) -> u8 {
        0
    }

    /// The action that a byte stands for.
    pub open spec fn of_code(byte: u8) -> Option<DaemonSocketAction> {
        if byte == 0 {
            Some(DaemonSocketAction::ReadModules)
        } else {
            None
        }
    }

    /// The action that a byte read from the socket stands for.
    pub fn from(value: u8) -> (action: Option<Self>)
        ensures
            action == Self::of_code(value),
    {
        if value == 0 {
            Some(DaemonSocketAction::ReadModules)
        } else {
            None
        }
    }

    /// The byte that is written to the socket for the action.
    pub fn into(self) -> (byte: u8)
        ensures
            byte == self.code(),
            Self::of_code(byte) == Some(self),
    {
        0
    }
}

/// Lowest version of the module interface that is taken.
pub const API_MIN: i64 = 1;

/// Highest version of the module interface that is taken.
pub const API_MAX: i64 = 4;

/// What a module registers: the version of the interface that it speaks,
/// its own address, and the addresses of its four hooks.
#[derive(Clone, Copy, Debug, PartialEq, Eq, Structural)]
pub struct ModuleAbi {
    pub version: i64,
    pub imp: u64,
    pub pras: u64,
    pub poas: u64,
    pub prss: u64,
    pub poss: u64,
}

impl ModuleAbi {
    /// A module is taken when its version is known, it has an address, and
    /// the addresses of its hooks have a bit in common.
    pub open spec fn valid(self) -> bool {
        &&& API_MIN <= self.version <= API_MAX
        &&& self.imp != 0
        &&& self.pras & self.poas & self.prss & self.poss != 0
    }

    /// Whether the module is taken.
    pub fn is_valid(&self) -> (valid: bool)
        ensures
            valid == self.valid(),
    {
        if self.version < API_MIN || self.version > API_MAX {
            return false;
        }
        if self.imp == 0 {
            return false;
        }
        self.pras & self.poas & self.prss & self.poss != 0
    }
}

/// What a module finds at one place of the arguments that it is shown.
#[derive(Clone, Copy, Debug, PartialEq, Eq, Structural)]
pub enum Shown {
    /// An argument of the specialization function.
    Argument(Field),
    /// Nothing: the loader has no such value.
    Nothing,
}

/// The arguments that a module of version `api` is shown when an
/// application is specialized, in their order. Versions 1 and 2 see fifteen
/// of them; versions 3 and 4 see the resource limits as well, and a place
/// for file descriptors that is left empty.
pub open spec fn app_args(api: i64) -> Seq<Shown> {
    let required = seq![
        Shown::Argument(Field::Uid),
        Shown::Argument(Field::Gid),
        Shown::Argument(Field::Gids),
        Shown::Argument(Field::RuntimeFlags),
    ];
    let named = seq![
        Shown::Argument(Field::MountExternal),
        Shown::Argument(Field::ManagedSeInfo),
        Shown::Argument(Field::ManagedNiceName),
        Shown::Argument(Field::ManagedInstructionSet),
        Shown::Argument(Field::ManagedAppDataDir),
    ];
    let optional = seq![
        Shown::Argument(Field::IsChildZygote),
        Shown::Argument(Field::IsTopApp),
        Shown::Argument(Field::PkgDataInfoList),
        Shown::Argument(Field::AllowlistedDataInfoList),
        Shown::Argument(Field::MountDataDirs),
        Shown::Argument(Field::MountStorageDirs),
    ];
    if api <= 2 {
        required + named + optional
    } else {
        required + seq![Shown::Argument(Field::Rlimits)] + named + seq![Shown::Nothing] + optional
    }
}

/// The arguments that a module is shown when the system server is
/// specialized.
pub open spec fn server_args() -> Seq<Shown> {
    seq![
        Shown::Argument(Field::Uid),
        Shown::Argument(Field::Gid),
        Shown::Argument(Field::Gids),
        Shown::Argument(Field::RuntimeFlags),
        Shown::Argument(Field::PermittedCapabilities),
        Shown::Argument(Field::EffectiveCapabilities),
    ]
}

/// The arguments that a module of a given version is shown when an
/// application is specialized.
#[derive(Debug)]
pub struct AppSpecializeArgs {
    pub shown: Vec<Shown>,
}

impl AppSpecializeArgs {
    /// The arguments for a module of version `api`, which must be a version
    /// that is taken.
    pub fn new(api: i64) -> (args: Self)
        requires
            API_MIN <= api <= API_MAX,
        ensures
            args.shown@ == app_args(api),
    {
        let mut shown: Vec<Shown> = Vec::new();
        shown.push(Shown::Argument(Field::Uid));
        shown.push(Shown::Argument(Field::Gid));
        shown.push(Shown::Argument(Field::Gids));
        shown.push(Shown::Argument(Field::RuntimeFlags));
        if api >= 3 {
            shown.push(Shown::Argument(Field::Rlimits));
        }
        shown.push(Shown::Argument(Field::MountExternal));
        shown.push(Shown::Argument(Field::ManagedSeInfo));
        shown.push(Shown::Argument(Field::ManagedNiceName));
        shown.push(Shown::Argument(Field::ManagedInstructionSet));
        shown.push(Shown::Argument(Field::ManagedAppDataDir));
        if api >= 3 {
            shown.push(Shown::Nothing);
        }
        shown.push(Shown::Argument(Field::IsChildZygote));
        shown.push(Shown::Argument(Field::IsTopApp));
        shown.push(Shown::Argument(Field::PkgDataInfoList));
        shown.push(Shown::Argument(Field::AllowlistedDataInfoList));
        shown.push(Shown::Argument(Field::MountDataDirs));
        shown.push(Shown::Argument(Field::MountStorageDirs));
        assert(shown@ =~= app_args(api));
        AppSpecializeArgs { shown }
    }
}

/// The arguments that a module is shown when the system server is
/// specialized.
#[derive(Debug)]
pub struct ServerSpecializeArgs {
    pub shown: Vec<Shown>,
}

impl ServerSpecializeArgs {
    /// The arguments for a module of version `api`, which must be a version
    /// that is taken.
    pub fn new(api: i64) -> (args: Self)
        requires
            API_MIN <= api <= API_MAX,
        ensures
            args.shown@ == server_args(),
    {
        let mut shown: Vec<Shown> = Vec::new();
        shown.push(Shown::Argument(Field::Uid));
        shown.push(Shown::Argument(Field::Gid));
        shown.push(Shown::Argument(Field::Gids));
        shown.push(Shown::Argument(Field::RuntimeFlags));
        shown.push(Shown::Argument(Field::PermittedCapabilities));
        shown.push(Shown::Argument(Field::EffectiveCapabilities));
        assert(shown@ =~= server_args());
        ServerSpecializeArgs { shown }
    }
}

/// The table through which a module and the shim find each other.
#[derive(Clone, Copy, Debug, PartialEq, Eq, Structural)]
pub struct ApiAbi {
    /// What the module registered, once it has.
    pub module_abi: Option<ModuleAbi>,
}

impl ApiAbi {
    /// A table in which no module is registered.
    pub fn new() -> (api: Self)
        ensures
            api.module_abi is None,
    {
        Self { module_abi: None }
    }

    /// Registers what a module hands in. A module that hands in nothing, or
    /// something that is not taken, is refused, and the table stays as it
    /// is.
    pub fn register(&mut self, module: Option<ModuleAbi>) -> (registered: bool)
        ensures
            registered == (module is Some && module->0.valid()),
            final(self).module_abi == if registered {
                module
            } else {
                old(self).module_abi
            },
    {
        match module {
            Some(abi) => {
                if abi.is_valid() {
                    self.module_abi = Some(abi);
                    true
                } else {
                    false
                }
            },
            None => false,
        }
    }
}

/// A module of the other loader, as the shim keeps it.
#[derive(Debug)]
pub struct ZygiskModule {
    id: String,
    api: ApiAbi,
}

impl ZygiskModule {
    /// The name under which the module is known.
    pub closed spec fn name(&self) -> Seq<char> {
        self.id@
    }

    /// What the module has registered.
    pub closed spec fn registered(&self) -> Option<ModuleAbi> {
        self.api.module_abi
    }

    /// A module that has registered nothing yet.
    pub fn new(name: &str) -> (module: Self)
        ensures
            module.name() == name@,
            module.registered() is None,
    {
        Self { id: name.to_owned(), api: ApiAbi::new() }
    }

    /// The name under which the module is known.
    pub fn id(&self) -> (name: &str)
        ensures
            name@ == self.name(),
    {
        self.id.as_str()
    }

    /// Takes what the module hands in when it is entered. Something that is
    /// not taken leaves the module as it is.
    pub fn entry(&mut self, module: Option<ModuleAbi>) -> (registered: bool)
        ensures
            final(self).name() == old(self).name(),
            registered == (module is Some && module->0.valid()),
            final(self).registered() == if registered {
                module
            } else {
                old(self).registered()
            },
    {
        self.api.register(module)
    }

    /// The arguments that the module is shown when an application is
    /// specialized; `None` while the module has registered nothing that is
    /// taken.
    pub fn args_app(&self) -> (args: Option<AppSpecializeArgs>)
        ensures
            match self.registered() {
                Some(abi) => if abi.valid() {
                    args is Some && args->0.shown@ == app_args(abi.version)
                } else {
                    args is None
                },
                None => args is None,
            },
    {
        match self.api.module_abi {
            Some(abi) => if abi.is_valid() {
                Some(AppSpecializeArgs::new(abi.version))
            } else {
                None
            },
            None => None,
        }
    }

    /// The arguments that the module is shown when the system server is
    /// specialized; `None` while the module has registered nothing that is
    /// taken.
    pub fn args_server(&self) -> (args: Option<ServerSpecializeArgs>)
        ensures
            match self.registered() {
                Some(abi) => if abi.valid() {
                    args is Some && args->0.shown@ == server_args()
                } else {
                    args is None
                },
                None => args is None,
            },
    {
        match self.api.module_abi {
            Some(abi) => if abi.is_valid() {
                Some(ServerSpecializeArgs::new(abi.version))
            } else {
                None
            },
            None => None,
        }
    }
}

/// A hook of a module.
#[derive(Clone, Copy, Debug, PartialEq, Eq, Structural)]
pub enum Hook {
    /// Before an application is specialized.
    PreAppSpecialize,
    /// After an application was specialized.
    PostAppSpecialize,
    /// Before the system server is specialized.
    PreServerSpecialize,
    /// After the system server was specialized.
    PostServerSpecialize,
}

/// The hook of a module that is called for a child: by whether the child
/// becomes the system server, and by whether the specialization is over.
pub fn hook_for(system_server: bool, specialized: bool) -> (hook: Hook)
    ensures
        hook == match (system_server, specialized) {
            (false, false) => Hook::PreAppSpecialize,
            (false, true) => Hook::PostAppSpecialize,
            (true, false) => Hook::PreServerSpecialize,
            (true, true) => Hook::PostServerSpecialize,
        },
{
    if system_server {
        if specialized {
            Hook::PostServerSpecialize
        } else {
            Hook::PreServerSpecialize
        }
    } else if specialized {
        Hook::PostAppSpecialize
    } else {
        Hook::PreAppSpecialize
    }
}

/// What the daemon sends in front of the modules: how many file descriptors
/// follow, and how many bytes their names take.
#[derive(Clone, Copy, Debug, PartialEq, Eq, Structural)]
pub struct ModulesHeader {
    pub fds_len: u64,
    pub buffer_len: u64,
}

/// Size of the header on the socket.
pub const HEADER_SIZE: usize = 16;

/// The bytes of a header: the two numbers, each with its low byte first.
pub open spec fn header_bytes(header: ModulesHeader) -> Seq<u8> {
    le_bytes(header.fds_len) + le_bytes(header.buffer_len)
}

/// The header that bytes stand for, if they have the size of one.
pub open spec fn header_of(bytes: Seq<u8>) -> Option<ModulesHeader> {
    if bytes.len() == 16 {
        Some(ModulesHeader { fds_len: le64(bytes, 0), buffer_len: le64(bytes, 8) })
    } else {
        None
    }
}

/// A header that was written is read back.
pub proof fn lemma_header_round_trip(header: ModulesHeader)
    ensures
        header_of(header_bytes(header)) == Some(header),
{
    let bytes = header_bytes(header);
    assert forall|k: int| 0 <= k < 8 implies bytes[0 + k] == #[trigger] crate::event::byte_at(
        header.fds_len,
        k,
    ) by {
        assert(bytes[k] == le_bytes(header.fds_len)[k]);
    }
    assert forall|k: int| 0 <= k < 8 implies bytes[8 + k] == #[trigger] crate::event::byte_at(
        header.buffer_len,
        k,
    ) by {
        assert(bytes[8 + k] == le_bytes(header.buffer_len)[k]);
    }
    lemma_le64_of_bytes(bytes, 0, header.fds_len);
    lemma_le64_of_bytes(bytes, 8, header.buffer_len);
}

impl ModulesHeader {
    /// The bytes that are written to the socket for the header.
    pub fn encode(&self) -> (bytes: Vec<u8>)
        ensures
            bytes@ == header_bytes(*self),
    {
        let first = word_bytes(self.fds_len);
        let second = word_bytes(self.buffer_len);
        let mut bytes: Vec<u8> = Vec::new();
        let mut i: usize = 0;
        while i < 8
            invariant
                i <= 8,
                bytes@ == first@.take(i as int),
            decreases 8 - i,
        {
            bytes.push(first[i]);
            assert(first@.take(i + 1) =~= first@.take(i as int).push(first@[i as int]));
            i += 1;
        }
        assert(first@.take(8) == first@);
        let mut k: usize = 0;
        while k < 8
            invariant
                k <= 8,
                bytes@ == first@ + second@.take(k as int),
            decreases 8 - k,
        {
            bytes.push(second[k]);
            assert(first@ + second@.take(k + 1) =~= (first@ + second@.take(k as int)).push(
                second@[k as int],
            ));
            k += 1;
        }
        assert(second@.take(8) == second@);
        bytes
    }

    /// The header that was read from the socket; `None` for bytes that do
    /// not have the size of one.
    pub fn decode(bytes: &[u8]) -> (header: Option<Self>)
        ensures
            header == header_of(bytes@),
    {
        if bytes.len() != HEADER_SIZE {
            return None;
        }
        Some(
            ModulesHeader {
                fds_len: crate::event::read64(bytes, 0),
                buffer_len: crate::event::read64(bytes, 8),
            },
        )
    }
}

} // verus!
