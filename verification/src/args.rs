//! What the build tool is told on its command line, and what it builds for.

use crate::text::str_eq;
use vstd::prelude::*;

verus! {

/// The kind of device that the loader is built for.
#[derive(Clone, Copy, Debug, PartialEq, Eq, Structural)]
pub enum Device {
    /// An emulator.
    Avd,
    /// A phone.
    Physical,
}

/// The arguments of the build tool.
#[derive(Clone, Copy, Debug, PartialEq, Eq, Structural)]
pub struct Args {
    pub device: Device,
    /// Whether an optimised build is made.
    pub release: bool,
    /// Whether the loader is put on the device and started.
    pub run: bool,
}

/// The target that the compiler is given for a kind of device.
pub open spec fn target_of(device: Device) -> Seq<char> {
    match device {
        Device::Avd => "x86_64-linux-android"@,
        Device::Physical => "aarch64-linux-android"@,
    }
}

/// The kind of device that a name on the command line stands for.
pub open spec fn device_named(name: Seq<char>) -> Option<Device> {
    if name == "avd"@ {
        Some(Device::Avd)
    } else if name == "phys"@ {
        Some(Device::Physical)
    } else {
        None
    }
}

impl Device {
    /// The target that the compiler is given.
    pub fn target(&self) -> (triple: String)
        ensures
            triple@ == target_of(*self),
    {
        match self {
            Device::Avd => "x86_64-linux-android".to_owned(),
            Device::Physical => "aarch64-linux-android".to_owned(),
        }
    }

    /// The kind of device that `name` stands for: `avd` or `phys`.
    pub fn from_name(name: &str) -> (device: Option<Device>)
        ensures
            device == device_named(name@),
    {
        if str_eq(name, "avd") {
            Some(Device::Avd)
        } else if str_eq(name, "phys") {
            Some(Device::Physical)
        } else {
            None
        }
    }
}

/// What a build is made with.
#[derive(Debug)]
pub struct BuildConfigs {
    pub target: String,
    pub release: bool,
}

/// The name of the directory in which the compiler leaves its output.
pub open spec fn profile_of(release: bool) -> Seq<char> {
    if release {
        "release"@
    } else {
        "debug"@
    }
}

impl BuildConfigs {
    /// What a build for the given arguments is made with.
    pub fn from(args: &Args) -> (configs: Self)
        ensures
            configs.target@ == target_of(args.device),
            configs.release == args.release,
    {
        Self { target: args.device.target(), release: args.release }
    }

    /// The name of the directory in which the compiler leaves its output.
    pub fn profile(&self) -> (name: &'static str)
        ensures
            name@ == profile_of(self.release),
    {
        if self.release {
            "release"
        } else {
            "debug"
        }
    }
}

/// The parts of the path under which the build leaves the file `name`,
/// below the root of the project.
pub open spec fn target_parts(target: Seq<char>, release: bool, name: Seq<char>) -> Seq<Seq<char>> {
    seq!["target"@, target, profile_of(release), name]
}

/// The parts of the path under which the build leaves the file `name`,
/// below the root of the project.
pub fn target_path(build_configs: &BuildConfigs, name: &str) -> (parts: Vec<String>)
    ensures
        parts@.map_values(|s: String| s@) == target_parts(
            build_configs.target@,
            build_configs.release,
            name@,
        ),
{
    let mut parts: Vec<String> = Vec::new();
    parts.push("target".to_owned());
    parts.push(build_configs.target.clone());
    parts.push(build_configs.profile().to_owned());
    parts.push(name.to_owned());
    assert(parts@.map_values(|s: String| s@) =~= target_parts(
        build_configs.target@,
        build_configs.release,
        name@,
    ));
    parts
}

} // verus!
