//! Command lines for the debug bridge, by which the loader is put on a
//! device. The commands are worked out here and run elsewhere.

use crate::text::str_starts_with;
use shell_quote::QuoteExt;
use vstd::prelude::*;
use vstd::string::StringExecFns;
use vstd::string::StringSliceAdditionalSpecFns;
use vstd::utf8::encode_utf8;

verus! {

/// What a finished command left behind.
#[derive(Debug)]
pub struct ExecResult {
    /// The exit code.
    pub code: i32,
    /// What the command wrote to its standard output.
    pub stdout: String,
}

/// A call of the debug bridge.
#[derive(Debug)]
pub struct Invocation {
    /// The arguments, without the name of the program.
    pub args: Vec<String>,
    /// Whether the output goes to the terminal instead of being captured.
    pub piped: bool,
}

/// A call of the debug bridge, with its arguments as texts.
pub struct InvocationView {
    pub args: Seq<Seq<char>>,
    pub piped: bool,
}

impl View for Invocation {
    type V = InvocationView;

    open spec fn view(&self) -> InvocationView {
        InvocationView { args: self.args@.map_values(|s: String| s@), piped: self.piped }
    }
}

/// What `shell_quote` makes of a text for Bash.
pub uninterp spec fn bash_quoted(text: Seq<char>) -> Seq<char>;

/// `shell_quote::QuoteExt::push_quoted` with `shell_quote::Bash`, on an
/// empty string: the text in the form in which Bash reads it as one word.
#[verifier::external_body]
fn bash_quote(text: &str) -> (quoted: String)
    ensures
        quoted@ == bash_quoted(text@),
{
    let mut quoted = String::new();
    quoted.push_quoted(shell_quote::Bash, text);
    quoted
}

/// Directory in which an emulator keeps the program that gives root.
pub const XBIN: &'static str = "/system/xbin";

/// How root is taken on an emulator.
pub const SU_AVD: &'static str = "su 0 sh -c";

/// How root is taken on any other device.
pub const SU: &'static str = "su -c";

/// A device, by the serial number under which the debug bridge knows it.
#[derive(Debug)]
pub struct Device {
    pub serial: String,
    su: String,
}

/// The way in which root is taken on a device on which `which su` printed
/// `found`.
pub open spec fn su_for(found: Seq<char>) -> Seq<char> {
    if encode_utf8(XBIN@).is_prefix_of(encode_utf8(found)) {
        SU_AVD@
    } else {
        SU@
    }
}

/// The arguments of a call for the device `serial`.
pub open spec fn for_device(serial: Seq<char>, args: Seq<Seq<char>>) -> Seq<Seq<char>> {
    seq!["-s"@, serial] + args
}

/// The command that runs `command` as root: the way of taking root, a
/// blank, and the command quoted as one word.
pub open spec fn as_root(su: Seq<char>, command: Seq<char>) -> Seq<char> {
    su + " "@ + bash_quoted(command)
}

impl Device {
    /// The serial number of the device.
    pub closed spec fn name(&self) -> Seq<char> {
        self.serial@
    }

    /// The way in which root is taken on the device.
    pub closed spec fn su(&self) -> Seq<char> {
        self.su@
    }

    /// The device with the serial number `serial`, on which `which su`
    /// printed `found`.
    pub fn from_serial(serial: &str, found: &str) -> (device: Self)
        ensures
            device.name() == serial@,
            device.su() == su_for(found@),
    {
        let mut device = Self { serial: serial.to_owned(), su: String::new() };
        device.initialize(found);
        device
    }

    /// Settles how root is taken, by what `which su` printed on the device.
    pub fn initialize(&mut self, found: &str)
        ensures
            final(self).name() == old(self).name(),
            final(self).su() == su_for(found@),
    {
        let is_avd = str_starts_with(found, XBIN);
        self.su = if is_avd {
            SU_AVD.to_owned()
        } else {
            SU.to_owned()
        };
    }

    /// The arguments of a call that is meant for this device.
    pub fn prepend_serial(&self, args: Vec<String>) -> (all: Vec<String>)
        ensures
            all@.map_values(|s: String| s@) == for_device(
                self.name(),
                args@.map_values(|s: String| s@),
            ),
    {
        let ghost wanted = for_device(self.serial@, args@.map_values(|s: String| s@));
        let ghost given = args@;
        let mut all: Vec<String> = Vec::new();
        all.push("-s".to_owned());
        all.push(self.serial.clone());
        for arg in it: args
            invariant
                it.seq() == given,
                wanted == for_device(self.serial@, given.map_values(|s: String| s@)),
                all@.len() == 2 + it.index(),
                forall|k: int| 0 <= k < all@.len() ==> all@[k]@ == wanted[k],
        {
            all.push(arg);
        }
        assert(all@.map_values(|s: String| s@) =~= wanted);
        all
    }

    fn invocation(&self, first: &str, rest: Vec<String>, piped: bool) -> (call: Invocation)
        ensures
            call@ == (InvocationView {
                args: for_device(self.name(), seq![first@] + rest@.map_values(|s: String| s@)),
                piped,
            }),
    {
        let ghost given = rest@;
        let mut args: Vec<String> = Vec::new();
        args.push(first.to_owned());
        for arg in it: rest
            invariant
                it.seq() == given,
                args@.len() == 1 + it.index(),
                args@[0]@ == first@,
                forall|k: int| 1 <= k < args@.len() ==> args@[k]@ == given[k - 1]@,
        {
            args.push(arg);
        }
        assert(args@.map_values(|s: String| s@) =~= seq![first@] + given.map_values(
            |s: String| s@,
        ));
        Invocation { args: self.prepend_serial(args), piped }
    }

    /// The call that copies the file `from` to `to` on the device.
    pub fn push(&self, from: &str, to: &str) -> (call: Invocation)
        ensures
            call@ == (InvocationView {
                args: for_device(self.name(), seq!["push"@, from@, to@]),
                piped: true,
            }),
    {
        let mut rest: Vec<String> = Vec::new();
        rest.push(from.to_owned());
        rest.push(to.to_owned());
        assert(seq!["push"@] + rest@.map_values(|s: String| s@) =~= seq!["push"@, from@, to@]);
        self.invocation("push", rest, true)
    }

    /// The call that runs `command` on the device and captures what it
    /// prints.
    pub fn shell(&self, command: &str) -> (call: Invocation)
        ensures
            call@ == (InvocationView {
                args: for_device(self.name(), seq!["shell"@, command@]),
                piped: false,
            }),
    {
        let mut rest: Vec<String> = Vec::new();
        rest.push(command.to_owned());
        assert(seq!["shell"@] + rest@.map_values(|s: String| s@) =~= seq!["shell"@, command@]);
        self.invocation("shell", rest, false)
    }

    /// The call that runs `command` on the device and lets it print to the
    /// terminal.
    pub fn shell_piped(&self, command: &str) -> (call: Invocation)
        ensures
            call@ == (InvocationView {
                args: for_device(self.name(), seq!["shell"@, command@]),
                piped: true,
            }),
    {
        let mut rest: Vec<String> = Vec::new();
        rest.push(command.to_owned());
        assert(seq!["shell"@] + rest@.map_values(|s: String| s@) =~= seq!["shell"@, command@]);
        self.invocation("shell", rest, true)
    }

    /// The command that runs `command` as root on the device.
    pub fn sudo_command(&self, command: &str) -> (script: String)
        ensures
            script@ == as_root(self.su(), command@),
    {
        let script = self.su.clone();
        let script = script.concat(" ");
        let quoted = bash_quote(command);
        script.concat(quoted.as_str())
    }

    /// The call that runs `command` as root on the device and captures
    /// what it prints.
    pub fn sudo(&self, command: &str) -> (call: Invocation)
        ensures
            call@ == (InvocationView {
                args: for_device(self.name(), seq!["shell"@, as_root(self.su(), command@)]),
                piped: false,
            }),
    {
        let script = self.sudo_command(command);
        self.shell(script.as_str())
    }

    /// The call that runs `command` as root on the device and lets it print
    /// to the terminal.
    pub fn sudo_piped(&self, command: &str) -> (call: Invocation)
        ensures
            call@ == (InvocationView {
                args: for_device(self.name(), seq!["shell"@, as_root(self.su(), command@)]),
                piped: true,
            }),
    {
        let script = self.sudo_command(command);
        self.shell_piped(script.as_str())
    }
}

/// Where the loader is put on the device.
pub const DEPLOY_PATH: &'static str = "/data/local/tmp/zloader";

/// Why nothing is deployed.
#[derive(Clone, Copy, Debug, PartialEq, Eq, Structural)]
pub enum DeployError {
    /// No device or emulator is connected.
    NoDevice,
    /// More than one device or emulator is connected.
    ManyDevices,
}

/// The device to deploy to, among those that are connected: the only one.
pub fn run(devices: &Vec<String>) -> (serial: Result<String, DeployError>)
    ensures
        match serial {
            Ok(s) => devices@.len() == 1 && s@ == devices@[0]@,
            Err(DeployError::NoDevice) => devices@.len() == 0,
            Err(DeployError::ManyDevices) => devices@.len() > 1,
        },
{
    if devices.len() == 0 {
        Err(DeployError::NoDevice)
    } else if devices.len() > 1 {
        Err(DeployError::ManyDevices)
    } else {
        Ok(devices[0].clone())
    }
}

/// The command that makes the loader executable.
pub open spec fn chmod_command() -> Seq<char> {
    "chmod +x "@ + DEPLOY_PATH@
}

/// The command that starts the loader.
pub open spec fn start_command() -> Seq<char> {
    "RUST_LOG=debug "@ + DEPLOY_PATH@
}

impl Device {
    /// The calls that put the loader `binary` on the device and start it,
    /// in their order: the file is copied, made executable, a loader that
    /// still runs is stopped, and the new one is started as root.
    pub fn deploy(&self, binary: &str) -> (calls: Vec<Invocation>)
        ensures
            calls@.len() == 4,
            calls@[0]@ == (InvocationView {
                args: for_device(self.name(), seq!["push"@, binary@, DEPLOY_PATH@]),
                piped: true,
            }),
            calls@[1]@ == (InvocationView {
                args: for_device(self.name(), seq!["shell"@, chmod_command()]),
                piped: false,
            }),
            calls@[2]@ == (InvocationView {
                args: for_device(
                    self.name(),
                    seq!["shell"@, as_root(self.su(), "killall zloader"@)],
                ),
                piped: false,
            }),
            calls@[3]@ == (InvocationView {
                args: for_device(self.name(), seq!["shell"@, as_root(self.su(), start_command())]),
                piped: true,
            }),
    {
        let chmod = "chmod +x ".to_owned().concat(DEPLOY_PATH);
        let start = "RUST_LOG=debug ".to_owned().concat(DEPLOY_PATH);
        let mut calls: Vec<Invocation> = Vec::new();
        calls.push(self.push(binary, DEPLOY_PATH));
        calls.push(self.shell(chmod.as_str()));
        calls.push(self.sudo("killall zloader"));
        calls.push(self.sudo_piped(start.as_str()));
        calls
    }
}

} // verus!
