//! The QEMU plugin that lets the guest say it is ready for an exit signal.
//!
//! QEMU loads it with `port=<imm8>,fd=<descriptor>`. Once configured, the plugin looks for the
//! two-byte x86 instruction `OUT imm8, AL` (`0xe6 <port>`) in each translated block; the first
//! time the guest executes one, the plugin closes the descriptor, which its parent sees as the
//! end of a pipe.
use vstd::prelude::*;

verus! {

/// The only target whose `OUT` encoding the plugin knows.
pub const TARGET: &'static str = "x86_64";

/// The opcode of x86 `OUT imm8, AL`.
pub const OPCODE_OUT_IMM8_AL: u8 = 0xe6;

/// A plugin argument's value as QEMU parsed it.
pub enum ArgValue {
    Bool(bool),
    Integer(i64),
    Text(String),
}

/// One `name=value` plugin argument.
pub struct PluginArgument {
    pub name: String,
    pub value: ArgValue,
}

/// Why configuring the plugin failed; the texts are argument names unless said otherwise.
pub enum ConfigureError {
    /// QEMU emulates another target (the target's name).
    UnexpectedTarget(String),
    /// An argument's value is not an integer.
    NonInteger(String),
    /// An argument was given twice.
    Duplicate(String),
    /// The port is negative or above 255.
    PortOutOfRange(String),
    /// The descriptor does not fit an `i32`.
    DescriptorTooLarge(String),
    /// The descriptor is negative.
    DescriptorNegative(String),
    /// An argument that the plugin does not know.
    Unknown(String),
    /// No `port` argument.
    MissingPort,
    /// No `fd` argument.
    MissingDescriptor,
    /// The plugin was configured before.
    AlreadyConfigured,
}

/// `ConfigureError` with its texts as character sequences.
pub enum ConfigureErrorView {
    UnexpectedTarget(Seq<char>),
    NonInteger(Seq<char>),
    Duplicate(Seq<char>),
    PortOutOfRange(Seq<char>),
    DescriptorTooLarge(Seq<char>),
    DescriptorNegative(Seq<char>),
    Unknown(Seq<char>),
    MissingPort,
    MissingDescriptor,
    AlreadyConfigured,
}

impl View for ConfigureError {
    type V = ConfigureErrorView;

    open spec fn view(&self) -> ConfigureErrorView {
        match self {
            ConfigureError::UnexpectedTarget(s) => ConfigureErrorView::UnexpectedTarget(s@),
            ConfigureError::NonInteger(s) => ConfigureErrorView::NonInteger(s@),
            ConfigureError::Duplicate(s) => ConfigureErrorView::Duplicate(s@),
            ConfigureError::PortOutOfRange(s) => ConfigureErrorView::PortOutOfRange(s@),
            ConfigureError::DescriptorTooLarge(s) => ConfigureErrorView::DescriptorTooLarge(s@),
            ConfigureError::DescriptorNegative(s) => ConfigureErrorView::DescriptorNegative(s@),
            ConfigureError::Unknown(s) => ConfigureErrorView::Unknown(s@),
            ConfigureError::MissingPort => ConfigureErrorView::MissingPort,
            ConfigureError::MissingDescriptor => ConfigureErrorView::MissingDescriptor,
            ConfigureError::AlreadyConfigured => ConfigureErrorView::AlreadyConfigured,
        }
    }
}

/// The plugin's state: the instruction it waits for (all zero until configured) and the
/// descriptor it closes (held until the guest signals).
pub struct Ready {
    pub opcode: [u8; 2],
    pub fd: Option<i32>,
}

/// `Ready` with the opcode as a sequence.
pub struct ReadyView {
    pub opcode: Seq<u8>,
    pub fd: Option<i32>,
}

impl View for Ready {
    type V = ReadyView;

    open spec fn view(&self) -> ReadyView {
        ReadyView { opcode: self.opcode@, fd: self.fd }
    }
}

/// What one argument does to the port and descriptor found so far.
pub open spec fn spec_argument_step(argument: PluginArgument, port: Option<u8>, fd: Option<i32>) -> Result<
    (Option<u8>, Option<i32>),
    ConfigureErrorView,
> {
    let name = argument.name@;
    match argument.value {
        ArgValue::Integer(v) => if name == "port"@ {
            if port is Some {
                Err(ConfigureErrorView::Duplicate(name))
            } else if 0 <= v <= 255 {
                Ok((Some(v as u8), fd))
            } else {
                Err(ConfigureErrorView::PortOutOfRange(name))
            }
        } else if name == "fd"@ {
            if fd is Some {
                Err(ConfigureErrorView::Duplicate(name))
            } else if !(i32::MIN <= v <= i32::MAX) {
                Err(ConfigureErrorView::DescriptorTooLarge(name))
            } else if v < 0 {
                Err(ConfigureErrorView::DescriptorNegative(name))
            } else {
                Ok((port, Some(v as i32)))
            }
        } else {
            Err(ConfigureErrorView::Unknown(name))
        },
        _ => Err(ConfigureErrorView::NonInteger(name)),
    }
}

/// Reads `arguments[i..]` on top of the port and descriptor found so far.
pub open spec fn scan_plugin_arguments(
    arguments: Seq<PluginArgument>,
    i: int,
    port: Option<u8>,
    fd: Option<i32>,
) -> Result<(Option<u8>, Option<i32>), ConfigureErrorView>
    decreases arguments.len() - i,
{
    if i < 0 || i >= arguments.len() {
        Ok((port, fd))
    } else {
        match spec_argument_step(arguments[i], port, fd) {
            Ok((p, f)) => scan_plugin_arguments(arguments, i + 1, p, f),
            Err(e) => Err(e),
        }
    }
}

/// The plugin's state after configuring `ready` with `arguments` on `target`, or the error.
pub open spec fn spec_configure(ready: ReadyView, arguments: Seq<PluginArgument>, target: Seq<char>) -> Result<
    ReadyView,
    ConfigureErrorView,
> {
    if target != TARGET@ {
        Err(ConfigureErrorView::UnexpectedTarget(target))
    } else {
        match scan_plugin_arguments(arguments, 0, None, None) {
            Err(e) => Err(e),
            Ok((port, fd)) => if port is None {
                Err(ConfigureErrorView::MissingPort)
            } else if fd is None {
                Err(ConfigureErrorView::MissingDescriptor)
            } else if ready.opcode[0] != 0 || ready.fd is Some {
                Err(ConfigureErrorView::AlreadyConfigured)
            } else {
                Ok(ReadyView { opcode: seq![OPCODE_OUT_IMM8_AL, port->0], fd: fd })
            },
        }
    }
}

/// What one argument does.
enum ArgumentStep {
    Port(u8),
    Descriptor(i32),
    Fail(ConfigureError),
}

impl Ready {
    /// The unconfigured plugin.
    pub fn new() -> (r: Ready)
        ensures
            r@.opcode == seq![0u8, 0u8],
            r@.fd is None,
    {
        let r = Ready { opcode: [0, 0], fd: None };
        assert(r@.opcode =~= seq![0u8, 0u8]);
        r
    }

    fn argument_step(argument: &PluginArgument, port: Option<u8>, fd: Option<i32>) -> (r: ArgumentStep)
        ensures
            ({
                let spec = spec_argument_step(*argument, port, fd);
                match r {
                    ArgumentStep::Port(p) => port is None && spec == Ok::<
                        (Option<u8>, Option<i32>),
                        ConfigureErrorView,
                    >((Some(p), fd)),
                    ArgumentStep::Descriptor(f) => fd is None && spec == Ok::<
                        (Option<u8>, Option<i32>),
                        ConfigureErrorView,
                    >((port, Some(f))),
                    ArgumentStep::Fail(e) => spec == Err::<
                        (Option<u8>, Option<i32>),
                        ConfigureErrorView,
                    >(e@),
                }
            }),
    {
        match &argument.value {
            ArgValue::Integer(v) => {
                let v = *v;
                let name = argument.name.as_str();
                if crate::text::str_eq(name, "port") {
                    if port.is_some() {
                        ArgumentStep::Fail(ConfigureError::Duplicate(argument.name.clone()))
                    } else if 0 <= v && v <= 255 {
                        ArgumentStep::Port(v as u8)
                    } else {
                        ArgumentStep::Fail(ConfigureError::PortOutOfRange(argument.name.clone()))
                    }
                } else if crate::text::str_eq(name, "fd") {
                    if fd.is_some() {
                        ArgumentStep::Fail(ConfigureError::Duplicate(argument.name.clone()))
                    } else if v < i32::MIN as i64 || v > i32::MAX as i64 {
                        ArgumentStep::Fail(ConfigureError::DescriptorTooLarge(argument.name.clone()))
                    } else if v < 0 {
                        ArgumentStep::Fail(ConfigureError::DescriptorNegative(argument.name.clone()))
                    } else {
                        ArgumentStep::Descriptor(v as i32)
                    }
                } else {
                    ArgumentStep::Fail(ConfigureError::Unknown(argument.name.clone()))
                }
            },
            _ => ArgumentStep::Fail(ConfigureError::NonInteger(argument.name.clone())),
        }
    }

    /// Configures the plugin from QEMU's arguments (in the order given) and target name; on
    /// failure nothing changes.
    pub fn configure(&mut self, arguments: &Vec<PluginArgument>, target_name: &str) -> (r: Result<
        (),
        ConfigureError,
    >)
        ensures
            match spec_configure(old(self)@, arguments@, target_name@) {
                Ok(configured) => r is Ok && final(self)@ == configured,
                Err(e) => r matches Err(x) && x@ == e && final(self)@ == old(self)@,
            },
    {
        if !crate::text::str_eq(target_name, TARGET) {
            return Err(ConfigureError::UnexpectedTarget(String::from_str(target_name)));
        }
        let ghost args = arguments@;
        let n = arguments.len();
        let mut port: Option<u8> = None;
        let mut fd: Option<i32> = None;
        let mut i: usize = 0;
        while i < n
            invariant
                n == arguments.len(),
                args == arguments@,
                i <= n,
                target_name@ == TARGET@,
                self@ == old(self)@,
                scan_plugin_arguments(args, 0, None, None) == scan_plugin_arguments(
                    args,
                    i as int,
                    port,
                    fd,
                ),
            decreases n - i,
        {
            match Self::argument_step(&arguments[i], port, fd) {
                ArgumentStep::Port(p) => {
                    port = Some(p);
                },
                ArgumentStep::Descriptor(f) => {
                    fd = Some(f);
                },
                ArgumentStep::Fail(e) => {
                    return Err(e);
                },
            }
            i = i + 1;
        }
        let port = match port {
            Some(p) => p,
            None => {
                return Err(ConfigureError::MissingPort);
            },
        };
        let fd = match fd {
            Some(f) => f,
            None => {
                return Err(ConfigureError::MissingDescriptor);
            },
        };
        if self.opcode[0] != 0 || self.fd.is_some() {
            return Err(ConfigureError::AlreadyConfigured);
        }
        self.opcode = [OPCODE_OUT_IMM8_AL, port];
        self.fd = Some(fd);
        assert(self@.opcode =~= seq![OPCODE_OUT_IMM8_AL, port]);
        Ok(())
    }

    /// Whether a translated instruction of `size` bytes, of which `read` bytes were read into
    /// `data`, is the one the plugin waits for.
    pub fn is_ready_instruction(&self, size: usize, read: usize, data: [u8; 2]) -> (r: bool)
        ensures
            r == (size == 2 && read == 2 && data@ == self@.opcode),
    {
        let r = size == 2 && read == 2 && data[0] == self.opcode[0] && data[1] == self.opcode[1];
        assert(r ==> data@ =~= self@.opcode);
        r
    }

    /// Hands out the descriptor to close when the guest signals; `None` once it was handed out.
    pub fn take_ready_descriptor(&mut self) -> (r: Option<i32>)
        ensures
            r == old(self)@.fd,
            final(self)@.fd is None,
            final(self)@.opcode == old(self)@.opcode,
    {
        let r = self.fd;
        self.fd = None;
        r
    }
}

/// Configuring succeeds at most once: a configured plugin refuses any further configuration.
pub proof fn law_configure_succeeds_once(
    ready: ReadyView,
    first: Seq<PluginArgument>,
    second: Seq<PluginArgument>,
    target: Seq<char>,
    second_target: Seq<char>,
)
    requires
        spec_configure(ready, first, target) is Ok,
    ensures
        spec_configure(spec_configure(ready, first, target)->Ok_0, second, second_target) is Err,
{
    let configured = spec_configure(ready, first, target)->Ok_0;
    assert(configured.opcode[0] == OPCODE_OUT_IMM8_AL);
}

/// After a successful configuration the plugin waits for exactly `OUT port, AL` with the
/// configured port and holds the given descriptor.
pub proof fn law_configured_waits_for_out_to_port(
    ready: ReadyView,
    arguments: Seq<PluginArgument>,
    target: Seq<char>,
)
    requires
        spec_configure(ready, arguments, target) is Ok,
    ensures
        ({
            let configured = spec_configure(ready, arguments, target)->Ok_0;
            let (port, fd) = scan_plugin_arguments(arguments, 0, None, None)->Ok_0;
            &&& configured.opcode == seq![OPCODE_OUT_IMM8_AL, port->0]
            &&& configured.fd == fd
            &&& fd->0 >= 0
        }),
{
    lemma_scan_descriptor_non_negative(arguments, 0, None, None);
}

proof fn lemma_scan_descriptor_non_negative(
    arguments: Seq<PluginArgument>,
    i: int,
    port: Option<u8>,
    fd: Option<i32>,
)
    requires
        fd matches Some(f) ==> f >= 0,
    ensures
        scan_plugin_arguments(arguments, i, port, fd) matches Ok((_, f)) ==> (f matches Some(x)
            ==> x >= 0),
    decreases arguments.len() - i,
{
    if 0 <= i < arguments.len() {
        match spec_argument_step(arguments[i], port, fd) {
            Ok((p, f)) => lemma_scan_descriptor_non_negative(arguments, i + 1, p, f),
            Err(_) => {},
        }
    }
}

/// `port`, as a character sequence.
pub open spec fn port_name() -> Seq<char> {
    seq!['p', 'o', 'r', 't']
}

/// `fd`, as a character sequence.
pub open spec fn fd_name() -> Seq<char> {
    seq!['f', 'd']
}

/// `x86_64`, as a character sequence.
pub open spec fn x86_64_name() -> Seq<char> {
    seq!['x', '8', '6', '_', '6', '4']
}

proof fn lemma_plugin_literals()
    ensures
        "port"@ == port_name(),
        "fd"@ == fd_name(),
        TARGET@ == x86_64_name(),
{
    reveal_strlit("port");
    reveal_strlit("fd");
    reveal_strlit("x86_64");
    assert("port"@ =~= port_name());
    assert("fd"@ =~= fd_name());
    assert(TARGET@ =~= x86_64_name());
}

proof fn lemma_scan_one(a: PluginArgument, port: Option<u8>, fd: Option<i32>)
    ensures
        scan_plugin_arguments(seq![a], 0, port, fd) == spec_argument_step(a, port, fd),
{
    let s = seq![a];
    assert(s[0] == a);
    match spec_argument_step(a, port, fd) {
        Ok((p, f)) => {
            assert(scan_plugin_arguments(s, 1, p, f) == Ok::<
                (Option<u8>, Option<i32>),
                ConfigureErrorView,
            >((p, f)));
        },
        Err(_) => {},
    }
}

proof fn lemma_scan_two(a: PluginArgument, b: PluginArgument, port: Option<u8>, fd: Option<i32>)
    ensures
        scan_plugin_arguments(seq![a, b], 0, port, fd) == match spec_argument_step(a, port, fd) {
            Ok((p, f)) => spec_argument_step(b, p, f),
            Err(e) => Err(e),
        },
{
    let s = seq![a, b];
    assert(s[0] == a && s[1] == b);
    match spec_argument_step(a, port, fd) {
        Ok((p, f)) => {
            match spec_argument_step(b, p, f) {
                Ok((p2, f2)) => {
                    assert(scan_plugin_arguments(s, 2, p2, f2) == Ok::<
                        (Option<u8>, Option<i32>),
                        ConfigureErrorView,
                    >((p2, f2)));
                },
                Err(_) => {},
            }
            assert(scan_plugin_arguments(s, 1, p, f) == match spec_argument_step(b, p, f) {
                Ok((p2, f2)) => scan_plugin_arguments(s, 2, p2, f2),
                Err(e) => Err(e),
            });
        },
        Err(_) => {},
    }
}

/// An unconfigured plugin on `x86_64`, given an integer `port` that fits a byte and a
/// non-negative `fd` that fits an `i32`, in either order, waits for `OUT port, AL` and holds the
/// descriptor.
pub proof fn law_configure_accepts_port_and_descriptor(
    ready: ReadyView,
    port: PluginArgument,
    fd: PluginArgument,
    p: i64,
    f: i64,
)
    requires
        ready.opcode[0] == 0,
        ready.fd is None,
        port.name@ == port_name(),
        port.value == ArgValue::Integer(p),
        0 <= p <= 255,
        fd.name@ == fd_name(),
        fd.value == ArgValue::Integer(f),
        0 <= f <= i32::MAX,
    ensures
        spec_configure(ready, seq![port, fd], x86_64_name()) == Ok::<ReadyView, ConfigureErrorView>(
            ReadyView { opcode: seq![0xe6u8, p as u8], fd: Some(f as i32) },
        ),
        spec_configure(ready, seq![fd, port], x86_64_name()) == Ok::<ReadyView, ConfigureErrorView>(
            ReadyView { opcode: seq![0xe6u8, p as u8], fd: Some(f as i32) },
        ),
{
    lemma_plugin_literals();
    assert(port_name() != fd_name());
    lemma_scan_two(port, fd, None, None);
    lemma_scan_two(fd, port, None, None);
}

/// The refusals: another target; a value that is not an integer; a port outside 0..=255; a
/// descriptor outside `i32` or negative; an unknown argument; a repeated argument; a missing
/// port or descriptor; a plugin configured before.
pub proof fn law_configure_refusals(
    ready: ReadyView,
    target: Seq<char>,
    port: PluginArgument,
    fd: PluginArgument,
    other: PluginArgument,
    p: i64,
    f: i64,
)
    requires
        port.name@ == port_name(),
        port.value == ArgValue::Integer(p),
        fd.name@ == fd_name(),
        fd.value == ArgValue::Integer(f),
    ensures
        target != x86_64_name() ==> spec_configure(ready, seq![port, fd], target) == Err::<
            ReadyView,
            ConfigureErrorView,
        >(ConfigureErrorView::UnexpectedTarget(target)),
        !(other.value is Integer) ==> spec_configure(ready, seq![other], x86_64_name()) == Err::<
            ReadyView,
            ConfigureErrorView,
        >(ConfigureErrorView::NonInteger(other.name@)),
        (other.value is Integer && other.name@ != port_name() && other.name@ != fd_name())
            ==> spec_configure(ready, seq![other], x86_64_name()) == Err::<
            ReadyView,
            ConfigureErrorView,
        >(ConfigureErrorView::Unknown(other.name@)),
        !(0 <= p <= 255) ==> spec_configure(ready, seq![port, fd], x86_64_name()) == Err::<
            ReadyView,
            ConfigureErrorView,
        >(ConfigureErrorView::PortOutOfRange(port_name())),
        !(i32::MIN <= f <= i32::MAX) ==> spec_configure(ready, seq![fd, port], x86_64_name())
            == Err::<ReadyView, ConfigureErrorView>(
            ConfigureErrorView::DescriptorTooLarge(fd_name()),
        ),
        i32::MIN <= f < 0 ==> spec_configure(ready, seq![fd, port], x86_64_name()) == Err::<
            ReadyView,
            ConfigureErrorView,
        >(ConfigureErrorView::DescriptorNegative(fd_name())),
        0 <= p <= 255 ==> spec_configure(ready, seq![port, port], x86_64_name()) == Err::<
            ReadyView,
            ConfigureErrorView,
        >(ConfigureErrorView::Duplicate(port_name())),
        0 <= f <= i32::MAX ==> spec_configure(ready, seq![fd, fd], x86_64_name()) == Err::<
            ReadyView,
            ConfigureErrorView,
        >(ConfigureErrorView::Duplicate(fd_name())),
        0 <= p <= 255 ==> spec_configure(ready, seq![port], x86_64_name()) == Err::<
            ReadyView,
            ConfigureErrorView,
        >(ConfigureErrorView::MissingDescriptor),
        0 <= f <= i32::MAX ==> spec_configure(ready, seq![fd], x86_64_name()) == Err::<
            ReadyView,
            ConfigureErrorView,
        >(ConfigureErrorView::MissingPort),
        (0 <= p <= 255 && 0 <= f <= i32::MAX && (ready.opcode[0] != 0 || ready.fd is Some))
            ==> spec_configure(ready, seq![port, fd], x86_64_name()) == Err::<
            ReadyView,
            ConfigureErrorView,
        >(ConfigureErrorView::AlreadyConfigured),
{
    lemma_plugin_literals();
    assert(port_name() != fd_name());
    lemma_scan_two(port, fd, None, None);
    lemma_scan_two(fd, port, None, None);
    lemma_scan_two(port, port, None, None);
    lemma_scan_two(fd, fd, None, None);
    lemma_scan_one(other, None, None);
    lemma_scan_one(port, None, None);
    lemma_scan_one(fd, None, None);
}

} // verus!

