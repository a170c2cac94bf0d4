//! The QEMU command line that the wrapper's child runs, and the names it derives from process
//! ids and the environment.
use crate::arguments::ChildArguments;
use crate::number::{
    all_digits, byte_value, digits_value, law_decimal_byte_round_trip, law_decimal_denotes_its_value,
    law_hex_byte_round_trip,
};
use crate::text::{decimal, hex_byte, push_decimal, push_hex_byte};
use vstd::prelude::*;

verus! {

/// File name of the ready plugin, without its extension.
pub const PLUGIN_NAME: &'static str = "libqemu_plugin_ready";

/// `path` with the extension `extension` (none when it is empty).
pub open spec fn with_extension(path: Seq<char>, extension: Seq<char>) -> Seq<char> {
    if extension.len() == 0 {
        path
    } else {
        path + "."@ + extension
    }
}

/// `file` below `directory`, with one `/` between them unless the directory is empty or ends in
/// one.
pub open spec fn join_path(directory: Seq<char>, file: Seq<char>) -> Seq<char> {
    if directory.len() == 0 || directory.last() == '/' {
        directory + file
    } else {
        directory + "/"@ + file
    }
}

/// Where QEMU loads the ready plugin from: its file name, below `directory` when one is given.
pub open spec fn spec_plugin_path(directory: Option<Seq<char>>, extension: Seq<char>) -> Seq<char> {
    let file = with_extension(PLUGIN_NAME@, extension);
    match directory {
        Some(d) => join_path(d, file),
        None => file,
    }
}

/// The ready plugin's path: `libqemu_plugin_ready.<extension>`, below `directory` (the
/// `QEMU_PLUGIN_PATH` variable) when one is given.
pub fn plugin_path(directory: Option<&str>, extension: &str) -> (r: String)
    ensures
        r@ == spec_plugin_path(
            match directory {
                Some(d) => Some(d@),
                None => None,
            },
            extension@,
        ),
{
    let mut file = String::from_str(PLUGIN_NAME);
    if extension.unicode_len() > 0 {
        file.append(".");
        file.append(extension);
    }
    assert(file@ =~= with_extension(PLUGIN_NAME@, extension@));
    match directory {
        None => file,
        Some(d) => {
            let mut path = String::from_str(d);
            let n = d.unicode_len();
            if n > 0 && d.get_char(n - 1) != '/' {
                path.append("/");
            }
            path.append(file.as_str());
            assert(path@ =~= join_path(d@, file@));
            path
        },
    }
}

/// `monitor-<pid>.sock`.
pub open spec fn spec_monitor_socket_path(pid: u32) -> Seq<char> {
    "monitor-"@ + decimal(pid as nat) + ".sock"@
}

/// The monitor socket's path for the process `pid`: `monitor-<pid>.sock`.
pub fn monitor_socket_path(pid: u32) -> (r: String)
    ensures
        r@ == spec_monitor_socket_path(pid),
{
    let mut path = String::from_str("monitor-");
    push_decimal(&mut path, pid as u64);
    path.append(".sock");
    path
}

/// A program and its arguments.
pub struct QemuCommand {
    pub program: String,
    pub arguments: Vec<String>,
}

/// `qemu-system-<guest_architecture>`.
pub open spec fn spec_qemu_program(guest_architecture: Seq<char>) -> Seq<char> {
    "qemu-system-"@ + guest_architecture
}

/// The wrapper's own QEMU arguments: the monitor as a client of the socket at `listener`, the
/// `isa-debug-exit` device at `exit_port`, and the ready plugin at `plugin` with its port and the
/// write end of the ready pipe.
pub open spec fn spec_wrapper_arguments(
    listener: Seq<char>,
    exit_port: u8,
    plugin: Seq<char>,
    ready_for_exit_signal_port: u8,
    ready_descriptor: nat,
) -> Seq<Seq<char>> {
    seq![
        "-chardev"@,
        "socket,id=mon0,path="@ + listener + ",server=off"@,
        "-mon"@,
        "chardev=mon0"@,
        "-device"@,
        "isa-debug-exit,iobase="@ + hex_byte(exit_port) + ",iosize=0x01"@,
        "-plugin"@,
        plugin + ",port="@ + decimal(ready_for_exit_signal_port as nat) + ",fd="@ + decimal(
            ready_descriptor,
        ),
    ]
}

/// The command that runs QEMU for the guest: `qemu-system-<guest_architecture>`, the wrapper's
/// own arguments (see `spec_wrapper_arguments`), then the user's QEMU arguments.
pub fn qemu_command(
    arguments: ChildArguments,
    listener: &str,
    plugin: &str,
    ready_descriptor: i32,
) -> (r: QemuCommand)
    requires
        ready_descriptor >= 0,
    ensures
        r.program@ == spec_qemu_program(arguments.guest_architecture@),
        r.arguments.deep_view() == spec_wrapper_arguments(
            listener@,
            arguments.exit_port,
            plugin@,
            arguments.ready_for_exit_signal_port,
            ready_descriptor as nat,
        ) + arguments.qemu_arguments.deep_view(),
{
    let ChildArguments {
        ready_for_exit_signal_port,
        exit_port,
        guest_architecture,
        qemu_arguments,
    } = arguments;
    let mut program = String::from_str("qemu-system-");
    program.append(guest_architecture.as_str());

    let mut chardev = String::from_str("socket,id=mon0,path=");
    chardev.append(listener);
    chardev.append(",server=off");

    let mut device = String::from_str("isa-debug-exit,iobase=");
    push_hex_byte(&mut device, exit_port);
    device.append(",iosize=0x01");

    let mut plugin_argument = String::from_str(plugin);
    plugin_argument.append(",port=");
    push_decimal(&mut plugin_argument, ready_for_exit_signal_port as u64);
    plugin_argument.append(",fd=");
    push_decimal(&mut plugin_argument, ready_descriptor as u64);

    let mut all: Vec<String> = Vec::new();
    all.push(String::from_str("-chardev"));
    all.push(chardev);
    all.push(String::from_str("-mon"));
    all.push(String::from_str("chardev=mon0"));
    all.push(String::from_str("-device"));
    all.push(device);
    all.push(String::from_str("-plugin"));
    all.push(plugin_argument);
    let ghost own = spec_wrapper_arguments(
        listener@,
        exit_port,
        plugin@,
        ready_for_exit_signal_port,
        ready_descriptor as nat,
    );
    assert(all.deep_view() =~= own);
    let ghost user = qemu_arguments.deep_view();
    let n = qemu_arguments.len();
    let mut i: usize = 0;
    while i < n
        invariant
            n == qemu_arguments.len(),
            user == qemu_arguments.deep_view(),
            i <= n,
            all.deep_view() =~= own + user.subrange(0, i as int),
        decreases n - i,
    {
        let ghost before = all.deep_view();
        all.push(qemu_arguments[i].clone());
        assert(all.deep_view() =~= before.push(user[i as int]));
        assert(user.subrange(0, i + 1) =~= user.subrange(0, i as int).push(user[i as int]));
        i = i + 1;
    }
    assert(user.subrange(0, n as int) =~= user);
    QemuCommand { program, arguments: all }
}

/// The plugin is found below `QEMU_PLUGIN_PATH` with exactly one `/` between: one is added to a
/// non-empty directory that does not end in `/` (relative or absolute), none otherwise; without
/// the variable the plugin's bare file name is used. The file name is `libqemu_plugin_ready`,
/// then `.` and the extension when there is one.
pub proof fn law_plugin_path_joins_with_one_separator(directory: Seq<char>, extension: Seq<char>)
    ensures
        directory.len() > 0 && directory.last() != '/' ==> spec_plugin_path(Some(directory), extension)
            == directory + seq!['/'] + spec_plugin_path(None, extension),
        directory.len() == 0 || directory.last() == '/' ==> spec_plugin_path(Some(directory), extension)
            == directory + spec_plugin_path(None, extension),
        extension.len() > 0 ==> spec_plugin_path(None, extension) == PLUGIN_NAME@ + seq!['.']
            + extension,
        extension.len() == 0 ==> spec_plugin_path(None, extension) == PLUGIN_NAME@,
{
    reveal_strlit("/");
    reveal_strlit(".");
    assert("/"@ =~= seq!['/']);
    assert("."@ =~= seq!['.']);
}

/// The monitor socket's name is `monitor-`, the decimal digits of the process id, `.sock`.
pub proof fn law_monitor_socket_path_names_the_process(pid: u32)
    ensures
        exists|digits: Seq<char>|
            spec_monitor_socket_path(pid) == "monitor-"@ + digits + ".sock"@ && #[trigger] all_digits(
                digits,
                10,
            ) && digits.len() >= 1 && digits_value(digits, 10) == pid,
{
    law_decimal_denotes_its_value(pid as nat);
    let d = decimal(pid as nat);
    assert(spec_monitor_socket_path(pid) == "monitor-"@ + d + ".sock"@);
}

/// The numbers in QEMU's arguments read back as the values they stand for: the device's
/// `iobase` as the exit port, the plugin's `port` and `fd` as the ready port and descriptor.
pub proof fn law_command_numbers_read_back(exit_port: u8, ready_port: u8, descriptor: nat)
    ensures
        byte_value(hex_byte(exit_port)) == Some(exit_port),
        byte_value(decimal(ready_port as nat)) == Some(ready_port),
        digits_value(decimal(descriptor), 10) == descriptor,
{
    law_hex_byte_round_trip(exit_port);
    law_decimal_byte_round_trip(ready_port);
    law_decimal_denotes_its_value(descriptor);
}

} // verus!
