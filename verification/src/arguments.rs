//! Command-line arguments of the wrapper.
//!
//! ```text
//! qemu-wrapper [OPTIONS] <guest_architecture> [QEMU arguments...]
//! ```
//!
//! Options stand before the first free argument (`-h`/`--help`,
//! `--ready-for-exit-signal-port PORT`, `--exit-port PORT`, `--exit-code CODE`, each value also
//! accepted as `--name=value`); `--` ends the options. The first free argument is the guest
//! architecture and everything after it goes to QEMU unchanged, even when it looks like an option.
//! Ports are decimal or `0x`-prefixed hexadecimal and must fit a byte; the exit code is a decimal
//! `i32` with an optional sign. An option given twice
//! keeps its last value.
use crate::number::{
    byte_value, i32_value, law_decimal_i32_round_trip, law_hex_byte_round_trip, parse_byte, parse_i32,
};
use crate::text::{decimal, hex_byte};
use crate::text::str_eq;
use vstd::prelude::*;

verus! {

/// The three options that carry a value.
#[derive(Clone, Copy, PartialEq, Eq, Structural, Debug)]
pub enum OptionName {
    ReadyForExitSignalPort,
    ExitPort,
    ExitCode,
}

impl OptionName {
    /// The option's long name, without the leading `--`.
    pub open spec fn spec_long_name(self) -> Seq<char> {
        match self {
            OptionName::ReadyForExitSignalPort => "ready-for-exit-signal-port"@,
            OptionName::ExitPort => "exit-port"@,
            OptionName::ExitCode => "exit-code"@,
        }
    }

    /// The option's long name, without the leading `--`.
    pub fn long_name(&self) -> (r: &'static str)
        ensures
            r@ == self.spec_long_name(),
    {
        match self {
            OptionName::ReadyForExitSignalPort => "ready-for-exit-signal-port",
            OptionName::ExitPort => "exit-port",
            OptionName::ExitCode => "exit-code",
        }
    }
}

/// The option whose long name is `name`, if any.
pub open spec fn option_named(name: Seq<char>) -> Option<OptionName> {
    if name == OptionName::ReadyForExitSignalPort.spec_long_name() {
        Some(OptionName::ReadyForExitSignalPort)
    } else if name == OptionName::ExitPort.spec_long_name() {
        Some(OptionName::ExitPort)
    } else if name == OptionName::ExitCode.spec_long_name() {
        Some(OptionName::ExitCode)
    } else {
        None
    }
}

fn lookup_option(name: &str) -> (r: Option<OptionName>)
    ensures
        r == option_named(name@),
{
    if str_eq(name, OptionName::ReadyForExitSignalPort.long_name()) {
        Some(OptionName::ReadyForExitSignalPort)
    } else if str_eq(name, OptionName::ExitPort.long_name()) {
        Some(OptionName::ExitPort)
    } else if str_eq(name, OptionName::ExitCode.long_name()) {
        Some(OptionName::ExitCode)
    } else {
        None
    }
}

/// The value that `text` gives option `name`: a byte for the ports (see `byte_value`), an `i32`
/// for the exit code (see `i32_value`).
pub open spec fn option_value(name: OptionName, text: Seq<char>) -> Option<i32> {
    match name {
        OptionName::ExitCode => i32_value(text),
        _ => match byte_value(text) {
            Some(b) => Some(b as i32),
            None => None,
        },
    }
}

fn parse_option_value(name: OptionName, text: &str) -> (r: Option<i32>)
    ensures
        r == option_value(name, text@),
        r matches Some(v) ==> (name != OptionName::ExitCode ==> 0 <= v <= 255),
{
    match name {
        OptionName::ExitCode => parse_i32(text),
        _ => match parse_byte(text) {
            Some(b) => Some(b as i32),
            None => None,
        },
    }
}

/// The options seen so far while reading the command line.
#[derive(Clone, Copy)]
pub struct OptionValues {
    pub help: bool,
    pub ready_for_exit_signal_port: Option<u8>,
    pub exit_port: Option<u8>,
    pub exit_code: Option<i32>,
}

impl OptionValues {
    pub open spec fn spec_none() -> OptionValues {
        OptionValues { help: false, ready_for_exit_signal_port: None, exit_port: None, exit_code: None }
    }

    pub open spec fn spec_with_help(self) -> OptionValues {
        OptionValues { help: true, ..self }
    }

    pub open spec fn spec_with(self, name: OptionName, value: i32) -> OptionValues {
        match name {
            OptionName::ReadyForExitSignalPort => OptionValues {
                ready_for_exit_signal_port: Some(value as u8),
                ..self
            },
            OptionName::ExitPort => OptionValues { exit_port: Some(value as u8), ..self },
            OptionName::ExitCode => OptionValues { exit_code: Some(value), ..self },
        }
    }

    fn set(&mut self, name: OptionName, value: i32)
        requires
            name != OptionName::ExitCode ==> 0 <= value <= 255,
        ensures
            *final(self) == old(self).spec_with(name, value),
    {
        match name {
            OptionName::ReadyForExitSignalPort => self.ready_for_exit_signal_port = Some(
                value as u8,
            ),
            OptionName::ExitPort => self.exit_port = Some(value as u8),
            OptionName::ExitCode => self.exit_code = Some(value),
        }
    }
}

/// Why the command line was refused.
pub enum ArgumentsError {
    /// Help was requested; holds the usage message.
    Help(String),
    /// No guest architecture was given; holds the usage message.
    MissingGuestArchitecture(String),
    /// An option that the wrapper does not know (the whole argument).
    UnrecognizedOption(String),
    /// An option that needs a value was last on the command line.
    MissingValue(OptionName),
    /// An option's value is not a byte-sized number (the option and the value).
    InvalidValue(OptionName, String),
    /// A required option was not given.
    MissingOption(OptionName),
}

/// `ArgumentsError` with its texts as character sequences.
pub enum ArgumentsErrorView {
    Help(Seq<char>),
    MissingGuestArchitecture(Seq<char>),
    UnrecognizedOption(Seq<char>),
    MissingValue(OptionName),
    InvalidValue(OptionName, Seq<char>),
    MissingOption(OptionName),
}

impl View for ArgumentsError {
    type V = ArgumentsErrorView;

    open spec fn view(&self) -> ArgumentsErrorView {
        match self {
            ArgumentsError::Help(u) => ArgumentsErrorView::Help(u@),
            ArgumentsError::MissingGuestArchitecture(u) => ArgumentsErrorView::MissingGuestArchitecture(
                u@,
            ),
            ArgumentsError::UnrecognizedOption(a) => ArgumentsErrorView::UnrecognizedOption(a@),
            ArgumentsError::MissingValue(n) => ArgumentsErrorView::MissingValue(*n),
            ArgumentsError::InvalidValue(n, v) => ArgumentsErrorView::InvalidValue(*n, v@),
            ArgumentsError::MissingOption(n) => ArgumentsErrorView::MissingOption(*n),
        }
    }
}

/// What the wrapper's child needs to start QEMU.
pub struct ChildArguments {
    /// I/O port whose `OUT` tells the ready plugin that the guest can take an exit signal.
    pub ready_for_exit_signal_port: u8,
    /// I/O port of QEMU's `isa-debug-exit` device.
    pub exit_port: u8,
    /// Guest architecture, as in `qemu-system-<guest_architecture>`.
    pub guest_architecture: String,
    /// Arguments handed to QEMU after the wrapper's own.
    pub qemu_arguments: Vec<String>,
}

/// The parsed command line.
pub struct Arguments {
    pub child_arguments: ChildArguments,
    /// QEMU exit status that the guest reports for success.
    pub exit_code: i32,
}

/// `Arguments` with its texts as character sequences.
pub struct ArgumentsView {
    pub ready_for_exit_signal_port: u8,
    pub exit_port: u8,
    pub exit_code: i32,
    pub guest_architecture: Seq<char>,
    pub qemu_arguments: Seq<Seq<char>>,
}

impl View for Arguments {
    type V = ArgumentsView;

    open spec fn view(&self) -> ArgumentsView {
        ArgumentsView {
            ready_for_exit_signal_port: self.child_arguments.ready_for_exit_signal_port,
            exit_port: self.child_arguments.exit_port,
            exit_code: self.exit_code,
            guest_architecture: self.child_arguments.guest_architecture@,
            qemu_arguments: self.child_arguments.qemu_arguments.deep_view(),
        }
    }
}

/// The option lines of the usage message.
pub const OPTIONS_USAGE: &'static str = "Positional arguments:
  guest_architecture_then_qemu_arguments
                         guest architecture (eg: \"x86_64\") followed by any QEMU arguments

Optional arguments:
  -h, --help             print help message
  --ready-for-exit-signal-port PORT
                         I/O port the guest writes to once it can take an exit signal
  --exit-port PORT       I/O port of QEMU's isa-debug-exit device
  --exit-code CODE       guest exit status that stands for success";

/// `Usage: <argv0> [OPTIONS]`, a blank line, then `usage`.
pub open spec fn usage_message(argv0: Option<Seq<char>>, usage: Seq<char>) -> Seq<char> {
    "Usage: "@ + match argv0 {
        Some(a) => a,
        None => Seq::empty(),
    } + " [OPTIONS]\n\n"@ + usage
}

/// The index of the first `=` in `s` at or after `from`, or `s.len()` if there is none.
pub open spec fn find_equals(s: Seq<char>, from: int) -> int
    decreases s.len() - from,
{
    if from < 0 || from >= s.len() {
        s.len() as int
    } else if s[from] == '=' {
        from
    } else {
        find_equals(s, from + 1)
    }
}

/// `a` is `--` followed by at least one character.
pub open spec fn is_long_option(a: Seq<char>) -> bool {
    a.len() > 2 && a[0] == '-' && a[1] == '-'
}

/// Reads the options in `args[i..]` on top of `values`: the values seen and the index of the
/// first free argument (`args.len()` if there is none), or the first error.
pub open spec fn scan(args: Seq<Seq<char>>, i: int, values: OptionValues) -> Result<
    (OptionValues, int),
    ArgumentsErrorView,
>
    decreases args.len() - i,
{
    if i < 0 || i >= args.len() {
        Ok((values, args.len() as int))
    } else {
        let a = args[i];
        if a == "--"@ {
            Ok((values, i + 1))
        } else if a == "-h"@ || a == "--help"@ {
            scan(args, i + 1, values.spec_with_help())
        } else if is_long_option(a) {
            let body = a.subrange(2, a.len() as int);
            let eq = find_equals(body, 0);
            match option_named(body.subrange(0, eq)) {
                None => Err(ArgumentsErrorView::UnrecognizedOption(a)),
                Some(name) => if eq < body.len() {
                    let v = body.subrange(eq + 1, body.len() as int);
                    match option_value(name, v) {
                        None => Err(ArgumentsErrorView::InvalidValue(name, v)),
                        Some(b) => scan(args, i + 1, values.spec_with(name, b)),
                    }
                } else if i + 1 < args.len() {
                    let v = args[i + 1];
                    match option_value(name, v) {
                        None => Err(ArgumentsErrorView::InvalidValue(name, v)),
                        Some(b) => scan(args, i + 2, values.spec_with(name, b)),
                    }
                } else {
                    Err(ArgumentsErrorView::MissingValue(name))
                },
            }
        } else if a.len() >= 2 && a[0] == '-' {
            Err(ArgumentsErrorView::UnrecognizedOption(a))
        } else {
            Ok((values, i))
        }
    }
}

/// The meaning of a whole command line, program name first.
pub open spec fn parse_spec(args: Seq<Seq<char>>) -> Result<ArgumentsView, ArgumentsErrorView> {
    let argv0 = if args.len() > 0 {
        Some(args[0])
    } else {
        None
    };
    let start: int = if args.len() > 0 {
        1
    } else {
        0
    };
    match scan(args, start, OptionValues::spec_none()) {
        Err(e) => Err(e),
        Ok((values, k)) => if values.help {
            Err(ArgumentsErrorView::Help(usage_message(argv0, OPTIONS_USAGE@)))
        } else if values.ready_for_exit_signal_port is None {
            Err(ArgumentsErrorView::MissingOption(OptionName::ReadyForExitSignalPort))
        } else if values.exit_port is None {
            Err(ArgumentsErrorView::MissingOption(OptionName::ExitPort))
        } else if values.exit_code is None {
            Err(ArgumentsErrorView::MissingOption(OptionName::ExitCode))
        } else if k >= args.len() {
            Err(ArgumentsErrorView::MissingGuestArchitecture(usage_message(argv0, OPTIONS_USAGE@)))
        } else {
            Ok(
                ArgumentsView {
                    ready_for_exit_signal_port: values.ready_for_exit_signal_port->0,
                    exit_port: values.exit_port->0,
                    exit_code: values.exit_code->0,
                    guest_architecture: args[k],
                    qemu_arguments: args.subrange(k + 1, args.len() as int),
                },
            )
        },
    }
}

/// The result of `parse` as character sequences.
pub open spec fn parse_result_view(r: Result<Arguments, ArgumentsError>) -> Result<
    ArgumentsView,
    ArgumentsErrorView,
> {
    match r {
        Ok(a) => Ok(a@),
        Err(e) => Err(e@),
    }
}

/// The index of the first `=` in `s`, or its length.
fn find_equals_exec(s: &str) -> (r: usize)
    ensures
        r == find_equals(s@, 0),
        r <= s@.len(),
{
    let n = s.unicode_len();
    let mut i: usize = 0;
    while i < n
        invariant
            n == s@.len(),
            i <= n,
            find_equals(s@, 0) == find_equals(s@, i as int),
        decreases n - i,
    {
        if s.get_char(i) == '=' {
            return i;
        }
        i = i + 1;
    }
    i
}

/// What one step of reading the options does.
enum Step {
    /// Options end; free arguments start at this index.
    Free(usize),
    /// Go on at this index with the updated values.
    Next(usize),
    Fail(ArgumentsError),
}

impl Arguments {
    /// The usage message: `Usage: <argv0> [OPTIONS]`, a blank line, then `usage`.
    pub fn usage(argv0: Option<&str>, usage: &str) -> (r: String)
        ensures
            r@ == usage_message(
                match argv0 {
                    Some(a) => Some(a@),
                    None => None,
                },
                usage@,
            ),
    {
        let mut message = String::from_str("Usage: ");
        match argv0 {
            Some(a) => message.append(a),
            None => {},
        }
        message.append(" [OPTIONS]\n\n");
        message.append(usage);
        proof {
            let a = match argv0 {
                Some(a) => a@,
                None => Seq::empty(),
            };
            assert(message@ =~= "Usage: "@ + a + " [OPTIONS]\n\n"@ + usage@);
        }
        message
    }

    /// Reads one option at `i` (which is below the number of arguments).
    fn step(arguments: &Vec<String>, i: usize, values: &mut OptionValues) -> (r: Step)
        requires
            i < arguments.len(),
        ensures
            ({
                let spec = scan(arguments.deep_view(), i as int, *old(values));
                match r {
                    Step::Free(k) => spec == Ok::<(OptionValues, int), ArgumentsErrorView>(
                        (*old(values), k as int),
                    ) && k <= arguments.len() && *final(values) == *old(values),
                    Step::Next(j) => i < j <= arguments.len() && spec == scan(
                        arguments.deep_view(),
                        j as int,
                        *final(values),
                    ),
                    Step::Fail(e) => spec == Err::<(OptionValues, int), ArgumentsErrorView>(e@)
                        && *final(values) == *old(values),
                }
            }),
    {
        let ghost args = arguments.deep_view();
        let a = arguments[i].as_str();
        assert(args[i as int] == a@);
        let n = a.unicode_len();
        if str_eq(a, "--") {
            return Step::Free(i + 1);
        }
        if str_eq(a, "-h") || str_eq(a, "--help") {
            values.help = true;
            assert(*final(values) == old(values).spec_with_help());
            return Step::Next(i + 1);
        }
        if n > 2 && a.get_char(0) == '-' && a.get_char(1) == '-' {
            let body = a.substring_char(2, n);
            let eq = find_equals_exec(body);
            let name = lookup_option(body.substring_char(0, eq));
            match name {
                None => {
                    return Step::Fail(ArgumentsError::UnrecognizedOption(String::from_str(a)));
                },
                Some(name) => {
                    let body_len = body.unicode_len();
                    if eq < body_len {
                        let v = body.substring_char(eq + 1, body_len);
                        match parse_option_value(name, v) {
                            None => {
                                return Step::Fail(
                                    ArgumentsError::InvalidValue(name, String::from_str(v)),
                                );
                            },
                            Some(b) => {
                                values.set(name, b);
                                return Step::Next(i + 1);
                            },
                        }
                    } else if i + 1 < arguments.len() {
                        let v = arguments[i + 1].as_str();
                        assert(args[i + 1] == v@);
                        match parse_option_value(name, v) {
                            None => {
                                return Step::Fail(
                                    ArgumentsError::InvalidValue(name, String::from_str(v)),
                                );
                            },
                            Some(b) => {
                                values.set(name, b);
                                return Step::Next(i + 2);
                            },
                        }
                    } else {
                        return Step::Fail(ArgumentsError::MissingValue(name));
                    }
                },
            }
        }
        if n >= 2 && a.get_char(0) == '-' {
            return Step::Fail(ArgumentsError::UnrecognizedOption(String::from_str(a)));
        }
        Step::Free(i)
    }

    /// Parses the command line, program name first (see the module's documentation).
    pub fn parse(arguments: &Vec<String>) -> (r: Result<Arguments, ArgumentsError>)
        ensures
            parse_result_view(r) == parse_spec(arguments.deep_view()),
    {
        let ghost args = arguments.deep_view();
        let len = arguments.len();
        let argv0: Option<&str> = if len > 0 {
            Some(arguments[0].as_str())
        } else {
            None
        };
        let ghost argv0_view: Option<Seq<char>> = if len > 0 {
            Some(args[0])
        } else {
            None
        };
        assert(len > 0 ==> args[0] == arguments[0]@);
        let start: usize = if len > 0 {
            1
        } else {
            0
        };
        let mut values = OptionValues {
            help: false,
            ready_for_exit_signal_port: None,
            exit_port: None,
            exit_code: None,
        };
        let mut i = start;
        let mut free: usize = len;
        while i < len
            invariant_except_break
                scan(args, start as int, OptionValues::spec_none()) == scan(args, i as int, values),
                free == len,
            invariant
                len == arguments.len(),
                args == arguments.deep_view(),
                start <= i <= len,
                start == (if len > 0 {
                    1usize
                } else {
                    0usize
                }),
            ensures
                free <= len,
                scan(args, start as int, OptionValues::spec_none()) == Ok::<
                    (OptionValues, int),
                    ArgumentsErrorView,
                >((values, free as int)),
            decreases len - i,
        {
            match Self::step(arguments, i, &mut values) {
                Step::Free(k) => {
                    free = k;
                    break ;
                },
                Step::Next(j) => {
                    i = j;
                },
                Step::Fail(e) => {
                    return Err(e);
                },
            }
        }
        if values.help {
            return Err(ArgumentsError::Help(Self::usage(argv0, OPTIONS_USAGE)));
        }
        let ready_for_exit_signal_port = match values.ready_for_exit_signal_port {
            Some(p) => p,
            None => {
                return Err(ArgumentsError::MissingOption(OptionName::ReadyForExitSignalPort));
            },
        };
        let exit_port = match values.exit_port {
            Some(p) => p,
            None => {
                return Err(ArgumentsError::MissingOption(OptionName::ExitPort));
            },
        };
        let exit_code = match values.exit_code {
            Some(c) => c,
            None => {
                return Err(ArgumentsError::MissingOption(OptionName::ExitCode));
            },
        };
        if free >= len {
            return Err(ArgumentsError::MissingGuestArchitecture(Self::usage(argv0, OPTIONS_USAGE)));
        }
        let guest_architecture = arguments[free].clone();
        let mut qemu_arguments: Vec<String> = Vec::new();
        let mut j = free + 1;
        while j < len
            invariant
                len == arguments.len(),
                args == arguments.deep_view(),
                free < len,
                free + 1 <= j <= len,
                qemu_arguments.deep_view() =~= args.subrange(free + 1, j as int),
            decreases len - j,
        {
            let ghost before = qemu_arguments.deep_view();
            let argument = arguments[j].clone();
            qemu_arguments.push(argument);
            assert(qemu_arguments.deep_view() =~= before.push(args[j as int]));
            j = j + 1;
        }
        Ok(
            Arguments {
                child_arguments: ChildArguments {
                    ready_for_exit_signal_port,
                    exit_port,
                    guest_architecture,
                    qemu_arguments,
                },
                exit_code,
            },
        )
    }
}

} // verus!

verus! {

proof fn lemma_scan_free_index_bounds(args: Seq<Seq<char>>, i: int, values: OptionValues)
    requires
        0 <= i <= args.len(),
    ensures
        scan(args, i, values) matches Ok((_, k)) ==> i <= k <= args.len(),
    decreases args.len() - i,
{
    if i < args.len() {
        let a = args[i];
        if a == "--"@ {
        } else if a == "-h"@ || a == "--help"@ {
            lemma_scan_free_index_bounds(args, i + 1, values.spec_with_help());
        } else if is_long_option(a) {
            let body = a.subrange(2, a.len() as int);
            let eq = find_equals(body, 0);
            match option_named(body.subrange(0, eq)) {
                None => {},
                Some(name) => if eq < body.len() {
                    let v = body.subrange(eq + 1, body.len() as int);
                    if let Some(b) = option_value(name, v) {
                        lemma_scan_free_index_bounds(args, i + 1, values.spec_with(name, b));
                    }
                } else if i + 1 < args.len() {
                    if let Some(b) = option_value(name, args[i + 1]) {
                        lemma_scan_free_index_bounds(args, i + 2, values.spec_with(name, b));
                    }
                },
            }
        }
    }
}

/// Whatever follows the guest architecture on the command line goes to QEMU unchanged, and the
/// guest architecture is an argument after the program name.
pub proof fn law_qemu_arguments_are_the_tail(args: Seq<Seq<char>>)
    requires
        parse_spec(args) is Ok,
    ensures
        exists|k: int|
            1 <= k < args.len() && parse_spec(args)->Ok_0.guest_architecture == #[trigger] args[k]
                && parse_spec(args)->Ok_0.qemu_arguments == args.subrange(k + 1, args.len() as int),
{
    let start: int = if args.len() > 0 {
        1
    } else {
        0
    };
    lemma_scan_free_index_bounds(args, start, OptionValues::spec_none());
    let k = scan(args, start, OptionValues::spec_none())->Ok_0.1;
    assert(parse_spec(args)->Ok_0.guest_architecture == args[k]);
}

/// Recording an option's value sets that option to it (the last value given wins) and leaves
/// the other options and the help flag as they were.
pub proof fn law_option_records_its_value(values: OptionValues, name: OptionName, value: i32)
    requires
        name != OptionName::ExitCode ==> 0 <= value <= 255,
    ensures
        name == OptionName::ReadyForExitSignalPort ==> values.spec_with(name, value).ready_for_exit_signal_port
            == Some(value as u8) && values.spec_with(name, value).exit_port == values.exit_port
            && values.spec_with(name, value).exit_code == values.exit_code,
        name == OptionName::ExitPort ==> values.spec_with(name, value).exit_port == Some(value as u8)
            && values.spec_with(name, value).ready_for_exit_signal_port
            == values.ready_for_exit_signal_port && values.spec_with(name, value).exit_code
            == values.exit_code,
        name == OptionName::ExitCode ==> values.spec_with(name, value).exit_code == Some(value)
            && values.spec_with(name, value).ready_for_exit_signal_port
            == values.ready_for_exit_signal_port && values.spec_with(name, value).exit_port
            == values.exit_port,
        values.spec_with(name, value).help == values.help,
        values.spec_with(name, value).spec_with(name, value) == values.spec_with(name, value),
{
}

proof fn lemma_long_names(name: OptionName)
    ensures
        option_named(name.spec_long_name()) == Some(name),
        forall|j: int|
            0 <= j < name.spec_long_name().len() ==> #[trigger] name.spec_long_name()[j] != '=',
        name.spec_long_name().len() > 0,
        name.spec_long_name() != seq!['h', 'e', 'l', 'p'],
        name.spec_long_name()[0] != 'h',
{
    reveal_strlit("ready-for-exit-signal-port");
    reveal_strlit("exit-port");
    reveal_strlit("exit-code");
    assert("exit-port"@ != "exit-code"@) by {
        assert("exit-port"@[5] != "exit-code"@[5]);
    }
    assert("ready-for-exit-signal-port"@ != "exit-port"@) by {
        assert("ready-for-exit-signal-port"@.len() != "exit-port"@.len());
    }
    assert("ready-for-exit-signal-port"@ != "exit-code"@) by {
        assert("ready-for-exit-signal-port"@.len() != "exit-code"@.len());
    }
}

proof fn lemma_find_equals_at(s: Seq<char>, from: int, k: int)
    requires
        0 <= from <= k <= s.len(),
        forall|j: int| from <= j < k ==> s[j] != '=',
        k == s.len() || s[k] == '=',
    ensures
        find_equals(s, from) == k,
    decreases k - from,
{
    if from < k {
        lemma_find_equals_at(s, from + 1, k);
    }
}

/// How one argument in option position is read: `--` ends the options (free arguments follow
/// it); `-h` and `--help` ask for help; a free argument (not starting with `-`, or `-` alone)
/// ends the options and starts the free arguments; any other short option, or a long option
/// that is not one of the three, is refused as it is; `--name=value` and `--name value` record
/// the option's value, or refuse the value when it does not read, or report the value missing
/// at the end of the command line.
pub proof fn law_scan_reads_one_argument(
    args: Seq<Seq<char>>,
    i: int,
    values: OptionValues,
    name: OptionName,
    text: Seq<char>,
)
    requires
        0 <= i < args.len(),
    ensures
        args[i] == seq!['-', '-'] ==> scan(args, i, values) == Ok::<
            (OptionValues, int),
            ArgumentsErrorView,
        >((values, i + 1)),
        args[i] == seq!['-', 'h'] || args[i] == seq!['-', '-', 'h', 'e', 'l', 'p'] ==> scan(
            args,
            i,
            values,
        ) == scan(args, i + 1, OptionValues { help: true, ..values }),
        args[i].len() == 0 || args[i][0] != '-' || args[i] == seq!['-'] ==> scan(args, i, values)
            == Ok::<(OptionValues, int), ArgumentsErrorView>((values, i)),
        args[i].len() >= 2 && args[i][0] == '-' && args[i][1] != '-' && args[i] != seq!['-', 'h']
            ==> scan(args, i, values) == Err::<(OptionValues, int), ArgumentsErrorView>(
            ArgumentsErrorView::UnrecognizedOption(args[i]),
        ),
        args[i] == seq!['-', '-'] + text && text.len() > 0 && (forall|j: int|
            0 <= j < text.len() ==> #[trigger] text[j] != '=') && text != seq![
            'h',
            'e',
            'l',
            'p',
        ] && text != OptionName::ReadyForExitSignalPort.spec_long_name() && text
            != OptionName::ExitPort.spec_long_name() && text != OptionName::ExitCode.spec_long_name()
            ==> scan(args, i, values) == Err::<(OptionValues, int), ArgumentsErrorView>(
            ArgumentsErrorView::UnrecognizedOption(args[i]),
        ),
        args[i] == seq!['-', '-'] + name.spec_long_name() + seq!['='] + text ==> scan(
            args,
            i,
            values,
        ) == match option_value(name, text) {
            Some(x) => scan(args, i + 1, values.spec_with(name, x)),
            None => Err(ArgumentsErrorView::InvalidValue(name, text)),
        },
        args[i] == seq!['-', '-'] + name.spec_long_name() ==> scan(args, i, values) == if i + 1
            < args.len() {
            match option_value(name, args[i + 1]) {
                Some(x) => scan(args, i + 2, values.spec_with(name, x)),
                None => Err(ArgumentsErrorView::InvalidValue(name, args[i + 1])),
            }
        } else {
            Err(ArgumentsErrorView::MissingValue(name))
        },
{
    reveal_strlit("--");
    reveal_strlit("-h");
    reveal_strlit("--help");
    assert("--"@ =~= seq!['-', '-']);
    assert("-h"@ =~= seq!['-', 'h']);
    assert("--help"@ =~= seq!['-', '-', 'h', 'e', 'l', 'p']);
    let a = args[i];
    lemma_long_names(name);
    let long = name.spec_long_name();
    if a == seq!['-', '-'] + long + seq!['='] + text {
        let body = a.subrange(2, a.len() as int);
        assert(body =~= long + seq!['='] + text);
        lemma_find_equals_at(body, 0, long.len() as int);
        assert(body.subrange(0, long.len() as int) =~= long);
        assert(body.subrange(long.len() as int + 1, body.len() as int) =~= text);
        assert(a[1] == '-' && a[2] == long[0] && a.len() >= 4);
    }
    if a == seq!['-', '-'] + long {
        let body = a.subrange(2, a.len() as int);
        assert(body =~= long);
        lemma_find_equals_at(body, 0, long.len() as int);
        assert(body.subrange(0, long.len() as int) =~= long);
        assert(a != "--help"@) by {
            assert(long != seq!['h', 'e', 'l', 'p']);
            if a == "--help"@ {
                assert(long =~= seq!['h', 'e', 'l', 'p']);
            }
        }
    }
    if a == seq!['-', '-'] + text && text.len() > 0 && (forall|j: int|
        0 <= j < text.len() ==> #[trigger] text[j] != '=') && text != seq!['h', 'e', 'l', 'p'] {
        let body = a.subrange(2, a.len() as int);
        assert(body =~= text);
        lemma_find_equals_at(body, 0, text.len() as int);
        assert(body.subrange(0, text.len() as int) =~= text);
        assert(a != "--help"@) by {
            if a == "--help"@ {
                assert(text =~= seq!['h', 'e', 'l', 'p']);
            }
        }
    }
}

/// `--` followed by the option's long name.
pub open spec fn long_option(name: OptionName) -> Seq<char> {
    seq!['-', '-'] + name.spec_long_name()
}

/// The command line that the wrapper is run with (ports as `format!("{port:#04x}")`, the exit
/// code in decimal, then the architecture and QEMU's arguments) reads back as exactly those
/// values, whatever QEMU's arguments are.
pub proof fn law_parse_reads_back_the_command_line(
    argv0: Seq<char>,
    ready_port: u8,
    exit_port: u8,
    exit_code: i32,
    guest_architecture: Seq<char>,
    qemu_arguments: Seq<Seq<char>>,
)
    requires
        exit_code >= 0,
        guest_architecture.len() > 0,
        guest_architecture[0] != '-',
    ensures
        parse_spec(
            seq![
                argv0,
                long_option(OptionName::ReadyForExitSignalPort),
                hex_byte(ready_port),
                long_option(OptionName::ExitPort),
                hex_byte(exit_port),
                long_option(OptionName::ExitCode),
                decimal(exit_code as nat),
                guest_architecture,
            ] + qemu_arguments,
        ) == Ok::<ArgumentsView, ArgumentsErrorView>(
            ArgumentsView {
                ready_for_exit_signal_port: ready_port,
                exit_port,
                exit_code,
                guest_architecture,
                qemu_arguments,
            },
        ),
{
    let args = seq![
        argv0,
        long_option(OptionName::ReadyForExitSignalPort),
        hex_byte(ready_port),
        long_option(OptionName::ExitPort),
        hex_byte(exit_port),
        long_option(OptionName::ExitCode),
        decimal(exit_code as nat),
        guest_architecture,
    ] + qemu_arguments;
    law_hex_byte_round_trip(ready_port);
    law_hex_byte_round_trip(exit_port);
    law_decimal_i32_round_trip(exit_code);
    let v0 = OptionValues::spec_none();
    let v1 = v0.spec_with(OptionName::ReadyForExitSignalPort, ready_port as i32);
    let v2 = v1.spec_with(OptionName::ExitPort, exit_port as i32);
    let v3 = v2.spec_with(OptionName::ExitCode, exit_code);
    assert(args[1] == long_option(OptionName::ReadyForExitSignalPort));
    assert(args[2] == hex_byte(ready_port));
    assert(args[3] == long_option(OptionName::ExitPort));
    assert(args[4] == hex_byte(exit_port));
    assert(args[5] == long_option(OptionName::ExitCode));
    assert(args[6] == decimal(exit_code as nat));
    assert(args[7] == guest_architecture);
    law_scan_reads_one_argument(args, 1, v0, OptionName::ReadyForExitSignalPort, Seq::empty());
    law_scan_reads_one_argument(args, 3, v1, OptionName::ExitPort, Seq::empty());
    law_scan_reads_one_argument(args, 5, v2, OptionName::ExitCode, Seq::empty());
    law_scan_reads_one_argument(args, 7, v3, OptionName::ExitCode, Seq::empty());
    assert(scan(args, 1, v0) == Ok::<(OptionValues, int), ArgumentsErrorView>((v3, 7)));
    assert(args.subrange(8, args.len() as int) =~= qemu_arguments);
}

/// Asking for help, before the free arguments and without a faulty option, gives the usage
/// message, whatever else was or was not given.
pub proof fn law_help_gives_usage(argv0: Seq<char>, guest_architecture: Seq<char>, rest: Seq<Seq<char>>)
    requires
        guest_architecture.len() > 0,
        guest_architecture[0] != '-',
    ensures
        parse_spec(seq![argv0, seq!['-', 'h'], guest_architecture] + rest) == Err::<
            ArgumentsView,
            ArgumentsErrorView,
        >(ArgumentsErrorView::Help(usage_message(Some(argv0), OPTIONS_USAGE@))),
        parse_spec(seq![argv0, seq!['-', 'h']]) == Err::<ArgumentsView, ArgumentsErrorView>(
            ArgumentsErrorView::Help(usage_message(Some(argv0), OPTIONS_USAGE@)),
        ),
{
    let args = seq![argv0, seq!['-', 'h'], guest_architecture] + rest;
    let v0 = OptionValues::spec_none();
    assert(args[1] == seq!['-', 'h']);
    assert(args[2] == guest_architecture);
    law_scan_reads_one_argument(args, 1, v0, OptionName::ExitCode, Seq::empty());
    law_scan_reads_one_argument(args, 2, OptionValues { help: true, ..v0 }, OptionName::ExitCode, Seq::empty());
    let short = seq![argv0, seq!['-', 'h']];
    law_scan_reads_one_argument(short, 1, v0, OptionName::ExitCode, Seq::empty());
}

/// Without the wrapper's options, the first one missing is reported: the ready port.
pub proof fn law_missing_options_are_reported(argv0: Seq<char>, guest_architecture: Seq<char>, rest: Seq<Seq<char>>)
    requires
        guest_architecture.len() > 0,
        guest_architecture[0] != '-',
    ensures
        parse_spec(seq![argv0, guest_architecture] + rest) == Err::<ArgumentsView, ArgumentsErrorView>(
            ArgumentsErrorView::MissingOption(OptionName::ReadyForExitSignalPort),
        ),
{
    let args = seq![argv0, guest_architecture] + rest;
    assert(args[1] == guest_architecture);
    law_scan_reads_one_argument(args, 1, OptionValues::spec_none(), OptionName::ExitCode, Seq::empty());
}

} // verus!

