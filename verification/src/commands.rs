//! The command language of the interactive test tool: which command a line
//! is, the display presets behind the number keys, and the GDI device name
//! that a set-primary or move-windows command names.

use crate::protocol::{ALLUNO_VDD_HDR_HDR10, ALLUNO_VDD_HDR_HDR10_PLUS};
use vstd::prelude::*;
use vstd::string::StrSliceExecFns;

verus! {

/// A character with the Unicode `White_Space` property.
pub open spec fn is_white_space(c: char) -> bool {
    let v = c as u32;
    ||| 0x9 <= v <= 0xD
    ||| v == 0x20
    ||| v == 0x85
    ||| v == 0xA0
    ||| v == 0x1680
    ||| 0x2000 <= v <= 0x200A
    ||| v == 0x2028
    ||| v == 0x2029
    ||| v == 0x202F
    ||| v == 0x205F
    ||| v == 0x3000
}

/// `s` without its leading white space.
pub open spec fn trim_start_chars(s: Seq<char>) -> Seq<char>
    decreases s.len(),
{
    if s.len() > 0 && is_white_space(s[0]) {
        trim_start_chars(s.drop_first())
    } else {
        s
    }
}

/// `s` without its trailing white space.
pub open spec fn trim_end_chars(s: Seq<char>) -> Seq<char>
    decreases s.len(),
{
    if s.len() > 0 && is_white_space(s.last()) {
        trim_end_chars(s.drop_last())
    } else {
        s
    }
}

/// `s` without its leading and trailing white space.
pub open spec fn trim_chars(s: Seq<char>) -> Seq<char> {
    trim_end_chars(trim_start_chars(s))
}

/// Calls `str::trim`, which removes leading and trailing characters with the
/// Unicode `White_Space` property, as its documentation says.
#[verifier::external_body]
fn str_trim(s: &str) -> (r: &str)
    ensures
        r@ == trim_chars(s@),
{
    s.trim()
}

/// A display that a number key of the test tool adds.
#[derive(Clone, Copy, Debug, PartialEq, Eq)]
pub struct DisplayPreset {
    pub width: u32,
    pub height: u32,
    pub refresh_rate: u32,
    pub name: &'static str,
    pub bits_per_channel: u32,
    pub hdr_mode: u32,
}

/// A command of the test tool.
#[derive(Clone, Copy, Debug, PartialEq, Eq)]
pub enum ToolCommand {
    AddDisplay(DisplayPreset),
    RemoveAll,
    List,
    SetPrimary,
    MoveWindows,
    Ping,
    Quit,
    Unknown,
}

/// The add-display command of a preset.
pub open spec fn preset(
    width: u32,
    height: u32,
    refresh_rate: u32,
    name: &'static str,
    bits_per_channel: u32,
    hdr_mode: u32,
) -> ToolCommand {
    ToolCommand::AddDisplay(
        DisplayPreset { width, height, refresh_rate, name, bits_per_channel, hdr_mode },
    )
}

/// The command that the (trimmed) text `t` stands for.
pub open spec fn spec_command(t: Seq<char>) -> ToolCommand {
    if t == seq!['1'] {
        preset(1920, 1080, 60, "1080p60", 8, 0)
    } else if t == seq!['2'] {
        preset(2560, 1440, 60, "1440p60", 8, 0)
    } else if t == seq!['3'] {
        preset(3840, 2160, 60, "4K60", 8, 0)
    } else if t == seq!['4'] {
        preset(1920, 1080, 144, "1080p144", 8, 0)
    } else if t == seq!['5'] {
        preset(2560, 1440, 144, "1440p144", 8, 0)
    } else if t == seq!['6'] {
        preset(3840, 2160, 120, "4K120", 8, 0)
    } else if t == seq!['7'] {
        preset(1280, 720, 60, "720p60", 8, 0)
    } else if t == seq!['8'] {
        preset(3440, 1440, 60, "UW1440p", 8, 0)
    } else if t == seq!['9'] {
        preset(5120, 1440, 60, "SUW1440", 8, 0)
    } else if t == seq!['h', '1'] {
        preset(1920, 1080, 60, "HDR1080", 10, ALLUNO_VDD_HDR_HDR10)
    } else if t == seq!['h', '2'] {
        preset(2560, 1440, 60, "HDR1440", 10, ALLUNO_VDD_HDR_HDR10)
    } else if t == seq!['h', '3'] {
        preset(3840, 2160, 60, "HDR4K", 10, ALLUNO_VDD_HDR_HDR10)
    } else if t == seq!['0'] {
        ToolCommand::RemoveAll
    } else if t == seq!['l'] || t == seq!['L'] {
        ToolCommand::List
    } else if t.len() > 0 && (t[0] == 's' || t[0] == 'S') {
        ToolCommand::SetPrimary
    } else if t.len() > 0 && (t[0] == 'm' || t[0] == 'M') {
        ToolCommand::MoveWindows
    } else if t == seq!['p'] || t == seq!['P'] {
        ToolCommand::Ping
    } else if t == seq!['q'] || t == seq!['Q'] {
        ToolCommand::Quit
    } else {
        ToolCommand::Unknown
    }
}

/// The keys of the test tool and what they do: the number keys 1 to 9 and
/// `h1` to `h3` add the displays of the preset table (width, height, refresh
/// rate in Hz, name, bits per channel, HDR mode: 0 for SDR, 1 for HDR10), 0
/// removes all displays, `l` lists them, `p` pings the driver and `q` quits,
/// and a line that starts with `s` or `m` sets the primary display or moves
/// the windows, each of the letters in either case.
pub proof fn lemma_tool_keys()
    ensures
        spec_command(seq!['1']) == (ToolCommand::AddDisplay(DisplayPreset {
            width: 1920, height: 1080, refresh_rate: 60,
            name: "1080p60", bits_per_channel: 8, hdr_mode: 0,
        })),
        spec_command(seq!['2']) == (ToolCommand::AddDisplay(DisplayPreset {
            width: 2560, height: 1440, refresh_rate: 60,
            name: "1440p60", bits_per_channel: 8, hdr_mode: 0,
        })),
        spec_command(seq!['3']) == (ToolCommand::AddDisplay(DisplayPreset {
            width: 3840, height: 2160, refresh_rate: 60,
            name: "4K60", bits_per_channel: 8, hdr_mode: 0,
        })),
        spec_command(seq!['4']) == (ToolCommand::AddDisplay(DisplayPreset {
            width: 1920, height: 1080, refresh_rate: 144,
            name: "1080p144", bits_per_channel: 8, hdr_mode: 0,
        })),
        spec_command(seq!['5']) == (ToolCommand::AddDisplay(DisplayPreset {
            width: 2560, height: 1440, refresh_rate: 144,
            name: "1440p144", bits_per_channel: 8, hdr_mode: 0,
        })),
        spec_command(seq!['6']) == (ToolCommand::AddDisplay(DisplayPreset {
            width: 3840, height: 2160, refresh_rate: 120,
            name: "4K120", bits_per_channel: 8, hdr_mode: 0,
        })),
        spec_command(seq!['7']) == (ToolCommand::AddDisplay(DisplayPreset {
            width: 1280, height: 720, refresh_rate: 60,
            name: "720p60", bits_per_channel: 8, hdr_mode: 0,
        })),
        spec_command(seq!['8']) == (ToolCommand::AddDisplay(DisplayPreset {
            width: 3440, height: 1440, refresh_rate: 60,
            name: "UW1440p", bits_per_channel: 8, hdr_mode: 0,
        })),
        spec_command(seq!['9']) == (ToolCommand::AddDisplay(DisplayPreset {
            width: 5120, height: 1440, refresh_rate: 60,
            name: "SUW1440", bits_per_channel: 8, hdr_mode: 0,
        })),
        spec_command(seq!['h', '1']) == (ToolCommand::AddDisplay(DisplayPreset {
            width: 1920, height: 1080, refresh_rate: 60,
            name: "HDR1080", bits_per_channel: 10, hdr_mode: 1,
        })),
        spec_command(seq!['h', '2']) == (ToolCommand::AddDisplay(DisplayPreset {
            width: 2560, height: 1440, refresh_rate: 60,
            name: "HDR1440", bits_per_channel: 10, hdr_mode: 1,
        })),
        spec_command(seq!['h', '3']) == (ToolCommand::AddDisplay(DisplayPreset {
            width: 3840, height: 2160, refresh_rate: 60,
            name: "HDR4K", bits_per_channel: 10, hdr_mode: 1,
        })),
        spec_command(seq!['0']) == ToolCommand::RemoveAll,
        spec_command(seq!['l']) == ToolCommand::List,
        spec_command(seq!['L']) == ToolCommand::List,
        spec_command(seq!['p']) == ToolCommand::Ping,
        spec_command(seq!['P']) == ToolCommand::Ping,
        spec_command(seq!['q']) == ToolCommand::Quit,
        spec_command(seq!['Q']) == ToolCommand::Quit,
        spec_command(seq![]) == ToolCommand::Unknown,
        forall|t: Seq<char>|
            t.len() > 0 && (t[0] == 's' || t[0] == 'S') ==> #[trigger] spec_command(t)
                == ToolCommand::SetPrimary,
        forall|t: Seq<char>|
            t.len() > 0 && (t[0] == 'm' || t[0] == 'M') ==> #[trigger] spec_command(t)
                == ToolCommand::MoveWindows,
{
    assert(seq!['1'][0] == '1');
    assert(seq!['2'][0] == '2');
    assert(seq!['3'][0] == '3');
    assert(seq!['4'][0] == '4');
    assert(seq!['5'][0] == '5');
    assert(seq!['6'][0] == '6');
    assert(seq!['7'][0] == '7');
    assert(seq!['8'][0] == '8');
    assert(seq!['9'][0] == '9');
    assert(seq!['0'][0] == '0');
    assert(seq!['l'][0] == 'l');
    assert(seq!['L'][0] == 'L');
    assert(seq!['p'][0] == 'p');
    assert(seq!['P'][0] == 'P');
    assert(seq!['q'][0] == 'q');
    assert(seq!['Q'][0] == 'Q');
    assert(seq!['h', '1'][0] == 'h' && seq!['h', '1'][1] == '1');
    assert(seq!['h', '2'][0] == 'h' && seq!['h', '2'][1] == '2');
    assert(seq!['h', '3'][0] == 'h' && seq!['h', '3'][1] == '3');
}

/// The command of an input line, read without its surrounding white space.
pub fn parse_command(line: &str) -> (cmd: ToolCommand)
    ensures
        cmd == spec_command(trim_chars(line@)),
{
    let t = str_trim(line);
    let n = t.unicode_len();
    let c0 = if n > 0 {
        t.get_char(0)
    } else {
        ' '
    };
    let c1 = if n > 1 {
        t.get_char(1)
    } else {
        ' '
    };
    proof {
        if n == 1 {
            assert(t@ == seq![c0]);
        }
        if n == 2 {
            assert(t@ == seq![c0, c1]);
        }
    }
    if n == 1 && c0 == '1' {
        ToolCommand::AddDisplay(
            DisplayPreset {
                width: 1920,
                height: 1080,
                refresh_rate: 60,
                name: "1080p60",
                bits_per_channel: 8,
                hdr_mode: 0,
            },
        )
    } else if n == 1 && c0 == '2' {
        ToolCommand::AddDisplay(
            DisplayPreset {
                width: 2560,
                height: 1440,
                refresh_rate: 60,
                name: "1440p60",
                bits_per_channel: 8,
                hdr_mode: 0,
            },
        )
    } else if n == 1 && c0 == '3' {
        ToolCommand::AddDisplay(
            DisplayPreset {
                width: 3840,
                height: 2160,
                refresh_rate: 60,
                name: "4K60",
                bits_per_channel: 8,
                hdr_mode: 0,
            },
        )
    } else if n == 1 && c0 == '4' {
        ToolCommand::AddDisplay(
            DisplayPreset {
                width: 1920,
                height: 1080,
                refresh_rate: 144,
                name: "1080p144",
                bits_per_channel: 8,
                hdr_mode: 0,
            },
        )
    } else if n == 1 && c0 == '5' {
        ToolCommand::AddDisplay(
            DisplayPreset {
                width: 2560,
                height: 1440,
                refresh_rate: 144,
                name: "1440p144",
                bits_per_channel: 8,
                hdr_mode: 0,
            },
        )
    } else if n == 1 && c0 == '6' {
        ToolCommand::AddDisplay(
            DisplayPreset {
                width: 3840,
                height: 2160,
                refresh_rate: 120,
                name: "4K120",
                bits_per_channel: 8,
                hdr_mode: 0,
            },
        )
    } else if n == 1 && c0 == '7' {
        ToolCommand::AddDisplay(
            DisplayPreset {
                width: 1280,
                height: 720,
                refresh_rate: 60,
                name: "720p60",
                bits_per_channel: 8,
                hdr_mode: 0,
            },
        )
    } else if n == 1 && c0 == '8' {
        ToolCommand::AddDisplay(
            DisplayPreset {
                width: 3440,
                height: 1440,
                refresh_rate: 60,
                name: "UW1440p",
                bits_per_channel: 8,
                hdr_mode: 0,
            },
        )
    } else if n == 1 && c0 == '9' {
        ToolCommand::AddDisplay(
            DisplayPreset {
                width: 5120,
                height: 1440,
                refresh_rate: 60,
                name: "SUW1440",
                bits_per_channel: 8,
                hdr_mode: 0,
            },
        )
    } else if n == 2 && c0 == 'h' && c1 == '1' {
        ToolCommand::AddDisplay(
            DisplayPreset {
                width: 1920,
                height: 1080,
                refresh_rate: 60,
                name: "HDR1080",
                bits_per_channel: 10,
                hdr_mode: ALLUNO_VDD_HDR_HDR10,
            },
        )
    } else if n == 2 && c0 == 'h' && c1 == '2' {
        ToolCommand::AddDisplay(
            DisplayPreset {
                width: 2560,
                height: 1440,
                refresh_rate: 60,
                name: "HDR1440",
                bits_per_channel: 10,
                hdr_mode: ALLUNO_VDD_HDR_HDR10,
            },
        )
    } else if n == 2 && c0 == 'h' && c1 == '3' {
        ToolCommand::AddDisplay(
            DisplayPreset {
                width: 3840,
                height: 2160,
                refresh_rate: 60,
                name: "HDR4K",
                bits_per_channel: 10,
                hdr_mode: ALLUNO_VDD_HDR_HDR10,
            },
        )
    } else if n == 1 && c0 == '0' {
        ToolCommand::RemoveAll
    } else if n == 1 && (c0 == 'l' || c0 == 'L') {
        ToolCommand::List
    } else if n > 0 && (c0 == 's' || c0 == 'S') {
        ToolCommand::SetPrimary
    } else if n > 0 && (c0 == 'm' || c0 == 'M') {
        ToolCommand::MoveWindows
    } else if n == 1 && (c0 == 'p' || c0 == 'P') {
        ToolCommand::Ping
    } else if n == 1 && (c0 == 'q' || c0 == 'Q') {
        ToolCommand::Quit
    } else {
        ToolCommand::Unknown
    }
}

/// The prefix of a GDI display device name: `\\.\DISPLAY`.
pub open spec fn display_name_prefix() -> Seq<char> {
    seq!['\\', '\\', '.', '\\', 'D', 'I', 'S', 'P', 'L', 'A', 'Y']
}

/// The GDI device name that the argument `arg` of a set-primary or
/// move-windows command names: the argument itself when it starts with two
/// backslashes (a full device name), otherwise the display of that number,
/// `\\.\DISPLAY<arg>`.
pub open spec fn spec_display_target(arg: Seq<char>) -> Seq<char> {
    if arg.len() >= 2 && arg[0] == '\\' && arg[1] == '\\' {
        arg
    } else {
        display_name_prefix() + arg
    }
}

/// The argument of a set-primary or move-windows command: the text after
/// the command letter, without its surrounding white space.
pub open spec fn command_argument(line: Seq<char>) -> Seq<char> {
    trim_chars(trim_chars(line).drop_first())
}

/// The GDI device name that a set-primary or move-windows command line
/// names, or `None` when it names none (the usage case).  The command letter
/// must be an ASCII character, as every command letter is.
pub fn display_target_from_command(line: &str) -> (target: Option<String>)
    requires
        trim_chars(line@).len() >= 1,
        (trim_chars(line@)[0] as u32) < 0x80,
    ensures
        target is None <==> command_argument(line@).len() == 0,
        target matches Some(s) ==> s@ == spec_display_target(command_argument(line@)),
{
    let cmd = str_trim(line);
    let n = cmd.unicode_len();
    let rest = cmd.substring_char(1, n);
    let arg = str_trim(rest);
    assert(rest@ == trim_chars(line@).drop_first());
    let m = arg.unicode_len();
    if m == 0 {
        return None;
    }
    if m >= 2 && arg.get_char(0) == '\\' && arg.get_char(1) == '\\' {
        Some(arg.to_owned())
    } else {
        let mut name = "\\\\.\\DISPLAY".to_owned();
        proof {
            reveal_strlit("\\\\.\\DISPLAY");
            assert(name@ =~= display_name_prefix());
        }
        vstd::string::StringExecFns::append(&mut name, arg);
        Some(name)
    }
}

/// The label of an HDR mode in the tool's listings: `HDR10`, `HDR10+`, or
/// nothing for any other mode.
pub fn hdr_mode_label(hdr_mode: u32) -> (label: &'static str)
    ensures
        hdr_mode == ALLUNO_VDD_HDR_HDR10 ==> label@ == "HDR10"@,
        hdr_mode == ALLUNO_VDD_HDR_HDR10_PLUS ==> label@ == "HDR10+"@,
        hdr_mode != ALLUNO_VDD_HDR_HDR10 && hdr_mode != ALLUNO_VDD_HDR_HDR10_PLUS ==> label@ == ""@,
{
    if hdr_mode == ALLUNO_VDD_HDR_HDR10 {
        "HDR10"
    } else if hdr_mode == ALLUNO_VDD_HDR_HDR10_PLUS {
        "HDR10+"
    } else {
        ""
    }
}

} // verus!
