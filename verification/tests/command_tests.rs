use alluno_vdd_sys::commands::{display_target_from_command, hdr_mode_label, parse_command, DisplayPreset, ToolCommand};

#[test]
fn preset_commands() {
    assert_eq!(
        parse_command("1"),
        ToolCommand::AddDisplay(DisplayPreset {
            width: 1920,
            height: 1080,
            refresh_rate: 60,
            name: "1080p60",
            bits_per_channel: 8,
            hdr_mode: 0
        })
    );
    assert_eq!(
        parse_command("  9 \n"),
        ToolCommand::AddDisplay(DisplayPreset {
            width: 5120,
            height: 1440,
            refresh_rate: 60,
            name: "SUW1440",
            bits_per_channel: 8,
            hdr_mode: 0
        })
    );
    assert_eq!(
        parse_command("h3"),
        ToolCommand::AddDisplay(DisplayPreset {
            width: 3840,
            height: 2160,
            refresh_rate: 60,
            name: "HDR4K",
            bits_per_channel: 10,
            hdr_mode: 1
        })
    );
    match parse_command("6") {
        ToolCommand::AddDisplay(p) => assert_eq!((p.width, p.height, p.refresh_rate), (3840, 2160, 120)),
        other => panic!("unexpected {other:?}"),
    }
}

#[test]
fn other_commands() {
    assert_eq!(parse_command("0"), ToolCommand::RemoveAll);
    assert_eq!(parse_command("l"), ToolCommand::List);
    assert_eq!(parse_command("L"), ToolCommand::List);
    assert_eq!(parse_command("s9"), ToolCommand::SetPrimary);
    assert_eq!(parse_command("S"), ToolCommand::SetPrimary);
    assert_eq!(parse_command("m 3"), ToolCommand::MoveWindows);
    assert_eq!(parse_command("P"), ToolCommand::Ping);
    assert_eq!(parse_command("q"), ToolCommand::Quit);
    assert_eq!(parse_command("Q\r\n"), ToolCommand::Quit);
    assert_eq!(parse_command(""), ToolCommand::Unknown);
    assert_eq!(parse_command("10"), ToolCommand::Unknown);
    assert_eq!(parse_command("h4"), ToolCommand::Unknown);
    assert_eq!(parse_command("ping"), ToolCommand::Unknown);
    assert_eq!(parse_command("quit"), ToolCommand::Unknown);
}

#[test]
fn display_targets() {
    assert_eq!(display_target_from_command("s3"), Some("\\\\.\\DISPLAY3".to_string()));
    assert_eq!(display_target_from_command("  m 12  "), Some("\\\\.\\DISPLAY12".to_string()));
    assert_eq!(display_target_from_command("s\\\\.\\DISPLAY7"), Some("\\\\.\\DISPLAY7".to_string()));
    assert_eq!(display_target_from_command("s"), None);
    assert_eq!(display_target_from_command("m   "), None);
    // A single backslash is not a full device name.
    assert_eq!(display_target_from_command("s\\x"), Some("\\\\.\\DISPLAY\\x".to_string()));
}

#[test]
fn hdr_labels() {
    assert_eq!(hdr_mode_label(0), "");
    assert_eq!(hdr_mode_label(1), "HDR10");
    assert_eq!(hdr_mode_label(2), "HDR10+");
    assert_eq!(hdr_mode_label(0xFF), "");
}
