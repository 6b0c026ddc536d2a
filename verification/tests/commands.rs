use b0xx_updater::device::{Device, DeviceFirmware};
use b0xx_updater::flash::{u64_to_dec_string, FlashCommand, Platform};
use b0xx_updater::ports::{
    collect_port_names, contains_name, first_new_port, locate_device_port, PortDescriptor,
    UsbPortMeta, B0XX_PID, B0XX_VID,
};

fn fixture_device() -> Device {
    Device {
        name: "B0XX".to_string(),
        id: "b0xx".to_string(),
        partno: "atmega32u4".to_string(),
        progid: "avr109".to_string(),
        baudrate: 57600,
        memtype: "flash".to_string(),
        op: "w".to_string(),
        active: true,
        firmwares: vec![],
    }
}

fn fixture_firmware() -> DeviceFirmware {
    DeviceFirmware {
        version: "1.2".to_string(),
        date: "2019-06-01".to_string(),
        active: true,
        legal: true,
        filename: "b0xx_1_2.hex".to_string(),
        filefmt: "i".to_string(),
    }
}

fn usb_port(name: &str, vid: u16, pid: u16, product: Option<&str>) -> PortDescriptor {
    PortDescriptor {
        port_name: name.to_string(),
        usb: Some(UsbPortMeta {
            vid,
            pid,
            product: product.map(|s| s.to_string()),
        }),
    }
}

fn plain_port(name: &str) -> PortDescriptor {
    PortDescriptor {
        port_name: name.to_string(),
        usb: None,
    }
}

#[test]
fn argv_reproduces_the_tool_grammar_verbatim() {
    let cmd = FlashCommand::build(
        &fixture_device(),
        &fixture_firmware(),
        "/dev/ttyACM1".to_string(),
        Platform::Unix,
    );
    assert_eq!(cmd.program, "avrdude");
    let argv = cmd.argv();
    let expected: Vec<String> = [
        "-C",
        "./vendor/avrdude/avrdude.conf",
        "-p",
        "atmega32u4",
        "-c",
        "avr109",
        "-P",
        "/dev/ttyACM1",
        "-b",
        "57600",
        "-D",
        "-U",
        "flash:w:./assets/hex/b0xx_1_2.hex:i",
    ]
    .iter()
    .map(|s| s.to_string())
    .collect();
    assert_eq!(argv, expected);
}

#[test]
fn windows_resolves_the_bundled_executable() {
    let cmd = FlashCommand::build(
        &fixture_device(),
        &fixture_firmware(),
        "COM7".to_string(),
        Platform::Windows,
    );
    assert_eq!(cmd.program, "./vendor/avrdude/windows/avrdude.exe");
}

#[test]
fn update_arg_joins_all_four_fields() {
    let cmd = FlashCommand::build(
        &fixture_device(),
        &fixture_firmware(),
        "COM7".to_string(),
        Platform::Unix,
    );
    assert_eq!(cmd.update_arg(), "flash:w:./assets/hex/b0xx_1_2.hex:i");
}

#[test]
fn decimal_formatting_is_exact() {
    assert_eq!(u64_to_dec_string(0), "0");
    assert_eq!(u64_to_dec_string(7), "7");
    assert_eq!(u64_to_dec_string(57600), "57600");
    assert_eq!(u64_to_dec_string(1200), "1200");
    assert_eq!(u64_to_dec_string(u64::MAX), "18446744073709551615");
}

#[test]
fn locator_matches_on_vendor_and_product_ids() {
    let ports = vec![
        plain_port("COM1"),
        usb_port("COM3", B0XX_VID, B0XX_PID, None),
    ];
    assert_eq!(locate_device_port(&ports), Some(1));
}

#[test]
fn locator_falls_back_on_the_product_string() {
    let ports = vec![
        usb_port("COM2", 1234, 5678, Some("Arduino_Leonardo")),
        usb_port("COM3", B0XX_VID, B0XX_PID, None),
    ];
    // Both clauses are evaluated per port, first match wins.
    assert_eq!(locate_device_port(&ports), Some(0));
}

#[test]
fn locator_rejects_near_misses() {
    let ports = vec![
        usb_port("COM2", B0XX_VID, 1, None),
        usb_port("COM3", 1, B0XX_PID, None),
        usb_port("COM4", 1, 1, Some("Arduino Leonardo")),
        plain_port("COM5"),
    ];
    assert_eq!(locate_device_port(&ports), None);
}

#[test]
fn port_diff_returns_the_single_new_name() {
    let before = vec!["COM3".to_string(), "COM4".to_string()];
    let after = vec![plain_port("COM3"), plain_port("COM7"), plain_port("COM4")];
    assert_eq!(first_new_port(&before, &after), Some(1));
}

#[test]
fn port_diff_sees_no_new_name_in_a_subset() {
    let before = vec!["COM3".to_string(), "COM4".to_string()];
    let after = vec![plain_port("COM4")];
    assert_eq!(first_new_port(&before, &after), None);
    let empty: Vec<PortDescriptor> = vec![];
    assert_eq!(first_new_port(&before, &empty), None);
}

#[test]
fn port_names_are_collected_in_order() {
    let ports = vec![plain_port("COM3"), usb_port("COM7", 1, 2, None)];
    let names = collect_port_names(&ports);
    assert_eq!(names, vec!["COM3".to_string(), "COM7".to_string()]);
    assert!(contains_name(&names, &"COM7".to_string()));
    assert!(!contains_name(&names, &"COM9".to_string()));
}
