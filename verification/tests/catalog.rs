use b0xx_updater::device::{find_device, Device, DeviceFirmware};

fn fw(version: &str, active: bool, legal: bool) -> DeviceFirmware {
    DeviceFirmware {
        version: version.to_string(),
        date: "2019-06-01".to_string(),
        active,
        legal,
        filename: format!("img_{}.hex", version),
        filefmt: "i".to_string(),
    }
}

fn device(id: &str, firmwares: Vec<DeviceFirmware>) -> Device {
    Device {
        name: id.to_uppercase(),
        id: id.to_string(),
        partno: "atmega32u4".to_string(),
        progid: "avr109".to_string(),
        baudrate: 57600,
        memtype: "flash".to_string(),
        op: "w".to_string(),
        active: true,
        firmwares,
    }
}

#[test]
fn inactive_and_illegal_firmware_is_still_selectable() {
    let d = device("b0xx", vec![fw("1.0", true, true), fw("1.1", false, false)]);
    let picked = d.find_firmware(&"1.1".to_string());
    let picked = picked.expect("an inactive, illegal firmware must still be found by version");
    assert_eq!(picked.version, "1.1");
    assert!(!picked.active);
    assert!(!picked.legal);
}

#[test]
fn firmware_lookup_is_exact_and_first_match() {
    let d = device("b0xx", vec![fw("1.0", true, true), fw("1.1", true, true)]);
    assert_eq!(d.find_firmware(&"1.0".to_string()).unwrap().version, "1.0");
    assert!(d.find_firmware(&"2.0".to_string()).is_none());
    assert!(d.find_firmware(&"1".to_string()).is_none());
}

#[test]
fn visible_firmwares_are_the_active_ones_in_order() {
    let d = device(
        "b0xx",
        vec![fw("1.0", true, true), fw("1.1", false, true), fw("1.2", true, false)],
    );
    let visible = d.list_visible_firmwares();
    let versions: Vec<&str> = visible.iter().map(|f| f.version.as_str()).collect();
    assert_eq!(versions, vec!["1.0", "1.2"]);
}

#[test]
fn visible_firmwares_may_be_empty() {
    let d = device("b0xx", vec![fw("1.0", false, true)]);
    assert!(d.list_visible_firmwares().is_empty());
}

#[test]
fn device_lookup_finds_by_id() {
    let list = vec![device("b0xx", vec![]), device("b0xx2", vec![])];
    assert_eq!(find_device(&list, &"b0xx2".to_string()).unwrap().id, "b0xx2");
    assert!(find_device(&list, &"frame1".to_string()).is_none());
}

#[test]
fn device_clone_keeps_every_field() {
    let d = device("b0xx", vec![fw("1.0", true, true)]);
    let c = d.clone();
    assert_eq!(c.name, d.name);
    assert_eq!(c.id, d.id);
    assert_eq!(c.partno, d.partno);
    assert_eq!(c.progid, d.progid);
    assert_eq!(c.baudrate, d.baudrate);
    assert_eq!(c.memtype, d.memtype);
    assert_eq!(c.op, d.op);
    assert_eq!(c.active, d.active);
    assert_eq!(c.firmwares.len(), d.firmwares.len());
    assert_eq!(c.firmwares[0].version, d.firmwares[0].version);
    assert_eq!(c.firmwares[0].filename, d.firmwares[0].filename);
}
