use bt_le_central::decimal::i8_to_decimal;
use bt_le_central::device::{describe_device, RemoteDevice, RemoteDeviceWrapper};

fn device(connectable: bool, rssi: Option<i8>, name: Option<&str>) -> RemoteDevice {
    RemoteDevice {
        identifier: String::from("abc"),
        connectable,
        rssi,
        name: name.map(String::from),
    }
}

#[test]
fn full_device_line() {
    let d = device(true, Some(-40), Some("Widget"));
    assert_eq!(describe_device(&d), " [device(conn), rssi: -40, Widget, id: abc]");
}

#[test]
fn bare_device_line() {
    let d = device(false, None, None);
    assert_eq!(describe_device(&d), " [device(non-conn), id: abc]");
}

#[test]
fn rssi_without_name() {
    let d = device(false, Some(12), None);
    assert_eq!(describe_device(&d), " [device(non-conn), rssi: 12, id: abc]");
}

#[test]
fn name_without_rssi() {
    let d = device(true, None, Some("Lamp"));
    assert_eq!(describe_device(&d), " [device(conn), Lamp, id: abc]");
}

#[test]
fn empty_name_and_identifier_are_kept() {
    let d = RemoteDevice {
        identifier: String::new(),
        connectable: true,
        rssi: None,
        name: Some(String::new()),
    };
    assert_eq!(describe_device(&d), " [device(conn), , id: ]");
}

#[test]
fn name_with_other_scripts() {
    let d = device(true, Some(-1), Some("Grüße, 世界"));
    assert_eq!(describe_device(&d), " [device(conn), rssi: -1, Grüße, 世界, id: abc]");
}

#[test]
fn wrapper_gives_the_same_text() {
    let d = device(true, Some(-40), Some("Widget"));
    assert_eq!(RemoteDeviceWrapper(d.clone()).to_text(), describe_device(&d));
    assert_eq!(
        RemoteDeviceWrapper(d).to_text(),
        " [device(conn), rssi: -40, Widget, id: abc]"
    );
}

#[test]
fn decimal_of_every_signed_byte() {
    let mut v = i8::MIN;
    loop {
        assert_eq!(i8_to_decimal(v), format!("{}", v));
        if v == i8::MAX {
            break;
        }
        v += 1;
    }
}

#[test]
fn decimal_edges() {
    assert_eq!(i8_to_decimal(0), "0");
    assert_eq!(i8_to_decimal(9), "9");
    assert_eq!(i8_to_decimal(10), "10");
    assert_eq!(i8_to_decimal(99), "99");
    assert_eq!(i8_to_decimal(100), "100");
    assert_eq!(i8_to_decimal(127), "127");
    assert_eq!(i8_to_decimal(-1), "-1");
    assert_eq!(i8_to_decimal(-100), "-100");
    assert_eq!(i8_to_decimal(-128), "-128");
}
