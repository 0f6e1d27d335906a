use cpu_meter::ports::port_entry;

#[test]
fn calling_unit_with_product_is_labelled() {
    let e = port_entry("/dev/cu.usbmodem1101", Some("Gauge Board"), true);
    assert_eq!(
        e,
        Some(("/dev/cu.usbmodem1101".to_string(), "Gauge Board (/dev/cu.usbmodem1101)".to_string()))
    );
}

#[test]
fn calling_unit_without_product_uses_name() {
    let e = port_entry("/dev/cu.usbserial", None, true);
    assert_eq!(e, Some(("/dev/cu.usbserial".to_string(), "/dev/cu.usbserial".to_string())));
}

#[test]
fn non_calling_unit_left_out() {
    assert_eq!(port_entry("/dev/tty.usbmodem1101", Some("Gauge Board"), true), None);
    assert_eq!(port_entry("/dev/ttyACM0", None, true), None);
    assert_eq!(port_entry("", None, true), None);
}

#[test]
fn all_ports_offered_without_filter() {
    assert_eq!(
        port_entry("COM3", Some("USB Serial Device"), false),
        Some(("COM3".to_string(), "USB Serial Device".to_string()))
    );
    assert_eq!(port_entry("COM4", None, false), Some(("COM4".to_string(), "COM4".to_string())));
}
