use morse_frames::message_transformer::{convert_dash_message, convert_space_message, TransformerConfig};
use morse_frames::serial_send::{
    check_port_path, port_labels, wire_bytes, PortInfo, PortKind, SerialError, PORT_TIMEOUT_MS,
};

#[test]
fn errors_are_worded() {
    assert_eq!(
        SerialError::PortError(String::from("No such device")).message(),
        "Serial port error: No such device"
    );
    assert_eq!(SerialError::IoError(String::from("broken pipe")).message(), "IO error: broken pipe");
    assert_eq!(
        SerialError::InvalidPort(String::from("/dev/serial0")).message(),
        "Invalid serial port: /dev/serial0"
    );
    assert_eq!(SerialError::IoError(String::new()).message(), "IO error: ");
}

#[test]
fn a_missing_path_is_refused_before_the_port_is_tried() {
    assert_eq!(PORT_TIMEOUT_MS, 1000);
    assert_eq!(check_port_path("/dev/serial0", true), Ok(()));
    assert_eq!(
        check_port_path("/dev/serial0", false),
        Err(SerialError::InvalidPort(String::from("/dev/serial0")))
    );
    assert_eq!(check_port_path("", false), Err(SerialError::InvalidPort(String::new())));
}

#[test]
fn ports_are_labelled_by_kind() {
    let ports = vec![
        PortInfo {
            port_name: String::from("/dev/ttyUSB0"),
            kind: PortKind::Usb { product: Some(String::from("FT232R")) },
        },
        PortInfo { port_name: String::from("/dev/ttyACM0"), kind: PortKind::Usb { product: None } },
        PortInfo { port_name: String::from("/dev/rfcomm0"), kind: PortKind::Bluetooth },
        PortInfo { port_name: String::from("/dev/ttyS0"), kind: PortKind::Pci },
        PortInfo { port_name: String::from("/dev/serial0"), kind: PortKind::Unknown },
    ];
    assert_eq!(ports[0].describe(), "/dev/ttyUSB0 (USB: FT232R)");
    assert_eq!(
        port_labels(&ports),
        vec![
            "/dev/ttyUSB0 (USB: FT232R)",
            "/dev/ttyACM0 (USB: Unknown)",
            "/dev/rfcomm0 (Bluetooth)",
            "/dev/ttyS0 (PCI)",
            "/dev/serial0 (Unknown)",
        ]
    );
    assert_eq!(port_labels(&Vec::new()), Vec::<String>::new());
}

#[test]
fn a_frame_is_29_bytes_on_the_wire() {
    let config = TransformerConfig::default();
    let space = wire_bytes(&convert_space_message(&config));
    assert_eq!(space.len(), 29);
    assert_eq!(space[0], b'<');
    assert!(space[1..27].iter().all(|byte| *byte == b'0'));
    assert_eq!(space[27], b'>');
    assert_eq!(space[28], b'\n');
    let dash = convert_dash_message(&config, false);
    let bytes = wire_bytes(&dash);
    assert_eq!(bytes.len(), 29);
    assert_eq!(bytes, dash.as_bytes());
    assert_eq!(wire_bytes("é"), vec![0xc3, 0xa9]);
}
