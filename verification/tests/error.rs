use bombuscv_display::ErrorKind;

fn text(s: &str) -> String {
    String::from(s)
}

#[test]
fn error_messages() {
    assert_eq!(
        ErrorKind::InvalidInputFormat.message(),
        "invalid input format, use '<hum>,<temp>' instead"
    );
    assert_eq!(
        ErrorKind::InterfaceErr(text("denied")).message(),
        "unable to access network interfaces: denied"
    );
    assert_eq!(
        ErrorKind::InterfaceNotFound(text("wlan0")).message(),
        "network interface not found: 'wlan0'"
    );
    assert_eq!(
        ErrorKind::I2cAccessErr(text("no bus")).message(),
        "unable to access I2C device: no bus"
    );
    assert_eq!(ErrorKind::I2cInitErr.message(), "unable to initialize I2C display");
    assert_eq!(ErrorKind::I2cWriteErr.message(), "unable to write to I2C display");
    assert_eq!(
        ErrorKind::ProcFsErr(text("gone")).message(),
        "unable to access '/proc' filesystem: gone"
    );
    assert_eq!(
        ErrorKind::FileOpenErr(text("/sys/temp"), text("not found")).message(),
        "unable to open '/sys/temp': not found"
    );
    assert_eq!(
        ErrorKind::FileReadErr(text("/sys/temp"), text("interrupted")).message(),
        "unable to read from '/sys/temp': interrupted"
    );
    assert_eq!(
        ErrorKind::StdinErr(text("broken pipe")).message(),
        "unable to read from standard input: broken pipe"
    );
    assert_eq!(
        ErrorKind::MsgPassingErr.message(),
        "unable to send messages between threads"
    );
    assert_eq!(ErrorKind::Other(text("anything")).message(), "anything");
}

#[test]
fn error_from_message() {
    assert_eq!(
        ErrorKind::from("unable to execute `df` command"),
        ErrorKind::Other(text("unable to execute `df` command"))
    );
    assert_eq!(ErrorKind::from("x").message(), "x");
}
