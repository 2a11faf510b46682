use asus_touchpad_numpad::sys::proc::{bus_from_capture, detect_step, is_touchpad, DetectStep, Proc, ProcDevice};

const SAMPLE: &str = "I: Bus=0019 Vendor=0000 Product=0001 Version=0000\n\
N: Name=\"Power Button\"\n\
P: Phys=PNP0C0C/button/input0\n\
S: Sysfs=/devices/LNXSYSTM:00/LNXSYBUS:00/PNP0C0C:00/input/input0\n\
H: Handlers=kbd event0 \n\
B: EV=3\n\
\n\
I: Bus=0018 Vendor=04f3 Product=3140 Version=0100\n\
N: Name=\"ELAN1201:00 04F3:3140 Touchpad\"\n\
P: Phys=i2c-ELAN1201:00\n\
S: Sysfs=/devices/pci0000:00/0000:00:15.1/i2c_designware.1/i2c-2/i2c-ELAN1201:00/0018:04F3:3140.0002/input/input17\n\
U: Uniq=\n\
H: Handlers=mouse1 event12 \n\
B: EV=1b\n\
\n\
I: Bus=0000 Vendor=0000 Product=0000 Version=0000\n\
P: Phys=nowhere\n\
\n";

#[test]
fn proc_path() {
    assert_eq!(Proc::new().get_path(), "/proc/bus/input/devices");
}

#[test]
fn parse_sample_devices() {
    let devices = Proc::new().parse(SAMPLE);
    assert_eq!(devices.len(), 2);
    assert_eq!(devices[0].name, "Power Button");
    assert_eq!(devices[0].event, "event0");
    assert_eq!(devices[0].bus, -1);
    assert_eq!(devices[1].name, "ELAN1201:00 04F3:3140 Touchpad");
    assert_eq!(devices[1].event, "event12");
    assert_eq!(devices[1].bus, 2);
}

#[test]
fn parse_empty_and_nameless() {
    assert!(Proc::new().parse("").is_empty());
    assert!(Proc::new().parse("\n\nI: Bus=0000\n\n").is_empty());
}

#[test]
fn parse_sysfs_without_i2c_reads_the_value() {
    let devices = Proc::new().parse("N: Name=\"X\"\nS: Sysfs=42\nH: Handlers=event3 event4");
    assert_eq!(devices.len(), 1);
    assert_eq!(devices[0].bus, 42);
    assert_eq!(devices[0].event, "event3");
}

#[test]
fn first_handler_after_handlers_prefix() {
    let content = "N: Name=\"Power Button\"\nS: Sysfs=/devices/LNXSYSTM:00/LNXPWRBN:00/input/input2\nH: Handlers=event7";
    let devices = Proc::new().parse(content);
    assert_eq!(devices.len(), 1);
    assert_eq!(devices[0].bus, -1);
    assert_eq!(devices[0].name, "Power Button");
    assert_eq!(devices[0].event, "event7");
    let d = Proc::new().parse("N: Name=\"K\"\nH: Handlers=sysrq kbd leds event2 ");
    assert_eq!(d[0].event, "event2");
}

#[test]
fn bus_capture_is_used() {
    assert_eq!(bus_from_capture("/a/i2c-7/b", Some("7")), 7);
    assert_eq!(bus_from_capture("15", None), 15);
    assert_eq!(bus_from_capture("/no/bus", None), -1);
}

#[test]
fn touchpad_names() {
    assert!(is_touchpad("ASUE1200:00 04F3:3140 Touchpad"));
    assert!(is_touchpad("ELAN1201:00 04F3:3140 Touchpad"));
    assert!(!is_touchpad("ELAN1201:00 04F3:3140 Mouse"));
    assert!(!is_touchpad("SYNA Touchpad"));
}

fn dev(name: &str) -> ProcDevice {
    ProcDevice { bus: 3, name: name.to_string(), event: "event5".to_string() }
}

#[test]
fn detect_step_outcomes() {
    assert!(matches!(detect_step(3, &vec![]), DetectStep::ParseFailed));
    let devices = vec![dev("Keyboard"), dev("ELAN Touchpad"), dev("ASUE Touchpad")];
    match detect_step(3, &devices) {
        DetectStep::Found(d) => assert_eq!(d.name, "ELAN Touchpad"),
        _ => panic!("touchpad not found"),
    }
    let none = vec![dev("Keyboard")];
    assert!(matches!(detect_step(3, &none), DetectStep::Retry { remaining: 2 }));
    assert!(matches!(detect_step(1, &none), DetectStep::NotFound));
    assert!(matches!(detect_step(0, &devices), DetectStep::NotFound));
    assert!(matches!(detect_step(0, &vec![]), DetectStep::NotFound));
    let unresolved = vec![ProcDevice { bus: -1, name: "ELAN1200:00 Touchpad".to_string(), event: "event5".to_string() }];
    assert!(matches!(detect_step(5, &unresolved), DetectStep::Retry { remaining: 4 }));
    assert!(matches!(detect_step(1, &unresolved), DetectStep::BusUnresolved));
}
