use system_harness::qemu::args::Arg;
use system_harness::qemu::args::Backend as _;
use system_harness::{Backend, CharDev, Device, NetDev, OnOff, PropertyList, Smp};

#[test]
fn property_list_single() {
    let mut props = PropertyList::default();
    props.insert("a", &"123");
    assert_eq!("a=123".to_string(), props.to_string());
}

#[test]
fn property_list() {
    let mut props = PropertyList::default();
    props.insert("a", &"321");
    props.insert("b", &"4");
    assert_eq!("a=321,b=4".to_string(), props.to_string());
}

#[test]
fn derive() {
    let mut props = PropertyList::default();
    props.insert("x", &"abc".to_string());
    props.insert("y", &3usize);
    props.insert("z", &"123".to_string());
    props.extend(&vec![
        ("b".to_string(), "1".to_string()),
        ("c".to_string(), "2".to_string()),
    ]);
    assert_eq!("x=abc,y=3,z=123,b=1,c=2", props.to_string());
}

#[test]
fn chardev() {
    let chardev = Backend::<CharDev> {
        id: "abc".to_string(),
        backend: CharDev::Socket {
            path: "test.sock".to_string(),
        },
    };
    assert_eq!("socket", chardev.backend.name());
    assert_eq!("path=test.sock", chardev.backend.properties().to_string());
}

#[test]
fn device_arg() {
    let device = Device {
        driver: "test".to_string(),
        properties: vec![("a".to_string(), "abc".to_string())],
    };
    assert_eq!("driver=test,a=abc", device.to_arg());
}

#[test]
fn property_without_value_is_left_out() {
    let mut props = PropertyList::default();
    props.insert("a", &None::<String>);
    props.insert("b", &Some(7usize));
    props.insert("c", &None::<usize>);
    props.insert("d", &Some("x".to_string()));
    assert_eq!("b=7,d=x", props.to_string());
}

#[test]
fn empty_property_list_is_empty_text() {
    let props = PropertyList::default();
    assert_eq!("", props.to_string());
    let mut none = PropertyList::default();
    none.insert("a", &None::<usize>);
    assert_eq!("", none.to_string());
}

#[test]
fn decimal_values() {
    let mut props = PropertyList::default();
    props.insert("z", &0usize);
    props.insert("n", &1024usize);
    props.insert("m", &usize::MAX);
    assert_eq!(format!("z=0,n=1024,m={}", usize::MAX), props.to_string());
}

#[test]
fn chardev_argument() {
    let socket = Backend::<CharDev> {
        id: "abc".to_string(),
        backend: CharDev::Socket {
            path: "test.sock".to_string(),
        },
    };
    assert_eq!("socket,id=abc,path=test.sock", socket.to_arg());
    let stdio = Backend::<CharDev> {
        id: "s0".to_string(),
        backend: CharDev::Stdio,
    };
    assert_eq!("stdio,id=s0,", stdio.to_arg());
}

#[test]
fn netdev_argument() {
    let net = Backend::<NetDev> {
        id: "n0".to_string(),
        backend: NetDev::User {
            ipv4: OnOff::On,
            net: "10.0.2.0/24".to_string(),
            host: "10.0.2.2".to_string(),
        },
    };
    assert_eq!("user,id=n0,ipv4=on,net=10.0.2.0/24,host=10.0.2.2", net.to_arg());
}

#[test]
fn smp_argument() {
    let smp = Smp {
        cpus: Some(4),
        maxcpus: None,
        dies: None,
        sockets: Some(1),
        clusters: None,
        cores: Some(2),
        threads: Some(2),
    };
    assert_eq!("cpus=4,sockets=1,cores=2,threads=2", smp.to_arg());
}
