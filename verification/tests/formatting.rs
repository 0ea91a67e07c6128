use tun::address::Ipv4Addr;
use tun::configuration::Configuration;
use tun::settings::AdapterSettings;
use tun::text::push_decimal_u8;

#[test]
fn dotted_default_address() {
    assert_eq!(Ipv4Addr::new(10, 0, 0, 2).to_string(), "10.0.0.2");
}

#[test]
fn dotted_three_digit_octets() {
    assert_eq!(Ipv4Addr::new(255, 255, 255, 0).to_string(), "255.255.255.0");
    assert_eq!(Ipv4Addr::new(192, 168, 100, 9).to_string(), "192.168.100.9");
}

#[test]
fn octets_in_order() {
    assert_eq!(Ipv4Addr::new(1, 2, 3, 4).octets(), [1, 2, 3, 4]);
}

#[test]
fn decimal_of_every_octet() {
    for n in 0..=255u8 {
        let mut s = String::from("x");
        push_decimal_u8(&mut s, n);
        assert_eq!(s, format!("x{}", n));
    }
}

#[test]
fn settings_defaults() {
    let config = Configuration::default();
    let settings = AdapterSettings::from_config(&config);
    assert_eq!(settings.name, "wintun");
    assert_eq!(settings.address, Ipv4Addr::new(10, 0, 0, 2));
    assert_eq!(settings.destination, Ipv4Addr::new(10, 0, 0, 1));
    assert_eq!(settings.netmask, Ipv4Addr::new(255, 255, 255, 0));
}

#[test]
fn settings_from_config() {
    let mut config = Configuration::default();
    config.name = Some("tun7".to_string());
    config.address = Some(Ipv4Addr::new(172, 16, 0, 5));
    config.destination = Some(Ipv4Addr::new(172, 16, 0, 1));
    config.netmask = Some(Ipv4Addr::new(255, 255, 0, 0));
    let settings = AdapterSettings::from_config(&config);
    assert_eq!(settings.name, "tun7");
    assert_eq!(settings.address, Ipv4Addr::new(172, 16, 0, 5));
    assert_eq!(settings.destination, Ipv4Addr::new(172, 16, 0, 1));
    assert_eq!(settings.netmask, Ipv4Addr::new(255, 255, 0, 0));
}

#[test]
fn netsh_arguments_for_defaults() {
    let settings = AdapterSettings::from_config(&Configuration::default());
    assert_eq!(
        settings.netsh_arguments(),
        vec![
            "interface",
            "ip",
            "set",
            "address",
            "name=wintun",
            "source=static",
            "address=10.0.0.2",
            "mask=255.255.255.0",
            "gateway=10.0.0.1",
        ]
    );
}

#[test]
fn netsh_arguments_for_named_adapter() {
    let mut config = Configuration::default();
    config.name = Some("vpn0".to_string());
    config.destination = Some(Ipv4Addr::new(10, 8, 0, 1));
    let args = AdapterSettings::from_config(&config).netsh_arguments();
    assert_eq!(args[4], "name=vpn0");
    assert_eq!(args[6], "address=10.0.0.2");
    assert_eq!(args[8], "gateway=10.8.0.1");
}

#[test]
fn distinct_addresses_have_distinct_text() {
    let a = Ipv4Addr::new(1, 11, 1, 1).to_string();
    let b = Ipv4Addr::new(11, 1, 1, 1).to_string();
    let c = Ipv4Addr::new(1, 1, 11, 1).to_string();
    assert_ne!(a, b);
    assert_ne!(a, c);
    assert_ne!(b, c);
}
