use vmm_core::strutil::{parse_i32, split_str};
use vmm_core::netcfg::{
    check_mac_address, parse_net, parse_netdev, CmdParser, ConfigCheck, ConfigError,
    NetworkInterfaceConfig, VmConfig,
};

#[test]
fn test_network_config_cmdline_parser() {
    let mut vm_config = VmConfig::default();
    assert!(vm_config.add_netdev("id=eth0").is_ok());
    let net_cfg_res = parse_net(
        &vm_config,
        "virtio-net-device,id=net0,netdev=eth0,iothread=iothread0",
    );
    assert!(net_cfg_res.is_ok());
    let network_configs = net_cfg_res.unwrap();
    assert_eq!(network_configs.id, "net0");
    assert_eq!(network_configs.host_dev_name, "eth0");
    assert_eq!(network_configs.iothread, Some("iothread0".to_string()));
    assert!(network_configs.mac.is_none());
    assert!(network_configs.tap_fd.is_none());
    assert!(network_configs.vhost_type.is_none());
    assert!(network_configs.vhost_fd.is_none());

    let mut vm_config = VmConfig::default();
    assert!(vm_config
        .add_netdev("id=eth1,mac=12:34:56:78:9A:BC,vhost=on,vhostfds=4")
        .is_ok());
    let net_cfg_res = parse_net(&vm_config, "virtio-net-device,id=net1,netdev=eth1");
    assert!(net_cfg_res.is_ok());
    let network_configs = net_cfg_res.unwrap();
    assert_eq!(network_configs.id, "net1");
    assert_eq!(network_configs.host_dev_name, "eth1");
    assert_eq!(network_configs.mac, Some(String::from("12:34:56:78:9A:BC")));
    assert!(network_configs.tap_fd.is_none());
    assert_eq!(
        network_configs.vhost_type,
        Some(String::from("vhost-kernel"))
    );
    assert_eq!(network_configs.vhost_fd, Some(4));

    let mut vm_config = VmConfig::default();
    assert!(vm_config
        .add_netdev("id=eth1,mac=12:34:56:78:9A:BC,vhost=on,vhostfds=4")
        .is_ok());
    let net_cfg_res = parse_net(&vm_config, "virtio-net-device,id=net1,netdev=eth2");
    assert!(net_cfg_res.is_err());
}

#[test]
fn mac_address_validation() {
    assert!(check_mac_address("12:34:56:78:9A:BC"));
    assert!(check_mac_address("ab:cd:ef:00:11:22"));
    assert!(check_mac_address("AB:CD:EF:99:88:77"));
    // wrong length
    assert!(!check_mac_address("12:34:56:78:9A:B"));
    assert!(!check_mac_address("12:34:56:78:9A:BC:DE"));
    assert!(!check_mac_address(""));
    // wrong separators or digits
    assert!(!check_mac_address("12-34-56-78-9A-BC"));
    assert!(!check_mac_address("1g:34:56:78:9A:BC"));
    assert!(!check_mac_address("12:34:56:78:9A:Bg"));
    assert!(!check_mac_address("123:4:56:78:9A:BC"));
}

#[test]
fn netdev_missing_id_fails() {
    let mut vm_config = VmConfig::default();
    let r = vm_config.add_netdev("mac=12:34:56:78:9A:BC");
    assert!(matches!(
        r,
        Err(ConfigError::FieldIsMissing(ref f, ref k)) if f.as_str() == "id" && k.as_str() == "net"
    ));
}

#[test]
fn netdev_duplicate_id_fails() {
    let mut vm_config = VmConfig::default();
    assert!(vm_config.add_netdev("id=eth0").is_ok());
    let r = vm_config.add_netdev("id=eth0");
    assert!(matches!(r, Err(ConfigError::NetdevAlreadyAdded(ref id)) if id.as_str() == "eth0"));
}

#[test]
fn netdev_bad_values_fail() {
    let mut vm_config = VmConfig::default();
    // unknown key
    assert!(matches!(
        vm_config.add_netdev("id=eth0,bogus=1"),
        Err(ConfigError::InvalidParam(_))
    ));
    // repeated key
    assert!(matches!(
        vm_config.add_netdev("id=eth0,id=eth1"),
        Err(ConfigError::DuplicateParam(_))
    ));
    // unreadable fd
    assert!(matches!(
        vm_config.add_netdev("id=eth0,vhostfds=abc"),
        Err(ConfigError::ValueParseError(_))
    ));
    // unreadable vhost flag
    assert!(matches!(
        vm_config.add_netdev("id=eth0,vhost=maybe"),
        Err(ConfigError::ValueParseError(_))
    ));
    // malformed token
    assert!(vm_config.add_netdev("id=eth0,=x").is_err());
    assert!(vm_config.add_netdev("id=eth0,mac=").is_err());
}

#[test]
fn netdev_vhost_off_means_no_vhost_type() {
    let mut parser = CmdParser::new("netdev");
    parser.push("");
    parser.push("id");
    parser.push("mac");
    parser.push("fds");
    parser.push("vhost");
    parser.push("vhostfds");
    assert!(parser.parse("id=eth9,vhost=off,fds=-3").is_ok());
    let cfg = parse_netdev(parser).unwrap();
    assert_eq!(cfg.id, "eth9");
    assert!(cfg.vhost_type.is_none());
    assert_eq!(cfg.tap_fd, Some(-3));
    assert!(cfg.vhost_fd.is_none());
    assert!(cfg.mac.is_none());
}

#[test]
fn parse_net_without_netdevs_fails() {
    let vm_config = VmConfig::default();
    let r = parse_net(&vm_config, "virtio-net-device,id=net0,netdev=eth0");
    assert!(matches!(r, Err(ConfigError::NoNetdevConfigured)));
}

#[test]
fn parse_net_missing_netdev_field_fails() {
    let mut vm_config = VmConfig::default();
    assert!(vm_config.add_netdev("id=eth0").is_ok());
    let r = parse_net(&vm_config, "virtio-net-device,id=net0");
    assert!(matches!(
        r,
        Err(ConfigError::FieldIsMissing(ref f, ref k)) if f.as_str() == "netdev" && k.as_str() == "net"
    ));
}

#[test]
fn interface_check_rejects_bad_fields() {
    let mut cfg = NetworkInterfaceConfig::default();
    cfg.id = "x".repeat(256);
    assert!(matches!(
        cfg.check(),
        Err(ConfigError::StringLengthTooLong(ref s, 255)) if s.as_str() == "id"
    ));

    let mut cfg = NetworkInterfaceConfig::default();
    cfg.host_dev_name = "y".repeat(256);
    assert!(matches!(
        cfg.check(),
        Err(ConfigError::StringLengthTooLong(_, 255))
    ));

    let mut cfg = NetworkInterfaceConfig::default();
    cfg.set_mac("not-a-mac".to_string());
    assert!(matches!(cfg.check(), Err(ConfigError::MacFormatError)));

    let mut cfg = NetworkInterfaceConfig::default();
    cfg.vhost_type = Some("vhost-user".to_string());
    assert!(matches!(cfg.check(), Err(ConfigError::UnknownVhostType)));

    let mut cfg = NetworkInterfaceConfig::default();
    cfg.iothread = Some("z".repeat(256));
    assert!(matches!(
        cfg.check(),
        Err(ConfigError::StringLengthTooLong(ref s, 255)) if s.as_str() == "iothread name"
    ));

    let mut cfg = NetworkInterfaceConfig::default();
    cfg.set_mac("12:34:56:78:9A:BC".to_string());
    cfg.vhost_type = Some("vhost-kernel".to_string());
    assert!(cfg.check().is_ok());
}

#[test]
fn set_mac_stores_address() {
    let mut cfg = NetworkInterfaceConfig::default();
    cfg.set_mac("12:34:56:78:9A:BC".to_string());
    assert_eq!(cfg.mac, Some("12:34:56:78:9A:BC".to_string()));
}

#[test]
fn parser_value_types() {
    assert_eq!(parse_i32("4"), Some(4));
    assert_eq!(parse_i32("-3"), Some(-3));
    assert_eq!(parse_i32("+17"), Some(17));
    assert_eq!(parse_i32("2147483647"), Some(i32::MAX));
    assert_eq!(parse_i32("-2147483648"), Some(i32::MIN));
    assert_eq!(parse_i32("2147483648"), None);
    assert_eq!(parse_i32("-2147483649"), None);
    assert_eq!(parse_i32(""), None);
    assert_eq!(parse_i32("-"), None);
    assert_eq!(parse_i32("12a"), None);
    assert_eq!(parse_i32("999999999999999999999"), None);
}

#[test]
fn splitter_matches_model() {
    let parts = split_str("a,bb,,c", ',');
    assert_eq!(parts, vec!["a", "bb", "", "c"]);
    let parts = split_str("", ',');
    assert_eq!(parts, vec![""]);
    let parts = split_str("one", ',');
    assert_eq!(parts, vec!["one"]);
}
