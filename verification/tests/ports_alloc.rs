//! Port allocation and port-mapping parsing.

use handy_devops::ports;
use handy_devops::ports::detect_ports_from_contents;

#[test]
fn test_parse_port_mappings() {
    let mappings = ports::parse_port_mappings(&["3000".to_string()]);
    assert_eq!(mappings.len(), 1);
    assert_eq!(mappings[0].host_port, 3000);
    assert_eq!(mappings[0].container_port, 3000);

    let mappings = ports::parse_port_mappings(&["8080:80".to_string()]);
    assert_eq!(mappings.len(), 1);
    assert_eq!(mappings[0].host_port, 8080);
    assert_eq!(mappings[0].container_port, 80);

    let mappings = ports::parse_port_mappings(&["53:53/udp".to_string()]);
    assert_eq!(mappings.len(), 1);
    assert_eq!(mappings[0].protocol, Some("udp".to_string()));

    let mappings = ports::parse_port_mappings(&[
        "3000".to_string(),
        "8080:80".to_string(),
        "5432:5432".to_string(),
    ]);
    assert_eq!(mappings.len(), 3);
}

#[test]
fn parse_port_mappings_skips_invalid_entries() {
    let mappings = ports::parse_port_mappings(&[
        "".to_string(),
        "abc".to_string(),
        "99999:1".to_string(),
        "  7000  ".to_string(),
    ]);
    assert_eq!(mappings.len(), 1);
    assert_eq!(mappings[0].host_port, 7000);
}

#[test]
fn port_range_is_deterministic_and_periodic() {
    let a = ports::allocate_port_range(7);
    assert_eq!(a, (30700, 30799));
    assert_eq!(ports::allocate_port_range(107), a);
    assert_eq!(ports::allocate_port_range(1000007), a);
}

#[test]
fn remap_keeps_relative_offsets() {
    assert_eq!(ports::remap_port_to_range(3000, 1), 30100);
    assert_eq!(ports::remap_port_to_range(3001, 1), 30101);
    assert_eq!(ports::remap_port_to_range(8080, 0), 30080);
}

#[test]
fn docker_arg_formatting() {
    let m = ports::PortMapping::mapped(8080, 80);
    assert_eq!(m.to_docker_arg(), "-p 8080:80");
    let mut u = ports::PortMapping::new(53);
    u.protocol = Some("udp".to_string());
    assert_eq!(u.to_docker_arg(), "-p 53:53/udp");
}

#[test]
fn network_info_remaps_each_port() {
    let info = ports::get_agent_network_info(5, &[3000, 8080]);
    assert_eq!(info.network_name, "handy-agents");
    assert_eq!(info.container_hostname, "handy-sandbox-5");
    assert_eq!(info.host_port_range, (30500, 30599));
    assert_eq!(info.port_mappings, vec![(3000, 30500), (8080, 30580)]);
}

#[test]
fn ports_are_detected_from_manifest_contents() {
    // a package manifest using one framework, plus a compose file
    let package = r#"{ "dependencies": { "next": "13" } }"#;
    let compose = "services:\n  web:\n    ports:\n      - \"3000:3000\"\n      - 5432:5432\n";
    let mappings = detect_ports_from_contents(
        Some(package),
        None,
        None,
        false,
        false,
        None,
        Some(compose),
    );
    let hosts: Vec<u16> = mappings.iter().map(|m| m.host_port).collect();
    // 3000 keeps its first place; the compose duplicate is dropped
    assert_eq!(hosts, vec![3000, 5432]);

    // a manage script wins for Python; a Rust manifest adds its own
    let mappings = detect_ports_from_contents(
        None,
        Some("fastapi"),
        None,
        true,
        true,
        Some("[dependencies]\naxum = \"0.7\"\n"),
        None,
    );
    let hosts: Vec<u16> = mappings.iter().map(|m| m.host_port).collect();
    assert_eq!(hosts, vec![8000, 8080]);

    // without the manage script the manifests decide, first hit wins
    let mappings = detect_ports_from_contents(
        None,
        Some("nothing known"),
        Some("flask"),
        false,
        false,
        None,
        None,
    );
    let hosts: Vec<u16> = mappings.iter().map(|m| m.host_port).collect();
    assert_eq!(hosts, vec![5000]);
}
