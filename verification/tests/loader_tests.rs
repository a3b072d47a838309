use nginx_spcgen::cli::example_config_text;
use nginx_spcgen::loader::{load_hosts_from_str, ParseError};

#[test]
fn round_trip_example() {
    let text = example_config_text();
    let hosts = load_hosts_from_str(&text).unwrap();
    assert_eq!(hosts.len(), 2);

    let (name0, host0) = &hosts[0];
    assert_eq!(name0, "server0");
    assert_eq!(host0.domain, "server0.com");
    assert_eq!(host0.forward_server, "$server_addr");
    assert_eq!(host0.services.len(), 2);
    assert_eq!(host0.services[0].name, "www");
    assert_eq!(host0.services[0].forward_scheme, "https");
    assert_eq!(host0.services[0].port, 443);
    assert_eq!(host0.services[1].name, "nav");
    assert_eq!(host0.services[1].forward_scheme, "http");
    assert_eq!(host0.services[1].port, 80);

    let (name1, host1) = &hosts[1];
    assert_eq!(name1, "server1");
    assert_eq!(host1.domain, "server1");
    assert_eq!(host1.forward_server, "192.168.1.100");
    assert_eq!(host1.services.len(), 1);
    assert_eq!(host1.services[0].name, "h5");
    assert_eq!(host1.services[0].forward_scheme, "http");
    assert_eq!(host1.services[0].port, 8000);
}

#[test]
fn malformed_port_is_shape_error() {
    let text = "[h]\ndomain = \"example.com\"\nforward_server = \"10.0.0.1\"\n\n[[h.services]]\nname = \"api\"\nforward_scheme = \"https\"\nport = \"not-a-number\"\n";
    let err = load_hosts_from_str(text).unwrap_err();
    assert!(matches!(err, ParseError::Shape));
}

#[test]
fn invalid_document_is_syntax_error() {
    let text = "[h]\ndomain = ";
    let err = load_hosts_from_str(text).unwrap_err();
    assert!(matches!(err, ParseError::Syntax(_)));
}

#[test]
fn duplicate_host_is_syntax_error() {
    let text = "[h]\ndomain = \"a\"\nforward_server = \"b\"\nservices = []\n\n[h]\ndomain = \"c\"\nforward_server = \"d\"\nservices = []\n";
    let err = load_hosts_from_str(text).unwrap_err();
    assert!(matches!(err, ParseError::Syntax(_)));
}

#[test]
fn missing_field_is_shape_error() {
    let text = "[h]\ndomain = \"example.com\"\n\n[[h.services]]\nname = \"api\"\nforward_scheme = \"https\"\nport = 1\n";
    let err = load_hosts_from_str(text).unwrap_err();
    assert!(matches!(err, ParseError::Shape));
}

#[test]
fn missing_services_is_shape_error() {
    let text = "[h]\ndomain = \"example.com\"\nforward_server = \"10.0.0.1\"\n";
    let err = load_hosts_from_str(text).unwrap_err();
    assert!(matches!(err, ParseError::Shape));
}

#[test]
fn port_out_of_range_is_shape_error() {
    let text = "[h]\ndomain = \"example.com\"\nforward_server = \"10.0.0.1\"\n\n[[h.services]]\nname = \"api\"\nforward_scheme = \"https\"\nport = 70000\n";
    let err = load_hosts_from_str(text).unwrap_err();
    assert!(matches!(err, ParseError::Shape));
}

#[test]
fn negative_port_is_shape_error() {
    let text = "[h]\ndomain = \"example.com\"\nforward_server = \"10.0.0.1\"\n\n[[h.services]]\nname = \"api\"\nforward_scheme = \"https\"\nport = -1\n";
    let err = load_hosts_from_str(text).unwrap_err();
    assert!(matches!(err, ParseError::Shape));
}

#[test]
fn host_not_a_table_is_shape_error() {
    let text = "h = 3\n";
    let err = load_hosts_from_str(text).unwrap_err();
    assert!(matches!(err, ParseError::Shape));
}

#[test]
fn empty_document_loads_no_hosts() {
    let hosts = load_hosts_from_str("").unwrap();
    assert_eq!(hosts.len(), 0);
}

#[test]
fn empty_services_array_loads() {
    let text = "[h]\ndomain = \"example.com\"\nforward_server = \"10.0.0.1\"\nservices = []\n";
    let hosts = load_hosts_from_str(text).unwrap();
    assert_eq!(hosts.len(), 1);
    assert_eq!(hosts[0].0, "h");
    assert_eq!(hosts[0].1.services.len(), 0);
}

#[test]
fn unknown_fields_are_ignored() {
    let text = "[h]\ndomain = \"example.com\"\nforward_server = \"10.0.0.1\"\nextra = true\nservices = []\n";
    let hosts = load_hosts_from_str(text).unwrap();
    assert_eq!(hosts.len(), 1);
    assert_eq!(hosts[0].1.domain, "example.com");
}
