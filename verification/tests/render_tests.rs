use nginx_spcgen::cli::{Cli, CliArgs, DirAction, MainCommand, output_dir_action, RunPlan};
use nginx_spcgen::render::{location_file_content, location_file_name, proxy_subdir_name, u16_dec};
use nginx_spcgen::{HostInfo, ServiceInfo};

fn cli_with(hosts: Vec<(String, HostInfo)>) -> Cli {
    let mut cli = Cli::create(CliArgs { file: None, main_command: MainCommand::Test });
    cli.server_config = hosts;
    cli
}

fn service(name: &str, scheme: &str, port: u16) -> ServiceInfo {
    ServiceInfo { name: name.to_string(), forward_scheme: scheme.to_string(), port }
}

#[test]
fn field_substitution() {
    let host = HostInfo {
        domain: "example.com".to_string(),
        forward_server: "10.0.0.1".to_string(),
        services: vec![service("api", "https", 8443)],
    };
    let cli = cli_with(vec![("h".to_string(), host)]);
    let files = cli.generate_nginx_config();
    assert_eq!(files.len(), 1);
    assert_eq!(files[0].0, "h.conf");
    let content = &files[0].1;
    assert!(content.contains("server_name         api.example.com;"));
    assert!(content.contains("set $forward_scheme https;"));
    assert!(content.contains("set $server         10.0.0.1;"));
    assert!(content.contains("set $port           8443;"));

    let expected = format!(
        "# api\nserver {{\n  server_name         api.example.com;\n  set $forward_scheme https;\n  set $server         10.0.0.1;\n  set $port           8443;\n\n  listen 80;\n  listen [::]:80;\n  {}{}{}\n}}\n",
        "inclu", "de conf.d/proxy_inclu", "de/location.conf;"
    );
    assert_eq!(content, &expected);
}

#[test]
fn blocks_are_blank_line_separated() {
    let host = HostInfo {
        domain: "d".to_string(),
        forward_server: "s".to_string(),
        services: vec![service("a", "http", 1), service("b", "http", 2)],
    };
    let cli = cli_with(vec![("h".to_string(), host)]);
    let files = cli.generate_nginx_config();
    let content = &files[0].1;
    assert!(content.contains("}\n\n# b\n"));
    assert!(content.ends_with("}\n"));
    assert!(!content.ends_with("}\n\n"));
}

#[test]
fn empty_services_renders_empty_file() {
    let host = HostInfo {
        domain: "example.com".to_string(),
        forward_server: "10.0.0.1".to_string(),
        services: Vec::new(),
    };
    let cli = cli_with(vec![("empty".to_string(), host)]);
    let files = cli.generate_nginx_config();
    assert_eq!(files.len(), 1);
    assert_eq!(files[0].0, "empty.conf");
    assert_eq!(files[0].1, "");
}

#[test]
fn render_twice_is_identical() {
    let host = HostInfo {
        domain: "example.com".to_string(),
        forward_server: "$server_addr".to_string(),
        services: vec![service("www", "https", 443), service("nav", "http", 80)],
    };
    let cli = cli_with(vec![("h".to_string(), host)]);
    let first = cli.generate_nginx_config();
    let second = cli.generate_nginx_config();
    assert_eq!(first, second);
    let loc1 = location_file_content();
    let loc2 = location_file_content();
    assert_eq!(loc1, loc2);
}

#[test]
fn decimal_rendering_is_exact() {
    assert_eq!(u16_dec(0), "0");
    assert_eq!(u16_dec(7), "7");
    assert_eq!(u16_dec(80), "80");
    assert_eq!(u16_dec(443), "443");
    assert_eq!(u16_dec(8000), "8000");
    assert_eq!(u16_dec(65535), "65535");
}

#[test]
fn location_file_is_fixed() {
    let content = location_file_content();
    let expected = "location / {\n    add_header       X-Served-By        $host;\n    proxy_set_header Host               $host;\n    proxy_set_header X-Forwarded-Scheme $scheme;\n    proxy_set_header X-Forwarded-Proto  $scheme;\n    proxy_set_header X-Forwarded-For    $proxy_add_x_forwarded_for;\n    proxy_set_header X-Real-IP          $remote_addr;\n    proxy_pass       $forward_scheme://$server:$port$request_uri;\n}";
    assert_eq!(content, expected);
    assert_eq!(proxy_subdir_name(), format!("{}{}", "proxy_inclu", "de"));
    assert_eq!(location_file_name(), "location.conf");
}

#[test]
fn output_dir_policy() {
    assert!(matches!(output_dir_action(false, false), DirAction::Create));
    assert!(matches!(output_dir_action(false, true), DirAction::Create));
    assert!(matches!(output_dir_action(true, true), DirAction::WipeAndCreate));
    assert!(matches!(output_dir_action(true, false), DirAction::Reject));
}

#[test]
fn summary_format() {
    let host = HostInfo {
        domain: "example.com".to_string(),
        forward_server: "10.0.0.1".to_string(),
        services: vec![service("api", "https", 8443)],
    };
    let cli = cli_with(vec![("h".to_string(), host)]);
    let summary = cli.display_config();
    assert_eq!(summary, "[h]\n  http://api.example.com -> https://10.0.0.1:8443\n\n");
}

#[test]
fn startup_plans_default_paths() {
    let cli = Cli::create(CliArgs { file: None, main_command: MainCommand::Example });
    match cli.startup() {
        RunPlan::WriteExample { path, content } => {
            assert_eq!(path, "config.toml");
            assert!(content.contains("[server0]"));
        }
        _ => panic!("expected the example plan"),
    }

    let cli = Cli::create(CliArgs { file: None, main_command: MainCommand::Generate { output: None } });
    match cli.startup() {
        RunPlan::Generate { config_path, output_dir } => {
            assert_eq!(config_path, "config.toml");
            assert_eq!(output_dir, "output");
        }
        _ => panic!("expected the generate plan"),
    }
}

#[test]
fn startup_plans_given_paths() {
    let cli = Cli::create(CliArgs {
        file: Some("my.toml".to_string()),
        main_command: MainCommand::Generate { output: Some("out".to_string()) },
    });
    match cli.startup() {
        RunPlan::Generate { config_path, output_dir } => {
            assert_eq!(config_path, "my.toml");
            assert_eq!(output_dir, "out");
        }
        _ => panic!("expected the generate plan"),
    }

    let cli = Cli::create(CliArgs {
        file: Some("my.toml".to_string()),
        main_command: MainCommand::Test,
    });
    match cli.startup() {
        RunPlan::Test { config_path } => assert_eq!(config_path, "my.toml"),
        _ => panic!("expected the test plan"),
    }
}

#[test]
fn load_config_replaces_mapping() {
    let mut cli = Cli::create(CliArgs { file: None, main_command: MainCommand::Test });
    let text = "[h]\ndomain = \"example.com\"\nforward_server = \"10.0.0.1\"\nservices = []\n";
    cli.load_config(text).unwrap();
    assert_eq!(cli.server_config.len(), 1);
    assert_eq!(cli.server_config[0].0, "h");

    let err = cli.load_config("not = valid =");
    assert!(err.is_err());
    assert_eq!(cli.server_config.len(), 1);
}

#[test]
fn example_returns_path_and_content() {
    let cli = Cli::create(CliArgs { file: None, main_command: MainCommand::Example });
    let (path, content) = cli.example();
    assert_eq!(path, "config.toml");
    assert!(content.contains("forward_scheme"));
}
