use rustdiscordapi::registration::base_name;
use rustdiscordapi::registration::capitalize_first;
use rustdiscordapi::registration::command_name;
use rustdiscordapi::registration::generate_registrations;
use rustdiscordapi::registration::handler_path;
use rustdiscordapi::registration::CommandUnit;

fn unit(namespace: &[&str], file_name: &str) -> CommandUnit {
    CommandUnit {
        namespace: namespace.iter().map(|s| s.to_string()).collect(),
        file_name: file_name.to_string(),
    }
}

#[test]
fn generator_scenario_with_nested_namespace() {
    let units = vec![unit(&[], "ping.ext"), unit(&["mod"], "deep.ext")];
    let regs = generate_registrations(Some(&units));
    assert_eq!(regs.len(), 2);
    assert_eq!(regs[0].command_name, "!ping");
    assert_eq!(regs[0].handler_path, "Ping");
    assert_eq!(regs[1].command_name, "!deep");
    assert_eq!(regs[1].handler_path, "mod::Deep");
}

#[test]
fn generator_without_command_directory_is_empty() {
    let regs = generate_registrations(None);
    assert!(regs.is_empty());
}

#[test]
fn generator_skips_namespace_root_marker() {
    let units = vec![unit(&["sub"], "mod.rs"), unit(&["sub"], "ping.rs")];
    let regs = generate_registrations(Some(&units));
    assert_eq!(regs.len(), 1);
    assert_eq!(regs[0].command_name, "!ping");
    assert_eq!(regs[0].handler_path, "sub::Ping");
}

#[test]
fn generator_of_empty_directory_is_empty() {
    let units: Vec<CommandUnit> = Vec::new();
    assert!(generate_registrations(Some(&units)).is_empty());
}

#[test]
fn base_name_strips_last_extension_only() {
    assert_eq!(base_name("ping.rs"), "ping");
    assert_eq!(base_name("archive.tar.gz"), "archive.tar");
    assert_eq!(base_name("noext"), "noext");
    assert_eq!(base_name(".hidden"), "");
}

#[test]
fn capitalize_first_letter_only() {
    assert_eq!(capitalize_first("ping"), "Ping");
    assert_eq!(capitalize_first("Ping"), "Ping");
    assert_eq!(capitalize_first("9lives"), "9lives");
    assert_eq!(capitalize_first(""), "");
    assert_eq!(capitalize_first("two_words"), "Two_words");
}

#[test]
fn handler_path_joins_namespace_segments() {
    let ns = vec!["outer".to_string(), "inner".to_string()];
    assert_eq!(handler_path(&ns, "deep"), "outer::inner::Deep");
    let empty: Vec<String> = Vec::new();
    assert_eq!(handler_path(&empty, "ping"), "Ping");
}

#[test]
fn command_name_prefixes_bang() {
    assert_eq!(command_name("ping"), "!ping");
}
