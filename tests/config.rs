use kuori::config::{keys_distinct, parse_task_names, should_execute};
use kuori::SshConfigPath;

#[test]
fn task_names_split_on_commas() {
    assert_eq!(parse_task_names("deploy,backup"), vec!["deploy", "backup"]);
    assert_eq!(parse_task_names("deploy"), vec!["deploy"]);
    assert_eq!(parse_task_names(""), vec![""]);
    assert_eq!(parse_task_names("a,,b,"), vec!["a", "", "b", ""]);
}

#[test]
fn no_filter_runs_every_task() {
    assert!(should_execute(&None, &"anything".to_string()));
}

#[test]
fn filter_runs_only_listed_tasks() {
    let filter = Some(parse_task_names("deploy,backup"));
    assert!(should_execute(&filter, &"deploy".to_string()));
    assert!(should_execute(&filter, &"backup".to_string()));
    assert!(!should_execute(&filter, &"migrate".to_string()));
}

#[test]
fn ssh_config_path_under_home() {
    assert_eq!(SshConfigPath::under_home("/home/me").0, "/home/me/.ssh/config");
}

#[test]
fn environment_keys_must_be_distinct() {
    let e = |v: &[(&str, &str)]| -> Vec<(String, String)> {
        v.iter().map(|(k, x)| (k.to_string(), x.to_string())).collect()
    };
    assert!(keys_distinct(&e(&[])));
    assert!(keys_distinct(&e(&[("A", "1"), ("B", "1")])));
    assert!(!keys_distinct(&e(&[("A", "1"), ("B", "2"), ("A", "3")])));
}
