use kuori::command::{cleanup_command, env_prefix, remote_command, remote_script_path};

fn envs(pairs: &[(&str, &str)]) -> Vec<(String, String)> {
    pairs.iter().map(|(k, v)| (k.to_string(), v.to_string())).collect()
}

#[test]
fn env_prefix_two_entries_each_once() {
    let p = env_prefix(&envs(&[("A", "1"), ("B", "2")]));
    assert_eq!(p.matches("export A=1;").count(), 1);
    assert_eq!(p.matches("export B=2;").count(), 1);
    assert_eq!(p.matches("export ").count(), 2);
    assert_eq!(p, "export A=1; export B=2;");
}

#[test]
fn env_prefix_empty_mapping() {
    assert_eq!(env_prefix(&Vec::new()), "");
}

#[test]
fn env_prefix_values_are_not_escaped() {
    let p = env_prefix(&envs(&[("MSG", "a b;c")]));
    assert_eq!(p, "export MSG=a b;c;");
}

#[test]
fn command_without_sudo_has_no_sudo() {
    let c = remote_command("/srv/app", "export A=1;", "/srv/app/abc", false);
    assert_eq!(c, "cd /srv/app; export A=1; bash /srv/app/abc");
    assert!(!c.contains("sudo"));
}

#[test]
fn command_with_sudo_has_it_once_before_bash() {
    let c = remote_command("/srv/app", "export A=1;", "/srv/app/abc", true);
    assert_eq!(c, "cd /srv/app; export A=1; sudo bash /srv/app/abc");
    assert_eq!(c.matches("sudo").count(), 1);
    assert!(c.contains("sudo bash "));
}

#[test]
fn command_with_empty_prefix() {
    let c = remote_command("/tmp", "", "/tmp/x", false);
    assert_eq!(c, "cd /tmp;  bash /tmp/x");
}

#[test]
fn cleanup_removes_the_script() {
    assert_eq!(cleanup_command("/tmp/Ab3"), "rm /tmp/Ab3");
}

#[test]
fn script_path_joins_with_one_slash() {
    assert_eq!(remote_script_path("/tmp", "abc"), "/tmp/abc");
    assert_eq!(remote_script_path("/tmp/", "abc"), "/tmp/abc");
    assert_eq!(remote_script_path("", "abc"), "abc");
    assert_eq!(remote_script_path("work", "abc"), "work/abc");
}

#[test]
fn deploy_task_commands() {
    let prefix = env_prefix(&envs(&[("ENV", "prod")]));
    let path = remote_script_path("/tmp", "Q1w2E3r4T5");
    let c = remote_command("/tmp", &prefix, &path, true);
    assert_eq!(c, "cd /tmp; export ENV=prod; sudo bash /tmp/Q1w2E3r4T5");
    assert_eq!(cleanup_command(&path), "rm /tmp/Q1w2E3r4T5");
}
