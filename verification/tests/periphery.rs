use transport::compose::{
    compose_down, compose_down_command, env_file_args, maybe_login_registry, needs_registry_login,
    pull_or_clone_stack, validate_files, validate_missing_files, CloneBase, CloneError, ComposeDownError,
    ComposeUpResponse, Log, RegistryConfig, RepoSource, StackFile, StackSource,
};
use transport::ip_guard::{guard_request_by_ip, to_canonical, to_ipv6_mapped, Guarded, IpAddr, IpNetwork};
use transport::text;

fn strings(list: &[&str]) -> Vec<String> {
    list.iter().map(|s| s.to_string()).collect()
}

#[test]
fn env_files() {
    assert_eq!(env_file_args(None, &vec![]), "");
    assert_eq!(env_file_args(Some(".env"), &vec![]), " --env-file .env");
    assert_eq!(env_file_args(None, &strings(&["a", "b"])), " --env-file a --env-file b");
    assert_eq!(
        env_file_args(Some(".env"), &strings(&["a", ".env", "b"])),
        " --env-file a --env-file b --env-file .env"
    );
    assert_eq!(
        env_file_args(Some(".env"), &strings(&["a"])),
        env_file_args(Some(".env"), &strings(&["a", ".env"]))
    );
    for files in [&[".env", "a", "b"], &["a", ".env", "b"], &["a", "b", ".env"]] {
        assert_eq!(
            env_file_args(Some(".env"), &strings(files)),
            format!("{}{}", env_file_args(None, &strings(&["a", "b"])), " --env-file .env")
        );
    }
}

fn response() -> ComposeUpResponse<u8> {
    ComposeUpResponse { logs: vec![], missing_files: vec![], remote_errors: vec![], file_contents: vec![] }
}

#[test]
fn compose_down_commands() {
    assert_eq!(compose_down_command("docker compose", "web", &vec![]), "docker compose -p web down");
    assert_eq!(
        compose_down_command("docker-compose", "web", &strings(&["a", "b"])),
        "docker-compose -p web down a b"
    );
    let log = |success| Log { stage: "Compose Down".to_string(), success, lines: vec![] };
    let mut res = response();
    assert_eq!(compose_down(log(true), &mut res), Ok(()));
    assert_eq!(compose_down(log(false), &mut res), Err(ComposeDownError));
    assert_eq!(res.logs.len(), 2);
}

#[test]
fn registry_logins() {
    let config = |provider: &str, account: &str| RegistryConfig {
        registry_provider: provider.to_string(),
        registry_account: account.to_string(),
    };
    assert!(needs_registry_login(&config("ghcr.io", "me")));
    assert!(!needs_registry_login(&config("", "me")));
    assert!(!needs_registry_login(&config("ghcr.io", "")));
    let mut logs = vec![];
    maybe_login_registry(&config("ghcr.io", "me"), None, &mut logs);
    maybe_login_registry(&config("", "me"), Some("denied".to_string()), &mut logs);
    assert!(logs.is_empty());
    maybe_login_registry(&config("ghcr.io", "me"), Some("denied".to_string()), &mut logs);
    assert_eq!(logs.len(), 1);
    assert_eq!(logs[0].stage, "Login to Registry");
    assert!(!logs[0].success);
    assert_eq!(
        logs[0].lines,
        strings(&["Failed to login to image registry", "Domain: 'ghcr.io' | Account: 'me'", "denied"])
    );
}

#[test]
fn stacks_are_cloned() {
    let stack = |files_on_host, repo: &str| StackSource {
        name: "stack".to_string(),
        files_on_host,
        repo: repo.to_string(),
        clone_path: "clone".to_string(),
    };
    let repo = RepoSource { name: "repo".to_string(), path: "path".to_string() };
    assert_eq!(pull_or_clone_stack(&stack(true, "x"), Some(&repo)).err(), Some(CloneError::FilesOnHost));
    assert_eq!(pull_or_clone_stack(&stack(false, ""), None).err(), Some(CloneError::NoRepo));
    let plan = pull_or_clone_stack(&stack(false, ""), Some(&repo)).ok().unwrap();
    assert_eq!((plan.base, plan.name.as_str(), plan.path.as_str()), (CloneBase::RepoDir, "repo", "path"));
    let plan = pull_or_clone_stack(&stack(false, "x"), None).ok().unwrap();
    assert_eq!((plan.base, plan.name.as_str(), plan.path.as_str()), (CloneBase::StackDir, "stack", "clone"));
}

#[test]
fn missing_files_are_noted() {
    let files = || {
        vec![
            StackFile { path: "a.yaml".to_string(), details: 1u8 },
            StackFile { path: "b.yaml".to_string(), details: 2 },
            StackFile { path: "c.yaml".to_string(), details: 3 },
        ]
    };
    let mut res = response();
    assert!(validate_missing_files(&files(), &vec![true, true, true], &mut res));
    assert!(res.logs.is_empty() && res.missing_files.is_empty());
    assert!(!validate_missing_files(&files(), &vec![false, true, false], &mut res));
    assert_eq!(res.missing_files, strings(&["a.yaml", "c.yaml"]));
    assert_eq!(res.logs.len(), 1);
    assert_eq!(res.logs[0].stage, "Validate Files");
    assert_eq!(
        res.logs[0].lines,
        strings(&[
            "A file doesn't exist after writing stack.",
            "Ensure the run_directory and all file paths are correct.",
            "Missing files: a.yaml, c.yaml"
        ])
    );
}

#[test]
fn files_are_read_until_one_fails() {
    let files = || {
        vec![
            StackFile { path: "a.yaml".to_string(), details: 1u8 },
            StackFile { path: "b.yaml".to_string(), details: 2 },
            StackFile { path: "c.yaml".to_string(), details: 3 },
        ]
    };
    let read = |text: &str| Ok(text.to_string());
    let all = vec![true, true, true];
    let kept = |res: &ComposeUpResponse<u8>| -> Vec<(String, String, u8)> {
        res.file_contents.iter().map(|f| (f.path.clone(), f.contents.clone(), f.details)).collect()
    };
    let entry = |path: &str, text: &str, details| (path.to_string(), text.to_string(), details);

    let mut res = response();
    assert!(validate_files(files(), &all, &vec![read("one"), read("two"), read("three")], &mut res));
    assert_eq!(kept(&res), vec![entry("a.yaml", "one", 1), entry("b.yaml", "two", 2), entry("c.yaml", "three", 3)]);
    assert!(res.logs.is_empty() && res.remote_errors.is_empty());

    // What comes after the first file that cannot be read makes no difference.
    let denied = || Err("denied".to_string());
    for contents in [vec![read("one"), denied()], vec![read("one"), denied(), read("three")]] {
        let mut res = response();
        assert!(!validate_files(files(), &all, &contents, &mut res));
        assert_eq!(kept(&res), vec![entry("a.yaml", "one", 1)]);
        assert_eq!((res.logs.len(), res.remote_errors.len()), (1, 1));
        assert_eq!(res.remote_errors[0].path, "b.yaml");
        assert_eq!(res.remote_errors[0].contents, "denied");
        assert_eq!(res.logs[0].stage, "Read Compose File");
        assert_eq!(res.logs[0].lines, strings(&["denied"]));
        assert!(!res.logs[0].success);
    }

    // Nothing is read where a file is missing.
    let mut res = response();
    assert!(!validate_files(files(), &vec![true, false, true], &vec![read("one"), denied()], &mut res));
    assert_eq!(res.missing_files, strings(&["b.yaml"]));
    assert!(res.file_contents.is_empty() && res.remote_errors.is_empty());
    assert_eq!(res.logs.len(), 1);
    assert_eq!(res.logs[0].stage, "Validate Files");
}

fn v4(a: u8, b: u8, c: u8, d: u8) -> u32 {
    u32::from_be_bytes([a, b, c, d])
}

#[test]
fn networks() {
    let net = IpNetwork::V4(v4(10, 1, 0, 0), 16);
    assert!(net.contains(IpAddr::V4(v4(10, 1, 200, 3))));
    assert!(!net.contains(IpAddr::V4(v4(10, 2, 0, 1))));
    assert!(!net.contains(IpAddr::V6(v4(10, 1, 0, 1) as u128)));
    assert!(IpNetwork::V4(v4(10, 1, 0, 7), 32).contains(IpAddr::V4(v4(10, 1, 0, 7))));
    assert!(!IpNetwork::V4(v4(10, 1, 0, 7), 32).contains(IpAddr::V4(v4(10, 1, 0, 6))));
    assert!(IpNetwork::V4(0, 0).contains(IpAddr::V4(v4(1, 2, 3, 4))));
    let net6 = IpNetwork::V6(0x2001_0db8 << 96, 32);
    assert!(net6.contains(IpAddr::V6((0x2001_0db8 << 96) + 5)));
    assert!(!net6.contains(IpAddr::V6(0x2001_0db9 << 96)));
    assert!(IpNetwork::V6(5, 128).contains(IpAddr::V6(5)));
    assert!(IpNetwork::V6(5, 0).contains(IpAddr::V6(1)));
}

#[test]
fn mapped_addresses() {
    assert_eq!(to_ipv6_mapped(v4(192, 168, 0, 1)), 0xffff_c0a8_0001);
    assert_eq!(to_canonical(IpAddr::V6(0xffff_c0a8_0001)), IpAddr::V4(v4(192, 168, 0, 1)));
    assert_eq!(to_canonical(IpAddr::V6(1)), IpAddr::V6(1));
    assert_eq!(to_canonical(IpAddr::V4(1)), IpAddr::V4(1));
}

#[test]
fn requests_are_guarded() {
    let home = vec![IpNetwork::V4(v4(192, 168, 0, 0), 24)];
    let inside = v4(192, 168, 0, 9);
    let outside = v4(192, 168, 1, 9);
    assert_eq!(guard_request_by_ip(&vec![], None), Guarded::Allowed);
    assert_eq!(guard_request_by_ip(&home, None), Guarded::NoAddress);
    assert_eq!(guard_request_by_ip(&home, Some(IpAddr::V4(inside))), Guarded::Allowed);
    assert_eq!(guard_request_by_ip(&home, Some(IpAddr::V6(to_ipv6_mapped(inside)))), Guarded::Allowed);
    assert_eq!(guard_request_by_ip(&home, Some(IpAddr::V4(outside))), Guarded::NotAllowed);
    assert_eq!(guard_request_by_ip(&home, Some(IpAddr::V6(to_ipv6_mapped(outside)))), Guarded::NotAllowed);
    let mapped = vec![IpNetwork::V4(0, 32), IpNetwork::V6(to_ipv6_mapped(inside), 128)];
    assert_eq!(guard_request_by_ip(&mapped, Some(IpAddr::V4(inside))), Guarded::Allowed);
    assert_eq!(Guarded::Allowed.status(), None);
    assert_eq!(Guarded::NoAddress.status(), Some(401));
    assert_eq!(Guarded::NotAllowed.status(), Some(401));
}

#[test]
fn texts() {
    assert!(text::starts_with("wss://x", "wss"));
    assert!(!text::starts_with("ws", "wss"));
    assert!(text::contains("a && b", "&&"));
    assert!(!text::contains("a & b", "&&"));
    assert!(text::contains("", ""));
    assert_eq!(text::replace("aXbXXc", "X", "--"), "a--b----c");
    assert_eq!(text::join(&strings(&["a", "b", "c"]), ", "), "a, b, c");
    assert_eq!(text::join(&vec![], ", "), "");
    assert!(text::same("é", "é"));
    assert_eq!(text::concat3("a", "b", "c"), "abc");
}
