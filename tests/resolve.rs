use argrments::{finish, menu, plan, read_flags, split_hosts, Argument, Flags, Plan};

fn line(args: &[&str]) -> Vec<String> {
    let mut v = vec!["svc".to_string()];
    for a in args {
        v.push(a.to_string());
    }
    v
}

fn base_of(args: &[&str]) -> (Argument, Vec<String>) {
    let flags = read_flags(&line(args)).expect("tokenizes");
    match plan(&flags) {
        Plan::Load { base, files } => (base, files),
        other => panic!("unexpected plan {:?}", other),
    }
}

fn resolve_flags_only(args: &[&str]) -> Argument {
    let (base, files) = base_of(args);
    assert!(files.is_empty());
    finish(base, &files, vec![]).expect("a result")
}

fn loaded_settings() -> Argument {
    Argument {
        env: "prod".to_string(),
        port: 9910,
        flag: 2,
        sync: true,
        sync_host: vec!["10.0.0.1:9920".to_string()],
        sync_thread_num: 3,
        file_path: String::new(),
    }
}

#[test]
fn defaults() {
    let a = Argument::default();
    assert_eq!(a.env, "dev");
    assert_eq!(a.port, 8080);
    assert_eq!(a.flag, 1);
    assert!(!a.sync);
    assert!(a.sync_host.is_empty());
    assert_eq!(a.sync_thread_num, 1);
    assert_eq!(a.file_path, "");
}

#[test]
fn no_flags_give_defaults() {
    assert_eq!(resolve_flags_only(&[]), Argument::default());
}

#[test]
fn port_in_range_kept() {
    assert_eq!(resolve_flags_only(&["-p", "9000"]).port, 9000);
    assert_eq!(resolve_flags_only(&["--port", "9999"]).port, 9999);
    assert_eq!(resolve_flags_only(&["-p", "3001"]).port, 3001);
    assert_eq!(resolve_flags_only(&["-p", "+4000"]).port, 4000);
}

#[test]
fn port_out_of_range_default() {
    assert_eq!(resolve_flags_only(&["-p", "3000"]).port, 8080);
    assert_eq!(resolve_flags_only(&["-p", "10000"]).port, 8080);
    assert_eq!(resolve_flags_only(&["-p", "0"]).port, 8080);
    assert_eq!(resolve_flags_only(&["-p", "80"]).port, 8080);
}

#[test]
fn port_not_a_number_ignored() {
    assert_eq!(resolve_flags_only(&["-p", "abc"]).port, 8080);
    assert_eq!(resolve_flags_only(&["-p", "99999999999"]).port, 8080);
}

#[test]
fn flag_range() {
    assert_eq!(resolve_flags_only(&["-f", "2"]).flag, 2);
    assert_eq!(resolve_flags_only(&["-f", "3"]).flag, 3);
    assert_eq!(resolve_flags_only(&["-f", "1"]).flag, 1);
    assert_eq!(resolve_flags_only(&["-f", "4"]).flag, 1);
    assert_eq!(resolve_flags_only(&["-f", "0"]).flag, 1);
    assert_eq!(resolve_flags_only(&["--flag", "300"]).flag, 1);
}

#[test]
fn threads_asymmetric() {
    assert_eq!(resolve_flags_only(&["-T", "2"]).sync_thread_num, 12);
    assert_eq!(resolve_flags_only(&["-T", "3"]).sync_thread_num, 12);
    assert_eq!(resolve_flags_only(&["-T", "12"]).sync_thread_num, 12);
    assert_eq!(resolve_flags_only(&["-T", "13"]).sync_thread_num, 1);
    assert_eq!(resolve_flags_only(&["-T", "0"]).sync_thread_num, 1);
    assert_eq!(resolve_flags_only(&["--sync_thread_num", "1"]).sync_thread_num, 1);
}

#[test]
fn env_and_sync_taken() {
    let a = resolve_flags_only(&["-e", "prod", "-s"]);
    assert_eq!(a.env, "prod");
    assert!(a.sync);
    let b = resolve_flags_only(&["--env", "", "--sync"]);
    assert_eq!(b.env, "");
    assert!(b.sync);
}

#[test]
fn sync_hosts_in_order() {
    let a = resolve_flags_only(&["-S", "a:1,b:2"]);
    assert_eq!(a.sync_host, vec!["a:1".to_string(), "b:2".to_string()]);
}

#[test]
fn split_hosts_edges() {
    assert_eq!(split_hosts(""), vec![String::new()]);
    assert_eq!(split_hosts(","), vec![String::new(), String::new()]);
    assert_eq!(split_hosts("h:1"), vec!["h:1".to_string()]);
    assert_eq!(
        split_hosts("a,,bé:3,"),
        vec!["a".to_string(), String::new(), "bé:3".to_string(), String::new()]
    );
}

#[test]
fn help_and_version_stop() {
    let f = read_flags(&line(&["-h", "-p", "9000"])).unwrap();
    assert!(matches!(plan(&f), Plan::ShowHelp));
    let f = read_flags(&line(&["-p", "9000", "-v"])).unwrap();
    assert!(matches!(plan(&f), Plan::ShowVersion));
    let f = read_flags(&line(&["--help", "--version", "cfg.json"])).unwrap();
    assert!(matches!(plan(&f), Plan::ShowHelp));
}

#[test]
fn unknown_option_fails() {
    assert!(read_flags(&line(&["-x"])).is_err());
    assert!(read_flags(&line(&["-p"])).is_err());
}

#[test]
fn missing_hosts_value_stops() {
    let f = Flags {
        help: false,
        version: false,
        env: None,
        port: None,
        flag: None,
        sync: true,
        sync_host_given: true,
        sync_host: None,
        sync_thread_num: None,
        file_path: None,
        free: vec![],
    };
    assert!(matches!(plan(&f), Plan::BadHosts));
}

#[test]
fn files_in_order() {
    let (_, files) = base_of(&["--file_path", "named.json", "free.json", "other.json"]);
    assert_eq!(files, vec!["named.json".to_string(), "free.json".to_string()]);
    let (_, files) = base_of(&["free.json"]);
    assert_eq!(files, vec!["free.json".to_string()]);
}

#[test]
fn file_settings_verbatim() {
    let (base, files) = base_of(&["--file_path", "cfg.json", "-p", "5000"]);
    let r = finish(base, &files, vec![Some(loaded_settings())]).expect("a result");
    let mut want = loaded_settings();
    want.file_path = "cfg.json".to_string();
    assert_eq!(r, want);
    assert_eq!(r.sync_thread_num, 3);
}

#[test]
fn free_file_wins() {
    let (base, files) = base_of(&["--file_path", "a.json", "b.json"]);
    let mut other = Argument::default();
    other.env = "test".to_string();
    let r = finish(base, &files, vec![Some(other), Some(loaded_settings())]).expect("a result");
    assert_eq!(r.env, "prod");
    assert_eq!(r.file_path, "b.json");
}

#[test]
fn unreadable_file_no_result() {
    let (base, files) = base_of(&["--file_path", "missing.json"]);
    assert!(finish(base, &files, vec![None]).is_none());
    let (base, files) = base_of(&["--file_path", "a.json", "b.json"]);
    assert!(finish(base, &files, vec![None]).is_none());
    let (base, files) = base_of(&["--file_path", "a.json", "b.json"]);
    assert!(finish(base, &files, vec![Some(loaded_settings()), None]).is_none());
}

#[test]
fn menu_knows_every_option() {
    let args = vec![
        "-e", "x", "-p", "1", "-f", "2", "-s", "-S", "h:1", "-T", "3", "--file_path", "c.json",
        "-h", "-v", "free",
    ];
    let m = menu().parse(&args).expect("parses");
    for name in ["e", "env", "p", "port", "f", "flag", "s", "sync", "S", "sync_host", "T",
        "sync_thread_num", "file_path", "h", "help", "v", "version"]
    {
        assert!(m.opt_present(name), "{}", name);
    }
    assert_eq!(m.opt_str("sync_host"), Some("h:1".to_string()));
    assert_eq!(m.free, vec!["free".to_string()]);
    assert!(menu().parse(&["-s", "x"]).is_ok());
    assert!(menu().parse(&["--sync=x"]).is_err());
}
