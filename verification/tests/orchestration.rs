use nuts_tool::dispatch::ArchiveArgs;
use nuts_tool::dispatch::Commands;
use nuts_tool::dispatch::ContainerArgs;
use nuts_tool::dispatch::Dispatcher;
use nuts_tool::dispatch::LogLevel;
use nuts_tool::dispatch::NutsCli;
use nuts_tool::dispatch::Route;
use nuts_tool::errors::Error;
use nuts_tool::errors::OpenFailure;
use nuts_tool::errors::exit_status;
use nuts_tool::facade::OpenOutcome;
use nuts_tool::facade::open_request_with_home;
use nuts_tool::facade::open_result;
use nuts_tool::facade::resolve_tool_home;
use nuts_tool::registry::container_dir_for;
use nuts_tool::registry::dir_plan;
use nuts_tool::registry::registry_root_path;
use nuts_tool::registry::tool_home_path;
use nuts_tool::unlock::ContainerKind;
use nuts_tool::unlock::CredentialLog;
use nuts_tool::unlock::credential_bytes;
use nuts_tool::unlock::credential_needed;
use nuts_tool::unlock::unlock_sequence;

#[test]
fn tool_home_resolution_is_idempotent() {
    let first = tool_home_path("/tmp/fakehome");
    let second = tool_home_path("/tmp/fakehome");
    assert_eq!(first, second);
    assert_eq!(first, "/tmp/fakehome/.nuts");
    // The first resolution finds no directory and creates it; the second
    // finds the one the first created and plans no further creation.
    let mut creations = 0;
    if dir_plan(false) {
        creations += 1;
    }
    if dir_plan(true) {
        creations += 1;
    }
    assert_eq!(creations, 1);
}

#[test]
fn distinct_names_map_to_distinct_directories() {
    let d1 = container_dir_for("/h/.nuts", "vault1").unwrap();
    let d2 = container_dir_for("/h/.nuts", "vault2").unwrap();
    assert_ne!(d1, d2);
    assert_eq!(d1, "/h/.nuts/container.d/vault1");
    assert_eq!(d2, "/h/.nuts/container.d/vault2");
}

#[test]
fn non_simple_names_are_rejected() {
    assert_eq!(container_dir_for("/h/.nuts", ""), Err(Error::InvalidName));
    assert_eq!(container_dir_for("/h/.nuts", "."), Err(Error::InvalidName));
    assert_eq!(container_dir_for("/h/.nuts", ".."), Err(Error::InvalidName));
    assert_eq!(container_dir_for("/h/.nuts", "a/b"), Err(Error::InvalidName));
    assert_eq!(
        container_dir_for("/h/.nuts", "../escape"),
        Err(Error::InvalidName)
    );
}

// A fake container-open routine: it consults the header kind and exercises
// the credential capability through the unlock sequencing, recording every
// invocation in the log.
fn fake_open(kind: ContainerKind) -> u64 {
    let mut log = CredentialLog::new();
    let needed = unlock_sequence(&kind, &mut log);
    assert_eq!(needed, matches!(kind, ContainerKind::Encrypted));
    log.invocations()
}

#[test]
fn encrypted_container_prompts_exactly_once() {
    assert_eq!(fake_open(ContainerKind::Encrypted), 1);
}

#[test]
fn plain_container_never_prompts() {
    assert_eq!(fake_open(ContainerKind::Plain), 0);
}

#[test]
fn credential_need_follows_the_header() {
    assert!(credential_needed(&ContainerKind::Encrypted));
    assert!(!credential_needed(&ContainerKind::Plain));
}

#[test]
fn credential_crosses_as_raw_bytes() {
    let secret = credential_bytes("s3cret pass");
    assert_eq!(secret, b"s3cret pass".to_vec());
    assert_eq!(credential_bytes(""), Vec::<u8>::new());
}

#[test]
fn home_failure_is_fatal_and_creates_nothing() {
    let r = open_request_with_home(None, "vault1");
    match r {
        Err(e) => assert_eq!(e, Error::Environment),
        Ok(_) => panic!("resolution must fail without a home directory"),
    }
    let outcome: Result<(), Error> = Err(Error::Environment);
    assert_ne!(exit_status(&outcome), 0);
}

#[test]
fn opening_a_container_in_a_fresh_home() {
    // home=/tmp/fakehome, empty; the tool derives both directories and the
    // container's location for the name vault1.
    let home = String::from("/tmp/fakehome");
    let request = open_request_with_home(Some(&home), "vault1").unwrap();
    assert_eq!(request.tool_home, "/tmp/fakehome/.nuts");
    assert_eq!(request.registry_root, "/tmp/fakehome/.nuts/container.d");
    assert_eq!(
        request.container_dir,
        "/tmp/fakehome/.nuts/container.d/vault1"
    );
    // Both directories are absent in an empty home, so both get created.
    assert!(dir_plan(false));
    assert!(dir_plan(false));
    // The container is encrypted: opening it prompts exactly once.
    assert_eq!(fake_open(ContainerKind::Encrypted), 1);
    // A wrong password surfaces as an open failure carrying the
    // authentication cause, and the process exits non-zero.
    let outcome = open_result(OpenOutcome::Failed(OpenFailure::WrongPassword));
    assert_eq!(outcome, Err(Error::Open(OpenFailure::WrongPassword)));
    assert_ne!(exit_status(&outcome), 0);
}

#[test]
fn open_failures_keep_their_cause() {
    assert_eq!(open_result(OpenOutcome::Opened), Ok(()));
    assert_eq!(
        open_result(OpenOutcome::Failed(OpenFailure::CorruptFormat)),
        Err(Error::Open(OpenFailure::CorruptFormat))
    );
    assert_eq!(
        open_result(OpenOutcome::Failed(OpenFailure::Backend(String::from(
            "disk gone"
        )))),
        Err(Error::Open(OpenFailure::Backend(String::from("disk gone"))))
    );
    assert_eq!(
        open_result(OpenOutcome::PromptFailed(String::from("no terminal"))),
        Err(Error::Prompt(String::from("no terminal")))
    );
}

#[test]
fn exit_status_is_zero_exactly_on_success() {
    assert_eq!(exit_status(&Ok(())), 0);
    assert_eq!(exit_status(&Err(Error::InvalidName)), 1);
    assert_eq!(exit_status(&Err(Error::Io(String::from("denied")))), 1);
}

#[test]
fn verbosity_selects_the_threshold() {
    let cli = |verbose| NutsCli {
        command: Commands::Container(ContainerArgs {
            name: String::from("vault1"),
        }),
        verbose,
    };
    assert_eq!(cli(0).log_level(), LogLevel::Info);
    assert_eq!(cli(1).log_level(), LogLevel::Debug);
    assert_eq!(cli(2).log_level(), LogLevel::Trace);
    assert_eq!(cli(7).log_level(), LogLevel::Trace);
}

#[test]
fn double_verbosity_sets_trace_once_before_dispatch() {
    let cli = NutsCli {
        command: Commands::Container(ContainerArgs {
            name: String::from("vault1"),
        }),
        verbose: 2,
    };
    let mut run = Dispatcher::new();
    // The phase contracts admit configure only at the start, so the
    // threshold is fixed exactly once, before anything is dispatched.
    let level = run.configure(&cli);
    assert_eq!(level, LogLevel::Trace);
    let route = run.dispatch(&cli);
    assert_eq!(route, Route::Container);
    let code = run.finish(&Ok(()));
    assert_eq!(code, 0);
}

#[test]
fn commands_route_to_their_subsystem() {
    let container = Commands::Container(ContainerArgs {
        name: String::from("vault1"),
    });
    let archive = Commands::Archive(ArchiveArgs {
        name: String::from("vault1"),
    });
    assert_eq!(container.run(), Route::Container);
    assert_eq!(archive.run(), Route::Archive);
    let cli = NutsCli {
        command: archive,
        verbose: 0,
    };
    assert_eq!(cli.run(), Route::Archive);
}

#[test]
fn registry_paths_nest_under_the_tool_home() {
    let tool_home = tool_home_path("/home/op");
    let root = registry_root_path(&tool_home);
    assert_eq!(root, "/home/op/.nuts/container.d");
    let dir = container_dir_for(&tool_home, "work").unwrap();
    assert!(dir.starts_with(&root));
}

#[test]
fn resolving_from_the_environment_yields_the_tool_home_shape() {
    // The home directory comes from the environment, so either outcome is
    // legitimate here; what is fixed is the shape of each.
    match resolve_tool_home() {
        Ok(path) => assert!(path.ends_with("/.nuts")),
        Err(e) => assert_eq!(e, Error::Environment),
    }
}
