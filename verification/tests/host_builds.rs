use pchain_compile::cargo::{
    build_contract, failure_of, random_temp_dir_name, BuildLogWritter, CargoConfig, Folder,
    HostOutcome, HostPath, HostStep,
};
use pchain_compile::error::Error;
use pchain_compile::{BuildOptions, Config, DockerConfig, DockerOption};

#[test]
fn a_new_log_is_empty() {
    assert_eq!(CargoConfig::new().logs(), "");
}

#[test]
fn the_log_holds_what_was_written_in_order() {
    let mut config = CargoConfig::new();
    config.record(b"   Compiling hello v0.1.0\n");
    config.record(b"");
    config.record("    Finished \u{2713}\n".as_bytes());
    assert_eq!(config.logs(), "   Compiling hello v0.1.0\n    Finished \u{2713}\n");
}

#[test]
fn bytes_that_are_no_text_are_replaced_in_the_log() {
    let mut config = CargoConfig::new();
    config.record(b"ok \xff\xfe end");
    assert_eq!(config.logs(), "ok \u{fffd}\u{fffd} end");
}

#[test]
fn the_writer_takes_all_it_is_given() {
    let mut writer = BuildLogWritter::new();
    assert_eq!(writer.write(b"hello"), 5);
    assert_eq!(writer.write(b""), 0);
    assert_eq!(writer.write(b"\xf0\x9f"), 2);
    writer.flush();
    assert_eq!(writer.buffer, vec!["hello".to_string(), String::new(), "\u{fffd}".to_string()]);
}

#[test]
fn a_writer_by_default_has_collected_nothing() {
    assert_eq!(BuildLogWritter::default(), BuildLogWritter::new());
    assert!(BuildLogWritter::default().buffer.is_empty());
}

#[test]
fn temporary_folders_are_named_with_five_letters_or_digits() {
    for _ in 0..50 {
        let name = random_temp_dir_name();
        assert_eq!(name.len(), 5);
        assert!(name.chars().all(|c| c.is_ascii_alphanumeric()));
    }
}

#[test]
fn steps_on_this_machine_with_a_lock_file() {
    let steps = build_contract(true, true, "c.wasm");
    assert_eq!(steps.len(), 6);
    assert_eq!(
        steps[0],
        HostStep::PrepareWorkspace {
            manifest: HostPath { folder: Folder::Source, parts: vec!["Cargo.toml".to_string()] },
        }
    );
    assert_eq!(
        steps[1],
        HostStep::Compile {
            manifest: HostPath { folder: Folder::Source, parts: vec!["Cargo.toml".to_string()] },
            locked: true,
            target: "wasm32-unknown-unknown".to_string(),
            profile: "release".to_string(),
        }
    );
    assert_eq!(
        steps[2],
        HostStep::KeepLockFile {
            from: HostPath { folder: Folder::Source, parts: vec!["Cargo.lock".to_string()] },
            to: HostPath { folder: Folder::Destination, parts: vec!["Cargo.lock".to_string()] },
        }
    );
    assert!(matches!(steps[3], HostStep::OptimizeForSize { .. }));
    assert!(matches!(steps[4], HostStep::Snip { .. }));
    assert!(matches!(steps[5], HostStep::EliminateDeadCode { .. }));
}

#[test]
fn steps_on_this_machine_without_a_lock_file() {
    for (locked, exists) in [(true, false), (false, true), (false, false)] {
        let steps = build_contract(locked, exists, "c.wasm");
        assert_eq!(steps.len(), 5);
        assert!(matches!(&steps[0], HostStep::PrepareWorkspace { .. }));
        assert!(matches!(&steps[1], HostStep::Compile { locked: false, .. }));
        assert!(steps.iter().all(|s| !matches!(s, HostStep::KeepLockFile { .. })));
    }
}

#[test]
fn what_the_outcome_of_each_step_amounts_to() {
    let steps = build_contract(true, true, "c.wasm");
    for step in &steps {
        assert_eq!(failure_of(step, HostOutcome::Done), None);
    }
    let failed = |i: usize| failure_of(&steps[i], HostOutcome::Failed("why".to_string()));
    assert_eq!(
        failed(0),
        Some(Error::BuildFailure(
            "Error in preparing workspace according to the manifest file in source path:\n\nwhy\n"
                .to_string()
        ))
    );
    assert_eq!(failed(1), Some(Error::BuildFailureWithLogs("why".to_string())));
    assert_eq!(failed(2), None);
    let optimization = Some(Error::BuildFailure("Wasm optimization error:\n\nwhy\n".to_string()));
    let snip = Some(Error::BuildFailure("Wasm snip error:\n\nwhy\n".to_string()));
    assert_eq!(failed(3), optimization);
    assert_eq!(failed(4), snip);
    assert_eq!(failed(5), optimization);
}

#[test]
fn defaults_of_the_configuration() {
    let config = Config::default();
    assert_eq!(config.source_path, "");
    assert_eq!(config.destination_path, None);
    assert!(!config.build_options.locked);
    assert_eq!(config.docker_option, DockerOption::Docker(DockerConfig { tag: None }));
    assert_eq!(DockerOption::default(), DockerOption::Docker(DockerConfig::default()));
    assert_eq!(BuildOptions::default(), BuildOptions { locked: false });
    assert_eq!(DockerConfig::default().tag, None);
}

#[test]
fn a_copy_of_a_configuration_equals_it() {
    let config = Config {
        source_path: "src".to_string(),
        destination_path: Some("out".to_string()),
        build_options: BuildOptions { locked: true },
        docker_option: DockerOption::Docker(DockerConfig { tag: Some("mainnet01".to_string()) }),
    };
    assert_eq!(config.clone(), config);
    assert_eq!(DockerOption::Dockerless.clone(), DockerOption::Dockerless);
}
