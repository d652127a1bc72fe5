use pchain_compile::docker::{
    build_contracts, copy_files, docker_image_tag, pull_image, random_container_name,
    remove_container, start_container, PipelineStep, PullStatus,
};
use pchain_compile::error::Error;
use pchain_compile::manifests::wasm_file_name;
use pchain_compile::paths::{file_name, rooted, sanitize, strip_drive};
use pchain_compile::text::{remove_char, replace_char, same_text, trim_start_char};
use pchain_compile::DockerConfig;

fn words(list: &[&str]) -> Vec<String> {
    list.iter().map(|w| w.to_string()).collect()
}

fn bounded(dir: &str, command: &[&str]) -> PipelineStep {
    PipelineStep {
        working_dir: dir.to_string(),
        command: words(command),
        capture_output: false,
        timeout_secs: Some(15),
    }
}

#[test]
fn artifact_of_my_contract() {
    assert_eq!(wasm_file_name("my-contract"), "my_contract.wasm");
}

#[test]
fn artifact_name_replaces_every_hyphen() {
    assert_eq!(wasm_file_name("a-b-c--d"), "a_b_c__d.wasm");
    assert_eq!(wasm_file_name("hello_contract"), "hello_contract.wasm");
    assert_eq!(wasm_file_name(""), ".wasm");
}

#[test]
fn artifact_name_introduces_no_space() {
    for name in ["my-contract", "-", "a-b", "x", "--", "é-ü"] {
        let artifact = wasm_file_name(name);
        assert!(!artifact.contains(' '));
        assert!(!artifact.contains('-'));
        assert!(artifact.ends_with(".wasm"));
        assert_eq!(artifact.chars().count(), name.chars().count() + 5);
    }
    assert_eq!(wasm_file_name("my contract"), "my contract.wasm");
}

#[test]
fn text_operations() {
    assert_eq!(replace_char("a-b-c", '-', '_'), "a_b_c");
    assert_eq!(replace_char("", '-', '_'), "");
    assert_eq!(remove_char("C:\\a:b", ':'), "C\\ab");
    assert_eq!(trim_start_char("///a/b/", '/'), "a/b/");
    assert_eq!(trim_start_char("////", '/'), "");
    assert_eq!(trim_start_char("a/", '/'), "a/");
    assert!(same_text("mainnet01", "mainnet01"));
    assert!(!same_text("mainnet01", "mainnet0"));
}

#[test]
fn sanitized_paths() {
    assert_eq!(sanitize("/home/user/my contract"), "/home/user/my_contract");
    assert_eq!(sanitize("C:\\Users\\me\\my contract"), "/Users/me/my_contract");
    assert_eq!(sanitize("z:relative\\path"), "relative/path");
    assert_eq!(sanitize("/odd:name/1:2"), "/oddname/12");
    assert_eq!(sanitize("1:x"), "1x");
    assert_eq!(sanitize(":"), "");
    assert_eq!(sanitize(""), "");
    assert_eq!(rooted("/home/user/contract"), "home/user/contract");
    assert_eq!(rooted("C:\\Users\\me"), "Users/me");
    assert_eq!(rooted("//x"), "x");
}

#[test]
fn drive_letters() {
    assert_eq!(strip_drive("C:\\Users"), "\\Users");
    assert_eq!(strip_drive("c:"), "");
    assert_eq!(strip_drive("C"), "C");
    assert_eq!(strip_drive("/C:/x"), "/C:/x");
    assert_eq!(strip_drive("9:x"), "9:x");
    assert_eq!(strip_drive("é:x"), "é:x");
    assert_eq!(strip_drive(""), "");
}

#[test]
fn file_names() {
    assert_eq!(file_name("result/hello_contract.wasm"), Some("hello_contract.wasm".to_string()));
    assert_eq!(file_name("hello.wasm"), Some("hello.wasm".to_string()));
    assert_eq!(file_name("/a/b/"), Some("b".to_string()));
    assert_eq!(file_name("a//b//"), Some("b".to_string()));
    assert_eq!(file_name("a/b/."), Some("b".to_string()));
    assert_eq!(file_name("a/./b"), Some("b".to_string()));
    assert_eq!(file_name("./a"), Some("a".to_string()));
    assert_eq!(file_name(".hidden"), Some(".hidden".to_string()));
    assert_eq!(file_name("a/..."), Some("...".to_string()));
    assert_eq!(file_name("a/.."), None);
    assert_eq!(file_name(".."), None);
    assert_eq!(file_name("."), None);
    assert_eq!(file_name("./."), None);
    assert_eq!(file_name("/"), None);
    assert_eq!(file_name("/."), None);
    assert_eq!(file_name(""), None);
}

#[test]
fn file_names_agree_with_the_paths_of_this_machine() {
    if std::path::MAIN_SEPARATOR != '/' {
        return;
    }
    for path in [
        "result/hello_contract.wasm", "a", "/a/b/", "a//b//", "a/b/.", "a/./b", "./a", ".x",
        "a/..", "..", ".", "./.", "/", "/.", "", "a/...", "é/ü.wasm", "/a/b/./.", "a/../b",
    ] {
        let expected = std::path::Path::new(path)
            .file_name()
            .map(|name| name.to_str().unwrap().to_string());
        assert_eq!(file_name(path), expected, "for {path:?}");
    }
}

#[test]
fn container_names_are_five_letters_or_digits() {
    for _ in 0..200 {
        let name = random_container_name();
        assert_eq!(name.chars().count(), 5);
        assert!(name.chars().all(|c| c.is_ascii_alphanumeric()));
    }
}

#[test]
fn container_names_differ() {
    let names: Vec<String> = (0..50).map(|_| random_container_name()).collect();
    let first = &names[0];
    assert!(names.iter().any(|name| name != first));
}

#[test]
fn default_tag_is_used_where_none_is_given() {
    assert_eq!(docker_image_tag(&DockerConfig { tag: None }), Ok("0.4.2".to_string()));
    assert_eq!(docker_image_tag(&DockerConfig::default()), Ok("0.4.2".to_string()));
}

#[test]
fn known_tags_are_accepted() {
    let tag = |t: &str| DockerConfig { tag: Some(t.to_string()) };
    assert_eq!(docker_image_tag(&tag("mainnet01")), Ok("mainnet01".to_string()));
    assert_eq!(docker_image_tag(&tag("0.4.2")), Ok("0.4.2".to_string()));
}

#[test]
fn unknown_tag_is_refused() {
    let tag = |t: &str| DockerConfig { tag: Some(t.to_string()) };
    assert_eq!(
        docker_image_tag(&tag("latest")),
        Err(Error::UnkownDockerImageTag("latest".to_string()))
    );
    assert_eq!(docker_image_tag(&tag("")), Err(Error::UnkownDockerImageTag(String::new())));
    assert_eq!(
        docker_image_tag(&tag("mainnet01 ")),
        Err(Error::UnkownDockerImageTag("mainnet01 ".to_string()))
    );
}

#[test]
fn pull_succeeds_with_one_good_status() {
    let good = || PullStatus { error: None };
    let bad = || PullStatus { error: Some("denied".to_string()) };
    let image = Ok("parallelchainlab/pchain_compile:mainnet01".to_string());
    assert_eq!(pull_image("mainnet01", &Some(vec![good()])), image);
    assert_eq!(pull_image("mainnet01", &Some(vec![bad(), good()])), image);
    assert_eq!(pull_image("mainnet01", &Some(vec![good(), bad()])), image);
}

#[test]
fn pull_fails_without_a_good_status() {
    let bad = || PullStatus { error: Some("denied".to_string()) };
    assert_eq!(pull_image("0.4.2", &None), Err(Error::DockerDaemonFailure));
    assert_eq!(pull_image("0.4.2", &Some(vec![])), Err(Error::DockerDaemonFailure));
    assert_eq!(pull_image("0.4.2", &Some(vec![bad()])), Err(Error::DockerDaemonFailure));
    assert_eq!(pull_image("0.4.2", &Some(vec![bad(), bad()])), Err(Error::DockerDaemonFailure));
}

#[test]
fn containers_are_privileged_interactive_and_have_a_terminal() {
    let spec = start_container("aB3dE", "parallelchainlab/pchain_compile:0.4.2".to_string());
    assert_eq!(spec.name, "aB3dE");
    assert_eq!(spec.image, "parallelchainlab/pchain_compile:0.4.2");
    assert!(spec.privileged);
    assert!(spec.open_stdin);
    assert!(spec.tty);
}

#[test]
fn containers_are_removed_by_force_with_their_volumes() {
    let spec = remove_container("aB3dE");
    assert_eq!(spec.name, "aB3dE");
    assert!(spec.force);
    assert!(spec.volumes);
    assert!(!spec.link);
}

#[test]
fn upload_of_a_unix_folder() {
    let upload = copy_files("aB3dE", "/home/user/my contract").unwrap();
    assert_eq!(upload.source_path, "/home/user/my contract");
    assert_eq!(upload.archive_root, "home/user/my_contract");
    assert_eq!(upload.archive_file, "aB3dE-my contract.tar.gz");
    assert_eq!(upload.container_path, "/");
}

#[test]
fn upload_of_a_folder_written_with_backslashes() {
    let upload = copy_files("x1y2z", "C:\\Users\\me\\contract").unwrap();
    assert_eq!(upload.archive_root, "Users/me/contract");
    assert_eq!(upload.archive_file, "x1y2z-C:\\Users\\me\\contract.tar.gz");
}

#[test]
fn the_archive_is_named_after_the_folder_as_it_is_written() {
    for (path, name) in [
        ("/home/user/contract", "contract"),
        ("/home/user/my contract/", "my contract"),
        ("relative/a:b", "a:b"),
        ("/x/back\\slash", "back\\slash"),
        ("./c", "c"),
    ] {
        let upload = copy_files("aB3dE", path).unwrap();
        assert_eq!(upload.archive_file, format!("aB3dE-{name}.tar.gz"));
        if std::path::MAIN_SEPARATOR == '/' {
            let as_the_machine_has_it = std::path::Path::new(path).file_name().unwrap();
            assert_eq!(as_the_machine_has_it.to_str(), Some(name));
        }
    }
}

#[test]
fn no_upload_of_a_path_without_a_name() {
    assert_eq!(copy_files("aB3dE", "/"), None);
    assert_eq!(copy_files("aB3dE", ""), None);
    assert_eq!(copy_files("aB3dE", "/home/.."), None);
    assert_eq!(copy_files("aB3dE", "."), None);
    assert!(copy_files("aB3dE", "C:").is_some());
}

#[test]
fn steps_of_a_build_without_a_lock_file() {
    let plan = build_contracts("/home/user/contract", false, true, "hello_contract.wasm");
    let code = "//home/user/contract";
    let build = "//home/user/contract/target/wasm32-unknown-unknown/release";
    assert_eq!(plan.output_folder, "/result");
    assert_eq!(
        plan.steps,
        vec![
            PipelineStep {
                working_dir: code.to_string(),
                command: words(&[
                    "cargo", "build", "--target", "wasm32-unknown-unknown", "--release"
                ]),
                capture_output: true,
                timeout_secs: None,
            },
            bounded(build, &["chmod", "+x", "/root/bin/wasm-opt"]),
            bounded(
                build,
                &["/root/bin/wasm-opt", "-Oz", "hello_contract.wasm", "--output", "temp.wasm"]
            ),
            bounded(
                build,
                &[
                    "wasm-snip",
                    "temp.wasm",
                    "--output",
                    "temp2.wasm",
                    "--snip-rust-fmt-code",
                    "--snip-rust-panicking-code"
                ]
            ),
            bounded(
                build,
                &["/root/bin/wasm-opt", "--dce", "temp2.wasm", "--output", "optimized.wasm"]
            ),
            bounded(build, &["mkdir", "-p", "/result"]),
            bounded(build, &["mv", "optimized.wasm", "/result/hello_contract.wasm"]),
        ]
    );
}

#[test]
fn steps_of_a_build_with_a_lock_file() {
    let plan = build_contracts("C:\\my code", true, true, "c.wasm");
    assert_eq!(plan.steps.len(), 8);
    assert_eq!(plan.steps[0].working_dir, "//my_code");
    assert_eq!(
        plan.steps[0].command,
        words(&["cargo", "build", "--locked", "--target", "wasm32-unknown-unknown", "--release"])
    );
    assert_eq!(plan.steps[7], bounded("//my_code", &["mv", "Cargo.lock", "/result"]));
}

#[test]
fn a_missing_lock_file_is_not_asked_for() {
    let wanted = build_contracts("/c", true, false, "c.wasm");
    let unwanted = build_contracts("/c", false, false, "c.wasm");
    assert_eq!(wanted.steps, unwanted.steps);
    assert_eq!(wanted.steps.len(), 7);
}

#[test]
fn only_the_compilation_is_unbounded_and_captured() {
    for locked in [false, true] {
        let plan = build_contracts("/c", locked, true, "c.wasm");
        for (i, step) in plan.steps.iter().enumerate() {
            assert_eq!(step.timeout_secs.is_none(), i == 0);
            assert_eq!(step.capture_output, i == 0);
            if i > 0 {
                assert_eq!(step.timeout_secs, Some(15));
            }
        }
    }
}
