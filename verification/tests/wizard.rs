use wapm_init::manifest::{Abi, Manifest, Module, Package};
use wapm_init::prompt::Validator;
use wapm_init::session::collect_modules;
use wapm_init::{ask, ask_until_valid, init, seed_manifest, InitError, Script};

fn script(lines: &[&str]) -> Script {
    Script::new(lines.iter().map(|s| s.to_string()).collect())
}

#[test]
fn ask_substitutes_the_default_for_an_empty_line() {
    let mut s = script(&[""]);
    let r = ask(&mut s, &Some("shown".to_string())).unwrap();
    assert_eq!(r, Some("shown".to_string()));
}

#[test]
fn ask_returns_none_without_a_default() {
    let mut s = script(&[""]);
    let r = ask(&mut s, &None).unwrap();
    assert_eq!(r, None);
}

#[test]
fn ask_prefers_a_typed_answer_over_the_default() {
    let mut s = script(&["typed"]);
    let r = ask(&mut s, &Some("shown".to_string())).unwrap();
    assert_eq!(r, Some("typed".to_string()));
}

#[test]
fn ask_fails_when_the_answers_run_out() {
    let mut s = script(&[]);
    let e = ask(&mut s, &None).unwrap_err();
    assert!(matches!(e, InitError::AnswersExhausted));
}

#[test]
fn ask_until_valid_retries_until_an_answer_passes() {
    let mut s = script(&["b@d!", "", "good-name"]);
    let r = ask_until_valid(&mut s, &None, &Validator::PackageName).unwrap();
    assert_eq!(r, "good-name");
}

#[test]
fn ask_until_valid_fails_only_on_exhaustion() {
    let mut s = script(&["b@d!", "also b@d"]);
    let e = ask_until_valid(&mut s, &None, &Validator::PackageName).unwrap_err();
    assert!(matches!(e, InitError::AnswersExhausted));
}

#[test]
fn sentinel_as_first_source_collects_nothing() {
    let mut s = script(&["none"]);
    let (modules, commands) = collect_modules(&mut s, true).unwrap();
    assert!(modules.is_empty());
    assert!(commands.is_empty());
}

#[test]
fn commands_come_only_from_modules_with_an_environment() {
    // three modules: Wasi with a command, no environment, Emscripten with a
    // command list of two names
    let mut s = script(&[
        "m1.wasm", "", "1", "run1", // Wasi, command "run1"
        "m2.wasm", "", "0", // no environment, no command prompt
        "m3.wasm", "", "2", "c3 d3", // Emscripten, two command names
        "none",
    ]);
    let (modules, commands) = collect_modules(&mut s, true).unwrap();
    assert_eq!(modules.len(), 3);
    assert_eq!(modules[0].name, "m1");
    assert!(matches!(modules[0].abi, Abi::Wasi));
    assert_eq!(
        modules[0].interfaces,
        Some(vec![("wasi".to_string(), "0.0.0-unstable".to_string())])
    );
    assert_eq!(modules[1].name, "m2");
    assert!(matches!(modules[1].abi, Abi::NoAbi));
    assert_eq!(modules[1].interfaces, None);
    assert_eq!(modules[2].name, "m3");
    assert!(matches!(modules[2].abi, Abi::Emscripten));
    assert_eq!(modules[2].interfaces, None);

    assert_eq!(commands.len(), 2);
    assert_eq!(commands[0].name, "run1");
    assert_eq!(commands[0].module, "m1");
    assert_eq!(commands[1].name, "c3 d3");
    assert_eq!(commands[1].module, "m3");
    for c in &commands {
        assert!(modules.iter().any(|m| m.name == c.module));
    }
}

#[test]
fn all_defaults_and_sentinel_yield_the_bare_seed() {
    // name, version, description, repository, license, first source "none",
    // final confirmation by default
    let seed = seed_manifest("mypkg");
    let mut s = script(&["", "", "", "", "", "none", ""]);
    let out = init(seed, false, &mut s).unwrap();
    assert!(out.confirmed);
    let m = out.manifest;
    assert_eq!(m.package.name, "mypkg");
    assert_eq!(m.package.version, "1.0.0");
    assert_eq!(m.package.description, "");
    assert_eq!(m.package.repository, None);
    assert_eq!(m.package.license, Some("ISC".to_string()));
    assert!(m.module.is_none());
    assert!(m.command.is_none());
}

#[test]
fn one_wasi_module_with_a_command() {
    // default package fields, then source "app.wasm", derived name "app"
    // accepted by pressing enter, the Wasi environment, command text "app",
    // the sentinel, and the default confirmation
    let seed = seed_manifest("work/mypkg");
    let mut s = script(&["", "", "", "", "", "app.wasm", "", "1", "app", "none", ""]);
    let out = init(seed, false, &mut s).unwrap();
    assert!(out.confirmed);
    let m = out.manifest;
    assert_eq!(m.package.name, "mypkg");
    let modules = m.module.unwrap();
    assert_eq!(modules.len(), 1);
    assert_eq!(modules[0].name, "app");
    assert_eq!(modules[0].source, "app.wasm");
    assert!(matches!(modules[0].abi, Abi::Wasi));
    assert_eq!(
        modules[0].interfaces,
        Some(vec![("wasi".to_string(), "0.0.0-unstable".to_string())])
    );
    let commands = m.command.unwrap();
    assert_eq!(commands.len(), 1);
    assert_eq!(commands[0].name, "app");
    assert_eq!(commands[0].module, "app");
    assert_eq!(commands[0].main_args, None);
    assert_eq!(commands[0].package, None);
}

#[test]
fn force_mode_skips_every_prompt_and_confirms() {
    let loaded = Manifest {
        base_directory_path: "somewhere/foo".to_string(),
        package: Package {
            name: "foo".to_string(),
            version: "2.0.0".to_string(),
            description: "a loaded manifest".to_string(),
            repository: Some("https://example.invalid/foo".to_string()),
            license: None,
            license_file: None,
            homepage: None,
            readme: None,
        },
        module: Some(vec![Module {
            name: "entry".to_string(),
            source: "entry.wasm".to_string(),
            abi: Abi::NoAbi,
            interfaces: None,
        }]),
        command: None,
    };
    // an empty script: force-mode must not consume or need any answer
    let mut s = script(&[]);
    let out = init(loaded, true, &mut s).unwrap();
    assert!(out.confirmed);
    let m = out.manifest;
    assert_eq!(m.package.name, "foo");
    assert_eq!(m.package.version, "2.0.0");
    assert_eq!(m.package.description, "a loaded manifest");
    assert_eq!(m.package.repository, Some("https://example.invalid/foo".to_string()));
    assert_eq!(m.package.license, None);
    assert_eq!(m.module.as_ref().unwrap().len(), 1);
    assert!(m.command.is_none());
}

#[test]
fn declining_the_confirmation_aborts_without_error() {
    let seed = seed_manifest("mypkg");
    let mut s = script(&["", "", "", "", "", "none", "n"]);
    let out = init(seed, false, &mut s).unwrap();
    assert!(!out.confirmed);
}

#[test]
fn a_rejected_field_answer_is_asked_again() {
    // the version "oops" is rejected and the corrected "1.2.3" accepted
    let seed = seed_manifest("mypkg");
    let mut s = script(&["", "oops", "1.2.3", "", "", "", "none", "yes"]);
    let out = init(seed, false, &mut s).unwrap();
    assert!(out.confirmed);
    assert_eq!(out.manifest.package.version, "1.2.3");
}

#[test]
fn running_out_of_answers_is_the_only_session_error() {
    let seed = seed_manifest("mypkg");
    let mut s = script(&["", ""]);
    let e = init(seed, false, &mut s).unwrap_err();
    assert!(matches!(e, InitError::AnswersExhausted));
}

#[test]
fn manifest_already_exists_names_the_directory() {
    let e = InitError::ManifestAlreadyExists { dir: "pkgdir".to_string() };
    assert!(matches!(e, InitError::ManifestAlreadyExists { dir } if dir == "pkgdir"));
}
