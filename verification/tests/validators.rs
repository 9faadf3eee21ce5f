use wapm_init::validate::{
    derive_module_name, validate_license, validate_name, validate_version,
};
use wapm_init::{validate_commands, validate_wasm_source};

#[test]
fn wasm_source_accepts_sentinel_and_wasm_paths() {
    assert_eq!(validate_wasm_source("none").unwrap(), "none");
    assert_eq!(validate_wasm_source("entry.wasm").unwrap(), "entry.wasm");
    assert_eq!(validate_wasm_source("a/b/c.wasm").unwrap(), "a/b/c.wasm");
    assert_eq!(validate_wasm_source(".wasm").unwrap(), ".wasm");
}

#[test]
fn wasm_source_rejects_everything_else() {
    for bad in [
        "", "none2", "None", "entry.wasm2", "a.txt", "wasm", ".wasm.", "entry.WASM", "entrywasm",
        "wasm.entry", "x", " none",
    ] {
        let e = validate_wasm_source(bad).unwrap_err();
        assert_eq!(e, "The module source path must have a .wasm extension");
    }
}

#[test]
fn name_accepts_identifiers_and_lists() {
    assert_eq!(validate_name("mypkg").unwrap(), "mypkg");
    assert_eq!(validate_name("My-Pkg_2").unwrap(), "My-Pkg_2");
    assert_eq!(validate_name("foo bar").unwrap(), "foo bar");
}

#[test]
fn name_rejects_empty_and_odd_characters() {
    assert!(validate_name("").is_err());
    assert!(validate_name("a+b").is_err());
    assert!(validate_name("caf\u{e9}").is_err());
    assert!(validate_name("semi;colon").is_err());
}

#[test]
fn license_follows_the_name_rule() {
    assert_eq!(validate_license("ISC").unwrap(), "ISC");
    assert!(validate_license("").is_err());
    assert!(validate_license("MIT/Apache?").is_err());
}

#[test]
fn commands_accept_empty_and_identifier_lists() {
    assert_eq!(validate_commands("").unwrap(), "");
    assert_eq!(validate_commands("run").unwrap(), "run");
    assert_eq!(validate_commands("run serve build").unwrap(), "run serve build");
    assert!(validate_commands("run!").is_err());
}

#[test]
fn version_accepts_semver_and_normalizes() {
    assert_eq!(validate_version("1.0.0").unwrap(), "1.0.0");
    assert_eq!(validate_version("1.2.3-alpha.1+build5").unwrap(), "1.2.3-alpha.1+build5");
    assert_eq!(validate_version("0.0.0-unstable").unwrap(), "0.0.0-unstable");
}

#[test]
fn version_rejects_non_semver() {
    assert!(validate_version("").is_err());
    assert!(validate_version("1.0").is_err());
    assert!(validate_version("01.0.0").is_err());
    assert!(validate_version("1.0.0.0").is_err());
    assert!(validate_version("banana").is_err());
}

#[test]
fn version_round_trips_through_the_formatter() {
    for v in ["1.0.0", "2.10.3", "1.2.3-alpha.1", "4.5.6+meta", "1.2.3-rc.1+build.7"] {
        let once = validate_version(v).unwrap();
        let twice = validate_version(&once).unwrap();
        assert_eq!(once, twice);
        assert_eq!(once, v);
    }
}

#[test]
fn module_name_derives_from_the_source_path() {
    assert_eq!(derive_module_name("app.wasm"), "app");
    assert_eq!(derive_module_name("path/to/mod2.wasm"), "mod2");
    assert_eq!(derive_module_name("a.b.wasm"), "a.b");
    assert_eq!(derive_module_name(".wasm"), ".wasm");
    assert_eq!(derive_module_name("dir/.wasm"), ".wasm");
}
