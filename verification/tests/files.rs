use wapm_init::manifest::Abi;
use wapm_init::{construct_template_manifest_from_data, init_gitignore, seed_manifest};

#[test]
fn gitignore_entry_is_appended_once() {
    assert_eq!(init_gitignore(""), "\nwapm_packages");
    assert_eq!(init_gitignore("target\n"), "target\n\nwapm_packages");
}

#[test]
fn gitignore_update_is_idempotent() {
    for start in ["", "target\n", "a\nb\nc", "wapm_packages", "x/wapm_packages/y\n"] {
        let once = init_gitignore(start);
        let twice = init_gitignore(&once);
        assert_eq!(once, twice);
    }
}

#[test]
fn gitignore_containing_line_counts_as_covered() {
    let covered = "node_modules\nwapm_packages\n";
    assert_eq!(init_gitignore(covered), covered);
    // the known limitation: a coincidental substring also counts
    let coincidental = "other/wapm_packages_backup\n";
    assert_eq!(init_gitignore(coincidental), coincidental);
}

#[test]
fn template_renders_the_package_name() {
    assert_eq!(
        construct_template_manifest_from_data(None, "pkg".to_string()),
        "[package]\nname = \"pkg\"\nversion = \"0.1.0\"\ndescription = \"\"\n"
    );
    assert_eq!(
        construct_template_manifest_from_data(Some("user".to_string()), "pkg".to_string()),
        "[package]\nname = \"user/pkg\"\nversion = \"0.1.0\"\ndescription = \"\"\n"
    );
}

#[test]
fn seed_takes_the_final_path_component_and_conventional_defaults() {
    let m = seed_manifest("some/dir/mypkg");
    assert_eq!(m.base_directory_path, "some/dir/mypkg");
    assert_eq!(m.package.name, "mypkg");
    assert_eq!(m.package.version, "1.0.0");
    assert_eq!(m.package.description, "");
    assert_eq!(m.package.license, Some("ISC".to_string()));
    assert_eq!(m.package.repository, None);
    let modules = m.module.unwrap();
    assert_eq!(modules.len(), 1);
    assert_eq!(modules[0].name, "entry");
    assert_eq!(modules[0].source, "entry.wasm");
    assert!(matches!(modules[0].abi, Abi::NoAbi));
    assert_eq!(modules[0].interfaces, None);
    assert!(m.command.is_none());
}
