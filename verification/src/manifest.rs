//! The manifest draft the wizard assembles: package metadata, module entries
//! and the commands derived from them, with a mathematical view of each type.
use vstd::prelude::*;

use crate::text::after_last;

verus! {

/// The execution environment a module's artifact expects at run time.
#[derive(Clone, Copy, Debug, PartialEq, Eq, Structural)]
pub enum Abi {
    /// No particular environment.
    NoAbi,
    Wasi,
    Emscripten,
}

impl Default for Abi {
    /// A fresh module expects no particular environment.
    fn default() -> (r: Abi)
        ensures
            r == Abi::NoAbi,
    {
        Abi::NoAbi
    }
}

/// The package metadata of a manifest.
#[derive(Debug)]
pub struct Package {
    pub name: String,
    pub version: String,
    pub description: String,
    pub repository: Option<String>,
    pub license: Option<String>,
    pub license_file: Option<String>,
    pub homepage: Option<String>,
    pub readme: Option<String>,
}

/// One deployable module: a name, a source artifact, the environment it
/// expects, and the interface versions that environment requires.
#[derive(Debug)]
pub struct Module {
    pub name: String,
    pub source: String,
    pub abi: Abi,
    pub interfaces: Option<Vec<(String, String)>>,
}

/// A named entry point backed by one module collected earlier in the session.
#[derive(Debug)]
pub struct Command {
    pub name: String,
    pub module: String,
    pub main_args: Option<String>,
    pub package: Option<String>,
}

/// The in-progress manifest document.
#[derive(Debug)]
pub struct Manifest {
    pub base_directory_path: String,
    pub package: Package,
    pub module: Option<Vec<Module>>,
    pub command: Option<Vec<Command>>,
}

#[verifier::ext_equal]
pub ghost struct PackageView {
    pub name: Seq<char>,
    pub version: Seq<char>,
    pub description: Seq<char>,
    pub repository: Option<Seq<char>>,
    pub license: Option<Seq<char>>,
    pub license_file: Option<Seq<char>>,
    pub homepage: Option<Seq<char>>,
    pub readme: Option<Seq<char>>,
}

#[verifier::ext_equal]
pub ghost struct ModuleView {
    pub name: Seq<char>,
    pub source: Seq<char>,
    pub abi: Abi,
    pub interfaces: Option<Seq<(Seq<char>, Seq<char>)>>,
}

#[verifier::ext_equal]
pub ghost struct CommandView {
    pub name: Seq<char>,
    pub module: Seq<char>,
    pub main_args: Option<Seq<char>>,
    pub package: Option<Seq<char>>,
}

#[verifier::ext_equal]
pub ghost struct ManifestView {
    pub base_directory_path: Seq<char>,
    pub package: PackageView,
    pub module: Option<Seq<ModuleView>>,
    pub command: Option<Seq<CommandView>>,
}

impl View for Package {
    type V = PackageView;

    open spec fn view(&self) -> PackageView {
        PackageView {
            name: self.name@,
            version: self.version@,
            description: self.description@,
            repository: self.repository.deep_view(),
            license: self.license.deep_view(),
            license_file: self.license_file.deep_view(),
            homepage: self.homepage.deep_view(),
            readme: self.readme.deep_view(),
        }
    }
}

impl View for Module {
    type V = ModuleView;

    open spec fn view(&self) -> ModuleView {
        ModuleView {
            name: self.name@,
            source: self.source@,
            abi: self.abi,
            interfaces: match self.interfaces {
                Some(v) => Some(Seq::new(v@.len(), |i: int| (v@[i].0@, v@[i].1@))),
                None => None,
            },
        }
    }
}

impl View for Command {
    type V = CommandView;

    open spec fn view(&self) -> CommandView {
        CommandView {
            name: self.name@,
            module: self.module@,
            main_args: self.main_args.deep_view(),
            package: self.package.deep_view(),
        }
    }
}

impl View for Manifest {
    type V = ManifestView;

    open spec fn view(&self) -> ManifestView {
        ManifestView {
            base_directory_path: self.base_directory_path@,
            package: self.package@,
            module: match self.module {
                Some(v) => Some(v@.map_values(|m: Module| m@)),
                None => None,
            },
            command: match self.command {
                Some(v) => Some(v@.map_values(|c: Command| c@)),
                None => None,
            },
        }
    }
}

/// The starting draft synthesized for a directory that has no manifest yet:
/// the directory's final path component as the name, version "1.0.0", license
/// "ISC", and one conventional module entry.
pub open spec fn seed_manifest_view(dir: Seq<char>) -> ManifestView {
    ManifestView {
        base_directory_path: dir,
        package: PackageView {
            name: after_last(dir, '/'),
            version: "1.0.0"@,
            description: Seq::empty(),
            repository: None,
            license: Some("ISC"@),
            license_file: None,
            homepage: None,
            readme: None,
        },
        module: Some(
            seq![
                ModuleView {
                    name: "entry"@,
                    source: "entry.wasm"@,
                    abi: Abi::NoAbi,
                    interfaces: None,
                },
            ],
        ),
        command: None,
    }
}

/// Synthesizes the starting draft for a directory without a manifest.
pub fn seed_manifest(dir: &str) -> (m: Manifest)
    ensures
        m@ == seed_manifest_view(dir@),
{
    let name = crate::text::split_after_last(dir, '/');
    let mut modules: Vec<Module> = Vec::new();
    modules.push(
        Module {
            name: String::from_str("entry"),
            source: String::from_str("entry.wasm"),
            abi: Abi::default(),
            interfaces: None,
        },
    );
    let m = Manifest {
        base_directory_path: dir.to_owned(),
        package: Package {
            name,
            version: String::from_str("1.0.0"),
            description: String::new(),
            repository: None,
            license: Some(String::from_str("ISC")),
            license_file: None,
            homepage: None,
            readme: None,
        },
        module: Some(modules),
        command: None,
    };
    proof {
        assert(m@ =~~= seed_manifest_view(dir@));
    }
    m
}

/// The minimal manifest text for a package name: the name string (qualified
/// by the user name when one is given), version "0.1.0" and an empty
/// description.
pub open spec fn manifest_template(username: Option<Seq<char>>, package_name: Seq<char>) -> Seq<
    char,
> {
    let name_string = match username {
        Some(un) => un + "/"@ + package_name,
        None => package_name,
    };
    "[package]\nname = \""@ + name_string + "\"\nversion = \"0.1.0\"\ndescription = \"\"\n"@
}

/// Renders the minimal manifest template for a package, optionally qualified
/// by a user name.
pub fn construct_template_manifest_from_data(username: Option<String>, package_name: String) -> (r:
    String)
    ensures
        r@ == manifest_template(username.deep_view(), package_name@),
{
    let name_string: String = match username {
        Some(un) => {
            let mut s = un;
            s.append("/");
            s.concat(package_name.as_str())
        },
        None => package_name,
    };
    let mut r = String::from_str("[package]\nname = \"");
    r.append(name_string.as_str());
    r.append("\"\nversion = \"0.1.0\"\ndescription = \"\"\n");
    r
}

} // verus!
