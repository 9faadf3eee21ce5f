//! The interactive assembly: the package-field prompts, the zero-or-more
//! module collection loop with its conditional command prompt, and the final
//! confirmation. `collect_spec`, `assemble_spec` and `init_spec` state the
//! whole session as a function of the draft and the answer sequence.
use vstd::prelude::*;

use crate::manifest::{
    Abi, Command, CommandView, Manifest, ManifestView, Module, ModuleView, Package, PackageView,
};
use crate::prompt::{
    accepted_value, accepts, ask, asked, ask_until_valid, lemma_run_prompt_accepted,
    lemma_run_prompt_rest, run_prompt, Validator,
};
use crate::script::Script;
use crate::text::str_eq;
use crate::validate::{derive_module_name, derived_name, is_sentinel, valid_source};
use crate::InitError;

verus! {

/// The environment selected by a menu digit: 0 none, 1 Wasi, 2 Emscripten.
pub open spec fn abi_of_digit(d: Seq<char>) -> Abi {
    if d == "1"@ {
        Abi::Wasi
    } else if d == "2"@ {
        Abi::Emscripten
    } else {
        Abi::NoAbi
    }
}

fn abi_from_digit(d: &str) -> (r: Abi)
    ensures
        r == abi_of_digit(d@),
{
    if str_eq(d, "1") {
        Abi::Wasi
    } else if str_eq(d, "2") {
        Abi::Emscripten
    } else {
        Abi::NoAbi
    }
}

/// The interface requirement a fresh module starts with: selecting the Wasi
/// environment pins the "wasi" capability to its last unstable version.
pub open spec fn seed_interfaces(abi: Abi) -> Option<Seq<(Seq<char>, Seq<char>)>> {
    if abi == Abi::Wasi {
        Some(seq![("wasi"@, "0.0.0-unstable"@)])
    } else {
        None
    }
}

/// What the module-collection loop produces on a given answer sequence: the
/// collected modules, the commands derived from them, and the answers left;
/// `None` when the answers run out first. The first iteration presents the
/// conventional "entry.wasm" source default, later ones the sentinel.
pub open spec fn collect_spec(answers: Seq<Seq<char>>, first: bool) -> Option<
    (Seq<ModuleView>, Seq<CommandView>, Seq<Seq<char>>),
>
    decreases answers.len(),
    via collect_spec_decreases
{
    let dsource = Some(
        if first {
            "entry.wasm"@
        } else {
            "none"@
        },
    );
    match run_prompt(answers, dsource, Validator::SourcePath) {
        None => None,
        Some(p1) => {
            if is_sentinel(p1.0) {
                Some((Seq::empty(), Seq::empty(), p1.1))
            } else {
                let dname = Some(derived_name(p1.0));
                match run_prompt(p1.1, dname, Validator::PackageName) {
                    None => None,
                    Some(p2) => match run_prompt(p2.1, None, Validator::AbiChoice) {
                        None => None,
                        Some(p3) => {
                            let abi = abi_of_digit(p3.0);
                            let module = ModuleView {
                                name: p2.0,
                                source: p1.0,
                                abi,
                                interfaces: seed_interfaces(abi),
                            };
                            if abi == Abi::NoAbi {
                                match collect_spec(p3.1, false) {
                                    None => None,
                                    Some(pr) => Some((seq![module] + pr.0, pr.1, pr.2)),
                                }
                            } else {
                                match run_prompt(p3.1, dname, Validator::CommandList) {
                                    None => None,
                                    Some(p4) => {
                                        let new_cmds: Seq<CommandView> = if p4.0.len() > 0 {
                                            seq![
                                                CommandView {
                                                    name: p4.0,
                                                    module: p2.0,
                                                    main_args: None,
                                                    package: None,
                                                },
                                            ]
                                        } else {
                                            Seq::empty()
                                        };
                                        match collect_spec(p4.1, false) {
                                            None => None,
                                            Some(pr) => Some(
                                                (seq![module] + pr.0, new_cmds + pr.1, pr.2),
                                            ),
                                        }
                                    },
                                }
                            }
                        },
                    },
                }
            }
        },
    }
}

#[via_fn]
proof fn collect_spec_decreases(answers: Seq<Seq<char>>, first: bool) {
    let dsource = Some(
        if first {
            "entry.wasm"@
        } else {
            "none"@
        },
    );
    lemma_run_prompt_rest(answers, dsource, Validator::SourcePath);
    if let Some(p1) = run_prompt(answers, dsource, Validator::SourcePath) {
        let dname = Some(derived_name(p1.0));
        lemma_run_prompt_rest(p1.1, dname, Validator::PackageName);
        if let Some(p2) = run_prompt(p1.1, dname, Validator::PackageName) {
            lemma_run_prompt_rest(p2.1, None, Validator::AbiChoice);
            if let Some(p3) = run_prompt(p2.1, None, Validator::AbiChoice) {
                lemma_run_prompt_rest(p3.1, dname, Validator::CommandList);
            }
        }
    }
}

/// Runs the module-collection loop against the answer source: prompts for a
/// source until the sentinel ends the loop, and for each module a name, an
/// environment selection and, under a named environment, a command list.
pub fn collect_modules(script: &mut Script, first: bool) -> (r: Result<
    (Vec<Module>, Vec<Command>),
    InitError,
>)
    ensures
        r is Ok <==> collect_spec(old(script).remaining(), first) is Some,
        r matches Ok(mc) ==> (collect_spec(old(script).remaining(), first) matches Some(res)
            && mc.0@.map_values(|m: Module| m@) == res.0 && mc.1@.map_values(|c: Command| c@)
            == res.1 && final(script).remaining() == res.2),
        r matches Err(e) ==> e is AnswersExhausted,
    decreases script.remaining().len(),
{
    let ghost orig = script.remaining();
    let dsource = Some(
        if first {
            String::from_str("entry.wasm")
        } else {
            String::from_str("none")
        },
    );
    let source = match ask_until_valid(script, &dsource, &Validator::SourcePath) {
        Err(e) => {
            return Err(e);
        },
        Ok(s) => s,
    };
    if str_eq(source.as_str(), "none") {
        let modules: Vec<Module> = Vec::new();
        let commands: Vec<Command> = Vec::new();
        proof {
            assert(modules@.map_values(|m: Module| m@) =~= Seq::<ModuleView>::empty());
            assert(commands@.map_values(|c: Command| c@) =~= Seq::<CommandView>::empty());
        }
        return Ok((modules, commands));
    }
    let ghost rem1 = script.remaining();
    proof {
        lemma_run_prompt_rest(orig, dsource.deep_view(), Validator::SourcePath);
        lemma_run_prompt_accepted(orig, dsource.deep_view(), Validator::SourcePath);
        let eff = choose|eff: Seq<char>|
            accepts(Validator::SourcePath, eff) && source@ == accepted_value(
                Validator::SourcePath,
                eff,
            );
        assert(valid_source(source@));
    }
    let dname_text = derive_module_name(source.as_str());
    let dname = Some(dname_text);
    let name = match ask_until_valid(script, &dname, &Validator::PackageName) {
        Err(e) => {
            return Err(e);
        },
        Ok(s) => s,
    };
    let ghost rem2 = script.remaining();
    proof {
        lemma_run_prompt_rest(rem1, dname.deep_view(), Validator::PackageName);
    }
    let no_default: Option<String> = None;
    let abi_digit = match ask_until_valid(script, &no_default, &Validator::AbiChoice) {
        Err(e) => {
            return Err(e);
        },
        Ok(s) => s,
    };
    let ghost rem3 = script.remaining();
    proof {
        lemma_run_prompt_rest(rem2, no_default.deep_view(), Validator::AbiChoice);
    }
    let abi = abi_from_digit(abi_digit.as_str());
    let interfaces: Option<Vec<(String, String)>> = match abi {
        Abi::Wasi => {
            let mut v: Vec<(String, String)> = Vec::new();
            v.push((String::from_str("wasi"), String::from_str("0.0.0-unstable")));
            Some(v)
        },
        _ => None,
    };
    let module = Module { name: name.clone(), source, abi, interfaces };
    proof {
        assert(module@ =~~= ModuleView {
            name: name@,
            source: module.source@,
            abi,
            interfaces: seed_interfaces(abi),
        });
    }
    let mut new_command: Option<Command> = None;
    match abi {
        Abi::NoAbi => {},
        _ => {
            let commands_text = match ask_until_valid(script, &dname, &Validator::CommandList) {
                Err(e) => {
                    return Err(e);
                },
                Ok(s) => s,
            };
            proof {
                lemma_run_prompt_rest(rem3, dname.deep_view(), Validator::CommandList);
            }
            if !commands_text.as_str().is_empty() {
                new_command = Some(
                    Command {
                        name: commands_text,
                        module: name.clone(),
                        main_args: None,
                        package: None,
                    },
                );
            }
        },
    }
    let rec = match collect_modules(script, false) {
        Err(e) => {
            return Err(e);
        },
        Ok(mc) => mc,
    };
    let (mut modules, mut commands) = rec;
    let ghost rec_modules = modules@.map_values(|m: Module| m@);
    let ghost rec_commands = commands@.map_values(|c: Command| c@);
    modules.insert(0, module);
    match new_command {
        Some(c) => {
            commands.insert(0, c);
        },
        None => {},
    }
    proof {
        assert(modules@.map_values(|m: Module| m@) =~= seq![modules@[0]@] + rec_modules);
        assert(commands@.map_values(|c: Command| c@) =~= match new_command {
            Some(c) => seq![c@] + rec_commands,
            None => rec_commands,
        });
    }
    Ok((modules, commands))
}

/// What the package-field prompts and the module loop together produce: the
/// draft with name, version, description, repository and license replaced by
/// the validated answers, the collected modules and commands (absent, not
/// empty, when none were collected), and the answers left.
pub open spec fn assemble_spec(m: ManifestView, answers: Seq<Seq<char>>) -> Option<
    (ManifestView, Seq<Seq<char>>),
> {
    match run_prompt(answers, Some(m.package.name), Validator::PackageName) {
        None => None,
        Some(p1) => match run_prompt(p1.1, Some(m.package.version), Validator::VersionText) {
            None => None,
            Some(p2) => if p2.1.len() == 0 {
                None
            } else {
                let description = match asked(p2.1[0], Some(m.package.description)) {
                    Some(d) => d,
                    None => Seq::empty(),
                };
                let rest_d = p2.1.skip(1);
                if rest_d.len() == 0 {
                    None
                } else {
                    let repository = asked(rest_d[0], m.package.repository);
                    let rest_r = rest_d.skip(1);
                    match run_prompt(rest_r, m.package.license, Validator::License) {
                        None => None,
                        Some(p5) => match collect_spec(p5.1, true) {
                            None => None,
                            Some(mc) => Some(
                                (
                                    ManifestView {
                                        base_directory_path: m.base_directory_path,
                                        package: PackageView {
                                            name: p1.0,
                                            version: p2.0,
                                            description,
                                            repository,
                                            license: Some(p5.0),
                                            license_file: m.package.license_file,
                                            homepage: m.package.homepage,
                                            readme: m.package.readme,
                                        },
                                        module: if mc.0.len() == 0 {
                                            None
                                        } else {
                                            Some(mc.0)
                                        },
                                        command: if mc.1.len() == 0 {
                                            None
                                        } else {
                                            Some(mc.1)
                                        },
                                    },
                                    mc.2,
                                ),
                            ),
                        },
                    }
                }
            },
        },
    }
}

/// Walks the user through the package fields, then collects the modules and
/// the commands they expose.
pub fn assemble(manifest: Manifest, script: &mut Script) -> (r: Result<Manifest, InitError>)
    ensures
        r is Ok <==> assemble_spec(manifest@, old(script).remaining()) is Some,
        r matches Ok(m2) ==> (assemble_spec(manifest@, old(script).remaining()) matches Some(p)
            && m2@ == p.0 && final(script).remaining() == p.1),
        r matches Err(e) ==> e is AnswersExhausted,
{
    let Manifest { base_directory_path, package, module: _seed_modules, command: _seed_commands } =
        manifest;
    let Package { name, version, description, repository, license, license_file, homepage, readme }
        = package;
    let dn = Some(name);
    let new_name = match ask_until_valid(script, &dn, &Validator::PackageName) {
        Err(e) => {
            return Err(e);
        },
        Ok(s) => s,
    };
    let dv = Some(version);
    let new_version = match ask_until_valid(script, &dv, &Validator::VersionText) {
        Err(e) => {
            return Err(e);
        },
        Ok(s) => s,
    };
    let dd = Some(description);
    let new_description = match ask(script, &dd) {
        Err(e) => {
            return Err(e);
        },
        Ok(Some(d)) => d,
        Ok(None) => String::new(),
    };
    let new_repository = match ask(script, &repository) {
        Err(e) => {
            return Err(e);
        },
        Ok(v) => v,
    };
    let new_license = match ask_until_valid(script, &license, &Validator::License) {
        Err(e) => {
            return Err(e);
        },
        Ok(s) => s,
    };
    let mc = match collect_modules(script, true) {
        Err(e) => {
            return Err(e);
        },
        Ok(mc) => mc,
    };
    let (ms, cs) = mc;
    let module: Option<Vec<Module>> = if ms.len() == 0 {
        None
    } else {
        Some(ms)
    };
    let command: Option<Vec<Command>> = if cs.len() == 0 {
        None
    } else {
        Some(cs)
    };
    let m2 = Manifest {
        base_directory_path,
        package: Package {
            name: new_name,
            version: new_version,
            description: new_description,
            repository: new_repository,
            license: Some(new_license),
            license_file,
            homepage,
            readme,
        },
        module,
        command,
    };
    proof {
        let p = assemble_spec(manifest@, old(script).remaining())->0;
        assert(m2@ =~~= p.0);
    }
    Ok(m2)
}

/// The end of a session: the final draft and whether it is to be persisted.
#[derive(Debug)]
pub struct InitOutcome {
    pub manifest: Manifest,
    pub confirmed: bool,
}

/// What a whole session produces: under force-mode the draft verbatim,
/// confirmed without a question; otherwise the assembled draft and the
/// answer to the final yes/no confirmation (yes by default).
pub open spec fn init_spec(m: ManifestView, force_yes: bool, answers: Seq<Seq<char>>) -> Option<
    (ManifestView, bool, Seq<Seq<char>>),
> {
    if force_yes {
        Some((m, true, answers))
    } else {
        match assemble_spec(m, answers) {
            None => None,
            Some(p) => match run_prompt(p.1, None, Validator::YesNo) {
                None => None,
                Some(c) => Some((p.0, c.0 == "yes"@, c.1)),
            },
        }
    }
}

/// Runs one whole session over the answer source: edits the draft's fields,
/// collects modules and commands, and asks the final confirmation — or, under
/// force-mode, leaves the draft untouched and confirms it unasked. A draft is
/// never partially persisted: the caller persists exactly when `confirmed`.
pub fn init(manifest: Manifest, force_yes: bool, script: &mut Script) -> (r: Result<
    InitOutcome,
    InitError,
>)
    ensures
        r is Ok <==> init_spec(manifest@, force_yes, old(script).remaining()) is Some,
        r matches Ok(out) ==> (init_spec(manifest@, force_yes, old(script).remaining())
            matches Some(p) && out.manifest@ == p.0 && out.confirmed == p.1
            && final(script).remaining() == p.2),
        r matches Err(e) ==> e is AnswersExhausted,
{
    if force_yes {
        return Ok(InitOutcome { manifest, confirmed: true });
    }
    let m2 = match assemble(manifest, script) {
        Err(e) => {
            return Err(e);
        },
        Ok(m) => m,
    };
    let no_default: Option<String> = None;
    let answer = match ask_until_valid(script, &no_default, &Validator::YesNo) {
        Err(e) => {
            return Err(e);
        },
        Ok(a) => a,
    };
    let confirmed = str_eq(answer.as_str(), "yes");
    Ok(InitOutcome { manifest: m2, confirmed })
}

/// Entering the sentinel at the very first source prompt leaves the module
/// collection empty, and no command is ever derived.
pub proof fn lemma_sentinel_first_collects_nothing(answers: Seq<Seq<char>>)
    requires
        run_prompt(answers, Some("entry.wasm"@), Validator::SourcePath) matches Some(p)
            && is_sentinel(p.0),
    ensures
        collect_spec(answers, true) matches Some(res) && res.0 == Seq::<ModuleView>::empty()
            && res.1 == Seq::<CommandView>::empty(),
{
}

/// How many collected modules expect a named (non-"None") environment.
pub open spec fn modules_with_env(ms: Seq<ModuleView>) -> nat
    decreases ms.len(),
{
    if ms.len() == 0 {
        0
    } else {
        (if ms[0].abi == Abi::NoAbi {
            0nat
        } else {
            1nat
        }) + modules_with_env(ms.skip(1))
    }
}

/// Every command the collection loop derives is owned by some collected
/// module, and there are never more commands than modules with a named
/// environment: each such module contributes at most one command entry.
pub proof fn lemma_commands_owned(answers: Seq<Seq<char>>, first: bool)
    ensures
        collect_spec(answers, first) matches Some(res) ==> (res.1.len() <= modules_with_env(res.0)
            && forall|j: int|
            0 <= j < res.1.len() ==> exists|i: int|
                0 <= i < res.0.len() && res.0[i].name == #[trigger] res.1[j].module),
    decreases answers.len(),
{
    let dsource = Some(
        if first {
            "entry.wasm"@
        } else {
            "none"@
        },
    );
    lemma_run_prompt_rest(answers, dsource, Validator::SourcePath);
    if let Some(p1) = run_prompt(answers, dsource, Validator::SourcePath) {
        if !is_sentinel(p1.0) {
            let dname = Some(derived_name(p1.0));
            lemma_run_prompt_rest(p1.1, dname, Validator::PackageName);
            if let Some(p2) = run_prompt(p1.1, dname, Validator::PackageName) {
                lemma_run_prompt_rest(p2.1, None, Validator::AbiChoice);
                if let Some(p3) = run_prompt(p2.1, None, Validator::AbiChoice) {
                    let abi = abi_of_digit(p3.0);
                    let module = ModuleView {
                        name: p2.0,
                        source: p1.0,
                        abi,
                        interfaces: seed_interfaces(abi),
                    };
                    if abi == Abi::NoAbi {
                        lemma_commands_owned(p3.1, false);
                        if let Some(pr) = collect_spec(p3.1, false) {
                            let res0 = seq![module] + pr.0;
                            let res1 = pr.1;
                            assert(res0.skip(1) =~= pr.0);
                            assert forall|j: int| 0 <= j < res1.len() implies exists|i: int|
                                0 <= i < res0.len() && res0[i].name == #[trigger] res1[j].module by {
                                let i0 = choose|i: int|
                                    0 <= i < pr.0.len() && pr.0[i].name == pr.1[j].module;
                                assert(res0[i0 + 1].name == res1[j].module);
                            }
                        }
                    } else {
                        lemma_run_prompt_rest(p3.1, dname, Validator::CommandList);
                        if let Some(p4) = run_prompt(p3.1, dname, Validator::CommandList) {
                            lemma_commands_owned(p4.1, false);
                            if let Some(pr) = collect_spec(p4.1, false) {
                                let new_cmds: Seq<CommandView> = if p4.0.len() > 0 {
                                    seq![
                                        CommandView {
                                            name: p4.0,
                                            module: p2.0,
                                            main_args: None,
                                            package: None,
                                        },
                                    ]
                                } else {
                                    Seq::empty()
                                };
                                let res0 = seq![module] + pr.0;
                                let res1 = new_cmds + pr.1;
                                assert(res0.skip(1) =~= pr.0);
                                assert forall|j: int| 0 <= j < res1.len() implies exists|i: int|
                                    0 <= i < res0.len() && res0[i].name == #[trigger] res1[j].module by {
                                    if j < new_cmds.len() {
                                        assert(res0[0].name == res1[j].module);
                                    } else {
                                        let j2 = j - new_cmds.len();
                                        let i0 = choose|i: int|
                                            0 <= i < pr.0.len() && pr.0[i].name == pr.1[j2].module;
                                        assert(res0[i0 + 1].name == res1[j].module);
                                    }
                                }
                            }
                        }
                    }
                }
            }
        }
    }
}

} // verus!
