//! Locating a usable language runtime and the server tooling on the host.
//! The driver probes each candidate (running it with a version flag) and the
//! decisions — which candidates, in what order, and what the probe outcomes
//! mean — are made here.

use vstd::prelude::*;

use crate::errors::StoreError;

verus! {

/// A way to launch the server: a direct command, or the runtime invoked
/// with a module flag.
#[derive(Debug, Clone, PartialEq)]
pub enum ServerTool {
    Direct { command: String },
    Module { runtime: String, module: String },
}

/// The ranked runtime candidates: version-qualified binary names first,
/// then well-known absolute install paths, then per-user install paths
/// under the home directory (when one is known).
pub open spec fn spec_runtime_candidates(home: Option<Seq<char>>) -> Seq<Seq<char>> {
    let names = seq![
        "python3.12"@,
        "python3.11"@,
        "python3.10"@,
        "python3.9"@,
        "python3.8"@,
        "python3"@,
        "python"@,
        "/opt/homebrew/bin/python3.12"@,
        "/opt/homebrew/bin/python3.11"@,
        "/opt/homebrew/bin/python3.10"@,
        "/opt/homebrew/bin/python3"@,
        "/opt/homebrew/opt/python@3.12/bin/python3"@,
        "/opt/homebrew/opt/python@3.11/bin/python3"@,
        "/opt/homebrew/opt/python@3.10/bin/python3"@,
        "/usr/local/bin/python3.12"@,
        "/usr/local/bin/python3.11"@,
        "/usr/local/bin/python3.10"@,
        "/usr/local/bin/python3"@,
        "/usr/bin/python3"@,
    ];
    match home {
        Option::Some(h) if h.len() > 0 => names + seq![
            h + "/Library/Python/3.12/bin/python3"@,
            h + "/Library/Python/3.11/bin/python3"@,
            h + "/Library/Python/3.10/bin/python3"@,
            h + "/Library/Python/3.9/bin/python3"@,
            h + "/Library/Python/3.8/bin/python3"@,
        ],
        _ => names,
    }
}

/// Builds the ranked runtime candidate list the driver probes in order.
pub fn runtime_candidates(home: &Option<String>) -> (r: Vec<String>)
    ensures
        r@.map_values(|s: String| s@) == spec_runtime_candidates(
            match home {
                Option::Some(h) => Option::Some(h@),
                Option::None => Option::None,
            },
        ),
{
    let mut r: Vec<String> = Vec::new();
    r.push("python3.12".to_owned());
    r.push("python3.11".to_owned());
    r.push("python3.10".to_owned());
    r.push("python3.9".to_owned());
    r.push("python3.8".to_owned());
    r.push("python3".to_owned());
    r.push("python".to_owned());
    r.push("/opt/homebrew/bin/python3.12".to_owned());
    r.push("/opt/homebrew/bin/python3.11".to_owned());
    r.push("/opt/homebrew/bin/python3.10".to_owned());
    r.push("/opt/homebrew/bin/python3".to_owned());
    r.push("/opt/homebrew/opt/python@3.12/bin/python3".to_owned());
    r.push("/opt/homebrew/opt/python@3.11/bin/python3".to_owned());
    r.push("/opt/homebrew/opt/python@3.10/bin/python3".to_owned());
    r.push("/usr/local/bin/python3.12".to_owned());
    r.push("/usr/local/bin/python3.11".to_owned());
    r.push("/usr/local/bin/python3.10".to_owned());
    r.push("/usr/local/bin/python3".to_owned());
    r.push("/usr/bin/python3".to_owned());
    match home {
        Option::Some(h) => {
            if h.unicode_len() > 0 {
                r.push(h.clone().concat("/Library/Python/3.12/bin/python3"));
                r.push(h.clone().concat("/Library/Python/3.11/bin/python3"));
                r.push(h.clone().concat("/Library/Python/3.10/bin/python3"));
                r.push(h.clone().concat("/Library/Python/3.9/bin/python3"));
                r.push(h.clone().concat("/Library/Python/3.8/bin/python3"));
                proof {
                    assert(r@.map_values(|s: String| s@) =~= spec_runtime_candidates(
                        Option::Some(h@),
                    ));
                }
            } else {
                proof {
                    assert(r@.map_values(|s: String| s@) =~= spec_runtime_candidates(
                        Option::Some(h@),
                    ));
                }
            }
        },
        Option::None => {
            proof {
                assert(r@.map_values(|s: String| s@) =~= spec_runtime_candidates(
                    Option::<Seq<char>>::None,
                ));
            }
        },
    }
    r
}

/// The direct server commands tried before falling back to a module
/// invocation.
pub open spec fn spec_tool_candidates() -> Seq<Seq<char>> {
    seq!["chroma"@, "chromadb"@]
}

/// Builds the direct server-command candidates, in rank order.
pub fn tool_candidates() -> (r: Vec<String>)
    ensures
        r@.map_values(|s: String| s@) == spec_tool_candidates(),
{
    let mut r: Vec<String> = Vec::new();
    r.push("chroma".to_owned());
    r.push("chromadb".to_owned());
    proof {
        assert(r@.map_values(|s: String| s@) =~= spec_tool_candidates());
    }
    r
}

/// The position of the first successful probe, if any succeeded.
pub open spec fn spec_first_true(ok: Seq<bool>) -> Option<int>
    decreases ok.len(),
{
    if ok.len() == 0 {
        Option::None
    } else if ok.first() {
        Option::Some(0)
    } else {
        match spec_first_true(ok.drop_first()) {
            Option::Some(i) => Option::Some(i + 1),
            Option::None => Option::None,
        }
    }
}

proof fn lemma_first_true_at(ok: Seq<bool>, i: int)
    requires
        0 <= i < ok.len(),
        ok[i],
        forall|k: int| 0 <= k < i ==> !ok[k],
    ensures
        spec_first_true(ok) == Option::Some(i),
    decreases i,
{
    if i == 0 {
    } else {
        assert(!ok.first());
        assert(ok.drop_first()[i - 1]);
        assert(forall|k: int| 0 <= k < i - 1 ==> !(#[trigger] ok.drop_first()[k]));
        lemma_first_true_at(ok.drop_first(), i - 1);
    }
}

proof fn lemma_first_true_none(ok: Seq<bool>)
    requires
        forall|k: int| 0 <= k < ok.len() ==> !ok[k],
    ensures
        spec_first_true(ok) is None,
    decreases ok.len(),
{
    if ok.len() > 0 {
        assert(forall|k: int| 0 <= k < ok.len() - 1 ==> !(#[trigger] ok.drop_first()[k]));
        lemma_first_true_none(ok.drop_first());
    }
}

/// The index of the first successful probe.
pub fn first_success(ok: &Vec<bool>) -> (r: Option<usize>)
    ensures
        match r {
            Option::Some(i) => i < ok@.len() && ok@[i as int] && spec_first_true(ok@)
                == Option::Some(i as int),
            Option::None => spec_first_true(ok@) is None,
        },
{
    let n = ok.len();
    let mut i: usize = 0;
    while i < n
        invariant
            i <= n,
            n == ok@.len(),
            forall|k: int| 0 <= k < i ==> !ok@[k],
        decreases n - i,
    {
        if ok[i] {
            proof {
                lemma_first_true_at(ok@, i as int);
            }
            return Option::Some(i);
        }
        i += 1;
    }
    proof {
        lemma_first_true_none(ok@);
    }
    Option::None
}

/// Picks the first runtime candidate whose version probe succeeded; when
/// none did, the error carries install instructions.
pub fn select_runtime(candidates: &Vec<String>, ok: &Vec<bool>) -> (r: Result<String, StoreError>)
    requires
        candidates@.len() == ok@.len(),
    ensures
        match spec_first_true(ok@) {
            Option::Some(i) => r is Ok && r->Ok_0@ == candidates@[i]@,
            Option::None => r is Err && r->Err_0 is RuntimeNotFound,
        },
{
    match first_success(ok) {
        Option::Some(i) => Result::Ok(candidates[i].clone()),
        Option::None => Result::Err(
            StoreError::RuntimeNotFound(
                "no runtime answered a version probe; install one (for example: brew install python3) and restart the application".to_owned(),
            ),
        ),
    }
}

/// Interprets the probe that imports the server package under the chosen
/// runtime: a failed probe means the tooling is not installed, and the
/// error names the runtime the probe ran under.
pub fn interpret_install_probe(success: bool, runtime: &str, probe_output: String) -> (r: Result<
    (),
    StoreError,
>)
    ensures
        success <==> r is Ok,
        !success ==> (r->Err_0 matches StoreError::ServerToolingNotFound(m) && m@
            == "the server package is not importable under the runtime at "@ + runtime@
            + "; install it (pip3 install chromadb) and restart the application; probe output: "@
            + probe_output@),
{
    if success {
        Result::Ok(())
    } else {
        Result::Err(
            StoreError::ServerToolingNotFound(
                String::from_str(
                    "the server package is not importable under the runtime at ",
                ).concat(runtime).concat(
                    "; install it (pip3 install chromadb) and restart the application; probe output: ",
                ).concat(probe_output.as_str()),
            ),
        )
    }
}

/// Picks how the server will be launched: the first direct command whose
/// version probe succeeded; else the runtime with the legacy CLI module when
/// that module both imports and answers a help probe; else the runtime with
/// the plain module when that module answers a help probe and supports the
/// run subcommand; else the tooling is missing.
pub fn select_server_tool(
    direct_commands: &Vec<String>,
    direct_ok: &Vec<bool>,
    runtime: String,
    cli_import_ok: bool,
    cli_help_ok: bool,
    module_help_ok: bool,
    module_run_ok: bool,
) -> (r: Result<ServerTool, StoreError>)
    requires
        direct_commands@.len() == direct_ok@.len(),
    ensures
        match spec_first_true(direct_ok@) {
            Option::Some(i) => r is Ok && (r->Ok_0 matches ServerTool::Direct { command }
                && command@ == direct_commands@[i]@),
            Option::None => {
                if cli_import_ok && cli_help_ok {
                    r is Ok && (r->Ok_0 matches ServerTool::Module { runtime: rt, module }
                        && rt@ == runtime@ && module@ == "chromadb.cli"@)
                } else if module_help_ok && module_run_ok {
                    r is Ok && (r->Ok_0 matches ServerTool::Module { runtime: rt, module }
                        && rt@ == runtime@ && module@ == "chromadb"@)
                } else {
                    r is Err && r->Err_0 is ServerToolingNotFound
                }
            },
        },
{
    match first_success(direct_ok) {
        Option::Some(i) => Result::Ok(ServerTool::Direct { command: direct_commands[i].clone() }),
        Option::None => {
            if cli_import_ok && cli_help_ok {
                Result::Ok(ServerTool::Module { runtime, module: "chromadb.cli".to_owned() })
            } else if module_help_ok && module_run_ok {
                Result::Ok(ServerTool::Module { runtime, module: "chromadb".to_owned() })
            } else {
                Result::Err(
                    StoreError::ServerToolingNotFound(
                        "no server command was found and the server package cannot be run as a module; install it (pip3 install chromadb) and restart the application".to_owned(),
                    ),
                )
            }
        },
    }
}

} // verus!
