//! The command lines the runner issues to external tools.
//!
//! Every external invocation — probing for the package-manager tool,
//! installing it, creating the virtual environment, querying and installing
//! packages, and delegating a test run — is fully determined here. The
//! caller only spawns the described process and reports back what happened.

use vstd::prelude::*;
use vstd::string::StrSliceExecFns;
use vstd::string::StringSliceAdditionalSpecFns;
use crate::bytes::lemma_deep_view_of_byte_vecs;
use crate::packages::requirement_names;
use crate::packages::spec_requirements;
use crate::spec_venv_name;
use crate::venv_name;

verus! {

/// One external invocation, fully described: the program to run, its
/// arguments, and whether it must run scoped to the managed environment
/// (with the `VIRTUAL_ENV` variable set to the reserved directory name).
pub struct CommandLine {
    pub program: Vec<u8>,
    pub args: Vec<Vec<u8>>,
    pub scoped_to_venv: bool,
}

/// The mathematical picture of a command line.
#[verifier::ext_equal]
pub struct CommandModel {
    pub program: Seq<u8>,
    pub args: Seq<Seq<u8>>,
    pub scoped_to_venv: bool,
}

impl View for CommandLine {
    type V = CommandModel;

    open spec fn view(&self) -> CommandModel {
        CommandModel {
            program: self.program@,
            args: self.args.deep_view(),
            scoped_to_venv: self.scoped_to_venv,
        }
    }
}

/// The probe: a lightweight, side-effect-free version query of the tool.
pub open spec fn spec_probe_command() -> CommandModel {
    CommandModel {
        program: "uv".spec_bytes(),
        args: seq!["--version".spec_bytes()],
        scoped_to_venv: false,
    }
}

/// The tool's documented installation mechanism: fetch the official
/// installer script and run it through the shell.
pub open spec fn spec_installer_command() -> CommandModel {
    CommandModel {
        program: "sh".spec_bytes(),
        args: seq![
            "-c".spec_bytes(),
            "curl -LsSf https://astral.sh/uv/install.sh | sh".spec_bytes(),
        ],
        scoped_to_venv: false,
    }
}

/// The environment-creation subcommand, targeting the reserved directory.
pub open spec fn spec_create_venv_command() -> CommandModel {
    CommandModel {
        program: "uv".spec_bytes(),
        args: seq!["venv".spec_bytes(), spec_venv_name()],
        scoped_to_venv: false,
    }
}

/// The installed-package query, in freeze format, scoped to the managed
/// environment.
pub open spec fn spec_query_listing_command() -> CommandModel {
    CommandModel {
        program: "uv".spec_bytes(),
        args: seq!["pip".spec_bytes(), "list".spec_bytes(), "--format=freeze".spec_bytes()],
        scoped_to_venv: true,
    }
}

/// The batched install of the whole requirement set. The full set is always
/// requested, never a missing subset: reinstalling an already satisfied
/// package is idempotent and cheaper than incremental diffing.
pub open spec fn spec_install_requirements_command() -> CommandModel {
    CommandModel {
        program: "uv".spec_bytes(),
        args: seq!["pip".spec_bytes(), "install".spec_bytes()] + spec_requirements(),
        scoped_to_venv: true,
    }
}

/// The delegated test run: the tool's `run` facility invoking the test
/// framework inside the managed environment, optionally narrowed to one
/// path.
pub open spec fn spec_pytest_command(test_path: Option<Seq<u8>>) -> CommandModel {
    CommandModel {
        program: "uv".spec_bytes(),
        args: match test_path {
            Some(p) => seq!["run".spec_bytes(), "pytest".spec_bytes(), p],
            None => seq!["run".spec_bytes(), "pytest".spec_bytes()],
        },
        scoped_to_venv: true,
    }
}

pub fn probe_command() -> (c: CommandLine)
    ensures
        c@ == spec_probe_command(),
{
    let mut args: Vec<Vec<u8>> = Vec::new();
    args.push("--version".as_bytes_vec());
    let c = CommandLine { program: "uv".as_bytes_vec(), args, scoped_to_venv: false };
    proof {
        assert(c@ =~~= spec_probe_command());
    }
    c
}

pub fn installer_command() -> (c: CommandLine)
    ensures
        c@ == spec_installer_command(),
{
    let mut args: Vec<Vec<u8>> = Vec::new();
    args.push("-c".as_bytes_vec());
    args.push("curl -LsSf https://astral.sh/uv/install.sh | sh".as_bytes_vec());
    let c = CommandLine { program: "sh".as_bytes_vec(), args, scoped_to_venv: false };
    proof {
        assert(c@ =~~= spec_installer_command());
    }
    c
}

pub fn create_venv_command() -> (c: CommandLine)
    ensures
        c@ == spec_create_venv_command(),
{
    let mut args: Vec<Vec<u8>> = Vec::new();
    args.push("venv".as_bytes_vec());
    args.push(venv_name());
    let c = CommandLine { program: "uv".as_bytes_vec(), args, scoped_to_venv: false };
    proof {
        assert(c@ =~~= spec_create_venv_command());
    }
    c
}

pub fn query_listing_command() -> (c: CommandLine)
    ensures
        c@ == spec_query_listing_command(),
{
    let mut args: Vec<Vec<u8>> = Vec::new();
    args.push("pip".as_bytes_vec());
    args.push("list".as_bytes_vec());
    args.push("--format=freeze".as_bytes_vec());
    let c = CommandLine { program: "uv".as_bytes_vec(), args, scoped_to_venv: true };
    proof {
        assert(c@ =~~= spec_query_listing_command());
    }
    c
}

pub fn install_requirements_command() -> (c: CommandLine)
    ensures
        c@ == spec_install_requirements_command(),
{
    let mut args: Vec<Vec<u8>> = Vec::new();
    args.push("pip".as_bytes_vec());
    args.push("install".as_bytes_vec());
    let mut names = requirement_names();
    let ghost goal = spec_install_requirements_command().args;
    let mut j: usize = 0;
    while names.len() > 0
        invariant
            j + names@.len() == spec_requirements().len(),
            args@.len() == 2 + j,
            goal =~= seq!["pip".spec_bytes(), "install".spec_bytes()] + spec_requirements(),
            forall|k: int| 0 <= k < names@.len() ==> names@[k]@ == spec_requirements()[j + k],
            forall|k: int| 0 <= k < args@.len() ==> args@[k]@ == goal[k],
        decreases names@.len(),
    {
        let name = names.remove(0);
        assert(name@ == spec_requirements()[j as int]);
        assert(goal[2 + j as int] == spec_requirements()[j as int]);
        args.push(name);
        j += 1;
    }
    let c = CommandLine { program: "uv".as_bytes_vec(), args, scoped_to_venv: true };
    proof {
        lemma_deep_view_of_byte_vecs(c.args);
        assert(c@.args =~= goal);
        assert(c@ =~~= spec_install_requirements_command());
    }
    c
}

pub fn pytest_command(test_path: Option<Vec<u8>>) -> (c: CommandLine)
    ensures
        c@ == spec_pytest_command(
            match test_path {
                Some(p) => Some(p@),
                None => None,
            },
        ),
{
    let mut args: Vec<Vec<u8>> = Vec::new();
    args.push("run".as_bytes_vec());
    args.push("pytest".as_bytes_vec());
    match test_path {
        Some(p) => {
            args.push(p);
            let c = CommandLine { program: "uv".as_bytes_vec(), args, scoped_to_venv: true };
            proof {
                assert(c@ =~~= spec_pytest_command(
                    match test_path {
                        Some(q) => Some(q@),
                        None => None,
                    },
                ));
            }
            c
        },
        None => {
            let c = CommandLine { program: "uv".as_bytes_vec(), args, scoped_to_venv: true };
            proof {
                assert(c@ =~~= spec_pytest_command(
                    match test_path {
                        Some(q) => Some(q@),
                        None => None,
                    },
                ));
            }
            c
        },
    }
}

} // verus!
