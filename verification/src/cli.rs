//! The runtime-override tool: from its options, the steps that clone a runtime's
//! repository, build it with EVM tracing, and collect the resulting Wasm (and a
//! digest of it) under the output directory. Performing the steps (processes,
//! files, directories) is left to the caller.
use vstd::prelude::*;

verus! {

/// The tool's options.
pub struct Cli {
    /// GitHub repository.
    pub github: String,
    /// Specific branch/commit/tag.
    pub target: String,
    /// Runtime manifest path.
    pub manifest: String,
    /// Runtime name.
    pub runtime: String,
    /// Specific output path.
    pub output: String,
    /// Do not generate the digest file.
    pub no_digest: bool,
    /// Keep the build cache.
    pub cache: bool,
}

/// The branch/commit/tag built when none is given: `main`.
pub fn default_target() -> (r: String)
    ensures
        r@ == "main"@,
{
    String::from_str("main")
}

/// The output directory used when none is given: `overridden-runtimes`.
pub fn default_output() -> (r: String)
    ensures
        r@ == "overridden-runtimes"@,
{
    String::from_str("overridden-runtimes")
}

impl Cli {
    /// The options for building `runtime` from `manifest` in the repository at
    /// `github`, with everything else left at its default: the `main` target,
    /// the `overridden-runtimes` output directory, a digest, and no cache.
    pub fn with_defaults(github: String, manifest: String, runtime: String) -> (c: Cli)
        ensures
            c.github@ == github@,
            c.manifest@ == manifest@,
            c.runtime@ == runtime@,
            c.target@ == "main"@,
            c.output@ == "overridden-runtimes"@,
            !c.no_digest,
            !c.cache,
    {
        Cli {
            github,
            target: default_target(),
            manifest,
            runtime,
            output: default_output(),
            no_digest: false,
            cache: false,
        }
    }
}

/// A program to run, its arguments, and the environment variables to remove
/// from its environment.
pub struct Command {
    pub program: String,
    pub args: Vec<String>,
    pub exclude_envs: Vec<String>,
}

/// The contents of a `Command`.
pub struct CommandModel {
    pub program: Seq<char>,
    pub args: Seq<Seq<char>>,
    pub exclude_envs: Seq<Seq<char>>,
}

/// The contents of strings.
pub open spec fn strings_view(v: Seq<String>) -> Seq<Seq<char>> {
    v.map_values(|s: String| s@)
}

impl View for Command {
    type V = CommandModel;

    open spec fn view(&self) -> CommandModel {
        CommandModel {
            program: self.program@,
            args: strings_view(self.args@),
            exclude_envs: strings_view(self.exclude_envs@),
        }
    }
}

/// One step of the tool's work.
pub enum Step {
    /// Announce that the cache is cleaned, and remove the directory `dir`
    /// (ignoring any error).
    CleanCache { dir: String },
    /// Announce that the cache is used.
    UseCache,
    /// If `dir` does not exist, run `clone`.
    CloneIfMissing { dir: String, clone: Command },
    /// Announce and make `dir` the working directory.
    EnterDirectory { dir: String },
    /// Run a command; if it fails, exit with its status (see `exit_code`).
    Run(Command),
    /// Make `dir` the working directory again.
    ReturnToDirectory { dir: String },
    /// Create `dir` and its parents unless it exists.
    CreateDirIfMissing { dir: String },
    /// Move the file `from` to `to`.
    MoveWasm { from: String, to: String },
    /// Load the runtime Wasm at `wasm` and print it and its runtime information.
    InspectRuntime { wasm: String },
    /// Write the runtime information, as JSON, to `path`, and announce it.
    WriteDigest { path: String },
}

/// The contents of a `Step`.
pub enum StepModel {
    CleanCache { dir: Seq<char> },
    UseCache,
    CloneIfMissing { dir: Seq<char>, clone: CommandModel },
    EnterDirectory { dir: Seq<char> },
    Run(CommandModel),
    ReturnToDirectory { dir: Seq<char> },
    CreateDirIfMissing { dir: Seq<char> },
    MoveWasm { from: Seq<char>, to: Seq<char> },
    InspectRuntime { wasm: Seq<char> },
    WriteDigest { path: Seq<char> },
}

impl View for Step {
    type V = StepModel;

    open spec fn view(&self) -> StepModel {
        match self {
            Step::CleanCache { dir } => StepModel::CleanCache { dir: dir@ },
            Step::UseCache => StepModel::UseCache,
            Step::CloneIfMissing { dir, clone } => StepModel::CloneIfMissing {
                dir: dir@,
                clone: clone@,
            },
            Step::EnterDirectory { dir } => StepModel::EnterDirectory { dir: dir@ },
            Step::Run(c) => StepModel::Run(c@),
            Step::ReturnToDirectory { dir } => StepModel::ReturnToDirectory { dir: dir@ },
            Step::CreateDirIfMissing { dir } => StepModel::CreateDirIfMissing { dir: dir@ },
            Step::MoveWasm { from, to } => StepModel::MoveWasm { from: from@, to: to@ },
            Step::InspectRuntime { wasm } => StepModel::InspectRuntime { wasm: wasm@ },
            Step::WriteDigest { path } => StepModel::WriteDigest { path: path@ },
        }
    }
}

/// The contents of steps.
pub open spec fn steps_view(v: Seq<Step>) -> Seq<StepModel> {
    v.map_values(|s: Step| s@)
}

// ------------------------------------------------------------------------------
// Names and paths
// ------------------------------------------------------------------------------

/// The index of the last `c` in `s`, or -1 when there is none.
pub open spec fn last_index_of(s: Seq<char>, c: char) -> int
    decreases s.len(),
{
    if s.len() == 0 {
        -1
    } else if s.last() == c {
        s.len() - 1
    } else {
        last_index_of(s.drop_last(), c)
    }
}

/// The repository's name: what follows the last `/` of its URI.
pub open spec fn spec_repository(github: Seq<char>) -> Seq<char> {
    github.subrange(last_index_of(github, '/') + 1, github.len() as int)
}

/// Where the repository is cloned and built.
pub open spec fn spec_build_path(repository: Seq<char>) -> Seq<char> {
    "build/"@ + repository
}

/// The name under which the built runtime is stored.
pub open spec fn spec_name_prefix(runtime: Seq<char>, target: Seq<char>) -> Seq<char> {
    runtime + "-"@ + target + "-tracing-runtime"@
}

/// Where the built runtime's Wasm is stored.
pub open spec fn spec_wasm_path(output: Seq<char>, name_prefix: Seq<char>) -> Seq<char> {
    output + "/"@ + name_prefix + ".compact.compressed.wasm"@
}

/// Where the digest of the built runtime is stored.
pub open spec fn spec_digest_path(output: Seq<char>, name_prefix: Seq<char>) -> Seq<char> {
    output + "/"@ + name_prefix + ".json"@
}

/// Where the build leaves the runtime's Wasm.
pub open spec fn spec_built_wasm_path(repository: Seq<char>, runtime: Seq<char>) -> Seq<char> {
    "build/"@ + repository + "/target/release/wbuild/"@ + runtime + "-runtime/"@ + runtime
        + "_runtime.compact.compressed.wasm"@
}

proof fn lemma_last_index_at(s: Seq<char>, c: char, k: int)
    requires
        0 <= k < s.len(),
        s[k] == c,
        forall|j: int| k < j < s.len() ==> s[j] != c,
    ensures
        last_index_of(s, c) == k,
    decreases s.len(),
{
    if s.last() != c {
        assert forall|j: int| k < j < s.drop_last().len() implies s.drop_last()[j] != c by {
            assert(s.drop_last()[j] == s[j]);
        }
        assert(s.drop_last()[k] == s[k]);
        lemma_last_index_at(s.drop_last(), c, k);
    }
}

proof fn lemma_last_index_none(s: Seq<char>, c: char)
    requires
        forall|j: int| 0 <= j < s.len() ==> s[j] != c,
    ensures
        last_index_of(s, c) == -1,
    decreases s.len(),
{
    if s.len() > 0 {
        assert forall|j: int| 0 <= j < s.drop_last().len() implies s.drop_last()[j] != c by {
            assert(s.drop_last()[j] == s[j]);
        }
        lemma_last_index_none(s.drop_last(), c);
    }
}

/// The index found is that of a `c`, or -1 when `s` holds none, and no `c`
/// follows it.
pub proof fn lemma_last_index_of(s: Seq<char>, c: char)
    ensures
        -1 <= last_index_of(s, c) < s.len(),
        last_index_of(s, c) == -1 <==> !s.contains(c),
        last_index_of(s, c) >= 0 ==> s[last_index_of(s, c)] == c,
        forall|j: int| last_index_of(s, c) < j < s.len() ==> s[j] != c,
    decreases s.len(),
{
    if s.len() > 0 {
        lemma_last_index_of(s.drop_last(), c);
        if s.last() != c {
            if s.drop_last().contains(c) {
                let j = choose|j: int| 0 <= j < s.drop_last().len() && s.drop_last()[j] == c;
                assert(s[j] == c);
            }
            if s.contains(c) {
                let j = choose|j: int| 0 <= j < s.len() && s[j] == c;
                assert(s.drop_last()[j] == c);
            }
            assert forall|j: int| last_index_of(s, c) < j < s.len() implies s[j] != c by {
                if j < s.len() - 1 {
                    assert(s.drop_last()[j] == s[j]);
                }
            }
        } else {
            assert(s[s.len() - 1] == c);
        }
    }
}

/// The repository's name, what follows the last `/` of `github`; `None` when
/// `github` has no `/`.
pub fn repository_name(github: &str) -> (r: Option<String>)
    ensures
        r is Some <==> github@.contains('/'),
        r matches Some(name) ==> name@ == spec_repository(github@),
{
    let n = github.unicode_len();
    let mut i = n;
    while i > 0
        invariant
            i <= n,
            n == github@.len(),
            forall|j: int| i <= j < n ==> github@[j] != '/',
        decreases i,
    {
        if github.get_char(i - 1) == '/' {
            proof {
                lemma_last_index_at(github@, '/', i - 1);
            }
            return Some(String::from_str(github.substring_char(i, n)));
        }
        i = i - 1;
    }
    proof {
        lemma_last_index_none(github@, '/');
        lemma_last_index_of(github@, '/');
    }
    None
}

/// The repository name holds no `/`, and the URI is what precedes the last `/`,
/// that `/`, and the name.
pub proof fn lemma_repository_split(github: Seq<char>)
    requires
        github.contains('/'),
    ensures
        !spec_repository(github).contains('/'),
        github == github.subrange(0, last_index_of(github, '/')) + seq!['/'] + spec_repository(
            github,
        ),
{
    lemma_last_index_of(github, '/');
    let k = last_index_of(github, '/');
    let r = spec_repository(github);
    if r.contains('/') {
        let j = choose|j: int| 0 <= j < r.len() && r[j] == '/';
        assert(github[k + 1 + j] == '/');
    }
    assert(github =~= github.subrange(0, k) + seq!['/'] + r);
}

/// Where the repository is cloned and built: `build/<repository>`.
pub fn build_path(repository: &str) -> (r: String)
    ensures
        r@ == spec_build_path(repository@),
{
    String::from_str("build/").concat(repository)
}

/// The name under which the built runtime is stored:
/// `<runtime>-<target>-tracing-runtime`.
pub fn name_prefix(runtime: &str, target: &str) -> (r: String)
    ensures
        r@ == spec_name_prefix(runtime@, target@),
{
    String::from_str(runtime).concat("-").concat(target).concat("-tracing-runtime")
}

/// Where the built runtime's Wasm is stored:
/// `<output>/<name_prefix>.compact.compressed.wasm`.
pub fn wasm_path(output: &str, name_prefix: &str) -> (r: String)
    ensures
        r@ == spec_wasm_path(output@, name_prefix@),
{
    String::from_str(output).concat("/").concat(name_prefix).concat(".compact.compressed.wasm")
}

/// Where the digest of the built runtime is stored: `<output>/<name_prefix>.json`.
pub fn digest_path(output: &str, name_prefix: &str) -> (r: String)
    ensures
        r@ == spec_digest_path(output@, name_prefix@),
{
    String::from_str(output).concat("/").concat(name_prefix).concat(".json")
}

/// Where the build leaves the runtime's Wasm:
/// `build/<repository>/target/release/wbuild/<runtime>-runtime/<runtime>_runtime.compact.compressed.wasm`.
pub fn built_wasm_path(repository: &str, runtime: &str) -> (r: String)
    ensures
        r@ == spec_built_wasm_path(repository@, runtime@),
{
    String::from_str("build/").concat(repository).concat("/target/release/wbuild/").concat(
        runtime,
    ).concat("-runtime/").concat(runtime).concat("_runtime.compact.compressed.wasm")
}

// ------------------------------------------------------------------------------
// The steps
// ------------------------------------------------------------------------------

/// The toolchain variable removed from the environment of `rustup` and `cargo`,
/// so the repository's own toolchain file decides.
pub open spec fn toolchain_env() -> Seq<Seq<char>> {
    seq!["RUSTUP_TOOLCHAIN"@]
}

/// The steps for `cli`, in order.
pub open spec fn spec_plan(cli: Cli) -> Seq<StepModel> {
    let repository = spec_repository(cli.github@);
    let build = spec_build_path(repository);
    let prefix = spec_name_prefix(cli.runtime@, cli.target@);
    let wasm = spec_wasm_path(cli.output@, prefix);
    let steps = seq![
        if cli.cache {
            StepModel::UseCache
        } else {
            StepModel::CleanCache { dir: "build"@ }
        },
        StepModel::CloneIfMissing {
            dir: build,
            clone: CommandModel {
                program: "git"@,
                args: seq!["clone"@, cli.github@, build],
                exclude_envs: Seq::empty(),
            },
        },
        StepModel::EnterDirectory { dir: build },
        StepModel::Run(
            CommandModel {
                program: "git"@,
                args: seq!["fetch"@, "--all"@],
                exclude_envs: Seq::empty(),
            },
        ),
        StepModel::Run(
            CommandModel {
                program: "git"@,
                args: seq!["checkout"@, cli.target@],
                exclude_envs: Seq::empty(),
            },
        ),
        StepModel::Run(
            CommandModel { program: "rustup"@, args: seq!["show"@], exclude_envs: toolchain_env() },
        ),
        StepModel::Run(
            CommandModel {
                program: "cargo"@,
                args: seq![
                    "build"@,
                    "--release"@,
                    "--manifest-path"@,
                    cli.manifest@,
                    "--features"@,
                    "evm-tracing"@,
                ],
                exclude_envs: toolchain_env(),
            },
        ),
        StepModel::ReturnToDirectory { dir: "../../"@ },
        StepModel::CreateDirIfMissing { dir: cli.output@ },
        StepModel::MoveWasm {
            from: spec_built_wasm_path(repository, cli.runtime@),
            to: wasm,
        },
        StepModel::InspectRuntime { wasm: wasm },
    ];
    if cli.no_digest {
        steps
    } else {
        steps.push(StepModel::WriteDigest { path: spec_digest_path(cli.output@, prefix) })
    }
}

/// The first step: clean the `build` directory, or keep it when the cache is
/// used.
pub fn cache_step(cache: bool) -> (step: Step)
    ensures
        step@ == (if cache {
            StepModel::UseCache
        } else {
            StepModel::CleanCache { dir: "build"@ }
        }),
{
    if cache {
        Step::UseCache
    } else {
        Step::CleanCache { dir: owned("build") }
    }
}

fn owned(s: &str) -> (r: String)
    ensures
        r@ == s@,
{
    String::from_str(s)
}

fn toolchain_exclusion() -> (v: Vec<String>)
    ensures
        strings_view(v@) == toolchain_env(),
{
    let mut v: Vec<String> = Vec::new();
    v.push(owned("RUSTUP_TOOLCHAIN"));
    assert(strings_view(v@) =~= toolchain_env());
    v
}

fn no_exclusion() -> (v: Vec<String>)
    ensures
        strings_view(v@) == Seq::<Seq<char>>::empty(),
{
    let v: Vec<String> = Vec::new();
    assert(strings_view(v@) =~= Seq::<Seq<char>>::empty());
    v
}

fn command(program: &str, args: Vec<String>, exclude_envs: Vec<String>) -> (c: Command)
    ensures
        c@ == (CommandModel {
            program: program@,
            args: strings_view(args@),
            exclude_envs: strings_view(exclude_envs@),
        }),
{
    Command { program: owned(program), args, exclude_envs }
}

/// The steps the tool takes for `cli`: clean or keep the cache; clone the
/// repository into `build/<repository>` unless it is there; in it, fetch, check
/// out the target, show the toolchain and build the runtime with EVM tracing;
/// come back; create the output directory; move the Wasm there under
/// `<runtime>-<target>-tracing-runtime`; inspect it; and, unless told not to,
/// write its digest beside it. The tool stops when the URI has no `/`;
/// `requires` leaves that out.
pub fn plan(cli: &Cli) -> (steps: Vec<Step>)
    requires
        cli.github@.contains('/'),
    ensures
        steps_view(steps@) == spec_plan(*cli),
{
    let repository = match repository_name(cli.github.as_str()) {
        Some(r) => r,
        None => {
            proof {
                assert(false);
            }
            String::new()
        },
    };
    let build = build_path(repository.as_str());
    let prefix = name_prefix(cli.runtime.as_str(), cli.target.as_str());
    let wasm = wasm_path(cli.output.as_str(), prefix.as_str());
    let mut steps: Vec<Step> = Vec::new();
    steps.push(cache_step(cli.cache));
    let mut clone_args: Vec<String> = Vec::new();
    clone_args.push(owned("clone"));
    clone_args.push(cli.github.clone());
    clone_args.push(build.clone());
    assert(strings_view(clone_args@) =~= seq!["clone"@, cli.github@, build@]);
    steps.push(
        Step::CloneIfMissing { dir: build.clone(), clone: command("git", clone_args, no_exclusion()) },
    );
    steps.push(Step::EnterDirectory { dir: build.clone() });
    let mut fetch_args: Vec<String> = Vec::new();
    fetch_args.push(owned("fetch"));
    fetch_args.push(owned("--all"));
    assert(strings_view(fetch_args@) =~= seq!["fetch"@, "--all"@]);
    steps.push(Step::Run(command("git", fetch_args, no_exclusion())));
    let mut checkout_args: Vec<String> = Vec::new();
    checkout_args.push(owned("checkout"));
    checkout_args.push(cli.target.clone());
    assert(strings_view(checkout_args@) =~= seq!["checkout"@, cli.target@]);
    steps.push(Step::Run(command("git", checkout_args, no_exclusion())));
    let mut show_args: Vec<String> = Vec::new();
    show_args.push(owned("show"));
    assert(strings_view(show_args@) =~= seq!["show"@]);
    steps.push(Step::Run(command("rustup", show_args, toolchain_exclusion())));
    let mut build_args: Vec<String> = Vec::new();
    build_args.push(owned("build"));
    build_args.push(owned("--release"));
    build_args.push(owned("--manifest-path"));
    build_args.push(cli.manifest.clone());
    build_args.push(owned("--features"));
    build_args.push(owned("evm-tracing"));
    assert(strings_view(build_args@) =~= seq![
        "build"@,
        "--release"@,
        "--manifest-path"@,
        cli.manifest@,
        "--features"@,
        "evm-tracing"@,
    ]);
    steps.push(Step::Run(command("cargo", build_args, toolchain_exclusion())));
    steps.push(Step::ReturnToDirectory { dir: owned("../../") });
    steps.push(Step::CreateDirIfMissing { dir: cli.output.clone() });
    steps.push(
        Step::MoveWasm {
            from: built_wasm_path(repository.as_str(), cli.runtime.as_str()),
            to: wasm.clone(),
        },
    );
    steps.push(Step::InspectRuntime { wasm: wasm.clone() });
    if !cli.no_digest {
        steps.push(Step::WriteDigest { path: digest_path(cli.output.as_str(), prefix.as_str()) });
    }
    let ghost expected = spec_plan(*cli);
    assert(steps_view(steps@).len() == expected.len());
    assert forall|i: int| 0 <= i < expected.len() implies steps_view(steps@)[i] == expected[i] by {
    }
    assert(steps_view(steps@) =~= expected);
    steps
}

// ------------------------------------------------------------------------------
// Running commands
// ------------------------------------------------------------------------------

/// `parts` joined with `sep` between them.
pub open spec fn join(parts: Seq<Seq<char>>, sep: Seq<char>) -> Seq<char>
    decreases parts.len(),
{
    if parts.len() == 0 {
        Seq::empty()
    } else if parts.len() == 1 {
        parts[0]
    } else {
        join(parts.drop_last(), sep) + sep + parts.last()
    }
}

/// How a command is shown when it is run: the program, a space, and its
/// arguments separated by spaces.
pub open spec fn spec_command_line(c: CommandModel) -> Seq<char> {
    c.program + " "@ + join(c.args, " "@)
}

/// The text that shows `command` when it is run.
pub fn command_line(command: &Command) -> (r: String)
    ensures
        r@ == spec_command_line(command@),
{
    let mut joined = String::new();
    let n = command.args.len();
    let ghost parts = strings_view(command.args@);
    let mut i: usize = 0;
    while i < n
        invariant
            i <= n,
            n == command.args@.len(),
            parts == strings_view(command.args@),
            joined@ == join(parts.take(i as int), " "@),
        decreases n - i,
    {
        assert(parts.take(i + 1).drop_last() =~= parts.take(i as int));
        if i != 0 {
            joined.append(" ");
        }
        joined.append(command.args[i].as_str());
        assert(parts.take(i + 1).last() == command.args@[i as int]@);
        if i == 0 {
            assert(join(parts.take(1), " "@) == parts.take(1)[0]);
            assert(joined@ =~= join(parts.take(1), " "@));
        }
        i = i + 1;
    }
    assert(parts.take(n as int) =~= parts);
    String::from_str(command.program.as_str()).concat(" ").concat(joined.as_str())
}

/// The status the tool exits with after running a command: none when the
/// command succeeded (the tool goes on); otherwise the command's exit code, or
/// -1 when it has none (it was stopped by a signal).
pub fn exit_code(success: bool, code: Option<i32>) -> (r: Option<i32>)
    ensures
        r == (if success {
            None
        } else {
            Some(
                match code {
                    Some(c) => c,
                    None => -1i32,
                },
            )
        }),
{
    if success {
        None
    } else {
        match code {
            Some(c) => Some(c),
            None => Some(-1),
        }
    }
}

// ------------------------------------------------------------------------------
// Laws of the steps
// ------------------------------------------------------------------------------

/// The shape of the steps: the cache is cleaned exactly when it is not kept; the
/// Wasm moved into the output directory is the one inspected; the digest is
/// written, last, exactly when it is asked for; and `rustup` and `cargo` run
/// without the `RUSTUP_TOOLCHAIN` override while `git` keeps its environment.
pub proof fn lemma_plan_layout(cli: Cli)
    ensures
        spec_plan(cli).len() == (if cli.no_digest {
            11int
        } else {
            12int
        }),
        spec_plan(cli)[0] is CleanCache <==> !cli.cache,
        spec_plan(cli)[0] is CleanCache ==> spec_plan(cli)[0] == (StepModel::CleanCache {
            dir: "build"@,
        }),
        spec_plan(cli)[9] matches StepModel::MoveWasm { to, .. } && spec_plan(cli)[10] == (
        StepModel::InspectRuntime { wasm: to }),
        spec_plan(cli).last() is WriteDigest <==> !cli.no_digest,
        forall|i: int|
            0 <= i < spec_plan(cli).len() ==> (#[trigger] spec_plan(cli)[i] matches StepModel::Run(
                c,
            ) ==> (c.program == "git"@ ==> c.exclude_envs.len() == 0) && (c.program != "git"@
                ==> c.exclude_envs == toolchain_env())),
{
    reveal_strlit("git");
    reveal_strlit("rustup");
    reveal_strlit("cargo");
    let p = spec_plan(cli);
    assert forall|i: int| 0 <= i < p.len() implies (#[trigger] p[i] matches StepModel::Run(c) ==> (
    c.program == "git"@ ==> c.exclude_envs.len() == 0) && (c.program != "git"@
        ==> c.exclude_envs == toolchain_env())) by {
        if i == 5 {
            assert("rustup"@ != "git"@) by {
                assert("rustup"@.len() != "git"@.len());
            }
        }
        if i == 6 {
            assert("cargo"@ != "git"@) by {
                assert("cargo"@[0] != "git"@[0]);
            }
        }
    }
}

/// The digest never takes the Wasm's place: both lie in the output directory
/// under the same name, one ending in `.compact.compressed.wasm`, the other in
/// `.json`.
pub proof fn lemma_digest_beside_wasm(output: Seq<char>, name_prefix: Seq<char>)
    ensures
        spec_wasm_path(output, name_prefix) != spec_digest_path(output, name_prefix),
        spec_wasm_path(output, name_prefix) == output + "/"@ + name_prefix
            + ".compact.compressed.wasm"@,
        spec_digest_path(output, name_prefix) == output + "/"@ + name_prefix + ".json"@,
{
    reveal_strlit(".compact.compressed.wasm");
    reveal_strlit(".json");
    assert(spec_wasm_path(output, name_prefix).len() != spec_digest_path(output, name_prefix).len());
}

/// The build directory is `build` and then the repository's name, which holds
/// no `/`: for a non-empty name, the directory entered is two levels below the
/// starting one, which `../../` leads back to. (With a URI that ends in `/` the
/// name is empty and `../../` leads one level above the start.)
pub proof fn lemma_build_directory_depth(github: Seq<char>)
    requires
        github.contains('/'),
    ensures
        spec_build_path(spec_repository(github)) == "build"@ + seq!['/'] + spec_repository(github),
        !spec_repository(github).contains('/'),
        !"build"@.contains('/'),
{
    reveal_strlit("build/");
    reveal_strlit("build");
    lemma_repository_split(github);
    assert("build/"@ =~= "build"@ + seq!['/']);
    if "build"@.contains('/') {
        let j = choose|j: int| 0 <= j < "build"@.len() && "build"@[j] == '/';
        assert(false);
    }
}

/// The runtime is built from the manifest the user gave: the `cargo` step is
/// `cargo build --release --manifest-path <manifest> --features evm-tracing`, with
/// the `--manifest` option passed on unchanged.
pub proof fn lemma_plan_builds_given_manifest(cli: Cli)
    ensures
        spec_plan(cli)[6] matches StepModel::Run(c) && c.program == "cargo"@ && c.args.len() == 6
            && c.args[0] == "build"@ && c.args[1] == "--release"@ && c.args[2]
            == "--manifest-path"@ && c.args[3] == cli.manifest@ && c.args[4] == "--features"@
            && c.args[5] == "evm-tracing"@,
{
}

/// The name under which a runtime is stored starts with the runtime's name and a
/// `-`, then the target, and ends in `-tracing-runtime`: runtimes (and targets)
/// are told apart in the output directory.
pub proof fn lemma_name_prefix_parts(runtime: Seq<char>, target: Seq<char>)
    ensures
        ({
            let n = spec_name_prefix(runtime, target);
            let r = runtime.len() as int;
            let t = target.len() as int;
            &&& n.len() == r + 1 + t + "-tracing-runtime"@.len()
            &&& n.subrange(0, r) == runtime
            &&& n[r] == '-'
            &&& n.subrange(r + 1, r + 1 + t) == target
            &&& n.subrange(r + 1 + t, n.len() as int) == "-tracing-runtime"@
        }),
{
    reveal_strlit("-");
    let n = spec_name_prefix(runtime, target);
    let r = runtime.len() as int;
    let t = target.len() as int;
    assert(n.subrange(0, r) =~= runtime);
    assert(n.subrange(r + 1, r + 1 + t) =~= target);
    assert(n.subrange(r + 1 + t, n.len() as int) =~= "-tracing-runtime"@);
}

/// The Wasm is stored in the output directory under a name that starts with the
/// runtime's name, a `-` and the target, and the digest beside it under the same
/// name.
pub proof fn lemma_plan_outputs_named_by_runtime(cli: Cli)
    ensures
        spec_plan(cli)[9] matches StepModel::MoveWasm { to, .. } && to == cli.output@ + "/"@
            + cli.runtime@ + "-"@ + cli.target@ + "-tracing-runtime"@
            + ".compact.compressed.wasm"@,
        !cli.no_digest ==> spec_plan(cli)[11] == (StepModel::WriteDigest {
            path: cli.output@ + "/"@ + cli.runtime@ + "-"@ + cli.target@ + "-tracing-runtime"@
                + ".json"@,
        }),
{
    assert(spec_wasm_path(cli.output@, spec_name_prefix(cli.runtime@, cli.target@)) =~= cli.output@
        + "/"@ + cli.runtime@ + "-"@ + cli.target@ + "-tracing-runtime"@
        + ".compact.compressed.wasm"@);
    assert(spec_digest_path(cli.output@, spec_name_prefix(cli.runtime@, cli.target@))
        =~= cli.output@ + "/"@ + cli.runtime@ + "-"@ + cli.target@ + "-tracing-runtime"@
        + ".json"@);
}

/// The repository is cloned only when its directory is missing, with or without
/// the cache: the second step is `git clone <github> build/<repository>`, guarded
/// by the absence of `build/<repository>`.
pub proof fn lemma_plan_clones_only_when_missing(cli: Cli)
    ensures
        spec_plan(cli)[1] == (StepModel::CloneIfMissing {
            dir: "build/"@ + spec_repository(cli.github@),
            clone: CommandModel {
                program: "git"@,
                args: seq!["clone"@, cli.github@, "build/"@ + spec_repository(cli.github@)],
                exclude_envs: Seq::empty(),
            },
        }),
{
}

/// Two runs that differ only in whether the cache is kept take the same steps
/// after the first one: the cache decides only whether `build` is cleaned.
pub proof fn lemma_cache_only_affects_first_step(a: Cli, b: Cli)
    requires
        a.github@ == b.github@,
        a.target@ == b.target@,
        a.manifest@ == b.manifest@,
        a.runtime@ == b.runtime@,
        a.output@ == b.output@,
        a.no_digest == b.no_digest,
    ensures
        spec_plan(a).len() == spec_plan(b).len(),
        forall|i: int| 1 <= i < spec_plan(a).len() ==> #[trigger] spec_plan(a)[i] == spec_plan(b)[i],
{
}

/// Two runs that differ only in whether a digest is written take the same steps,
/// except that the one with the digest has one more step at the end.
pub proof fn lemma_digest_only_adds_last_step(a: Cli, b: Cli)
    requires
        a.github@ == b.github@,
        a.target@ == b.target@,
        a.manifest@ == b.manifest@,
        a.runtime@ == b.runtime@,
        a.output@ == b.output@,
        a.cache == b.cache,
        a.no_digest,
        !b.no_digest,
    ensures
        spec_plan(b).len() == spec_plan(a).len() + 1,
        forall|i: int| 0 <= i < spec_plan(a).len() ==> #[trigger] spec_plan(a)[i] == spec_plan(b)[i],
{
}

} // verus!
