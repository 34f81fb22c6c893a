//! The rcfile that a development shell starts with.

use vstd::prelude::*;
use vstd::string::*;
use vstd::utf8::*;

use crate::develop::Develop;
use crate::develop_error::{DevelopError, DevelopErrorView};
use crate::develop_events::{DevelopAction, DevelopActionView, DevelopEvent, DevelopEventView};
use crate::outside::{from_utf8_lossy, utf8_lossy};

verus! {

/// How the part that sources the user's configuration begins, up to the home directory.
pub const BASHRC_HEAD: &'static str = r#"# 1. User config first — REQUIRED to be first. The env script
#    sourced below overwrites PATH with the build inputs and then
#    appends whatever PATH was live when it was sourced. Run
#    ~/.bashrc afterwards instead and the user's own PATH entries
#    land in front of the build inputs, shadowing the build's
#    toolchain.
#
#    _flox_sourcing_rc is the guard flox's own activation rcfile
#    sets (flox-activations/src/gen_rc/bash.rs), read back at
#    attach.rs. It stops a subshell 'flox activate' inside
#    ~/.bashrc from re-sourcing ~/.bashrc from inside this very
#    sourcing. It does NOT suppress the activation itself — see
#    the disclosure printed before this shell's prompt.
if [ -n "${PS1:-}" ] && [ -f ""#;

/// What follows the home directory, up to where it is named again.
pub const BASHRC_SOURCE: &'static str = r#"/.bashrc" ]; then
  export _flox_sourcing_rc=true
  source ""#;

/// How the part that sources the user's configuration ends.
pub const BASHRC_TAIL: &'static str = r#"/.bashrc"
  unset _flox_sourcing_rc
fi
"#;

/// How the part that sources the env script begins, up to the script's path.
pub const ENV_SCRIPT_HEAD: &'static str = r#"
# 2. The `nix print-dev-env` output: build inputs, stdenv
#    functions, NIX_BUILD_TOP/TMPDIR fixups, shellHook eval. It
#    sets nix_saved_PATH/nix_saved_XDG_DATA_DIRS itself, from the
#    PATH live at this point — this rcfile must not pre-set or
#    clobber them.
source ""#;

/// The rest of that part, and the part that sets the prompt, up to the package.
pub const PROMPT_HEAD: &'static str = r#""

# 3. Flox prompt: wrap the existing PS1, never replace it. This
#    duplicates the wrap-not-replace logic in
#    assets/environment-interpreter/activate/activate.d/set-prompt.bash
#    rather than sourcing it: that asset depends on activation-time
#    state (FLOX_PROMPT_ENVIRONMENTS, _activate_d) a develop shell
#    never sets.
if [ -n "${PS1:-}" ]; then
  if [ -z "${FLOX_SAVE_BASH_PS1:-}" ]; then
    export FLOX_SAVE_BASH_PS1="$PS1"
  fi
  if [ "${NO_COLOR:-0}" = "0" ]; then
    __flox_develop_marker="\[\e[1m\]flox [develop: "#;

/// What follows the package, up to where it is named again.
pub const PROMPT_PLAIN: &'static str = r#"]\[\e[0m\] "
  else
    __flox_develop_marker="flox [develop: "#;

/// How the rcfile ends.
pub const PROMPT_TAIL: &'static str = r#"] "
  fi
  case "$FLOX_SAVE_BASH_PS1" in
    *\\n*) PS1="${FLOX_SAVE_BASH_PS1/\\n/\\n$__flox_develop_marker}" ;;
    *\\012*) PS1="${FLOX_SAVE_BASH_PS1/\\012/\\012$__flox_develop_marker}" ;;
    *) PS1="$__flox_develop_marker$FLOX_SAVE_BASH_PS1" ;;
  esac
  unset __flox_develop_marker
fi
"#;

/// The part of the rcfile that sources the user's configuration, where the user's home
/// directory is known.
pub open spec fn bashrc_block(home: Option<Seq<char>>) -> Seq<char> {
    match home {
        Some(home) => BASHRC_HEAD@ + home + BASHRC_SOURCE@ + home + BASHRC_TAIL@,
        None => Seq::empty(),
    }
}

/// The part of the rcfile that sources the env script, up to the closing quote of its path.
pub open spec fn env_script_block(env_script: Seq<char>) -> Seq<char> {
    ENV_SCRIPT_HEAD@ + env_script
}

/// The rest of the rcfile, which sets the prompt.
pub open spec fn prompt_block(pname: Seq<char>) -> Seq<char> {
    PROMPT_HEAD@ + pname + PROMPT_PLAIN@ + pname + PROMPT_TAIL@
}

/// The rcfile of a development shell for `pname`.
pub open spec fn rcfile_text(
    home: Option<Seq<char>>,
    env_script: Seq<char>,
    pname: Seq<char>,
) -> Seq<char> {
    bashrc_block(home) + env_script_block(env_script) + prompt_block(pname)
}

/// The rcfile of a development shell for `pname`: `~/.bashrc` first, then the env script, then
/// the Flox prompt.
///
/// The order is load-bearing: the env script overwrites `PATH` with the build inputs and then
/// appends whatever `PATH` was live when it was sourced, so `~/.bashrc` must run first or the
/// user's own `PATH` entries land in front of the build inputs and shadow the build's
/// toolchain.
pub fn rcfile_content(home: Option<&str>, env_script: &str, pname: &str) -> (content: String)
    ensures
        content@ == rcfile_text(
            match home {
                Some(home) => Some(home@),
                None => None,
            },
            env_script@,
            pname@,
        ),
{
    let mut content = String::new();
    if let Some(home) = home {
        content.append(BASHRC_HEAD);
        content.append(home);
        content.append(BASHRC_SOURCE);
        content.append(home);
        content.append(BASHRC_TAIL);
    }
    let ghost block = content@;
    content.append(ENV_SCRIPT_HEAD);
    content.append(env_script);
    content.append(PROMPT_HEAD);
    content.append(pname);
    content.append(PROMPT_PLAIN);
    content.append(pname);
    content.append(PROMPT_TAIL);
    proof {
        assert(block =~= bashrc_block(
            match home {
                Some(home) => Some(home@),
                None => None,
            },
        ));
        assert(content@ =~= block + env_script_block(env_script@) + prompt_block(pname@));
    }
    content
}

/// The making of an rcfile, as far as it has come.
#[derive(Debug)]
pub enum RcfileRun {
    /// The home directory is to be looked up.
    FindingHome { env_script: Vec<u8>, pname: String, temp_dir: Vec<u8> },
    /// The rcfile needs a file.
    Creating { content: String, temp_dir: Vec<u8> },
    /// The rcfile is to be written into its file.
    Writing { content: String, path: Vec<u8> },
    /// The rcfile is in the file at the path, or there will be none.
    Ended(Result<Vec<u8>, DevelopError>),
}

/// What an [RcfileRun] stands for.
#[verifier::ext_equal]
pub enum RcfileView {
    FindingHome { env_script: Seq<u8>, pname: Seq<char>, temp_dir: Seq<u8> },
    Creating { content: Seq<char>, temp_dir: Seq<u8> },
    Writing { content: Seq<char>, path: Seq<u8> },
    Ended(Result<Seq<u8>, DevelopErrorView>),
}

impl View for RcfileRun {
    type V = RcfileView;

    open spec fn view(&self) -> RcfileView {
        match *self {
            RcfileRun::FindingHome { env_script, pname, temp_dir } => RcfileView::FindingHome {
                env_script: env_script@,
                pname: pname@,
                temp_dir: temp_dir@,
            },
            RcfileRun::Creating { content, temp_dir } => RcfileView::Creating {
                content: content@,
                temp_dir: temp_dir@,
            },
            RcfileRun::Writing { content, path } => RcfileView::Writing {
                content: content@,
                path: path@,
            },
            RcfileRun::Ended(Ok(path)) => RcfileView::Ended(Ok(path@)),
            RcfileRun::Ended(Err(error)) => RcfileView::Ended(Err(error@)),
        }
    }
}

/// The rcfile for a home directory and an env script that are given by their paths.
pub open spec fn rcfile_for(
    home: Option<Seq<u8>>,
    env_script: Seq<u8>,
    pname: Seq<char>,
) -> Seq<char> {
    rcfile_text(
        match home {
            Some(home) => Some(utf8_lossy(home)),
            None => None,
        },
        utf8_lossy(env_script),
        pname,
    )
}

/// The texts that the bytes of a path encode, where they are valid UTF-8.
pub open spec fn decoded(path: Option<Seq<u8>>) -> Option<Seq<char>> {
    match path {
        Some(path) => Some(decode_utf8(path)),
        None => None,
    }
}

/// Whether the paths of the home directory, if there is one, and of the env script are valid
/// UTF-8.
pub open spec fn plain_paths(home: Option<Seq<u8>>, env_script: Seq<u8>) -> bool {
    &&& valid_utf8(env_script)
    &&& home matches Some(path) ==> valid_utf8(path)
}

/// The rcfile for a home directory and an env script that are given by their paths. Paths in
/// valid UTF-8 stand in it as they are.
pub fn rcfile_for_paths(home: Option<Vec<u8>>, env_script: &[u8], pname: &str) -> (content: String)
    ensures
        content@ == rcfile_for(path_bytes(home), env_script@, pname@),
        plain_paths(path_bytes(home), env_script@) ==> content@ == rcfile_text(
            decoded(path_bytes(home)),
            decode_utf8(env_script@),
            pname@,
        ),
{
    let script = from_utf8_lossy(env_script);
    match home {
        Some(path) => {
            let home = from_utf8_lossy(path.as_slice());
            rcfile_content(Some(home.as_str()), script.as_str(), pname)
        },
        None => rcfile_content(None, script.as_str(), pname),
    }
}

/// What the bytes of a path, if there is one, stand for.
pub open spec fn path_bytes(path: Option<Vec<u8>>) -> Option<Seq<u8>> {
    match path {
        Some(path) => Some(path@),
        None => None,
    }
}

impl RcfileView {
    /// What has to be done for the run to go on.
    pub open spec fn action(self) -> DevelopActionView {
        match self {
            RcfileView::FindingHome { .. } => DevelopActionView::FindHome,
            RcfileView::Creating { temp_dir, .. } => DevelopActionView::CreateFile {
                dir: temp_dir,
            },
            RcfileView::Writing { content, path } => DevelopActionView::WriteFile {
                path,
                contents: encode_utf8(content),
            },
            RcfileView::Ended(_) => DevelopActionView::Nothing,
        }
    }

    /// The run after `event`. An event that does not answer the run's action changes nothing.
    pub open spec fn step(self, event: DevelopEventView) -> RcfileView {
        match (self, event) {
            (
                RcfileView::FindingHome { env_script, pname, temp_dir },
                DevelopEventView::HomeFound(home),
            ) => RcfileView::Creating { content: rcfile_for(home, env_script, pname), temp_dir },
            (RcfileView::Creating { content, .. }, DevelopEventView::FileCreated(Ok(path))) => {
                RcfileView::Writing { content, path }
            },
            (RcfileView::Creating { .. }, DevelopEventView::FileCreated(Err(error))) => {
                RcfileView::Ended(Err(DevelopErrorView::CreateRcFile(error)))
            },
            (RcfileView::Writing { path, .. }, DevelopEventView::FileWritten(Ok(()))) => {
                RcfileView::Ended(Ok(path))
            },
            (RcfileView::Writing { .. }, DevelopEventView::FileWritten(Err(error))) => {
                RcfileView::Ended(Err(DevelopErrorView::CreateRcFile(error)))
            },
            _ => self,
        }
    }
}

impl Develop {
    /// Renders the rcfile that a development shell for `pname` is started with into a file
    /// under `temp_dir`. The env script is the one at `env_script_path`.
    pub fn render_rcfile(
        env_script_path: Vec<u8>,
        pname: String,
        temp_dir: Vec<u8>,
    ) -> (run: RcfileRun)
        ensures
            run@ == (RcfileView::FindingHome {
                env_script: env_script_path@,
                pname: pname@,
                temp_dir: temp_dir@,
            }),
    {
        RcfileRun::FindingHome { env_script: env_script_path, pname, temp_dir }
    }
}

impl RcfileRun {
    /// What has to be done for the run to go on.
    pub fn action(&self) -> (action: DevelopAction<'_>)
        ensures
            action@ == self@.action(),
    {
        match self {
            RcfileRun::FindingHome { .. } => DevelopAction::FindHome,
            RcfileRun::Creating { temp_dir, .. } => DevelopAction::CreateFile { dir: temp_dir },
            RcfileRun::Writing { content, path } => DevelopAction::WriteFile {
                path,
                contents: content.as_str().as_bytes(),
            },
            RcfileRun::Ended(_) => DevelopAction::Nothing,
        }
    }

    /// The run after `event`. An event that does not answer the run's action changes nothing.
    /// Paths in valid UTF-8 stand in the rcfile as they are.
    pub fn step(self, event: DevelopEvent) -> (run: RcfileRun)
        ensures
            run@ == self@.step(event@),
            match (self@, event@) {
                (
                    RcfileView::FindingHome { env_script, pname, temp_dir },
                    DevelopEventView::HomeFound(home),
                ) => {
                    plain_paths(home, env_script) ==> run@ == (RcfileView::Creating {
                        content: rcfile_text(decoded(home), decode_utf8(env_script), pname),
                        temp_dir,
                    })
                },
                _ => true,
            },
    {
        match (self, event) {
            (
                RcfileRun::FindingHome { env_script, pname, temp_dir },
                DevelopEvent::HomeFound(home),
            ) => RcfileRun::Creating {
                content: rcfile_for_paths(home, env_script.as_slice(), pname.as_str()),
                temp_dir,
            },
            (
                RcfileRun::Creating { content, temp_dir: _ },
                DevelopEvent::FileCreated(reply),
            ) => match reply {
                Ok(path) => RcfileRun::Writing { content, path },
                Err(error) => RcfileRun::Ended(Err(DevelopError::CreateRcFile(error))),
            },
            (RcfileRun::Writing { content: _, path }, DevelopEvent::FileWritten(reply)) => {
                match reply {
                    Ok(()) => RcfileRun::Ended(Ok(path)),
                    Err(error) => RcfileRun::Ended(Err(DevelopError::CreateRcFile(error))),
                }
            },
            (run, _) => run,
        }
    }
}

/// The rcfile runs the user's configuration before the env script, and sets the prompt last.
pub proof fn rcfile_parts_in_order(
    home: Option<Seq<char>>,
    env_script: Seq<char>,
    pname: Seq<char>,
)
    ensures
        ({
            let text = rcfile_text(home, env_script, pname);
            let script_at = bashrc_block(home).len() as int;
            let prompt_at = script_at + env_script_block(env_script).len();
            &&& 0 <= script_at <= prompt_at <= text.len()
            &&& text.subrange(0, script_at) == bashrc_block(home)
            &&& text.subrange(script_at, prompt_at) == env_script_block(env_script)
            &&& text.subrange(prompt_at, text.len() as int) == prompt_block(pname)
        }),
{
    let text = rcfile_text(home, env_script, pname);
    let script_at = bashrc_block(home).len() as int;
    let prompt_at = script_at + env_script_block(env_script).len();
    assert(text.subrange(0, script_at) =~= bashrc_block(home));
    assert(text.subrange(script_at, prompt_at) =~= env_script_block(env_script));
    assert(text.subrange(prompt_at, text.len() as int) =~= prompt_block(pname));
}

/// What comes of each action that an [RcfileRun] can ask for.
pub struct RcfileWorld {
    pub home: Option<Seq<u8>>,
    pub created: Result<Seq<u8>, std::io::Error>,
    pub written: Result<(), std::io::Error>,
}

/// What making an rcfile comes to: the path of the file that holds it, or what kept it from
/// being made.
pub open spec fn rcfile(world: RcfileWorld) -> Result<Seq<u8>, DevelopErrorView> {
    match (world.created, world.written) {
        (Err(error), _) => Err(DevelopErrorView::CreateRcFile(error)),
        (Ok(_), Err(error)) => Err(DevelopErrorView::CreateRcFile(error)),
        (Ok(path), Ok(())) => Ok(path),
    }
}

/// An event moves a run exactly when it answers the run's action.
pub proof fn rcfile_moves_by_answers(run: RcfileView, event: DevelopEventView)
    ensures
        run.step(event) != run <==> event.answers(run.action()),
{
}

/// However the making of an rcfile is answered, it ends with what that comes to, and what is
/// written is the rcfile.
pub proof fn rcfile_run_ends(
    env_script: Seq<u8>,
    pname: Seq<char>,
    temp_dir: Seq<u8>,
    world: RcfileWorld,
)
    ensures
        ({
            let created = (RcfileView::FindingHome { env_script, pname, temp_dir }).step(
                DevelopEventView::HomeFound(world.home),
            ).step(DevelopEventView::FileCreated(world.created));
            &&& created.action() matches DevelopActionView::WriteFile { path, contents } ==> {
                &&& world.created == Ok::<_, std::io::Error>(path)
                &&& contents == encode_utf8(rcfile_for(world.home, env_script, pname))
            }
            &&& created.step(DevelopEventView::FileWritten(world.written)) == RcfileView::Ended(
                rcfile(world),
            )
        }),
{
}

/// The rcfile differs in the home directory, the env script's path and the package's name
/// alone: each stands in its place, and all the words round them are fixed. Without a home
/// directory the part that sources the user's configuration is left out, and nothing else.
pub proof fn rcfile_differs_in_its_parts_alone(
    home: Seq<char>,
    env_script: Seq<char>,
    pname: Seq<char>,
)
    ensures
        rcfile_text(None, env_script, pname) == ENV_SCRIPT_HEAD@ + env_script + (PROMPT_HEAD@
            + pname + PROMPT_PLAIN@ + pname + PROMPT_TAIL@),
        rcfile_text(Some(home), env_script, pname) == (BASHRC_HEAD@ + home + BASHRC_SOURCE@ + home
            + BASHRC_TAIL@) + rcfile_text(None, env_script, pname),
{
    let prompt = PROMPT_HEAD@ + pname + PROMPT_PLAIN@ + pname + PROMPT_TAIL@;
    let bashrc = BASHRC_HEAD@ + home + BASHRC_SOURCE@ + home + BASHRC_TAIL@;
    assert(rcfile_text(None, env_script, pname) =~= ENV_SCRIPT_HEAD@ + env_script + prompt);
    assert(rcfile_text(Some(home), env_script, pname) =~= bashrc + rcfile_text(
        None,
        env_script,
        pname,
    ));
}

/// The rcfile for paths is the rcfile for the texts that stand for them.
pub proof fn rcfile_for_paths_is_the_rcfile_for_their_texts(
    home: Vec<u8>,
    env_script: Seq<u8>,
    pname: Seq<char>,
)
    ensures
        path_bytes(Some(home)) == Some(home@),
        path_bytes(None) == None::<Seq<u8>>,
        decoded(Some(home@)) == Some(decode_utf8(home@)),
        decoded(None) == None::<Seq<char>>,
        plain_paths(Some(home@), env_script) <==> valid_utf8(env_script) && valid_utf8(home@),
        plain_paths(None, env_script) <==> valid_utf8(env_script),
        rcfile_for(Some(home@), env_script, pname) == rcfile_text(
            Some(utf8_lossy(home@)),
            utf8_lossy(env_script),
            pname,
        ),
        rcfile_for(None, env_script, pname) == rcfile_text(None, utf8_lossy(env_script), pname),
{
}

/// An rcfile ends in the file that was created for it: the file is created in the directory for
/// temporary files once the home directory is known, the rcfile for that home directory, the
/// env script and the package is written into it, and its path is what the making ends with.
pub proof fn rcfile_ends_in_the_created_file(
    home: Option<Seq<u8>>,
    env_script: Seq<u8>,
    pname: Seq<char>,
    temp_dir: Seq<u8>,
    path: Seq<u8>,
    error: std::io::Error,
)
    ensures
        ({
            let finding = RcfileView::FindingHome { env_script, pname, temp_dir };
            let creating = finding.step(DevelopEventView::HomeFound(home));
            let writing = creating.step(DevelopEventView::FileCreated(Ok(path)));
            &&& finding.action() == DevelopActionView::FindHome
            &&& creating.action() == (DevelopActionView::CreateFile { dir: temp_dir })
            &&& writing.action() == (DevelopActionView::WriteFile {
                path,
                contents: encode_utf8(
                    rcfile_text(
                        match home {
                            Some(home) => Some(utf8_lossy(home)),
                            None => None,
                        },
                        utf8_lossy(env_script),
                        pname,
                    ),
                ),
            })
            &&& writing.step(DevelopEventView::FileWritten(Ok(()))) == RcfileView::Ended(Ok(path))
            &&& creating.step(DevelopEventView::FileCreated(Err(error))) == RcfileView::Ended(
                Err(DevelopErrorView::CreateRcFile(error)),
            )
            &&& writing.step(DevelopEventView::FileWritten(Err(error))) == RcfileView::Ended(
                Err(DevelopErrorView::CreateRcFile(error)),
            )
        }),
{
}

/// What making an rcfile comes to is the path of the created file exactly when creating and
/// writing it both succeed.
pub proof fn rcfile_comes_to_the_created_file(world: RcfileWorld, path: Seq<u8>)
    ensures
        rcfile(world) == Ok::<Seq<u8>, DevelopErrorView>(path) <==> world.created == Ok::<
            _,
            std::io::Error,
        >(path) && world.written is Ok,
{
}

/// What a making that has ended stands for is what it ended with, and it asks for nothing.
pub proof fn ended_rcfile_stands_for_its_end(ended: Result<Vec<u8>, DevelopError>)
    ensures
        match ended {
            Ok(path) => RcfileRun::Ended(ended)@ == RcfileView::Ended(Ok(path@)),
            Err(error) => RcfileRun::Ended(ended)@ == RcfileView::Ended(Err(error@)),
        },
        RcfileRun::Ended(ended)@.action() == DevelopActionView::Nothing,
{
}

} // verus!
