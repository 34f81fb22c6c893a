//! The `flox develop` command: which form of it was asked for, and what it says.

use vstd::prelude::*;

use crate::target::PackageTarget;
use crate::text::{mentioned_within, mentions, mentions_itself};

verus! {

/// The environment that a command works on.
#[derive(Debug, Clone, PartialEq, Eq)]
pub enum DirEnvironmentSelect {
    /// The one in the directory at this path.
    Dir(Vec<u8>),
    /// The one that is found from where the command runs.
    Unspecified,
}

impl Default for DirEnvironmentSelect {
    fn default() -> (select: DirEnvironmentSelect)
        ensures
            select is Unspecified,
    {
        DirEnvironmentSelect::Unspecified
    }
}

/// The choice of a base catalog, as the command line gives it.
#[derive(Debug, Clone, PartialEq, Eq)]
pub struct BaseCatalogUrlSelect {
    pub argument: String,
}

/// What `flox develop <PACKAGE>` is asked to do.
#[derive(Debug, Clone, PartialEq, Eq)]
pub struct DevelopOptions {
    pub environment: DirEnvironmentSelect,
    pub base_catalog_url_select: Option<BaseCatalogUrlSelect>,
    /// The Nix expression package to develop. Corresponds to an expression file in
    /// `.flox/pkgs/`.
    pub package: String,
}

/// The form of `flox activate` that was asked for.
#[derive(Debug, Clone, PartialEq, Eq)]
pub enum ActivateForm {
    /// Activate the environment.
    Environment,
    /// Allow the environment to be activated automatically.
    Allow,
    /// Keep the environment from being activated automatically.
    Deny,
}

/// What `flox activate` is asked to do.
#[derive(Debug, Clone, PartialEq, Eq)]
pub struct Activate {
    pub form: ActivateForm,
    /// The options and arguments of this form, as the command line gives them.
    pub arguments: Vec<Vec<u8>>,
}

impl Activate {
    /// The name under which this form of the command is recorded, whatever its arguments.
    pub open spec fn recorded_name(self) -> Seq<char> {
        match self.form {
            ActivateForm::Environment => "activate"@,
            ActivateForm::Allow => "activate::allow"@,
            ActivateForm::Deny => "activate::deny"@,
        }
    }

    /// The name under which this form of the command is recorded, whatever its arguments.
    pub fn subcommand_name(&self) -> (name: &'static str)
        ensures
            name@ == self.recorded_name(),
    {
        match self.form {
            ActivateForm::Environment => "activate",
            ActivateForm::Allow => "activate::allow",
            ActivateForm::Deny => "activate::deny",
        }
    }
}

/// The name under which `flox develop <PACKAGE>` is recorded.
pub const DEVELOP_NAME: &'static str = "develop";

/// The `flox develop` command.
#[derive(Debug, Clone, PartialEq, Eq)]
pub enum Develop {
    Package(DevelopOptions),
    /// Deprecated: `flox develop` as a synonym for `flox activate`.
    DeprecatedActivate(Activate),
}

/// What running the command comes to.
#[derive(Debug, PartialEq, Eq)]
pub struct Handling {
    /// The command whose use is recorded.
    pub metric: &'static str,
    /// Whether it is recorded as the use of the deprecated form.
    pub deprecated_alias: bool,
    /// What to warn of first.
    pub warning: Option<&'static str>,
    /// What to run.
    pub next: Develop,
}

/// What is said of `flox develop` without a package.
pub const DEPRECATION_WARNING: &'static str = "'flox develop' without a package is deprecated; it currently behaves as 'flox activate'.
Use 'flox develop <PACKAGE>' to enter a development shell for a Nix expression build.
";

/// How the refusal of a manifest build begins, up to the package.
pub const REFUSAL_HEAD: &'static str = "Cannot develop '";

/// What follows the package, up to where it is named again.
pub const REFUSAL_REASON: &'static str = "': it is a manifest build, not a Nix expression build.
An unsandboxed manifest build already runs against the activated environment,
so the shell it would get is one you can enter today.
If '";

/// What follows then, up to the last time the package is named.
pub const REFUSAL_NEXT: &'static str = r#"' declares any 'sandbox' mode other than "off", set 'sandbox = "off"' first.

Next:
  $ flox activate                      <- Enter the environment
  $ <steps from build."#;

/// How the refusal ends.
pub const REFUSAL_TAIL: &'static str = ".command>  <- Run the build by hand
";

/// What the refusal to develop the manifest build `name` says.
pub open spec fn refusal(name: Seq<char>) -> Seq<char> {
    REFUSAL_HEAD@ + name + REFUSAL_REASON@ + name + REFUSAL_NEXT@ + name + REFUSAL_TAIL@
}

/// How the disclosure begins, up to the package.
pub const DISCLOSURE_HEAD: &'static str = "This shell approximates the build environment for '";

/// The known divergences between a development shell and the shell that `flox build` runs a
/// package's build in.
pub const DISCLOSURE_TAIL: &'static str = "'.
It is not the build. Known differences:
  - No build sandbox is applied here. 'flox build' runs the build under
    'nix build', which the Nix daemon may sandbox.
  - Your working tree is visible here, including files git does not
    track. A real build sees only tracked files.
  - '$src' is a snapshot in the Nix store, taken when you entered.
    'genericBuild' builds that snapshot, not your working tree; edits
    reach it only when you re-enter. See 'man flox-develop'.
  - '$out' and the other output variables point at placeholder paths
    under /tmp/outputs, not at store paths. Nothing installed there is
    a real build output.
  - The host PATH stays reachable after the build inputs, and if your
    '~/.bashrc' activates a Flox environment, that environment is on
    PATH here too. A real build sees only its own inputs.
  - This shell is interactive and sources '~/.bashrc'. The build shell
    does neither.";

/// What is said of a development shell for `name` when it is entered.
pub open spec fn disclosure(name: Seq<char>) -> Seq<char> {
    DISCLOSURE_HEAD@ + name + DISCLOSURE_TAIL@
}

impl Develop {
    /// The name under which this form of the command is recorded.
    pub open spec fn recorded_name(self) -> Seq<char> {
        match self {
            Develop::Package(_) => DEVELOP_NAME@,
            Develop::DeprecatedActivate(activate) => activate.recorded_name(),
        }
    }

    /// The name under which this invocation is recorded. The package form has its own name;
    /// the deprecated form keeps the names of the form of `activate` that it stands for.
    pub fn subcommand_name(&self) -> (name: &'static str)
        ensures
            name@ == self.recorded_name(),
    {
        match self {
            Develop::Package(_) => DEVELOP_NAME,
            Develop::DeprecatedActivate(activate) => activate.subcommand_name(),
        }
    }

    /// What running the command comes to: the package form opens a development shell, the
    /// deprecated form warns and activates.
    pub fn handle(self) -> (handling: Handling)
        ensures
            handling.next == self,
            handling.metric@ == DEVELOP_NAME@,
            handling.deprecated_alias == (self is DeprecatedActivate),
            match handling.warning {
                Some(warning) => self is DeprecatedActivate && warning@ == DEPRECATION_WARNING@,
                None => self is Package,
            },
    {
        match self {
            Develop::Package(options) => Handling {
                metric: DEVELOP_NAME,
                deprecated_alias: false,
                warning: None,
                next: Develop::Package(options),
            },
            Develop::DeprecatedActivate(activate) => Handling {
                metric: DEVELOP_NAME,
                deprecated_alias: true,
                warning: Some(DEPRECATION_WARNING),
                next: Develop::DeprecatedActivate(activate),
            },
        }
    }

    /// An unsandboxed manifest build already runs against the activated environment, which is
    /// most of what a development shell would give it, so naming one is refused with guidance.
    pub fn refuse_manifest_build(target: &PackageTarget) -> (allowed: Result<(), String>)
        ensures
            match allowed {
                Ok(()) => target.kind is ExpressionBuild,
                Err(message) => target.kind is ManifestBuild && message@ == refusal(target.name@),
            },
    {
        if !target.kind.is_manifest_build() {
            return Ok(());
        }
        let name = target.name.as_str();
        let mut message = String::new();
        message.append(REFUSAL_HEAD);
        message.append(name);
        message.append(REFUSAL_REASON);
        message.append(name);
        message.append(REFUSAL_NEXT);
        message.append(name);
        message.append(REFUSAL_TAIL);
        assert(message@ =~= refusal(target.name@));
        Err(message)
    }

    /// The disclosure that is printed, in one block, when a development shell for `pname` is
    /// entered.
    pub fn print_disclosure(pname: &str) -> (text: String)
        ensures
            text@ == disclosure(pname@),
    {
        let mut text = String::new();
        text.append(DISCLOSURE_HEAD);
        text.append(pname);
        text.append(DISCLOSURE_TAIL);
        assert(text@ =~= disclosure(pname@));
        text
    }
}

/// The refusal of a manifest build names the package, and points to `flox activate` and to the
/// sandbox mode.
pub proof fn refusal_names_activate_and_sandbox(name: Seq<char>)
    ensures
        mentions(refusal(name), name),
        mentions(refusal(name), "flox activate"@),
        mentions(refusal(name), "sandbox"@),
{
    let start = REFUSAL_HEAD@ + name + REFUSAL_REASON@ + name;
    let end = name + REFUSAL_TAIL@;
    assert(refusal(name) =~= start + REFUSAL_NEXT@ + end);
    reveal_strlit("flox activate");
    reveal_strlit("sandbox");
    reveal_strlit(
        r#"' declares any 'sandbox' mode other than "off", set 'sandbox = "off"' first.

Next:
  $ flox activate                      <- Enter the environment
  $ <steps from build."#,
    );
    let activate_at: int = 88;
    let sandbox_at: int = 16;
    assert(REFUSAL_NEXT@.subrange(activate_at, activate_at + "flox activate"@.len())
        =~= "flox activate"@);
    assert(REFUSAL_NEXT@.subrange(sandbox_at, sandbox_at + "sandbox"@.len()) =~= "sandbox"@);
    mentioned_within(start, REFUSAL_NEXT@, end, "flox activate"@);
    mentioned_within(start, REFUSAL_NEXT@, end, "sandbox"@);
    let rest = REFUSAL_REASON@ + name + REFUSAL_NEXT@ + end;
    assert(refusal(name) =~= REFUSAL_HEAD@ + name + rest);
    mentions_itself(name);
    mentioned_within(REFUSAL_HEAD@, name, rest, name);
}

/// The deprecated form is recorded under one of the names that `activate` has always had, and
/// no form of `activate` is recorded as `develop`.
pub proof fn recorded_names_tell_the_forms_apart(develop: Develop)
    ensures
        develop is Package <==> develop.recorded_name() == "develop"@,
        develop is DeprecatedActivate <==> {
            ||| develop.recorded_name() == "activate"@
            ||| develop.recorded_name() == "activate::allow"@
            ||| develop.recorded_name() == "activate::deny"@
        },
{
    reveal_strlit("develop");
    reveal_strlit("activate");
    reveal_strlit("activate::allow");
    reveal_strlit("activate::deny");
    assert("develop"@.len() == 7);
    assert("activate"@.len() == 8);
    assert("activate::allow"@.len() == 15);
    assert("activate::deny"@.len() == 14);
}

/// Each form is recorded under its own name, whatever its options and arguments.
pub proof fn each_form_is_recorded_under_its_own_name(
    options: DevelopOptions,
    arguments: Vec<Vec<u8>>,
)
    ensures
        Develop::Package(options).recorded_name() == "develop"@,
        Develop::DeprecatedActivate(
            Activate { form: ActivateForm::Environment, arguments },
        ).recorded_name() == "activate"@,
        Develop::DeprecatedActivate(
            Activate { form: ActivateForm::Allow, arguments },
        ).recorded_name() == "activate::allow"@,
        Develop::DeprecatedActivate(
            Activate { form: ActivateForm::Deny, arguments },
        ).recorded_name() == "activate::deny"@,
        (Activate { form: ActivateForm::Environment, arguments }).recorded_name() == "activate"@,
        (Activate { form: ActivateForm::Allow, arguments }).recorded_name() == "activate::allow"@,
        (Activate { form: ActivateForm::Deny, arguments }).recorded_name() == "activate::deny"@,
{
}

/// The guidance is the same for every package: its name stands in three places, and all the
/// words round it are fixed.
pub proof fn refusal_differs_in_the_name_alone(name: Seq<char>)
    ensures
        refusal(name).len() == REFUSAL_HEAD@.len() + REFUSAL_REASON@.len() + REFUSAL_NEXT@.len()
            + REFUSAL_TAIL@.len() + 3 * name.len(),
        refusal(name) == REFUSAL_HEAD@ + name + REFUSAL_REASON@ + name + REFUSAL_NEXT@ + name
            + REFUSAL_TAIL@,
{
}

/// The disclosure is the same for every package but for the name in it, and tells all six
/// differences.
pub proof fn disclosure_tells_every_difference(name: Seq<char>)
    ensures
        disclosure(name) == "This shell approximates the build environment for '"@ + name + "'.
It is not the build. Known differences:
  - No build sandbox is applied here. 'flox build' runs the build under
    'nix build', which the Nix daemon may sandbox.
  - Your working tree is visible here, including files git does not
    track. A real build sees only tracked files.
  - '$src' is a snapshot in the Nix store, taken when you entered.
    'genericBuild' builds that snapshot, not your working tree; edits
    reach it only when you re-enter. See 'man flox-develop'.
  - '$out' and the other output variables point at placeholder paths
    under /tmp/outputs, not at store paths. Nothing installed there is
    a real build output.
  - The host PATH stays reachable after the build inputs, and if your
    '~/.bashrc' activates a Flox environment, that environment is on
    PATH here too. A real build sees only its own inputs.
  - This shell is interactive and sources '~/.bashrc'. The build shell
    does neither."@,
{
}

} // verus!
