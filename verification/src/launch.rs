//! Launch orchestration decisions: which program is spawned with which
//! arguments and working directory, when a locale-emulation wrapper wraps
//! the game, when a failed spawn warrants one elevated retry, the quoting
//! of arguments for the elevated command line, and the companion upscaler.
//! The spawning itself, an operating-system action, is the caller's.

use vstd::prelude::*;
use vstd::string::StrSliceExecFns;
use vstd::string::StringExecFns;

use crate::paths::split_executable_path;
use crate::paths::split_path_spec;
use crate::strnum::is_suffix;
use crate::strnum::str_ends_with;

verus! {

/// The launch options a caller selects: a locale-emulation wrapper and a
/// companion upscaling tool. Consumed once at launch.
#[derive(Clone, Debug)]
pub struct GameLaunchOptions {
    pub le_launch: Option<bool>,
    pub magpie: Option<bool>,
}

/// Whether the options ask for the locale-emulation wrapper.
pub fn le_launch_requested(options: &Option<GameLaunchOptions>) -> (r: bool)
    ensures
        r == match options {
            Some(o) => o.le_launch == Some(true),
            None => false,
        },
{
    match options {
        Some(o) => match o.le_launch {
            Some(b) => b,
            None => false,
        },
        None => false,
    }
}

/// Whether the options ask for the companion upscaler.
pub fn magpie_requested(options: &Option<GameLaunchOptions>) -> (r: bool)
    ensures
        r == match options {
            Some(o) => o.magpie == Some(true),
            None => false,
        },
{
    match options {
        Some(o) => match o.magpie {
            Some(b) => b,
            None => false,
        },
        None => false,
    }
}

/// Why a launch was refused before anything was spawned.
#[derive(Debug, PartialEq, Eq, Structural)]
pub enum LaunchError {
    /// The executable path has no directory/file split.
    NoParentDirectory,
    /// The locale-emulation wrapper was requested but its path is not
    /// configured.
    WrapperNotConfigured,
    /// The upscaler was requested but its path is not configured.
    UpscalerNotConfigured,
}

impl LaunchError {
    /// A fixed description of the error.
    pub fn describe(&self) -> (m: &'static str)
        ensures
            match self {
                LaunchError::NoParentDirectory => m@ == "cannot determine the game directory"@,
                LaunchError::WrapperNotConfigured => m@
                    == "locale emulation tool path is not configured"@,
                LaunchError::UpscalerNotConfigured => m@
                    == "upscaler tool path is not configured"@,
            },
{
        match self {
            LaunchError::NoParentDirectory => "cannot determine the game directory",
            LaunchError::WrapperNotConfigured => "locale emulation tool path is not configured",
            LaunchError::UpscalerNotConfigured => "upscaler tool path is not configured",
        }
    }
}

/// A command ready to spawn: the program, its arguments in order, and the
/// working directory.
#[derive(Debug)]
pub struct LaunchPlan {
    pub program: String,
    pub args: Vec<String>,
    pub working_dir: String,
}

/// Pushes a copy of `s` onto `args`.
fn push_arg(args: &mut Vec<String>, s: &str)
    ensures
        final(args)@.len() == old(args)@.len() + 1,
        final(args)@.last()@ == s@,
        forall|j: int| 0 <= j < old(args)@.len() ==> final(args)@[j] == old(args)@[j],
{
    args.push(s.to_owned());
}

/// The direct-spawn launch plan: the game itself, or the locale-emulation
/// wrapper with the game as its first argument, from the game's directory.
///
/// The same program/argument split serves the elevated retry, whose
/// command line `build_runas_params` renders.
pub fn windows_launch_plan(
    game_path: &str,
    use_le: bool,
    le_path: &str,
    extra_args: &Vec<String>,
) -> (r: Result<LaunchPlan, LaunchError>)
    ensures
        split_path_spec(game_path@) is None <==> r == Result::<
            LaunchPlan,
            LaunchError,
        >::Err(LaunchError::NoParentDirectory),
        split_path_spec(game_path@) is Some && use_le && le_path@.len() == 0 <==> r == Result::<
            LaunchPlan,
            LaunchError,
        >::Err(LaunchError::WrapperNotConfigured),
        split_path_spec(game_path@) is Some && !(use_le && le_path@.len() == 0) ==> r is Ok,
        r matches Ok(plan) ==> {
            &&& split_path_spec(game_path@) matches Some(q) && plan.working_dir@ == q.0
            &&& plan.program@ == if use_le {
                le_path@
            } else {
                game_path@
            }
            &&& plan.args@.len() == extra_args@.len() + if use_le {
                1int
            } else {
                0int
            }
            &&& use_le ==> plan.args@[0]@ == game_path@
            &&& forall|j: int|
                0 <= j < extra_args@.len() ==> plan.args@[j + if use_le {
                    1int
                } else {
                    0int
                }]@ == extra_args@[j]@
        },
{
    let split = split_executable_path(game_path);
    let dir = match split {
        Some(p) => p.0,
        None => {
            return Err(LaunchError::NoParentDirectory);
        },
    };
    let mut args: Vec<String> = Vec::new();
    let program: String;
    if use_le {
        if le_path.unicode_len() == 0 {
            proof {
                assert(le_path@.len() == 0);
            }
            return Err(LaunchError::WrapperNotConfigured);
        }
        program = le_path.to_owned();
        push_arg(&mut args, game_path);
    } else {
        program = game_path.to_owned();
    }
    let n = extra_args.len();
    let ghost base = args@.len() as int;
    let mut i: usize = 0;
    while i < n
        invariant
            i <= n == extra_args@.len(),
            args@.len() == base + i,
            base == if use_le {
                1int
            } else {
                0int
            },
            use_le ==> args@[0]@ == game_path@,
            forall|j: int| 0 <= j < i ==> args@[j + base]@ == extra_args@[j]@,
        decreases n - i,
    {
        push_arg(&mut args, extra_args[i].as_str());
        i += 1;
    }
    Ok(LaunchPlan { program, args, working_dir: dir })
}

/// The scope-wrapped launch plan for platforms with a user service
/// manager: the launch runs under `systemd-run` in a delegated transient
/// scope named after the game, and a game shipped as a foreign executable
/// is put behind the configured compatibility command.
pub fn linux_launch_plan(
    game_path: &str,
    game_id: u32,
    compat_command: &str,
    extra_args: &Vec<String>,
) -> (r: Result<LaunchPlan, LaunchError>)
    ensures
        split_path_spec(game_path@) is None <==> r == Result::<
            LaunchPlan,
            LaunchError,
        >::Err(LaunchError::NoParentDirectory),
        split_path_spec(game_path@) is Some ==> r is Ok,
        r matches Ok(plan) ==> {
            let wrapped = is_suffix(".exe"@, game_path@);
            let base: int = if wrapped {
                7int
            } else {
                6int
            };
            &&& split_path_spec(game_path@) matches Some(q) && plan.working_dir@ == q.0
            &&& plan.program@ == "systemd-run"@
            &&& plan.args@.len() == base + 1 + extra_args@.len()
            &&& plan.args@[0]@ == "--scope"@
            &&& plan.args@[1]@ == "--user"@
            &&& plan.args@[2]@ == "-p"@
            &&& plan.args@[3]@ == "Delegate=yes"@
            &&& plan.args@[4]@ == "--unit"@
            &&& plan.args@[5]@ == crate::scope::scope_unit_name_spec(game_id)
            &&& wrapped ==> plan.args@[6]@ == compat_command@
            &&& plan.args@[base]@ == game_path@
            &&& forall|j: int|
                0 <= j < extra_args@.len() ==> plan.args@[j + base + 1]@ == extra_args@[j]@
        },
{
    let split = split_executable_path(game_path);
    let dir = match split {
        Some(p) => p.0,
        None => {
            return Err(LaunchError::NoParentDirectory);
        },
    };
    let mut args: Vec<String> = Vec::new();
    push_arg(&mut args, "--scope");
    push_arg(&mut args, "--user");
    push_arg(&mut args, "-p");
    push_arg(&mut args, "Delegate=yes");
    push_arg(&mut args, "--unit");
    args.push(crate::scope::scope_unit_name(game_id));
    let wrapped = str_ends_with(game_path, ".exe");
    if wrapped {
        push_arg(&mut args, compat_command);
    }
    push_arg(&mut args, game_path);
    let ghost base = args@.len() - 1;
    let n = extra_args.len();
    let mut i: usize = 0;
    while i < n
        invariant
            i <= n == extra_args@.len(),
            args@.len() == base + 1 + i,
            base == if is_suffix(".exe"@, game_path@) {
                7int
            } else {
                6int
            },
            args@[0]@ == "--scope"@,
            args@[1]@ == "--user"@,
            args@[2]@ == "-p"@,
            args@[3]@ == "Delegate=yes"@,
            args@[4]@ == "--unit"@,
            args@[5]@ == crate::scope::scope_unit_name_spec(game_id),
            is_suffix(".exe"@, game_path@) ==> args@[6]@ == compat_command@,
            args@[base]@ == game_path@,
            forall|j: int| 0 <= j < i ==> args@[j + base + 1]@ == extra_args@[j]@,
        decreases n - i,
    {
        push_arg(&mut args, extra_args[i].as_str());
        i += 1;
    }
    Ok(LaunchPlan { program: "systemd-run".to_owned(), args, working_dir: dir })
}

/// Whether a character carries the Unicode whitespace property. The
/// standard library decides; the name stands for its answer.
pub uninterp spec fn whitespace_char(c: char) -> bool;

/// Relies on `char::is_whitespace`: the Unicode whitespace property, a
/// function of the character alone. A space is whitespace; letters and
/// digits of the ASCII range are not.
#[verifier::external_body]
fn char_is_whitespace(c: char) -> (r: bool)
    ensures
        r == whitespace_char(c),
        c == ' ' ==> r,
        ('0' <= c && c <= '9') || ('a' <= c && c <= 'z') || ('A' <= c && c <= 'Z') ==> !r,
{
    c.is_whitespace()
}

/// An argument needs quoting on the elevated command line when it holds
/// whitespace or a double quote.
pub open spec fn needs_quotes_spec(s: Seq<char>) -> bool {
    exists|i: int| 0 <= i < s.len() && (whitespace_char(s[i]) || s[i] == '"')
}

/// Whether `s` needs quoting, as `needs_quotes_spec` says.
pub fn needs_quotes(s: &str) -> (r: bool)
    ensures
        r == needs_quotes_spec(s@),
{
    let n = s.unicode_len();
    let mut i: usize = 0;
    while i < n
        invariant
            i <= n == s@.len(),
            forall|j: int| 0 <= j < i ==> !(whitespace_char(s@[j]) || s@[j] == '"'),
        decreases n - i,
    {
        let c = s.get_char(i);
        if char_is_whitespace(c) || c == '"' {
            assert(whitespace_char(s@[i as int]) || s@[i as int] == '"');
            return true;
        }
        i += 1;
    }
    false
}

/// `s` with every double quote preceded by a backslash.
pub open spec fn escape_quotes_spec(s: Seq<char>) -> Seq<char>
    decreases s.len(),
{
    if s.len() == 0 {
        Seq::empty()
    } else {
        escape_quotes_spec(s.drop_last()) + if s.last() == '"' {
            seq!['\\', '"']
        } else {
            seq![s.last()]
        }
    }
}

/// How one argument appears on the elevated command line: unchanged when
/// it needs no quoting, else with inner quotes escaped and the whole
/// wrapped in double quotes.
pub open spec fn quote_arg_spec(s: Seq<char>) -> Seq<char> {
    if needs_quotes_spec(s) {
        seq!['"'] + escape_quotes_spec(s) + seq!['"']
    } else {
        s
    }
}

/// Quotes one argument for the elevated command line, as `quote_arg_spec`
/// says.
pub fn quote_arg(arg: &str) -> (r: String)
    ensures
        r@ == quote_arg_spec(arg@),
{
    if !needs_quotes(arg) {
        return arg.to_owned();
    }
    proof {
        reveal_strlit("\"");
        reveal_strlit("\\\"");
    }
    let mut out = "\"".to_owned();
    let n = arg.unicode_len();
    let mut i: usize = 0;
    while i < n
        invariant
            i <= n == arg@.len(),
            out@ == seq!['"'] + escape_quotes_spec(arg@.take(i as int)),
            "\""@ =~= seq!['"'],
            "\\\""@ =~= seq!['\\', '"'],
        decreases n - i,
    {
        proof {
            assert(arg@.take(i + 1).drop_last() =~= arg@.take(i as int));
            assert(arg@.take(i + 1).last() == arg@[i as int]);
        }
        let c = arg.get_char(i);
        if c == '"' {
            out.append("\\\"");
        } else {
            out.append(arg.substring_char(i, i + 1));
            proof {
                assert(arg@.subrange(i as int, i + 1) =~= seq![arg@[i as int]]);
            }
        }
        i += 1;
    }
    out.append("\"");
    proof {
        assert(arg@.take(n as int) =~= arg@);
    }
    out
}

/// The elevated command line: each argument quoted, joined by single
/// spaces.
pub open spec fn runas_params_spec(args: Seq<String>) -> Seq<char>
    decreases args.len(),
{
    if args.len() == 0 {
        Seq::empty()
    } else if args.len() == 1 {
        quote_arg_spec(args[0]@)
    } else {
        runas_params_spec(args.drop_last()) + seq![' '] + quote_arg_spec(args.last()@)
    }
}

/// Renders the argument list for the elevated retry, as
/// `runas_params_spec` says.
pub fn build_runas_params(args: &Vec<String>) -> (r: String)
    ensures
        r@ == runas_params_spec(args@),
{
    proof {
        reveal_strlit(" ");
    }
    let n = args.len();
    let mut out = String::new();
    let mut i: usize = 0;
    while i < n
        invariant
            i <= n == args@.len(),
            out@ == runas_params_spec(args@.take(i as int)),
            " "@ =~= seq![' '],
        decreases n - i,
    {
        proof {
            assert(args@.take(i + 1).drop_last() =~= args@.take(i as int));
            assert(args@.take(i + 1).last() == args@[i as int]);
            assert(args@.take(1)[0] == args@[0]);
        }
        if i > 0 {
            out.append(" ");
        }
        out.append(quote_arg(args[i].as_str()).as_str());
        i += 1;
    }
    proof {
        assert(args@.take(n as int) =~= args@);
    }
    out
}

/// Whether a failed spawn's raw error code is the one that means the
/// target demands elevation, warranting the single elevated retry.
pub fn needs_elevation(raw_os_error: Option<i32>) -> (r: bool)
    ensures
        r == (raw_os_error == Some(740i32)),
{
    match raw_os_error {
        Some(code) => code == 740,
        None => false,
    }
}

/// What to do about the companion upscaler.
#[derive(Debug, PartialEq, Eq, Structural)]
pub enum UpscalerAction {
    /// The tool is not running: spawn it in tray mode, then send the
    /// activation hotkey.
    SpawnThenActivate,
    /// The tool already runs: only send the activation hotkey.
    ActivateOnly,
}

/// Decides how to engage the companion upscaler: an unconfigured path is
/// refused before anything is spawned; otherwise the tool is spawned only
/// when it is not already running. Activation failures downstream are
/// tolerated by the caller, never escalated.
pub fn magpie_action(magpie_path: &str, already_running: bool) -> (r: Result<
    UpscalerAction,
    LaunchError,
>)
    ensures
        magpie_path@.len() == 0 <==> r == Result::<
            UpscalerAction,
            LaunchError,
        >::Err(LaunchError::UpscalerNotConfigured),
        magpie_path@.len() > 0 ==> r == Result::<UpscalerAction, LaunchError>::Ok(
            if already_running {
                UpscalerAction::ActivateOnly
            } else {
                UpscalerAction::SpawnThenActivate
            },
        ),
{
    if magpie_path.unicode_len() == 0 {
        proof {
            assert(magpie_path@.len() == 0);
        }
        Err(LaunchError::UpscalerNotConfigured)
    } else {
        Ok(
            if already_running {
                UpscalerAction::ActivateOnly
            } else {
                UpscalerAction::SpawnThenActivate
            },
        )
    }
}

/// The result a launch reports to its caller.
#[derive(Debug)]
pub struct LaunchResult {
    pub success: bool,
    pub message: String,
    pub process_id: Option<u32>,
    pub systemd_scope: Option<String>,
}

/// The message of a successful launch report.
pub open spec fn launch_message_spec(exe_name: Seq<char>, use_le: bool, elevated: bool) -> Seq<
    char,
> {
    (if elevated {
        "launched elevated: "@
    } else {
        "launched: "@
    }) + exe_name + if use_le {
        " (locale emulation)"@
    } else {
        Seq::<char>::empty()
    }
}

/// Builds the report of a successful launch: the process identifier, the
/// scope handle where one exists, and a message naming the executable and
/// how it was started.
pub fn launch_success_result(
    exe_name: &str,
    use_le: bool,
    elevated: bool,
    process_id: u32,
    systemd_scope: Option<String>,
) -> (r: LaunchResult)
    ensures
        r.success,
        r.process_id == Some(process_id),
        r.systemd_scope == systemd_scope,
        r.message@ == launch_message_spec(exe_name@, use_le, elevated),
{
    let mut message = if elevated {
        "launched elevated: ".to_owned()
    } else {
        "launched: ".to_owned()
    };
    message.append(exe_name);
    if use_le {
        message.append(" (locale emulation)");
    }
    proof {
        if !use_le {
            assert(message@ =~= launch_message_spec(exe_name@, use_le, elevated));
        }
    }
    LaunchResult { success: true, message, process_id: Some(process_id), systemd_scope }
}

} // verus!
