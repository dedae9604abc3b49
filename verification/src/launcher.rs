//! Decisions of the program's entry point: command-line flags and
//! recognising the running launcher process.

use vstd::prelude::*;
use vstd::string::*;

use crate::text::{chars_of, matches_at_exec};
use crate::updater::Mode;

verus! {

/// Skip the update step; re-patch and launch.
pub const NO_UPDATE_FLAG: &'static str = "--no-update";
/// Update and patch, but don't launch.
pub const UPDATE_ONLY_FLAG: &'static str = "--update-only";
/// Full SHA1 check instead of size-only.
pub const FULL_VERIFY_FLAG: &'static str = "--full-verify";
/// `--install-dir <path>`.
pub const INSTALL_DIR_FLAG: &'static str = "--install-dir";
/// `--install-dir=<path>`.
pub const INSTALL_DIR_PREFIX: &'static str = "--install-dir=";
/// Executable name of the Plutonium launcher process (lowercase).
pub const LAUNCHER_PROCESS_NAME: &'static str = "plutonium-launcher-win32.exe";

/// `s` starts with `prefix`.
pub open spec fn starts_with(s: Seq<char>, prefix: Seq<char>) -> bool {
    prefix.len() <= s.len() && s.take(prefix.len() as int) == prefix
}

fn starts_with_exec(s: &str, prefix: &str) -> (res: bool)
    ensures
        res == starts_with(s@, prefix@),
{
    let sc = chars_of(s);
    let pc = chars_of(prefix);
    if pc.len() > sc.len() {
        return false;
    }
    let mut i: usize = 0;
    while i < pc.len()
        invariant
            sc@ == s@,
            pc@ == prefix@,
            pc@.len() <= sc@.len(),
            i <= pc@.len(),
            forall|k: int| 0 <= k < i ==> sc@[k] == pc@[k],
        decreases pc.len() - i,
    {
        if sc[i] != pc[i] {
            assert(sc@.take(pc@.len() as int)[i as int] != pc@[i as int]);
            return false;
        }
        i = i + 1;
    }
    assert(sc@.take(pc@.len() as int) =~= pc@);
    true
}

/// Some argument equals `flag`.
pub open spec fn has_flag_spec(args: Seq<String>, flag: Seq<char>) -> bool {
    exists|i: int| 0 <= i < args.len() && #[trigger] args[i]@ == flag
}

/// A flag is seen wherever it stands: no argument list has it when empty;
/// adding an argument at either end adds the flag exactly when that argument
/// is the flag, whatever the other arguments are.
pub proof fn lemma_flag_seen_anywhere(args: Seq<String>, x: String, flag: Seq<char>)
    ensures
        !has_flag_spec(Seq::<String>::empty(), flag),
        has_flag_spec(args.push(x), flag) == (has_flag_spec(args, flag) || x@ == flag),
        has_flag_spec(seq![x] + args, flag) == (x@ == flag || has_flag_spec(args, flag)),
{
    let pushed = args.push(x);
    let front = seq![x] + args;
    if has_flag_spec(args, flag) {
        let i = choose|i: int| 0 <= i < args.len() && #[trigger] args[i]@ == flag;
        assert(pushed[i]@ == flag);
        assert(front[i + 1]@ == flag);
    }
    if x@ == flag {
        assert(pushed[args.len() as int]@ == flag);
        assert(front[0]@ == flag);
    }
    if has_flag_spec(pushed, flag) {
        let i = choose|i: int| 0 <= i < pushed.len() && #[trigger] pushed[i]@ == flag;
        if i < args.len() {
            assert(args[i]@ == flag);
        }
    }
    if has_flag_spec(front, flag) {
        let i = choose|i: int| 0 <= i < front.len() && #[trigger] front[i]@ == flag;
        if i > 0 {
            assert(args[i - 1]@ == flag);
        }
    }
}

/// Some argument equals `flag`.
pub fn has_flag(args: &Vec<String>, flag: &str) -> (res: bool)
    ensures
        res == has_flag_spec(args@, flag@),
        res == exists|i: int| 0 <= i < args@.len() && #[trigger] args@[i]@ == flag@,
{
    let wanted = String::from_str(flag);
    let mut i: usize = 0;
    while i < args.len()
        invariant
            i <= args@.len(),
            wanted@ == flag@,
            forall|j: int| 0 <= j < i ==> args@[j]@ != flag@,
        decreases args.len() - i,
    {
        if args[i] == wanted {
            assert(args@[i as int]@ == flag@);
            return true;
        }
        i = i + 1;
    }
    false
}

/// Argument `i` names the install directory: `--install-dir=<path>`, or
/// `--install-dir` followed by another argument.
pub open spec fn names_install_dir(args: Seq<String>, i: int) -> bool {
    starts_with(args[i]@, INSTALL_DIR_PREFIX@) || (args[i]@ == INSTALL_DIR_FLAG@ && i + 1
        < args.len())
}

/// The install directory that argument `i` names.
pub open spec fn install_dir_at(args: Seq<String>, i: int) -> Seq<char> {
    if starts_with(args[i]@, INSTALL_DIR_PREFIX@) {
        args[i]@.skip(INSTALL_DIR_PREFIX@.len() as int)
    } else {
        args[i + 1]@
    }
}

/// The install directory named by the first argument at or after `i` that names one.
pub open spec fn install_dir_from(args: Seq<String>, i: int) -> Option<Seq<char>>
    decreases args.len() - i,
{
    if i < 0 || i >= args.len() {
        None
    } else if names_install_dir(args, i) {
        Some(install_dir_at(args, i))
    } else {
        install_dir_from(args, i + 1)
    }
}

proof fn lemma_install_dir_shift(x: String, args: Seq<String>, i: int)
    requires
        0 <= i,
    ensures
        install_dir_from(seq![x] + args, i + 1) == install_dir_from(args, i),
    decreases args.len() - i,
{
    let all = seq![x] + args;
    if i < args.len() {
        assert(all[i + 1] == args[i]);
        if i + 1 < args.len() {
            assert(all[i + 2] == args[i + 1]);
        }
        lemma_install_dir_shift(x, args, i + 1);
    }
}

/// The first argument that names an install directory wins, wherever the
/// others stand: an argument list names none when empty, and putting an
/// argument in front either names the directory itself (`--install-dir=<path>`,
/// or `--install-dir` followed by the next argument) or leaves the answer to
/// the rest.
pub proof fn lemma_install_dir_first_wins(x: String, args: Seq<String>)
    ensures
        install_dir_from(Seq::<String>::empty(), 0) is None,
        install_dir_from(seq![x] + args, 0) == if starts_with(x@, "--install-dir="@) {
            Some(x@.skip("--install-dir="@.len() as int))
        } else if x@ == "--install-dir"@ && args.len() > 0 {
            Some(args[0]@)
        } else {
            install_dir_from(args, 0)
        },
{
    let all = seq![x] + args;
    assert(all[0] == x);
    if args.len() > 0 {
        assert(all[1] == args[0]);
    }
    lemma_install_dir_shift(x, args, 0);
}

/// The view of an optional string.
pub open spec fn opt_view(s: Option<String>) -> Option<Seq<char>> {
    match s {
        Some(v) => Some(v@),
        None => None,
    }
}

/// The install directory named by the first argument that names one.
pub fn install_dir_arg(args: &Vec<String>) -> (res: Option<String>)
    ensures
        opt_view(res) == install_dir_from(args@, 0),
{
    let flag = String::from_str(INSTALL_DIR_FLAG);
    let mut i: usize = 0;
    while i < args.len()
        invariant
            i <= args@.len(),
            flag@ == INSTALL_DIR_FLAG@,
            install_dir_from(args@, i as int) == install_dir_from(args@, 0),
        decreases args.len() - i,
    {
        let arg = args[i].as_str();
        if starts_with_exec(arg, INSTALL_DIR_PREFIX) {
            proof {
                reveal_strlit("--install-dir=");
            }
            let n = INSTALL_DIR_PREFIX.unicode_len();
            let len = arg.unicode_len();
            return Some(String::from_str(arg.substring_char(n, len)));
        }
        if args[i] == flag && i + 1 < args.len() {
            return Some(args[i + 1].clone());
        }
        i = i + 1;
    }
    None
}

/// What the command line asks for.
#[derive(Debug)]
pub struct LaunchOptions {
    /// `--no-update` wins over `--update-only`; otherwise a full run.
    pub mode: Mode,
    /// Size-only verification unless `--full-verify`.
    pub fast_verify: bool,
    /// The install directory given on the command line, if any.
    pub install_dir: Option<String>,
}

/// Read the command line.
pub fn parse_args(args: &Vec<String>) -> (res: LaunchOptions)
    ensures
        res.mode == (if has_flag_spec(args@, NO_UPDATE_FLAG@) {
            Mode::LaunchOnly
        } else if has_flag_spec(args@, UPDATE_ONLY_FLAG@) {
            Mode::SyncOnly
        } else {
            Mode::Run
        }),
        res.fast_verify == !has_flag_spec(args@, FULL_VERIFY_FLAG@),
        opt_view(res.install_dir) == install_dir_from(args@, 0),
{
    let no_update = has_flag(args, NO_UPDATE_FLAG);
    let update_only = has_flag(args, UPDATE_ONLY_FLAG);
    let full_verify = has_flag(args, FULL_VERIFY_FLAG);
    let mode = if no_update {
        Mode::LaunchOnly
    } else if update_only {
        Mode::SyncOnly
    } else {
        Mode::Run
    };
    LaunchOptions { mode, fast_verify: !full_verify, install_dir: install_dir_arg(args) }
}

/// ASCII lowercase of a byte.
pub open spec fn ascii_lower(b: u8) -> u8 {
    if 65 <= b <= 90 {
        (b + 32) as u8
    } else {
        b
    }
}

/// The executable name of a process entry: each unit up to the first NUL
/// truncated to a byte, read as a character and lowercased.
pub open spec fn exe_name(name: Seq<u16>) -> Seq<char>
    decreases name.len(),
{
    if name.len() == 0 || name[0] == 0 {
        Seq::empty()
    } else {
        seq![ascii_lower(name[0] as u8) as char] + exe_name(name.drop_first())
    }
}

/// The executable name is read up to the first NUL, one character per unit,
/// with ASCII letters lowercased: it holds no uppercase ASCII letter, and a
/// unit that is the uppercase form of a letter reads as that letter.
pub proof fn lemma_exe_name_lowercase(name: Seq<u16>)
    ensures
        forall|i: int| 0 <= i < exe_name(name).len() ==> !('A' <= #[trigger] exe_name(name)[i] && exe_name(name)[i] <= 'Z'),
        exe_name(name).len() <= name.len(),
        name.len() > 0 && name[0] != 0 ==> exe_name(name)[0] == ascii_lower(name[0] as u8) as char,
        name.len() > 0 && 65 <= name[0] <= 90 ==> exe_name(name)[0] == ((name[0] + 32) as u8) as char,
    decreases name.len(),
{
    if name.len() > 0 && name[0] != 0 {
        lemma_exe_name_lowercase(name.drop_first());
        let e = exe_name(name);
        assert forall|i: int| 0 <= i < e.len() implies !('A' <= #[trigger] e[i] && e[i] <= 'Z') by {
            if i > 0 {
                assert(e[i] == exe_name(name.drop_first())[i - 1]);
            }
        }
    }
}

/// A process entry is the Plutonium launcher's when its executable name,
/// lowercased, is `plutonium-launcher-win32.exe`.
pub fn is_launcher_process(exe_file: &[u16]) -> (res: bool)
    ensures
        res == (exe_name(exe_file@) == LAUNCHER_PROCESS_NAME@),
{
    let mut name: Vec<char> = Vec::new();
    let mut i: usize = 0;
    assert(exe_file@.skip(0) =~= exe_file@);
    while i < exe_file.len() && exe_file[i] != 0
        invariant
            i <= exe_file@.len(),
            exe_name(exe_file@) == name@ + exe_name(exe_file@.skip(i as int)),
        decreases exe_file.len() - i,
    {
        assert(exe_file@.skip(i as int).drop_first() =~= exe_file@.skip(i + 1));
        let b = exe_file[i] as u8;
        let lower = if 65 <= b && b <= 90 {
            b + 32
        } else {
            b
        };
        name.push(lower as char);
        i = i + 1;
    }
    assert(exe_name(exe_file@) == name@);
    let pattern = chars_of(LAUNCHER_PROCESS_NAME);
    if name.len() != pattern.len() {
        return false;
    }
    let same = matches_at_exec(&name, &pattern, 0);
    proof {
        if same {
            assert(name@ =~= name@.subrange(0, pattern@.len() as int));
        } else {
            assert(name@.subrange(0, pattern@.len() as int) =~= name@);
        }
    }
    same
}

} // verus!
