//! The launcher's command line and the verbosity of its logs.
use vstd::prelude::*;

use crate::text::{chars_of, has_prefix, str_eq, string_views};

verus! {

/// What the command line asks for.
#[derive(Debug)]
pub struct LaunchArgs {
    /// How many times `--debug` was given.
    pub force_debug: u64,
    /// `--run-game`: start the game if it is ready to launch.
    pub run_game: bool,
    /// `--just-run-game`: start the game even when an update can be
    /// downloaded beforehand.
    pub just_run_game: bool,
    /// `--no-verbose-tracing`: nothing is logged on stdout.
    pub no_verbose_tracing: bool,
    /// The session named after the last `--session` that is followed by one.
    pub session: Option<String>,
    /// Every other argument, for GTK, in order.
    pub gtk_args: Vec<String>,
}

pub struct LaunchArgsView {
    pub force_debug: nat,
    pub run_game: bool,
    pub just_run_game: bool,
    pub no_verbose_tracing: bool,
    pub session: Option<Seq<char>>,
    pub gtk_args: Seq<Seq<char>>,
}

/// What the first `n` arguments of `args` ask for.  `--session` takes the
/// next argument as the session's name, which is still read as an argument
/// of its own afterwards.
pub open spec fn parsed_args(args: Seq<Seq<char>>, n: int) -> LaunchArgsView
    decreases n,
{
    if n <= 0 {
        LaunchArgsView {
            force_debug: 0,
            run_game: false,
            just_run_game: false,
            no_verbose_tracing: false,
            session: None,
            gtk_args: Seq::empty(),
        }
    } else {
        let p = parsed_args(args, n - 1);
        let a = args[n - 1];
        if a == "--debug"@ {
            LaunchArgsView { force_debug: p.force_debug + 1, ..p }
        } else if a == "--run-game"@ {
            LaunchArgsView { run_game: true, ..p }
        } else if a == "--just-run-game"@ {
            LaunchArgsView { just_run_game: true, ..p }
        } else if a == "--no-verbose-tracing"@ {
            LaunchArgsView { no_verbose_tracing: true, ..p }
        } else if a == "--session"@ {
            if n < args.len() {
                LaunchArgsView { session: Some(args[n]), ..p }
            } else {
                p
            }
        } else {
            LaunchArgsView { gtk_args: p.gtk_args.push(a), ..p }
        }
    }
}

impl LaunchArgs {
    pub open spec fn view_args(&self) -> LaunchArgsView {
        LaunchArgsView {
            force_debug: self.force_debug as nat,
            run_game: self.run_game,
            just_run_game: self.just_run_game,
            no_verbose_tracing: self.no_verbose_tracing,
            session: match self.session {
                Some(s) => Some(s@),
                None => None,
            },
            gtk_args: string_views(self.gtk_args@),
        }
    }
}

/// Reads the command line `args` (the program's name included, as GTK
/// wants it).
pub fn parse_args(args: &Vec<String>) -> (r: LaunchArgs)
    ensures
        r.view_args() == parsed_args(string_views(args@), args@.len() as int),
{
    let ghost a = string_views(args@);
    let mut r = LaunchArgs {
        force_debug: 0,
        run_game: false,
        just_run_game: false,
        no_verbose_tracing: false,
        session: None,
        gtk_args: Vec::new(),
    };
    assert(r.view_args() == parsed_args(a, 0)) by {
        assert(string_views(r.gtk_args@) =~= Seq::<Seq<char>>::empty());
    }
    let mut i: usize = 0;
    while i < args.len()
        invariant
            i <= args@.len(),
            a == string_views(args@),
            r.view_args() == parsed_args(a, i as int),
            r.force_debug <= i,
        decreases args@.len() - i,
    {
        let arg = args[i].as_str();
        assert(a[i as int] == arg@);
        if str_eq(arg, "--debug") {
            r.force_debug = r.force_debug + 1;
        } else if str_eq(arg, "--run-game") {
            r.run_game = true;
        } else if str_eq(arg, "--just-run-game") {
            r.just_run_game = true;
        } else if str_eq(arg, "--no-verbose-tracing") {
            r.no_verbose_tracing = true;
        } else if str_eq(arg, "--session") {
            if i + 1 < args.len() {
                r.session = Some(args[i + 1].clone());
            }
        } else {
            let ghost before = string_views(r.gtk_args@);
            r.gtk_args.push(args[i].clone());
            assert(string_views(r.gtk_args@) =~= before.push(arg@));
        }
        i += 1;
    }
    r
}

/// `flag` is among the first `n` arguments.
pub open spec fn given(args: Seq<Seq<char>>, n: int, flag: Seq<char>) -> bool {
    exists|k: int| 0 <= k < n && #[trigger] args[k] == flag
}

/// Each switch of the command line sets its own setting and no other: after
/// the first `n` arguments, `--run-game`, `--just-run-game` and
/// `--no-verbose-tracing` are on exactly when that switch was given, and
/// `--debug` was counted once for each time it was given.
pub proof fn switches_set_their_own_settings(args: Seq<Seq<char>>, n: int)
    requires
        0 <= n <= args.len(),
    ensures
        parsed_args(args, n).run_game <==> given(args, n, "--run-game"@),
        parsed_args(args, n).just_run_game <==> given(args, n, "--just-run-game"@),
        parsed_args(args, n).no_verbose_tracing <==> given(args, n, "--no-verbose-tracing"@),
        parsed_args(args, n).force_debug <= n,
        parsed_args(args, n).force_debug > 0 <==> given(args, n, "--debug"@),
    decreases n,
{
    reveal_strlit("--debug");
    reveal_strlit("--run-game");
    reveal_strlit("--just-run-game");
    reveal_strlit("--no-verbose-tracing");
    reveal_strlit("--session");
    if n > 0 {
        switches_set_their_own_settings(args, n - 1);
        let a = args[n - 1];
        let flags = seq![
            "--debug"@,
            "--run-game"@,
            "--just-run-game"@,
            "--no-verbose-tracing"@,
            "--session"@,
        ];
        assert forall|f: Seq<char>| #[trigger] flags.contains(f) implies (given(args, n, f) <==> (given(
            args,
            n - 1,
            f,
        ) || a == f)) by {
            if given(args, n, f) && !(a == f) {
                let k = choose|k: int| 0 <= k < n && #[trigger] args[k] == f;
                assert(k < n - 1);
            }
            if a == f {
                assert(args[n - 1] == f);
            }
        }
        assert(flags.contains("--debug"@)) by { assert(flags[0] == "--debug"@); }
        assert(flags.contains("--run-game"@)) by { assert(flags[1] == "--run-game"@); }
        assert(flags.contains("--just-run-game"@)) by { assert(flags[2] == "--just-run-game"@); }
        assert(flags.contains("--no-verbose-tracing"@)) by {
            assert(flags[3] == "--no-verbose-tracing"@);
        }
        assert("--debug"@.len() == 7);
        assert("--run-game"@.len() == 10);
        assert("--just-run-game"@.len() == 15);
        assert("--no-verbose-tracing"@.len() == 20);
        assert("--session"@.len() == 9);
    } else {
        assert(!given(args, n, "--run-game"@));
        assert(!given(args, n, "--just-run-game"@));
        assert(!given(args, n, "--no-verbose-tracing"@));
        assert(!given(args, n, "--debug"@));
    }
}

/// How much is logged.
#[derive(Debug, Clone, Copy, PartialEq, Eq, Structural)]
pub enum LogLevel {
    Trace,
    Debug,
    Warn,
}

/// The level of the log on stdout: everything with `--debug` twice, debug
/// output with it once or in a debug build, else warnings only.
pub fn stdout_log_level(force_debug: u64, debug_build: bool) -> (l: LogLevel)
    ensures
        l == (if force_debug >= 2 {
            LogLevel::Trace
        } else if debug_build || force_debug >= 1 {
            LogLevel::Debug
        } else {
            LogLevel::Warn
        }),
{
    if force_debug >= 2 {
        LogLevel::Trace
    } else if debug_build || force_debug >= 1 {
        LogLevel::Debug
    } else {
        LogLevel::Warn
    }
}

/// The level of `debug.log`: everything with `--debug` twice, else debug
/// output.
pub fn debug_file_log_level(force_debug: u64) -> (l: LogLevel)
    ensures
        l == (if force_debug >= 2 {
            LogLevel::Trace
        } else {
            LogLevel::Debug
        }),
{
    if force_debug >= 2 {
        LogLevel::Trace
    } else {
        LogLevel::Debug
    }
}

/// `needle` occurs somewhere in `hay`.
pub open spec fn contains_seq(hay: Seq<char>, needle: Seq<char>) -> bool {
    exists|i: int| 0 <= i <= hay.len() - needle.len() && #[trigger] hay.subrange(i, i + needle.len())
        == needle
}

/// `str::contains` for a string pattern.
pub fn str_contains(hay: &str, needle: &str) -> (b: bool)
    ensures
        b == contains_seq(hay@, needle@),
{
    let h = chars_of(hay);
    let n = chars_of(needle);
    if n.len() > h.len() {
        return false;
    }
    let hl = h.len();
    let nl = n.len();
    let last = hl - nl;
    let mut i: usize = 0;
    loop
        invariant
            h@ == hay@,
            n@ == needle@,
            hl == h@.len(),
            nl == n@.len(),
            last + nl == hl,
            i <= last,
            forall|j: int| 0 <= j < i ==> #[trigger] hay@.subrange(j, j + needle@.len()) != needle@,
        decreases last - i,
    {
        let mut k: usize = 0;
        let mut same = true;
        while k < nl
            invariant
                h@ == hay@,
                n@ == needle@,
                hl == h@.len(),
                nl == n@.len(),
                i <= last,
                last + nl == hl,
                k <= nl,
                same == forall|j: int| 0 <= j < k ==> h@[i + j] == n@[j],
            decreases nl - k,
        {
            if h[i + k] != n[k] {
                same = false;
            }
            k += 1;
        }
        if same {
            assert(hay@.subrange(i as int, i + needle@.len()) =~= needle@);
            return true;
        }
        let ghost w = choose|j: int| 0 <= j < n@.len() && h@[i + j] != n@[j];
        assert(hay@.subrange(i as int, i + needle@.len())[w] != needle@[w]);
        if i == last {
            return false;
        }
        i += 1;
    }
}

/// Log records of the HTTP and TLS libraries are left out of the logs.
pub fn is_noisy_target(target: &str) -> (b: bool)
    ensures
        b == (contains_seq(target@, "rustls"@) || contains_seq(target@, "reqwest"@) || contains_seq(
            target@,
            "h2"@,
        ) || contains_seq(target@, "hyper_util"@)),
{
    str_contains(target, "rustls") || str_contains(target, "reqwest") || str_contains(target, "h2")
        || str_contains(target, "hyper_util")
}

} // verus!
