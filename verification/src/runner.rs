//! The run-level session: which mode the compiler was started in and which
//! debugging switches are on, together with the decision part of
//! command-line handling. Reading the actual process arguments and files is
//! the caller's business; the decisions here work on plain argument bytes.

use vstd::prelude::*;

use vstd::string::StringSliceAdditionalSpecFns;

use crate::binary::spec_byte_views;
use crate::util::eq_str;

verus! {

/// Raw option bits handed over by the command line.
#[derive(Debug, Clone, Copy, PartialEq, Eq, Structural)]
pub struct Options {
    pub flags: u8,
}

/// The named bits of [`Options`].
pub struct Flags;

impl Flags {
    pub const TREE_FULL_BACKTRACE: u8 = 1;

    pub const DEBUG_MODE: u8 = 2;

    pub const RELEASE_MODE: u8 = 4;
}

/// The run-level mode bit for a full backtrace of the tree.
pub const FULL_BACKTRACE_TREE: u16 = 1;

/// The run-level mode bit for debug mode.
pub const DEBUG_MODE: u16 = 2;

/// The run-level mode bit for build mode.
pub const BUILD_MODE: u16 = 4;

/// The run-level mode bit for compile mode.
pub const COMPILE_MODE: u16 = 8;

/// The state one compiler run carries: its mode flags.
#[derive(Debug, Clone, Copy, PartialEq, Eq, Structural)]
pub struct Session {
    pub flags: u16,
}

impl Session {
    /// A fresh run with no mode chosen yet.
    pub fn new() -> (r: Session)
        ensures
            r.flags == 0,
    {
        Session { flags: 0 }
    }

    pub fn set_full_tree_backtrace(&mut self)
        ensures
            final(self).flags == (old(self).flags | FULL_BACKTRACE_TREE),
    {
        self.flags = self.flags | FULL_BACKTRACE_TREE;
    }

    pub fn set_debug_mode(&mut self)
        ensures
            final(self).flags == (old(self).flags | DEBUG_MODE),
    {
        self.flags = self.flags | DEBUG_MODE;
    }

    pub fn set_compile_mode_flag(&mut self)
        ensures
            final(self).flags == (old(self).flags | COMPILE_MODE),
    {
        self.flags = self.flags | COMPILE_MODE;
    }

    pub fn has_compile_mode_flag_set(&self) -> (r: bool)
        ensures
            r == (self.flags & COMPILE_MODE != 0),
    {
        self.flags & COMPILE_MODE != 0
    }

    pub fn set_build_mode_flag(&mut self)
        ensures
            final(self).flags == (old(self).flags | BUILD_MODE),
    {
        self.flags = self.flags | BUILD_MODE;
    }

    pub fn has_build_mode_flag_set(&self) -> (r: bool)
        ensures
            r == (self.flags & BUILD_MODE != 0),
    {
        self.flags & BUILD_MODE != 0
    }

    pub fn has_debug_mode_enabled(&self) -> (r: bool)
        ensures
            r == (self.flags & DEBUG_MODE != 0),
    {
        self.flags & DEBUG_MODE != 0
    }

    pub fn has_full_tree_backtrace_set(&self) -> (r: bool)
        ensures
            r == (self.flags & FULL_BACKTRACE_TREE != 0),
    {
        self.flags & FULL_BACKTRACE_TREE != 0
    }
}

/// What the command line asked for.
#[derive(Debug)]
pub enum Response {
    Help,
    Version,
    Run { file_name: Vec<u8> },
    Build,
}

/// One option word enables the full tree backtrace.
pub open spec fn spec_is_fbt_word(a: Seq<u8>) -> bool {
    a == "-fbt".spec_bytes() || a == "--set-full-backtrace".spec_bytes()
}

/// One option word enables debug mode.
pub open spec fn spec_is_dbg_word(a: Seq<u8>) -> bool {
    a == "-dbg".spec_bytes() || a == "--debug".spec_bytes()
}

/// The flags after applying the chosen option switches.
pub open spec fn spec_apply_opts(f: u16, fbt: bool, dbg: bool) -> u16 {
    let f1 = if fbt {
        f | FULL_BACKTRACE_TREE
    } else {
        f
    };
    if dbg {
        f1 | DEBUG_MODE
    } else {
        f1
    }
}

/// Folds the option words after the file name: each switch may appear at
/// most once, and an unknown word fails the whole command line.
pub open spec fn spec_fold_opts(args: Seq<Seq<u8>>, i: int, fbt: bool, dbg: bool) -> Option<
    (bool, bool),
>
    decreases args.len() - i,
    when i >= 0
{
    if i >= args.len() {
        Some((fbt, dbg))
    } else if spec_is_fbt_word(args[i]) {
        if fbt {
            None
        } else {
            spec_fold_opts(args, i + 1, true, dbg)
        }
    } else if spec_is_dbg_word(args[i]) {
        if dbg {
            None
        } else {
            spec_fold_opts(args, i + 1, fbt, true)
        }
    } else {
        None
    }
}

/// Decides what a command line means, given the arguments after the
/// program name. `compile FILE [OPTIONS]` selects compile mode and applies
/// the option switches; `build` selects build mode; `--help` and
/// `--version` ask for the fixed outputs. Anything else, a missing file
/// name, a repeated switch or an unknown switch is an error.
pub fn parse_command_line_args(args: &Vec<Vec<u8>>, session: &mut Session) -> (r: Result<
    Response,
    &'static str,
>)
    ensures
        ({
            let vs = spec_byte_views(args@);
            if vs.len() == 0 {
                r is Err && *final(session) == *old(session)
            } else if vs[0] == "--help".spec_bytes() {
                (r matches Ok(resp) && resp is Help) && *final(session) == *old(session)
            } else if vs[0] == "--version".spec_bytes() {
                (r matches Ok(resp) && resp is Version) && *final(session) == *old(session)
            } else if vs[0] == "build".spec_bytes() {
                (r matches Ok(resp) && resp is Build) && final(session).flags == (old(
                    session,
                ).flags | BUILD_MODE)
            } else if vs[0] == "compile".spec_bytes() {
                if vs.len() < 2 {
                    r is Err && *final(session) == *old(session)
                } else {
                    match spec_fold_opts(vs, 2, false, false) {
                        Some(opts) => (r matches Ok(resp) && (resp matches Response::Run {
                            file_name,
                        } && file_name@ == vs[1])) && final(session).flags == spec_apply_opts(
                            old(session).flags | COMPILE_MODE,
                            opts.0,
                            opts.1,
                        ),
                        None => r is Err,
                    }
                }
            } else {
                r is Err && *final(session) == *old(session)
            }
        }),
{
    let ghost vs = spec_byte_views(args@);
    if args.len() == 0 {
        return Err("not enough arguments");
    }
    let head = args[0].as_slice();
    proof {
        assert(vs[0] == args@[0]@);
    }
    if eq_str(head, "--help") {
        return Ok(Response::Help);
    }
    if eq_str(head, "--version") {
        return Ok(Response::Version);
    }
    if eq_str(head, "build") {
        session.set_build_mode_flag();
        return Ok(Response::Build);
    }
    if eq_str(head, "compile") {
        if args.len() < 2 {
            return Err("compile needs a file name");
        }
        let file_name = vstd::slice::slice_to_vec(args[1].as_slice());
        match parse_options(args, 2) {
            Some((fbt, dbg)) => {
                session.set_compile_mode_flag();
                if fbt {
                    session.set_full_tree_backtrace();
                }
                if dbg {
                    session.set_debug_mode();
                }
                proof {
                    assert(vs[1] == args@[1]@);
                }
                return Ok(Response::Run { file_name });
            },
            None => {
                return Err("bad option switches");
            },
        }
    }
    Err("not a recognized command")
}

/// Folds the option words after the file name into the two switches they
/// may enable; a repeated or unknown word fails.
pub fn parse_options(args: &Vec<Vec<u8>>, from: usize) -> (r: Option<(bool, bool)>)
    requires
        from <= args@.len(),
    ensures
        r == spec_fold_opts(spec_byte_views(args@), from as int, false, false),
{
    let ghost vs = spec_byte_views(args@);
    let n = args.len();
    let mut fbt = false;
    let mut dbg = false;
    let mut i = from;
    while i < n
        invariant
            from <= i <= n,
            n == args@.len(),
            vs == spec_byte_views(args@),
            spec_fold_opts(vs, from as int, false, false) == spec_fold_opts(
                vs,
                i as int,
                fbt,
                dbg,
            ),
        decreases n - i,
    {
        let a = args[i].as_slice();
        proof {
            assert(vs[i as int] == args@[i as int]@);
        }
        if eq_str(a, "-fbt") || eq_str(a, "--set-full-backtrace") {
            if fbt {
                return None;
            }
            fbt = true;
        } else if eq_str(a, "-dbg") || eq_str(a, "--debug") {
            if dbg {
                return None;
            }
            dbg = true;
        } else {
            return None;
        }
        i = i + 1;
    }
    Some((fbt, dbg))
}

} // verus!
