//! Global command-line options, taken out of the argument list before the
//! command is dispatched.
use vstd::prelude::*;
use crate::text::{has_prefix, starts_with, same_text, views};

verus! {

/// The argument list with the global options taken out.
#[derive(Debug, Clone, PartialEq, Eq)]
pub struct ParsedGlobalOptions {
    pub command_args: Vec<String>,
    pub debug_enabled: bool,
    pub log_file_path: Option<String>,
}

/// The mathematical content of `ParsedGlobalOptions`.
pub struct OptionsView {
    pub command_args: Seq<Seq<char>>,
    pub debug_enabled: bool,
    pub log_file_path: Option<Seq<char>>,
}

impl View for ParsedGlobalOptions {
    type V = OptionsView;

    open spec fn view(&self) -> OptionsView {
        OptionsView {
            command_args: views(self.command_args@),
            debug_enabled: self.debug_enabled,
            log_file_path: match self.log_file_path {
                Some(p) => Some(p@),
                None => None,
            },
        }
    }
}

/// The words that name a command (or a help or version flag).
pub open spec fn known_root_command(a: Seq<char>) -> bool {
    ||| a == "backup"@
    ||| a == "restore"@
    ||| a == "list"@
    ||| a == "status"@
    ||| a == "install"@
    ||| a == "uninstall"@
    ||| a == "schedule"@
    ||| a == "feedback"@
    ||| a == "help"@
    ||| a == "version"@
    ||| a == "-h"@
    ||| a == "--help"@
    ||| a == "-v"@
    ||| a == "--version"@
}

/// The log file used when `--log-file` is given without a path.
pub open spec fn default_log_file() -> Seq<char> {
    "zen-backup-debug.log"@
}

/// The options read from `args[i..]`, on top of what `acc` already holds.
/// `--debug` turns debugging on; `--log-file` takes the next argument as its
/// path unless that one starts with `-` or names a command, in which case
/// the default log file is used; every other argument is kept, in order.
pub open spec fn options_from(args: Seq<Seq<char>>, i: int, acc: OptionsView) -> OptionsView
    decreases args.len() - i,
{
    if i < 0 || i >= args.len() {
        acc
    } else if args[i] == "--debug"@ {
        options_from(args, i + 1, OptionsView { debug_enabled: true, ..acc })
    } else if args[i] == "--log-file"@ {
        if i + 1 < args.len() && !has_prefix(args[i + 1], "-"@) && !known_root_command(args[i + 1]) {
            options_from(args, i + 2, OptionsView { log_file_path: Some(args[i + 1]), ..acc })
        } else {
            options_from(args, i + 1, OptionsView { log_file_path: Some(default_log_file()), ..acc })
        }
    } else {
        options_from(args, i + 1, OptionsView { command_args: acc.command_args.push(args[i]), ..acc })
    }
}

/// The options read from a whole argument list.
pub open spec fn global_options(args: Seq<Seq<char>>) -> OptionsView {
    options_from(
        args,
        0,
        OptionsView { command_args: Seq::empty(), debug_enabled: false, log_file_path: None },
    )
}

fn is_known_root_command(a: &str) -> (r: bool)
    ensures
        r == known_root_command(a@),
{
    same_text(a, "backup") || same_text(a, "restore") || same_text(a, "list") || same_text(a, "status")
        || same_text(a, "install") || same_text(a, "uninstall") || same_text(a, "schedule")
        || same_text(a, "feedback") || same_text(a, "help") || same_text(a, "version") || same_text(
        a,
        "-h",
    ) || same_text(a, "--help") || same_text(a, "-v") || same_text(a, "--version")
}

/// Takes `--debug` and `--log-file [path]` out of the argument list.
pub fn parse_global_options(args: Vec<String>) -> (r: ParsedGlobalOptions)
    ensures
        r@ == global_options(views(args@)),
{
    let ghost a = views(args@);
    let mut command_args: Vec<String> = Vec::new();
    let mut debug_enabled = false;
    let mut log_file_path: Option<String> = None;
    let mut i: usize = 0;
    proof {
        assert(views(command_args@) =~= Seq::<Seq<char>>::empty());
        assert(a.len() == args@.len());
    }
    while i < args.len()
        invariant
            a == views(args@),
            a.len() == args@.len(),
            i <= args.len(),
            global_options(a) == options_from(
                a,
                i as int,
                (ParsedGlobalOptions { command_args, debug_enabled, log_file_path })@,
            ),
        decreases args.len() - i,
    {
        let ghost before = (ParsedGlobalOptions { command_args, debug_enabled, log_file_path })@;
        proof {
            assert(args@[i as int]@ == a[i as int]);
        }
        let arg = args[i].as_str();
        if same_text(arg, "--debug") {
            debug_enabled = true;
            i += 1;
            proof {
                assert((ParsedGlobalOptions { command_args, debug_enabled, log_file_path })@ =~= OptionsView {
                    debug_enabled: true,
                    ..before
                });
            }
        } else if same_text(arg, "--log-file") {
            let mut taken_next = false;
            if i + 1 < args.len() {
                proof {
                    assert(args@[i + 1]@ == a[i + 1]);
                }
                let next = args[i + 1].as_str();
                if !starts_with(next, "-") && !is_known_root_command(next) {
                    log_file_path = Some(args[i + 1].clone());
                    taken_next = true;
                }
            }
            if taken_next {
                i += 2;
            } else {
                log_file_path = Some(String::from_str("zen-backup-debug.log"));
                i += 1;
            }
        } else {
            command_args.push(args[i].clone());
            i += 1;
            proof {
                assert(views(command_args@) =~= before.command_args.push(a[i - 1]));
            }
        }
    }
    ParsedGlobalOptions { command_args, debug_enabled, log_file_path }
}

} // verus!
