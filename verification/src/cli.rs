//! The command line's own logic: which administrator command runs, where the
//! log directory is, and how accounts are listed.

use vstd::prelude::*;

use crate::admins::AdminRecord;
use crate::config::{config_path, resolve_config_path};
use crate::text::{concat, concat3, push_char, str_eq};

verus! {

/// A subcommand; without one the server runs.
#[derive(Debug)]
pub enum Command {
    /// Manage local administrator accounts.
    Admin { command: AdminCommand },
}

/// An administrator subcommand.
#[derive(Debug)]
pub enum AdminCommand {
    /// Create an administrator account.
    Create { username: String },
    /// List administrator accounts.
    List,
}

/// The administrator command a subcommand runs.
pub fn run_command(command: Command) -> (r: AdminCommand)
    ensures
        match command {
            Command::Admin { command: c } => r == c,
        },
{
    match command {
        Command::Admin { command } => command,
    }
}

/// Checks that a new password was typed the same way twice.
pub fn confirm_password(password: &str, confirmation: &str) -> (r: Result<(), String>)
    ensures
        match r {
            Ok(()) => password@ == confirmation@,
            Err(m) => password@ != confirmation@ && m@ == "passwords do not match"@,
        },
{
    if str_eq(password, confirmation) {
        Ok(())
    } else {
        Err("passwords do not match".to_owned())
    }
}

/// What `admin create` prints once the account exists.
pub fn created_message(username: &str) -> (r: String)
    ensures
        r@ == "Created administrator '"@ + username@ + "'."@,
{
    concat3("Created administrator '", username, "'.")
}

/// The log directory: the configured one when it is absolute, else the
/// configured one under the configuration directory.
pub fn resolve_log_dir(config_dir: &str, configured_log_dir: &str) -> (r: String)
    ensures
        r@ == config_path(config_dir@, configured_log_dir@),
{
    resolve_config_path(config_dir, configured_log_dir)
}

// ---------------------------------------------------------------------------
// Listing accounts
// ---------------------------------------------------------------------------

/// `s` padded with spaces on the right to `width` characters.
pub open spec fn pad(s: Seq<char>, width: nat) -> Seq<char> {
    if s.len() >= width {
        s
    } else {
        s + Seq::new((width - s.len()) as nat, |i: int| ' ')
    }
}

/// The width of the name column: the longest name, and at least the
/// header's eight characters.
pub open spec fn name_width(admins: Seq<AdminRecord>) -> nat
    decreases admins.len(),
{
    if admins.len() == 0 {
        8
    } else {
        let rest = name_width(admins.drop_last());
        let n = admins.last().username@.len();
        if n > rest {
            n
        } else {
            rest
        }
    }
}

pub open spec fn status_text(a: AdminRecord) -> Seq<char> {
    if a.enabled {
        "enabled"@
    } else {
        "disabled"@
    }
}

/// One account's line.
pub open spec fn admin_line(a: AdminRecord, width: nat) -> Seq<char> {
    pad(a.username@, width) + "  "@ + pad(status_text(a), 8) + "  "@ + a.created_at@
}

/// The lines `admin list` prints: a message when there are no accounts,
/// else a header and one aligned line per account, in order.
pub open spec fn admin_table_lines(admins: Seq<AdminRecord>) -> Seq<Seq<char>> {
    if admins.len() == 0 {
        seq!["No administrator accounts found."@]
    } else {
        let width = name_width(admins);
        seq![pad("USERNAME"@, width) + "  "@ + pad("STATUS"@, 8) + "  CREATED_AT"@] + admins.map_values(
            |a: AdminRecord| admin_line(a, width),
        )
    }
}

fn padded(s: &str, width: usize) -> (r: String)
    ensures
        r@ == pad(s@, width as nat),
{
    let mut r = s.to_owned();
    let n = s.unicode_len();
    if n >= width {
        return r;
    }
    let mut i = n;
    while i < width
        invariant
            n == s@.len(),
            n <= i <= width,
            r@ == s@ + Seq::new((i - n) as nat, |k: int| ' '),
        decreases width - i,
    {
        push_char(&mut r, ' ');
        assert(r@ =~= s@ + Seq::new((i + 1 - n) as nat, |k: int| ' '));
        i = i + 1;
    }
    r
}

/// The lines `admin list` prints for these accounts.
pub fn admin_table(admins: &[AdminRecord]) -> (r: Vec<String>)
    ensures
        r@.len() == admin_table_lines(admins@).len(),
        forall|i: int| 0 <= i < r@.len() ==> (#[trigger] r@[i])@ == admin_table_lines(admins@)[i],
{
    let mut lines: Vec<String> = Vec::new();
    if admins.len() == 0 {
        lines.push("No administrator accounts found.".to_owned());
        return lines;
    }
    let mut width: usize = 8;
    for i in 0..admins.len()
        invariant
            width == name_width(admins@.take(i as int)),
    {
        assert(admins@.take(i + 1).drop_last() =~= admins@.take(i as int));
        let n = admins[i].username.unicode_len();
        if n > width {
            width = n;
        }
    }
    assert(admins@.take(admins@.len() as int) =~= admins@);
    let name = padded("USERNAME", width);
    let status = padded("STATUS", 8);
    let a = concat3(name.as_str(), "  ", status.as_str());
    lines.push(concat(a.as_str(), "  CREATED_AT"));
    let ghost expected = admin_table_lines(admins@);
    for i in 0..admins.len()
        invariant
            width == name_width(admins@),
            admins@.len() > 0,
            expected == admin_table_lines(admins@),
            lines@.len() == i + 1,
            forall|j: int| 0 <= j < lines@.len() ==> (#[trigger] lines@[j])@ == expected[j],
    {
        let admin = &admins[i];
        let name = padded(admin.username.as_str(), width);
        let status_word: &str = if admin.enabled {
            "enabled"
        } else {
            "disabled"
        };
        let status = padded(status_word, 8);
        let left = concat3(name.as_str(), "  ", status.as_str());
        let line = concat3(left.as_str(), "  ", admin.created_at.as_str());
        assert(line@ == admin_line(admins@[i as int], width as nat));
        lines.push(line);
    }
    lines
}

} // verus!
