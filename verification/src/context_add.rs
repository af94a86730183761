//! The context `add` command: its arguments and every decision and
//! message it computes. Reading the conversation state and writing to
//! the terminal stay with the caller; this module validates the request
//! and produces the exact texts the command prints.

use vstd::prelude::*;
use vstd::string::StringExecFns;

verus! {

/// Decimal digit characters.
pub open spec fn digit_seq(d: int) -> Seq<char> {
    if d == 0 {
        "0"@
    } else if d == 1 {
        "1"@
    } else if d == 2 {
        "2"@
    } else if d == 3 {
        "3"@
    } else if d == 4 {
        "4"@
    } else if d == 5 {
        "5"@
    } else if d == 6 {
        "6"@
    } else if d == 7 {
        "7"@
    } else if d == 8 {
        "8"@
    } else {
        "9"@
    }
}

/// The decimal representation of a number, most significant digit first.
pub open spec fn dec_rep(n: int) -> Seq<char>
    decreases n,
{
    if n < 10 {
        digit_seq(n)
    } else {
        dec_rep(n / 10) + digit_seq(n % 10)
    }
}

/// Writes `n` in decimal.
pub fn usize_to_decimal(n: usize) -> (r: String)
    ensures
        r@ == dec_rep(n as int),
    decreases n,
{
    if n >= 10 {
        let mut prefix = usize_to_decimal(n / 10);
        append_digit(&mut prefix, n % 10);
        prefix
    } else {
        let mut s = String::new();
        append_digit(&mut s, n);
        proof {
            assert(Seq::<char>::empty() + digit_seq(n as int) =~= digit_seq(n as int));
        }
        s
    }
}

/// Appends one digit character.
fn append_digit(s: &mut String, d: usize)
    requires
        d < 10,
    ensures
        final(s)@ == old(s)@ + digit_seq(d as int),
{
    if d == 0 {
        s.append("0");
    } else if d == 1 {
        s.append("1");
    } else if d == 2 {
        s.append("2");
    } else if d == 3 {
        s.append("3");
    } else if d == 4 {
        s.append("4");
    } else if d == 5 {
        s.append("5");
    } else if d == 6 {
        s.append("6");
    } else if d == 7 {
        s.append("7");
    } else if d == 8 {
        s.append("8");
    } else {
        s.append("9");
    }
}

/// Handler for the context add command.
pub struct AddContextCommand {
    global: bool,
    force: bool,
    paths: Vec<String>,
}

impl AddContextCommand {
    /// Whether the paths go to the global context.
    pub closed spec fn spec_global(&self) -> bool {
        self.global
    }

    /// Whether size limits are overridden.
    pub closed spec fn spec_force(&self) -> bool {
        self.force
    }

    /// The paths to add.
    pub closed spec fn spec_paths(&self) -> Seq<Seq<char>> {
        self.paths@.map_values(|p: String| p@)
    }

    /// Builds the command from its parsed flags and path arguments.
    pub fn new(global: bool, force: bool, paths: Vec<&str>) -> (r: AddContextCommand)
        ensures
            r.spec_global() == global,
            r.spec_force() == force,
            r.spec_paths() == paths@.map_values(|p: &str| p@),
    {
        let mut owned: Vec<String> = Vec::new();
        let n = paths.len();
        let mut i: usize = 0;
        while i < n
            invariant
                n == paths@.len(),
                i <= n,
                owned@.len() == i,
                forall|j: int| 0 <= j < i ==> #[trigger] owned@[j]@ == paths@[j]@,
            decreases n - i,
        {
            owned.push(String::from_str(paths[i]));
            i = i + 1;
        }
        let r = AddContextCommand { global, force, paths: owned };
        proof {
            assert(r.spec_paths() =~= paths@.map_values(|p: &str| p@));
        }
        r
    }

    /// The command's name.
    pub fn name(&self) -> (r: &'static str)
        ensures
            r@ == "add"@,
    {
        "add"
    }

    /// A one-line description.
    pub fn description(&self) -> (r: &'static str)
        ensures
            r@ == "Add file(s) to context"@,
    {
        "Add file(s) to context"
    }

    /// The usage line.
    pub fn usage(&self) -> (r: &'static str)
        ensures
            r@ == "/context add [--global] [--force] <path1> [path2...]"@,
    {
        "/context add [--global] [--force] <path1> [path2...]"
    }

    /// The help text.
    pub fn help(&self) -> (r: String)
        ensures
            r@
                == "Add files to the context. Use --global to add to global context (available in all profiles). Use --force to add files even if they exceed size limits."@,
    {
        String::from_str(
            "Add files to the context. Use --global to add to global context (available in all profiles). Use --force to add files even if they exceed size limits.",
        )
    }

    /// Adding context files doesn't require confirmation.
    pub fn requires_confirmation(&self, _args: &Vec<&str>) -> (r: bool)
        ensures
            r == false,
    {
        false
    }

    /// The validation the command performs before touching any state:
    /// at least one path must be given. Fails exactly on an empty path
    /// list, with the usage message.
    pub fn validate(&self) -> (r: Result<(), String>)
        ensures
            r is Err <==> self.spec_paths().len() == 0,
            r matches Err(e) ==> e@ == "No paths specified. Usage: "@
                + "/context add [--global] [--force] <path1> [path2...]"@,
    {
        if self.paths.len() == 0 {
            let mut msg = String::from_str("No paths specified. Usage: ");
            msg.append(self.usage());
            Err(msg)
        } else {
            Ok(())
        }
    }

    /// The scope word used in the success message.
    pub fn scope(&self) -> (r: &'static str)
        ensures
            self.spec_global() ==> r@ == "global"@,
            !self.spec_global() ==> r@ == "profile"@,
    {
        if self.global {
            "global"
        } else {
            "profile"
        }
    }

    /// The message printed when the paths were added: the path count,
    /// then the scope the paths went to.
    pub fn success_message(&self) -> (r: String)
        ensures
            r@ == "Added "@ + dec_rep(self.spec_paths().len() as int) + " file(s) to "@ + (
            if self.spec_global() {
                "global"@
            } else {
                "profile"@
            }) + " context\n"@,
    {
        let mut msg = String::from_str("Added ");
        let count = usize_to_decimal(self.paths.len());
        msg.append(count.as_str());
        msg.append(" file(s) to ");
        msg.append(self.scope());
        msg.append(" context\n");
        msg
    }
}

} // verus!
