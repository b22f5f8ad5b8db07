//! Jobs, their variable mappings, and variable substitution into scripts.

use vstd::prelude::*;
use vstd::string::StrSliceExecFns;

verus! {

/// One word of a step's command line: literal text, or a reference to one of
/// the job's variables, substituted when the script is resolved.
#[derive(Clone, Debug)]
pub enum Arg {
    Lit { text: String },
    Var { name: String },
}

/// A unit of work: an identifier, an immutable mapping from variable name to
/// value, an ordered script of commands, and an opaque phase tag that is
/// passed through unchanged.
#[derive(Clone, Debug)]
pub struct Job {
    pub id: u64,
    pub vars: Vec<(String, String)>,
    pub script: Vec<Vec<Arg>>,
    pub phase_tag: String,
}

/// The value bound to `name` among the definitions `vars[i..]`, the earliest
/// definition winning.
pub open spec fn lookup_from(vars: Seq<(String, String)>, name: Seq<char>, i: int) -> Option<
    Seq<char>,
>
    decreases vars.len() - i,
{
    if i < 0 || i >= vars.len() {
        None
    } else if vars[i].0@ == name {
        Some(vars[i].1@)
    } else {
        lookup_from(vars, name, i + 1)
    }
}

/// The value bound to `name` by the definition list `vars`.
pub open spec fn spec_lookup(vars: Seq<(String, String)>, name: Seq<char>) -> Option<Seq<char>> {
    lookup_from(vars, name, 0)
}

/// The text an argument resolves to under the variable mapping `m`;
/// meaningful for a variable reference only when `m` defines it.
pub open spec fn resolved_arg(a: Arg, m: Map<Seq<char>, Seq<char>>) -> Seq<char> {
    match a {
        Arg::Lit { text } => text@,
        Arg::Var { name } => m[name@],
    }
}

/// The name of the first variable referenced by `args[i..]` that `m` does
/// not define.
pub open spec fn cmd_missing_from(args: Seq<Arg>, m: Map<Seq<char>, Seq<char>>, i: int) -> Option<
    Seq<char>,
>
    decreases args.len() - i,
{
    if i < 0 || i >= args.len() {
        None
    } else if args[i] matches Arg::Var { name } && !m.contains_key(name@) {
        Some(args[i]->Var_name@)
    } else {
        cmd_missing_from(args, m, i + 1)
    }
}

/// The name of the first variable referenced by `args` that `m` does not
/// define.
pub open spec fn cmd_missing(args: Seq<Arg>, m: Map<Seq<char>, Seq<char>>) -> Option<Seq<char>> {
    cmd_missing_from(args, m, 0)
}

/// The name of the first variable referenced by `script[i..]` that `m` does
/// not define, scanning commands in order.
pub open spec fn script_missing_from(
    script: Seq<Vec<Arg>>,
    m: Map<Seq<char>, Seq<char>>,
    i: int,
) -> Option<Seq<char>>
    decreases script.len() - i,
{
    if i < 0 || i >= script.len() {
        None
    } else if cmd_missing(script[i]@, m) is Some {
        cmd_missing(script[i]@, m)
    } else {
        script_missing_from(script, m, i + 1)
    }
}

/// The name of the first variable referenced by `script` that `m` does not
/// define.
pub open spec fn script_missing(script: Seq<Vec<Arg>>, m: Map<Seq<char>, Seq<char>>) -> Option<
    Seq<char>,
> {
    script_missing_from(script, m, 0)
}

/// `c` is `args` with every variable substituted under `m`.
pub open spec fn command_resolved(c: Vec<String>, args: Vec<Arg>, m: Map<Seq<char>, Seq<char>>) -> bool {
    &&& c@.len() == args@.len()
    &&& forall|j: int| 0 <= j < args@.len() ==> c@[j]@ == resolved_arg(#[trigger] args@[j], m)
}

/// Decides whether two string slices read the same characters.
pub fn str_eq(a: &str, b: &str) -> (r: bool)
    ensures
        r == (a@ == b@),
{
    let alen = a.unicode_len();
    let blen = b.unicode_len();
    if alen != blen {
        return false;
    }
    let mut i: usize = 0;
    while i < alen
        invariant
            alen == a@.len(),
            blen == b@.len(),
            alen == blen,
            0 <= i <= alen,
            forall|j: int| 0 <= j < i ==> a@[j] == b@[j],
        decreases alen - i,
    {
        if a.get_char(i) != b.get_char(i) {
            assert(a@[i as int] != b@[i as int]);
            return false;
        }
        i += 1;
    }
    proof {
        assert(a@ =~= b@);
    }
    true
}

impl Job {
    /// The job's variable mapping as a map from name to value, the earliest
    /// definition of a name winning.
    pub open spec fn vars_map(&self) -> Map<Seq<char>, Seq<char>> {
        Map::new(
            |name: Seq<char>| spec_lookup(self.vars@, name) is Some,
            |name: Seq<char>| spec_lookup(self.vars@, name)->0,
        )
    }

    /// The name of the first variable the script references that the job
    /// does not define, if any.
    pub open spec fn missing_var(&self) -> Option<Seq<char>> {
        script_missing(self.script@, self.vars_map())
    }

    /// Looks up `name` in the job's variables, earliest definition first.
    pub fn variable<'a>(&'a self, name: &str) -> (r: Option<&'a String>)
        ensures
            match r {
                Some(v) => self.vars_map().contains_key(name@) && v@ == self.vars_map()[name@],
                None => !self.vars_map().contains_key(name@),
            },
    {
        let n = self.vars.len();
        let mut i: usize = 0;
        while i < n
            invariant
                n == self.vars@.len(),
                0 <= i <= n,
                spec_lookup(self.vars@, name@) == lookup_from(self.vars@, name@, i as int),
            decreases n - i,
        {
            if str_eq(self.vars[i].0.as_str(), name) {
                return Some(&self.vars[i].1);
            }
            i += 1;
        }
        None
    }

    /// Substitutes the job's variables into one command; fails with the
    /// first variable name the command references but the job lacks.
    pub fn resolve_command(&self, args: &Vec<Arg>) -> (r: Result<Vec<String>, String>)
        ensures
            match r {
                Ok(c) => cmd_missing(args@, self.vars_map()) is None && command_resolved(
                    c,
                    *args,
                    self.vars_map(),
                ),
                Err(n) => cmd_missing(args@, self.vars_map()) == Some(n@),
            },
    {
        let n = args.len();
        let mut out: Vec<String> = Vec::new();
        let mut i: usize = 0;
        while i < n
            invariant
                n == args@.len(),
                0 <= i <= n,
                out@.len() == i,
                forall|j: int|
                    0 <= j < i ==> out@[j]@ == resolved_arg(#[trigger] args@[j], self.vars_map()),
                cmd_missing(args@, self.vars_map()) == cmd_missing_from(
                    args@,
                    self.vars_map(),
                    i as int,
                ),
            decreases n - i,
        {
            match &args[i] {
                Arg::Lit { text } => {
                    out.push(text.as_str().to_owned());
                },
                Arg::Var { name } => {
                    match self.variable(name.as_str()) {
                        Some(v) => {
                            out.push(v.as_str().to_owned());
                        },
                        None => {
                            return Err(name.as_str().to_owned());
                        },
                    }
                },
            }
            i += 1;
        }
        Ok(out)
    }

    /// Substitutes the job's variables into its whole script; fails with the
    /// first variable name the script references but the job lacks.  Success
    /// is owed exactly when no referenced variable is missing.
    pub fn resolve_script(&self) -> (r: Result<Vec<Vec<String>>, String>)
        ensures
            match r {
                Ok(cs) => self.missing_var() is None && cs@.len() == self.script@.len() && forall|
                    i: int,
                |
                    0 <= i < self.script@.len() ==> command_resolved(
                        #[trigger] cs@[i],
                        self.script@[i],
                        self.vars_map(),
                    ),
                Err(n) => self.missing_var() == Some(n@),
            },
    {
        let n = self.script.len();
        let mut out: Vec<Vec<String>> = Vec::new();
        let mut i: usize = 0;
        while i < n
            invariant
                n == self.script@.len(),
                0 <= i <= n,
                out@.len() == i,
                forall|k: int|
                    0 <= k < i ==> command_resolved(
                        #[trigger] out@[k],
                        self.script@[k],
                        self.vars_map(),
                    ),
                script_missing(self.script@, self.vars_map()) == script_missing_from(
                    self.script@,
                    self.vars_map(),
                    i as int,
                ),
            decreases n - i,
        {
            match self.resolve_command(&self.script[i]) {
                Ok(c) => {
                    out.push(c);
                },
                Err(name) => {
                    return Err(name);
                },
            }
            i += 1;
        }
        Ok(out)
    }
}

} // verus!
