//! The decisions of the command-line program: which case and which engine the
//! arguments select, what a usage message lists, and the rendering of a case.
use vstd::prelude::*;

use crate::bench::Benchmark;
use crate::data::default_table;
use crate::data::default_teams;
use crate::data::BigTable;
use crate::data::Teams;
use crate::output::Output;

verus! {

/// An input of the benchmark.
pub enum Case {
    BigTable(BigTable),
    Teams(Teams),
}

/// Why the program's arguments were refused.
#[derive(Debug)]
pub enum ArgsError {
    /// The arguments are not `<case> <tmpl>`; holds the program's name.
    Usage(String),
    /// The case is unknown; holds the case.
    Case(String),
    /// The template engine is unknown; holds its name.
    Tmpl(String),
}

/// `<str as PartialEq>::eq` (std): equal exactly when the characters are.
#[verifier::external_body]
fn str_eq(a: &str, b: &str) -> (r: bool)
    ensures
        r == (a@ == b@),
{
    a == b
}

impl Case {
    /// Reads the name of a case: `big-table` or `teams`.
    pub fn try_from(case: String) -> (r: Result<Case, ArgsError>)
        ensures
            case@ == "big-table"@ ==> (r matches Ok(Case::BigTable(t)) && t@ == default_table()),
            case@ == "teams"@ ==> (r matches Ok(Case::Teams(t)) && t@ == default_teams()),
            case@ != "big-table"@ && case@ != "teams"@ ==> (r matches Err(ArgsError::Case(s))
                && s@ == case@),
    {
        proof {
            reveal_strlit("big-table");
            reveal_strlit("teams");
            assert("big-table"@.len() != "teams"@.len());
        }
        if str_eq(case.as_str(), "big-table") {
            Ok(Case::BigTable(BigTable::default()))
        } else if str_eq(case.as_str(), "teams") {
            Ok(Case::Teams(Teams::default()))
        } else {
            Err(ArgsError::Case(case))
        }
    }
}


/// The name of the case that `case` holds, with its input the default one.
pub open spec fn case_is(case: Case, name: Seq<char>) -> bool {
    match case {
        Case::BigTable(t) => name == "big-table"@ && t@ == default_table(),
        Case::Teams(t) => name == "teams"@ && t@ == default_teams(),
    }
}

/// The names of the known cases.
pub open spec fn known_case(name: Seq<char>) -> bool {
    name == "big-table"@ || name == "teams"@
}

/// The argument at position `i`, or the empty text where there is none.
pub open spec fn arg_at(args: Seq<String>, i: int) -> Seq<char> {
    if 0 <= i < args.len() {
        args[i]@
    } else {
        Seq::empty()
    }
}

/// The arguments are not exactly a program name, a case and an engine.
pub open spec fn usage_refused(args: Seq<String>) -> bool {
    arg_at(args, 1).len() == 0 || arg_at(args, 2).len() == 0 || args.len() > 3
}

/// The program's name as a usage message shows it.
pub open spec fn program_name(args: Seq<String>) -> Seq<char> {
    if arg_at(args, 0).len() == 0 {
        "template-benchmark"@
    } else {
        arg_at(args, 0)
    }
}

/// The characters of each name.
pub open spec fn names_view(names: Seq<&str>) -> Seq<Seq<char>> {
    names.map_values(|n: &str| n@)
}

/// `i` is the first position of `name` among `names`.
pub open spec fn first_position(names: Seq<Seq<char>>, name: Seq<char>, i: int) -> bool {
    &&& 0 <= i < names.len()
    &&& names[i] == name
    &&& forall|j: int| 0 <= j < i ==> names[j] != name
}

/// Reads the program's arguments (its name, a case, an engine) against the
/// names of the available engines: the position of the engine and the case.
pub fn select(args: &Vec<String>, names: &[&str]) -> (r: Result<(usize, Case), ArgsError>)
    ensures
        usage_refused(args@) ==> (r matches Err(ArgsError::Usage(s)) && s@ == program_name(
            args@,
        )),
        !usage_refused(args@) && !names_view(names@).contains(arg_at(args@, 2)) ==> (r matches Err(
            ArgsError::Tmpl(s),
        ) && s@ == arg_at(args@, 2)),
        !usage_refused(args@) && names_view(names@).contains(arg_at(args@, 2)) && !known_case(
            arg_at(args@, 1),
        ) ==> (r matches Err(ArgsError::Case(s)) && s@ == arg_at(args@, 1)),
        !usage_refused(args@) && names_view(names@).contains(arg_at(args@, 2)) && known_case(
            arg_at(args@, 1),
        ) ==> r is Ok,
        r matches Ok((i, c)) ==> {
            &&& first_position(names_view(names@), arg_at(args@, 2), i as int)
            &&& case_is(c, arg_at(args@, 1))
        },
{
    let exe: String = if args.len() > 0 {
        args[0].clone()
    } else {
        String::new()
    };
    let case: String = if args.len() > 1 {
        args[1].clone()
    } else {
        String::new()
    };
    let tmpl: String = if args.len() > 2 {
        args[2].clone()
    } else {
        String::new()
    };
    if case.as_str().is_empty() || tmpl.as_str().is_empty() || args.len() > 3 {
        if exe.as_str().is_empty() {
            return Err(ArgsError::Usage("template-benchmark".to_owned()));
        } else {
            return Err(ArgsError::Usage(exe));
        }
    }
    let ghost nv = names_view(names@);
    let mut found: Option<usize> = None;
    let mut i: usize = 0;
    while i < names.len()
        invariant
            i <= names@.len(),
            nv == names_view(names@),
            nv.len() == names@.len(),
            found is None ==> forall|j: int| 0 <= j < i ==> nv[j] != tmpl@,
            found matches Some(k) ==> first_position(nv, tmpl@, k as int),
        decreases names@.len() - i,
    {
        if found.is_none() && str_eq(names[i], tmpl.as_str()) {
            found = Some(i);
        }
        i += 1;
    }
    match found {
        None => {
            assert(!nv.contains(tmpl@));
            Err(ArgsError::Tmpl(tmpl))
        },
        Some(k) => {
            assert(nv.contains(tmpl@)) by {
                assert(nv[k as int] == tmpl@);
            }
            let c = Case::try_from(case)?;
            Ok((k, c))
        },
    }
}

/// A usage message's list of engines, cut after a number of names.
pub struct Tmpls(pub usize);

/// The entry of the name at `idx` in a list: separated by ` | ` from the one before.
pub open spec fn name_entry(names: Seq<Seq<char>>, idx: int) -> Seq<char> {
    if idx == 0 {
        names[0]
    } else {
        " | "@ + names[idx]
    }
}

/// The names from position `idx` on, each with its separator; once `limit`
/// names are listed the rest become `...`.
pub open spec fn tmpls_text(names: Seq<Seq<char>>, limit: int, idx: int) -> Seq<char>
    decreases names.len() - idx,
{
    if idx >= names.len() || idx < 0 {
        Seq::empty()
    } else if idx >= limit {
        "..."@
    } else {
        name_entry(names, idx) + tmpls_text(names, limit, idx + 1)
    }
}

impl Tmpls {
    /// The names separated by ` | `; after `self.0` of them, `...` stands for
    /// the rest.
    pub fn text(&self, names: &[&str]) -> (s: String)
        ensures
            s@ == tmpls_text(names_view(names@), self.0 as int, 0),
    {
        let ghost nv = names_view(names@);
        let mut out = String::new();
        let mut idx: usize = 0;
        while idx < names.len()
            invariant
                idx <= names@.len(),
                nv == names_view(names@),
                nv.len() == names@.len(),
                out@ + tmpls_text(nv, self.0 as int, idx as int) == tmpls_text(nv, self.0 as int, 0),
            decreases names@.len() - idx,
        {
            if idx >= self.0 {
                out.append("...");
                assert(out@ == tmpls_text(nv, self.0 as int, 0));
                return out;
            }
            let ghost before = out@;
            if idx == 0 {
                out.append(names[idx]);
            } else {
                out.append(" | ");
                out.append(names[idx]);
            }
            assert(out@ == before + name_entry(nv, idx as int));
            assert(before + tmpls_text(nv, self.0 as int, idx as int) == out@ + tmpls_text(
                nv,
                self.0 as int,
                idx + 1,
            ));
            idx += 1;
        }
        assert(out@ == tmpls_text(nv, self.0 as int, 0));
        out
    }
}

/// Renders the input of `case` with the engine `bench` into `output`.
pub fn render_case<B: Benchmark>(bench: &mut B, output: &mut B::Output, case: &Case) -> (r: Result<
    (),
    B::Error,
>)
    ensures
        B::never_fails() ==> r is Ok,
        r is Ok ==> match case {
            Case::BigTable(t) => final(output).written() == B::big_table_written(
                old(output).written(),
                t@,
            ),
            Case::Teams(t) => final(output).written() == B::teams_written(
                old(output).written(),
                t@,
            ),
        },
{
    match case {
        Case::Teams(input) => bench.teams(output, input),
        Case::BigTable(input) => bench.big_table(output, input),
    }
}

} // verus!
