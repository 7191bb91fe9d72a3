//! Finding a script's entry points: its public top-level functions.
use vstd::prelude::*;
use vstd::string::*;
use crate::catalog::strings_view;
use crate::error::PipelineError;

verus! {

/// What the Python parser makes of a module: `None` where the source does not
/// parse, else one entry per top-level statement, holding the name of the
/// function that the statement defines, or `None` for any other statement.
pub uninterp spec fn module_top_level(source: Seq<char>) -> Option<Seq<Option<Seq<char>>>>;

/// The views of a list of top-level statements.
pub open spec fn statements_view(v: Seq<Option<String>>) -> Seq<Option<Seq<char>>> {
    v.map_values(|o: Option<String>|
        match o {
            Some(s) => Some(s@),
            None => None,
        })
}

/// A name that starts with `_` is private and never exported.
pub open spec fn is_private(name: Seq<char>) -> bool {
    name.len() > 0 && name[0] == '_'
}

/// The names of the functions defined among `stmts` that are not private, in
/// the order of their first definition; a function defined again is listed
/// once.
pub open spec fn exported_of(stmts: Seq<Option<Seq<char>>>) -> Seq<Seq<char>>
    decreases stmts.len(),
{
    if stmts.len() == 0 {
        seq![]
    } else {
        let earlier = exported_of(stmts.drop_last());
        match stmts.last() {
            Some(name) => if is_private(name) || earlier.contains(name) {
                earlier
            } else {
                earlier.push(name)
            },
            None => earlier,
        }
    }
}

/// The names of all the functions defined among `stmts`, in source order.
pub open spec fn defined_functions(stmts: Seq<Option<Seq<char>>>) -> Seq<Seq<char>>
    decreases stmts.len(),
{
    if stmts.len() == 0 {
        seq![]
    } else {
        let earlier = defined_functions(stmts.drop_last());
        match stmts.last() {
            Some(name) => earlier.push(name),
            None => earlier,
        }
    }
}

/// Relies on ruff_python_parser::parse_module, which parses a whole module:
/// whether it succeeds, and the statements it yields, depend on the source
/// alone. Each top-level statement is turned into the name of the function it
/// defines (`Stmt::FunctionDef`), or `None`.
#[verifier::external_body]
fn parse_top_level(source: &str) -> (r: Result<Vec<Option<String>>, String>)
    ensures
        match module_top_level(source@) {
            Some(stmts) => r is Ok && statements_view(r->Ok_0@) == stmts,
            None => r is Err,
        },
{
    let parsed = ruff_python_parser::parse_module(source).map_err(|e| e.to_string())?;
    Ok(parsed.into_syntax().body.iter().map(|stmt| match stmt {
        ruff_python_ast::Stmt::FunctionDef(func) => Some(func.name.as_str().to_string()),
        _ => None,
    }).collect())
}

/// Whether `name` starts with `_`.
pub fn name_is_private(name: &str) -> (r: bool)
    ensures
        r == is_private(name@),
{
    name.unicode_len() > 0 && name.get_char(0) == '_'
}

/// Whether two names are the same.
fn same_name(a: &str, b: &str) -> (r: bool)
    ensures
        r == (a@ == b@),
{
    let n = a.unicode_len();
    if n != b.unicode_len() {
        return false;
    }
    let mut i: usize = 0;
    while i < n
        invariant
            n == a@.len(),
            n == b@.len(),
            0 <= i <= n,
            forall|k: int| 0 <= k < i ==> a@[k] == b@[k],
        decreases n - i,
    {
        if a.get_char(i) != b.get_char(i) {
            return false;
        }
        i += 1;
    }
    assert(a@ =~= b@);
    true
}

/// Whether `name` is among `names`.
fn already_listed(names: &Vec<String>, name: &str) -> (r: bool)
    ensures
        r == strings_view(names@).contains(name@),
{
    let mut i: usize = 0;
    while i < names.len()
        invariant
            0 <= i <= names.len(),
            forall|k: int| 0 <= k < i ==> names@[k]@ != name@,
        decreases names.len() - i,
    {
        if same_name(names[i].as_str(), name) {
            assert(strings_view(names@)[i as int] == name@);
            return true;
        }
        i += 1;
    }
    assert forall|k: int| 0 <= k < strings_view(names@).len() implies strings_view(names@)[k]
        != name@ by {
        assert(strings_view(names@)[k] == names@[k]@);
    }
    false
}

/// Keeps the names of the public function definitions among the top-level
/// statements, in order.
pub fn exported_names(stmts: &Vec<Option<String>>) -> (r: Vec<String>)
    ensures
        strings_view(r@) == exported_of(statements_view(stmts@)),
{
    let mut names: Vec<String> = Vec::new();
    let mut i: usize = 0;
    while i < stmts.len()
        invariant
            0 <= i <= stmts.len(),
            strings_view(names@) == exported_of(statements_view(stmts@.subrange(0, i as int))),
        decreases stmts.len() - i,
    {
        let ghost before = names@;
        proof {
            let seen = statements_view(stmts@.subrange(0, i + 1));
            assert(seen.drop_last() =~= statements_view(stmts@.subrange(0, i as int)));
        }
        match &stmts[i] {
            Some(name) => {
                if !name_is_private(name.as_str()) && !already_listed(&names, name.as_str()) {
                    names.push(name.clone());
                    assert(strings_view(names@) =~= strings_view(before).push(name@));
                }
            },
            None => {},
        }
        i += 1;
    }
    assert(stmts@.subrange(0, stmts@.len() as int) =~= stmts@);
    names
}

/// The source's entry points in source order. Fails with `ParseError` where
/// the source does not parse and with `NoExports` where it defines no public
/// top-level function.
pub fn find_exported_functions(source: &str) -> (r: Result<Vec<String>, PipelineError>)
    ensures
        match module_top_level(source@) {
            None => r is Err && r->Err_0 is ParseError,
            Some(stmts) => if exported_of(stmts).len() == 0 {
                r == Err::<Vec<String>, PipelineError>(PipelineError::NoExports)
            } else {
                r is Ok && strings_view(r->Ok_0@) == exported_of(stmts)
            },
        },
        r is Ok ==> strings_view(r->Ok_0@).no_duplicates(),
{
    proof {
        if module_top_level(source@) is Some {
            lemma_exports_unique(module_top_level(source@)->0);
        }
    }
    match parse_top_level(source) {
        Err(message) => Err(PipelineError::ParseError(message)),
        Ok(stmts) => {
            let names = exported_names(&stmts);
            if names.len() == 0 {
                Err(PipelineError::NoExports)
            } else {
                Ok(names)
            }
        },
    }
}

/// No entry point is listed twice.
pub proof fn lemma_exports_unique(stmts: Seq<Option<Seq<char>>>)
    ensures
        exported_of(stmts).no_duplicates(),
    decreases stmts.len(),
{
    if stmts.len() > 0 {
        lemma_exports_unique(stmts.drop_last());
        let earlier = exported_of(stmts.drop_last());
        match stmts.last() {
            Some(name) => {
                if !is_private(name) && !earlier.contains(name) {
                    let all = earlier.push(name);
                    assert forall|i: int, j: int|
                        0 <= i < all.len() && 0 <= j < all.len() && i != j implies all[i]
                        != all[j] by {
                        if j == earlier.len() {
                            assert(all[i] == earlier[i]);
                        } else if i == earlier.len() {
                            assert(all[j] == earlier[j]);
                        }
                    }
                }
            },
            None => {},
        }
    }
}

/// Where no function in a module is private and none is defined twice, the
/// entry points are all its function definitions, in source order.
pub proof fn lemma_all_public_functions_exported(stmts: Seq<Option<Seq<char>>>)
    requires
        forall|i: int| 0 <= i < stmts.len() && stmts[i] is Some ==> !is_private(stmts[i]->0),
        defined_functions(stmts).no_duplicates(),
    ensures
        exported_of(stmts) == defined_functions(stmts),
    decreases stmts.len(),
{
    if stmts.len() > 0 {
        let earlier = stmts.drop_last();
        assert forall|i: int| 0 <= i < earlier.len() && earlier[i] is Some implies !is_private(
            earlier[i]->0,
        ) by {
            assert(earlier[i] == stmts[i]);
        }
        let before = defined_functions(earlier);
        match stmts.last() {
            Some(name) => {
                let all = before.push(name);
                assert forall|i: int, j: int|
                    0 <= i < before.len() && 0 <= j < before.len() && i != j implies before[i]
                    != before[j] by {
                    assert(all[i] == before[i] && all[j] == before[j]);
                }
                lemma_all_public_functions_exported(earlier);
                if before.contains(name) {
                    let k = choose|k: int| 0 <= k < before.len() && before[k] == name;
                    assert(all[k] == all[before.len() as int]);
                }
            },
            None => {
                lemma_all_public_functions_exported(earlier);
            },
        }
        assert(stmts.last() == stmts[stmts.len() - 1]);
    }
}

} // verus!
