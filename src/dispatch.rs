//! The routing code appended to a contract's source: an `if`/`elif` chain
//! that calls the entry point named by the runtime-supplied `_method`.
use vstd::prelude::*;
use vstd::string::*;
use crate::catalog::strings_view;
use crate::glue::{concat_all, starts_with};

verus! {

/// One branch of the chain: it tests `_method` against `name` and calls
/// `name` with no arguments. The first branch opens with `if`, every later
/// one with `elif`.
pub open spec fn dispatch_branch(name: Seq<char>, first: bool) -> Seq<char> {
    (if first { "if"@ } else { "elif"@ }) + " _method == \""@ + name + "\":\n    "@ + name
        + "()\n"@
}

/// The whole chain for `names`, one branch per name in order, with no
/// trailing `else`.
pub open spec fn dispatcher_text(names: Seq<Seq<char>>) -> Seq<char>
    decreases names.len(),
{
    if names.len() == 0 {
        seq![]
    } else {
        dispatcher_text(names.drop_last()) + dispatch_branch(names.last(), names.len() == 1)
    }
}

/// The compilation unit: the source, a blank line, then the dispatcher.
pub open spec fn program_text(source: Seq<char>, names: Seq<Seq<char>>) -> Seq<char> {
    source + "\n\n"@ + dispatcher_text(names)
}

/// For three methods the dispatcher is an `if` branch for the first, then an
/// `elif` branch for the second and one for the third, and nothing after.
pub proof fn lemma_dispatcher_of_three(a: Seq<char>, b: Seq<char>, c: Seq<char>)
    ensures
        dispatcher_text(seq![a, b, c]) == dispatch_branch(a, true) + dispatch_branch(b, false)
            + dispatch_branch(c, false),
{
    let one = seq![a];
    let two = seq![a, b];
    let three = seq![a, b, c];
    assert(one.drop_last() =~= Seq::<Seq<char>>::empty());
    assert(two.drop_last() =~= one);
    assert(three.drop_last() =~= two);
    assert(dispatcher_text(Seq::<Seq<char>>::empty()) == Seq::<char>::empty());
    assert(dispatcher_text(one) =~= dispatch_branch(a, true));
    assert(dispatcher_text(two) =~= dispatch_branch(a, true) + dispatch_branch(b, false));
    assert(dispatcher_text(three) =~= dispatch_branch(a, true) + dispatch_branch(b, false)
        + dispatch_branch(c, false));
}

/// How many times `c` occurs in `s`.
pub open spec fn count_char(s: Seq<char>, c: char) -> nat
    decreases s.len(),
{
    if s.len() == 0 {
        0
    } else {
        count_char(s.drop_last(), c) + if s.last() == c {
            1nat
        } else {
            0nat
        }
    }
}

proof fn lemma_count_concat(a: Seq<char>, b: Seq<char>, c: char)
    ensures
        count_char(a + b, c) == count_char(a, c) + count_char(b, c),
    decreases b.len(),
{
    if b.len() == 0 {
        assert(a + b =~= a);
    } else {
        assert((a + b).drop_last() =~= a + b.drop_last());
        lemma_count_concat(a, b.drop_last(), c);
    }
}

proof fn lemma_count_absent(s: Seq<char>, c: char)
    requires
        forall|i: int| 0 <= i < s.len() ==> s[i] != c,
    ensures
        count_char(s, c) == 0,
    decreases s.len(),
{
    if s.len() > 0 {
        lemma_count_absent(s.drop_last(), c);
    }
}

/// Each branch for a name without a line break spans two lines.
proof fn lemma_branch_lines(name: Seq<char>, first: bool)
    requires
        forall|i: int| 0 <= i < name.len() ==> name[i] != '\n',
    ensures
        count_char(dispatch_branch(name, first), '\n') == 2,
{
    let kw = if first { "if"@ } else { "elif"@ };
    reveal_strlit("if");
    reveal_strlit("elif");
    reveal_strlit(" _method == \"");
    reveal_strlit("\":\n    ");
    reveal_strlit("()\n");
    let p = " _method == \""@;
    let q = "\":\n    "@;
    let r = "()\n"@;
    lemma_count_absent(kw, '\n');
    lemma_count_absent(p, '\n');
    lemma_count_absent(name, '\n');
    assert(q =~= seq!['"', ':'] + seq!['\n'] + seq![' ', ' ', ' ', ' ']);
    assert(r =~= seq!['(', ')'] + seq!['\n']);
    lemma_count_absent(seq!['"', ':'], '\n');
    lemma_count_absent(seq![' ', ' ', ' ', ' '], '\n');
    lemma_count_absent(seq!['(', ')'], '\n');
    assert(count_char(seq!['\n'], '\n') == 1) by {
        let nl = seq!['\n'];
        assert(nl.len() == 1);
        assert(nl.last() == '\n');
        assert(nl.drop_last() =~= Seq::<char>::empty());
        assert(count_char(nl.drop_last(), '\n') == 0);
    }
    lemma_count_concat(seq!['"', ':'], seq!['\n'], '\n');
    lemma_count_concat(seq!['"', ':'] + seq!['\n'], seq![' ', ' ', ' ', ' '], '\n');
    lemma_count_concat(seq!['(', ')'], seq!['\n'], '\n');
    lemma_count_concat(kw, p, '\n');
    lemma_count_concat(kw + p, name, '\n');
    lemma_count_concat(kw + p + name, q, '\n');
    lemma_count_concat(kw + p + name + q, name, '\n');
    lemma_count_concat(kw + p + name + q + name, r, '\n');
}

/// For names without line breaks the dispatcher holds exactly two line breaks
/// per name: one after the test and one after the call.
pub proof fn lemma_dispatcher_lines(names: Seq<Seq<char>>)
    requires
        forall|k: int, i: int|
            0 <= k < names.len() && 0 <= i < names[k].len() ==> names[k][i] != '\n',
    ensures
        count_char(dispatcher_text(names), '\n') == 2 * names.len(),
    decreases names.len(),
{
    if names.len() > 0 {
        let earlier = names.drop_last();
        assert forall|k: int, i: int|
            0 <= k < earlier.len() && 0 <= i < earlier[k].len() implies earlier[k][i] != '\n' by {
            assert(earlier[k] == names[k]);
        }
        lemma_dispatcher_lines(earlier);
        let last = names.last();
        assert forall|i: int| 0 <= i < last.len() implies last[i] != '\n' by {
            assert(last == names[names.len() - 1]);
        }
        lemma_branch_lines(last, names.len() == 1);
        lemma_count_concat(dispatcher_text(earlier), dispatch_branch(last, names.len() == 1), '\n');
    }
}

/// The test line of a branch: `if` for the first branch, `elif` after it.
pub open spec fn test_line(name: Seq<char>, first: bool) -> Seq<char> {
    (if first { "if"@ } else { "elif"@ }) + " _method == \""@ + name + "\":\n"@
}

/// The call line of a branch.
pub open spec fn call_line(name: Seq<char>) -> Seq<char> {
    "    "@ + name + "()\n"@
}

/// The dispatcher's lines: a test line and a call line for each name.
pub open spec fn dispatcher_lines(names: Seq<Seq<char>>) -> Seq<Seq<char>>
    decreases names.len(),
{
    if names.len() == 0 {
        seq![]
    } else {
        dispatcher_lines(names.drop_last()).push(test_line(names.last(), names.len() == 1)).push(
            call_line(names.last()),
        )
    }
}

/// The test and call lines of one branch, for a name without line breaks:
/// each ends in its only line break, and neither begins with `else`.
proof fn lemma_branch_is_two_lines(name: Seq<char>, first: bool)
    requires
        forall|i: int| 0 <= i < name.len() ==> name[i] != '\n',
    ensures
        dispatch_branch(name, first) == test_line(name, first) + call_line(name),
        count_char(test_line(name, first), '\n') == 1,
        count_char(call_line(name), '\n') == 1,
        test_line(name, first).last() == '\n',
        call_line(name).last() == '\n',
        !starts_with(test_line(name, first), "else"@),
        !starts_with(call_line(name), "else"@),
{
    reveal_strlit("if");
    reveal_strlit("elif");
    reveal_strlit(" _method == \"");
    reveal_strlit("\":\n    ");
    reveal_strlit("\":\n");
    reveal_strlit("    ");
    reveal_strlit("()\n");
    reveal_strlit("else");
    let kw = if first { "if"@ } else { "elif"@ };
    let p = " _method == \""@;
    let t = test_line(name, first);
    let c = call_line(name);
    assert(dispatch_branch(name, first) =~= t + c);
    assert("\":\n"@ =~= seq!['"', ':'] + seq!['\n']);
    assert("()\n"@ =~= seq!['(', ')'] + seq!['\n']);
    lemma_count_absent(kw, '\n');
    lemma_count_absent(p, '\n');
    lemma_count_absent(name, '\n');
    lemma_count_absent("    "@, '\n');
    lemma_count_absent(seq!['"', ':'], '\n');
    lemma_count_absent(seq!['(', ')'], '\n');
    assert(count_char(seq!['\n'], '\n') == 1) by {
        let nl = seq!['\n'];
        assert(nl.drop_last() =~= Seq::<char>::empty());
        assert(count_char(nl.drop_last(), '\n') == 0);
    }
    lemma_count_concat(seq!['"', ':'], seq!['\n'], '\n');
    lemma_count_concat(seq!['(', ')'], seq!['\n'], '\n');
    lemma_count_concat(kw, p, '\n');
    lemma_count_concat(kw + p, name, '\n');
    lemma_count_concat(kw + p + name, "\":\n"@, '\n');
    lemma_count_concat("    "@, name, '\n');
    lemma_count_concat("    "@ + name, "()\n"@, '\n');
    assert(t.subrange(0, 4)[if first { 0int } else { 2int }] != "else"@[if first { 0int } else { 2int }]);
    assert(c.subrange(0, 4)[0] != "else"@[0]);
}

/// For names without line breaks the dispatcher is exactly its lines joined:
/// two lines per name, each ending in its only line break, and no line
/// begins with `else`, so a method name that matches no test runs nothing.
pub proof fn lemma_dispatcher_line_structure(names: Seq<Seq<char>>)
    requires
        forall|k: int, i: int|
            0 <= k < names.len() && 0 <= i < names[k].len() ==> names[k][i] != '\n',
    ensures
        concat_all(dispatcher_lines(names)) == dispatcher_text(names),
        dispatcher_lines(names).len() == 2 * names.len(),
        forall|j: int|
            0 <= j < dispatcher_lines(names).len() ==> count_char(
                #[trigger] dispatcher_lines(names)[j],
                '\n',
            ) == 1 && dispatcher_lines(names)[j].last() == '\n' && !starts_with(
                dispatcher_lines(names)[j],
                "else"@,
            ),
    decreases names.len(),
{
    if names.len() > 0 {
        let earlier = names.drop_last();
        assert forall|k: int, i: int|
            0 <= k < earlier.len() && 0 <= i < earlier[k].len() implies earlier[k][i] != '\n' by {
            assert(earlier[k] == names[k]);
        }
        lemma_dispatcher_line_structure(earlier);
        let last = names.last();
        let first = names.len() == 1;
        assert forall|i: int| 0 <= i < last.len() implies last[i] != '\n' by {
            assert(last == names[names.len() - 1]);
        }
        lemma_branch_is_two_lines(last, first);
        let before = dispatcher_lines(earlier);
        let mid = before.push(test_line(last, first));
        let all = mid.push(call_line(last));
        assert(all.drop_last() =~= mid);
        assert(mid.drop_last() =~= before);
        assert(mid.last() == test_line(last, first));
        assert(all.last() == call_line(last));
        assert(concat_all(mid) == concat_all(before) + test_line(last, first));
        assert(concat_all(all) == concat_all(mid) + call_line(last));
        assert(concat_all(all) =~= concat_all(before) + test_line(last, first) + call_line(last));
        assert(dispatcher_text(names) =~= dispatcher_text(earlier) + (test_line(last, first)
            + call_line(last)));
        assert forall|j: int| 0 <= j < all.len() implies count_char(#[trigger] all[j], '\n') == 1
            && all[j].last() == '\n' && !starts_with(all[j], "else"@) by {
            if j < before.len() {
                assert(all[j] == before[j]);
            }
        }
    }
}

/// Builds the dispatcher for the given entry points.
pub fn generate_dispatcher(method_names: &[String]) -> (r: String)
    ensures
        r@ == dispatcher_text(strings_view(method_names@)),
{
    let mut dispatcher = "".to_owned();
    let mut i: usize = 0;
    proof {
        reveal_strlit("");
        assert(strings_view(method_names@.subrange(0, 0)) =~= Seq::<Seq<char>>::empty());
        assert(dispatcher@ =~= Seq::<char>::empty());
    }
    while i < method_names.len()
        invariant
            0 <= i <= method_names.len(),
            dispatcher@ == dispatcher_text(strings_view(method_names@.subrange(0, i as int))),
        decreases method_names.len() - i,
    {
        let name = method_names[i].as_str();
        let ghost before = dispatcher@;
        if i == 0 {
            dispatcher.append("if");
        } else {
            dispatcher.append("elif");
        }
        dispatcher.append(" _method == \"");
        dispatcher.append(name);
        dispatcher.append("\":\n    ");
        dispatcher.append(name);
        dispatcher.append("()\n");
        proof {
            let done = strings_view(method_names@.subrange(0, i + 1));
            assert(done.drop_last() =~= strings_view(method_names@.subrange(0, i as int)));
            assert(done.last() == method_names@[i as int]@);
            assert(dispatcher@ =~= before + dispatch_branch(name@, i == 0));
        }
        i += 1;
    }
    assert(method_names@.subrange(0, method_names@.len() as int) =~= method_names@);
    dispatcher
}

/// Joins the source and the dispatcher into the one program that is compiled.
pub fn contract_program(source: &str, method_names: &[String]) -> (r: String)
    ensures
        r@ == program_text(source@, strings_view(method_names@)),
{
    let dispatcher = generate_dispatcher(method_names);
    let mut program = source.to_owned();
    program.append("\n\n");
    program.append(dispatcher.as_str());
    program
}

} // verus!
