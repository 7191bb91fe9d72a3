//! The glue source of the generated host project: a template with two marker
//! lines, one replaced by the embedded bytecode and one by the exports.
use vstd::prelude::*;
use vstd::string::*;
use crate::catalog::strings_view;
use crate::error::PipelineError;

verus! {

/// The marker line that the bytecode declaration replaces.
pub open spec fn bytecode_marker() -> Seq<char> {
    "// @MONTY_BYTECODE_STATICS"@
}

/// The marker line that the export blocks replace.
pub open spec fn exports_marker() -> Seq<char> {
    "// @MONTY_EXPORTS"@
}

/// The declaration that embeds the compiled contract.
pub open spec fn bytecode_static() -> Seq<char> {
    "static CONTRACT_BYTECODE: &[u8] = include_bytes!(\"contract.bin\");\n"@
}

/// What precedes the symbol's name in an export block.
pub open spec fn export_prefix() -> Seq<char> {
    "#[no_mangle]\npub extern \"C\" fn "@
}

/// One exported symbol, named after the method, which hands the embedded
/// contract and the method's name to the shared dispatch routine.
pub open spec fn export_block(name: Seq<char>) -> Seq<char> {
    export_prefix() + name + "() {\n    run_method(CONTRACT_BYTECODE, \""@ + name
        + "\");\n}\n\n"@
}

/// The export blocks of `names`, one per name, in order.
pub open spec fn export_blocks(names: Seq<Seq<char>>) -> Seq<Seq<char>> {
    names.map_values(|n: Seq<char>| export_block(n))
}

/// The parts joined in order.
pub open spec fn concat_all(parts: Seq<Seq<char>>) -> Seq<char>
    decreases parts.len(),
{
    if parts.len() == 0 {
        seq![]
    } else {
        concat_all(parts.drop_last()) + parts.last()
    }
}

/// The text that replaces the exports marker.
pub open spec fn exports_text(names: Seq<Seq<char>>) -> Seq<char> {
    concat_all(export_blocks(names))
}

/// Whether `t` begins with `m`.
pub open spec fn starts_with(t: Seq<char>, m: Seq<char>) -> bool {
    m.len() <= t.len() && t.subrange(0, m.len() as int) == m
}

/// `t` read from left to right, each marker found replaced: the bytecode
/// marker by `code`, the exports marker by `exports`.
pub open spec fn splice(t: Seq<char>, code: Seq<char>, exports: Seq<char>) -> Seq<char>
    decreases t.len(),
    via splice_decreases
{
    if t.len() == 0 {
        t
    } else if starts_with(t, bytecode_marker()) {
        code + splice(t.subrange(bytecode_marker().len() as int, t.len() as int), code, exports)
    } else if starts_with(t, exports_marker()) {
        exports + splice(t.subrange(exports_marker().len() as int, t.len() as int), code, exports)
    } else {
        seq![t[0]] + splice(t.subrange(1, t.len() as int), code, exports)
    }
}

/// How many times each marker (bytecode, exports) is found in that scan.
pub open spec fn markers_found(t: Seq<char>) -> (nat, nat)
    decreases t.len(),
    via markers_found_decreases
{
    if t.len() == 0 {
        (0, 0)
    } else if starts_with(t, bytecode_marker()) {
        let rest = markers_found(t.subrange(bytecode_marker().len() as int, t.len() as int));
        (rest.0 + 1, rest.1)
    } else if starts_with(t, exports_marker()) {
        let rest = markers_found(t.subrange(exports_marker().len() as int, t.len() as int));
        (rest.0, rest.1 + 1)
    } else {
        markers_found(t.subrange(1, t.len() as int))
    }
}

#[via_fn]
proof fn splice_decreases(t: Seq<char>, code: Seq<char>, exports: Seq<char>) {
    reveal_strlit("// @MONTY_BYTECODE_STATICS");
    reveal_strlit("// @MONTY_EXPORTS");
}

#[via_fn]
proof fn markers_found_decreases(t: Seq<char>) {
    reveal_strlit("// @MONTY_BYTECODE_STATICS");
    reveal_strlit("// @MONTY_EXPORTS");
}

/// The glue source for `names`, where the template holds each marker once.
pub open spec fn glue_source(template: Seq<char>, names: Seq<Seq<char>>) -> Seq<char> {
    splice(template, bytecode_static(), exports_text(names))
}

/// The position of the first `(` in `s`, or its length if there is none.
pub open spec fn first_paren(s: Seq<char>) -> nat
    decreases s.len(),
{
    if s.len() == 0 {
        0
    } else if s[0] == '(' {
        0
    } else {
        1 + first_paren(s.subrange(1, s.len() as int))
    }
}

/// The name of the symbol that an export block declares: what stands
/// between the prefix and the first `(`.
pub open spec fn declared_symbol(block: Seq<char>) -> Seq<char> {
    let body = block.subrange(export_prefix().len() as int, block.len() as int);
    body.subrange(0, first_paren(body) as int)
}

/// A method name as the glue source needs it: no `(` in it.
pub open spec fn plain_name(name: Seq<char>) -> bool {
    forall|i: int| 0 <= i < name.len() ==> name[i] != '('
}

/// Whether `m` occurs in `t` at char position `i`.
fn marker_at(t: &str, n: usize, i: usize, m: &str) -> (r: bool)
    requires
        n == t@.len(),
        i <= n,
    ensures
        r == starts_with(t@.subrange(i as int, n as int), m@),
{
    let mlen = m.unicode_len();
    if mlen > n - i {
        return false;
    }
    let mut j: usize = 0;
    while j < mlen
        invariant
            n == t@.len(),
            mlen == m@.len(),
            i + mlen <= n,
            0 <= j <= mlen,
            forall|k: int| 0 <= k < j ==> t@[i + k] == m@[k],
        decreases mlen - j,
    {
        if t.get_char(i + j) != m.get_char(j) {
            assert(t@.subrange(i as int, n as int).subrange(0, mlen as int)[j as int] != m@[j as int]);
            return false;
        }
        j += 1;
    }
    assert(t@.subrange(i as int, n as int).subrange(0, mlen as int) =~= m@);
    true
}

/// Builds the export blocks for the given methods.
pub fn generate_exports(method_names: &[String]) -> (r: String)
    ensures
        r@ == exports_text(strings_view(method_names@)),
{
    let mut exports = "".to_owned();
    let mut i: usize = 0;
    proof {
        reveal_strlit("");
        assert(export_blocks(strings_view(method_names@.subrange(0, 0))) =~= Seq::<
            Seq<char>,
        >::empty());
        assert(exports@ =~= Seq::<char>::empty());
    }
    while i < method_names.len()
        invariant
            0 <= i <= method_names.len(),
            exports@ == exports_text(strings_view(method_names@.subrange(0, i as int))),
        decreases method_names.len() - i,
    {
        let name = method_names[i].as_str();
        let ghost before = exports@;
        exports.append("#[no_mangle]\npub extern \"C\" fn ");
        exports.append(name);
        exports.append("() {\n    run_method(CONTRACT_BYTECODE, \"");
        exports.append(name);
        exports.append("\");\n}\n\n");
        proof {
            let blocks = export_blocks(strings_view(method_names@.subrange(0, i + 1)));
            assert(blocks.drop_last() =~= export_blocks(
                strings_view(method_names@.subrange(0, i as int)),
            ));
            assert(blocks.last() == export_block(name@));
            assert(exports@ =~= before + export_block(name@));
        }
        i += 1;
    }
    assert(method_names@.subrange(0, method_names@.len() as int) =~= method_names@);
    exports
}

/// Fills the glue template: the bytecode marker becomes the declaration that
/// embeds the contract, the exports marker one export block per method.
/// Fails with `TemplateIntegrity` unless each marker is found exactly once.
pub fn generate_lib_rs(template: &str, method_names: &[String]) -> (r: Result<
    String,
    PipelineError,
>)
    ensures
        markers_found(template@) == (1nat, 1nat) ==> r is Ok && r->Ok_0@ == glue_source(
            template@,
            strings_view(method_names@),
        ),
        markers_found(template@) != (1nat, 1nat) ==> r == Err::<String, PipelineError>(
            PipelineError::TemplateIntegrity,
        ),
{
    let code = "static CONTRACT_BYTECODE: &[u8] = include_bytes!(\"contract.bin\");\n";
    let exports = generate_exports(method_names);
    let ghost e = exports@;
    let ghost t = template@;
    let n = template.unicode_len();
    let mut out = "".to_owned();
    let mut found_code: usize = 0;
    let mut found_exports: usize = 0;
    let mut i: usize = 0;
    proof {
        reveal_strlit("");
        assert(t.subrange(0, n as int) =~= t);
        assert(out@ + splice(t, code@, e) =~= splice(t, code@, e));
    }
    while i < n
        invariant
            n == t.len(),
            t == template@,
            e == exports@,
            0 <= i <= n,
            found_code + found_exports <= i,
            out@ + splice(t.subrange(i as int, n as int), code@, e) == splice(t, code@, e),
            found_code + markers_found(t.subrange(i as int, n as int)).0 == markers_found(t).0,
            found_exports + markers_found(t.subrange(i as int, n as int)).1 == markers_found(
                t,
            ).1,
        decreases n - i,
    {
        let ghost rest = t.subrange(i as int, n as int);
        let ghost before = out@;
        if marker_at(template, n, i, "// @MONTY_BYTECODE_STATICS") {
            let step = "// @MONTY_BYTECODE_STATICS".unicode_len();
            assert(rest.subrange(step as int, rest.len() as int) =~= t.subrange(
                i + step,
                n as int,
            ));
            out.append(code);
            found_code += 1;
            i += step;
            assert(out@ =~= before + code@);
        } else if marker_at(template, n, i, "// @MONTY_EXPORTS") {
            let step = "// @MONTY_EXPORTS".unicode_len();
            assert(rest.subrange(step as int, rest.len() as int) =~= t.subrange(
                i + step,
                n as int,
            ));
            out.append(exports.as_str());
            found_exports += 1;
            i += step;
            assert(out@ =~= before + e);
        } else {
            let one = template.substring_char(i, i + 1);
            assert(rest.subrange(1, rest.len() as int) =~= t.subrange(i + 1, n as int));
            assert(one@ =~= seq![rest[0]]);
            out.append(one);
            i += 1;
            assert(out@ =~= before + seq![rest[0]]);
        }
    }
    proof {
        assert(t.subrange(n as int, n as int) =~= Seq::<char>::empty());
        assert(out@ =~= out@ + splice(t.subrange(n as int, n as int), code@, e));
    }
    if found_code == 1 && found_exports == 1 {
        Ok(out)
    } else {
        Err(PipelineError::TemplateIntegrity)
    }
}

/// The first `(` of a plain name followed by `(` is right after the name.
proof fn lemma_first_paren_after(name: Seq<char>, rest: Seq<char>)
    requires
        plain_name(name),
        rest.len() > 0,
        rest[0] == '(',
    ensures
        first_paren(name + rest) == name.len(),
    decreases name.len(),
{
    let s = name + rest;
    if name.len() == 0 {
        assert(s =~= rest);
    } else {
        let tail = name.subrange(1, name.len() as int);
        assert(s.subrange(1, s.len() as int) =~= tail + rest);
        lemma_first_paren_after(tail, rest);
    }
}

/// The symbol that the export block of a plain name declares is that name.
pub proof fn lemma_declared_symbol(name: Seq<char>)
    requires
        plain_name(name),
    ensures
        declared_symbol(export_block(name)) == name,
{
    let block = export_block(name);
    let tail = "() {\n    run_method(CONTRACT_BYTECODE, \""@ + name + "\");\n}\n\n"@;
    reveal_strlit("() {\n    run_method(CONTRACT_BYTECODE, \"");
    assert(block =~= export_prefix() + (name + tail));
    let body = block.subrange(export_prefix().len() as int, block.len() as int);
    assert(body =~= name + tail);
    lemma_first_paren_after(name, tail);
    assert(body.subrange(0, name.len() as int) =~= name);
}

/// The glue source exports exactly the methods it was given: one block per
/// method, in order, each declaring a symbol named after its method, so the
/// set of symbols equals the set of method names.
pub proof fn lemma_exports_round_trip(names: Seq<Seq<char>>)
    requires
        forall|i: int| 0 <= i < names.len() ==> plain_name(#[trigger] names[i]),
    ensures
        export_blocks(names).len() == names.len(),
        export_blocks(names).map_values(|b: Seq<char>| declared_symbol(b)) == names,
        export_blocks(names).map_values(|b: Seq<char>| declared_symbol(b)).to_set()
            == names.to_set(),
{
    let symbols = export_blocks(names).map_values(|b: Seq<char>| declared_symbol(b));
    assert forall|i: int| 0 <= i < names.len() implies symbols[i] == names[i] by {
        lemma_declared_symbol(names[i]);
    }
    assert(symbols =~= names);
}

/// Where the exports marker is found once, the spliced text holds the export
/// text in one piece.
proof fn lemma_splice_holds_exports(t: Seq<char>, code: Seq<char>, exports: Seq<char>)
    requires
        markers_found(t).1 == 1,
    ensures
        exists|u: Seq<char>, v: Seq<char>| splice(t, code, exports) == u + exports + v,
    decreases t.len(),
{
    reveal_strlit("// @MONTY_BYTECODE_STATICS");
    reveal_strlit("// @MONTY_EXPORTS");
    if starts_with(t, bytecode_marker()) {
        let rest = t.subrange(bytecode_marker().len() as int, t.len() as int);
        lemma_splice_holds_exports(rest, code, exports);
        let (u, v) = choose|u: Seq<char>, v: Seq<char>| splice(rest, code, exports) == u + exports + v;
        assert(splice(t, code, exports) =~= (code + u) + exports + v);
    } else if starts_with(t, exports_marker()) {
        let rest = t.subrange(exports_marker().len() as int, t.len() as int);
        assert(splice(t, code, exports) =~= Seq::<char>::empty() + exports + splice(rest, code, exports));
    } else {
        let rest = t.subrange(1, t.len() as int);
        lemma_splice_holds_exports(rest, code, exports);
        let (u, v) = choose|u: Seq<char>, v: Seq<char>| splice(rest, code, exports) == u + exports + v;
        assert(splice(t, code, exports) =~= (seq![t[0]] + u) + exports + v);
    }
}

/// The glue source made from a sound template holds, in one piece, one
/// export block per method, in order, and the symbols those blocks declare
/// are exactly the method names: none renamed, repeated or left out.
pub proof fn lemma_glue_exports_round_trip(template: Seq<char>, names: Seq<Seq<char>>)
    requires
        markers_found(template) == (1nat, 1nat),
        forall|i: int| 0 <= i < names.len() ==> plain_name(#[trigger] names[i]),
    ensures
        exists|u: Seq<char>, v: Seq<char>|
            glue_source(template, names) == u + concat_all(export_blocks(names)) + v,
        export_blocks(names).map_values(|b: Seq<char>| declared_symbol(b)) == names,
        export_blocks(names).map_values(|b: Seq<char>| declared_symbol(b)).to_set()
            == names.to_set(),
{
    lemma_splice_holds_exports(template, bytecode_static(), exports_text(names));
    lemma_exports_round_trip(names);
}

} // verus!
