//! The bytecode compilation adapter: the program with its dispatcher goes to
//! the Monty compiler, and the prepared program is serialised into one blob.
use vstd::prelude::*;
use crate::catalog::strings_view;
use crate::dispatch::{contract_program, program_text};
use crate::error::{CompileStage, PipelineError};

verus! {

#[verifier::external_type_specification]
#[verifier::external_body]
pub struct ExMontyRun(monty::MontyRun);

/// Whether the Monty compiler accepts `code` under the given script name and
/// input variable names.
pub uninterp spec fn monty_accepts(
    code: Seq<char>,
    script_name: Seq<char>,
    input_names: Seq<Seq<char>>,
) -> bool;

/// The script name that compiler diagnostics carry.
pub open spec fn script_name() -> Seq<char> {
    "contract.py"@
}

/// The one input variable of a contract: the method to run.
pub open spec fn contract_inputs() -> Seq<Seq<char>> {
    seq!["_method"@]
}

/// Relies on monty::MontyRun::new with default compile options, which parses
/// and prepares the code; within one build of the library, whether it
/// succeeds depends on its arguments alone. Across builds it may differ:
/// Monty's nesting budget is 30 levels with debug assertions on and 200
/// otherwise, and each `elif` of the dispatcher takes one level, so a script
/// with more than about 30 entry points compiles only in a release build.
/// Its exception is kept as text.
#[verifier::external_body]
fn monty_compile(code: String, script: &str, input_names: Vec<String>) -> (r: Result<
    monty::MontyRun,
    String,
>)
    ensures
        r is Ok <==> monty_accepts(code@, script@, strings_view(input_names@)),
{
    monty::MontyRun::new(code, script, input_names, monty_types::CompileOptions::default())
        .map_err(|e| e.to_string())
}

/// Relies on postcard::to_allocvec, which encodes the prepared program through
/// its derived serde implementation. Postcard fails only on a sequence of
/// unknown length or an error raised by a custom implementation, and the
/// prepared program (its globals, bytecode, interned strings and source)
/// produces neither, so encoding succeeds. Its error type is kept as text.
#[verifier::external_body]
fn encode_program(program: &monty::MontyRun) -> (r: Result<Vec<u8>, String>)
    ensures
        r is Ok,
{
    postcard::to_allocvec(program).map_err(|e| e.to_string())
}

/// Compiles the source, followed by the dispatcher for `method_names`, into
/// one blob. A program that the compiler rejects fails at the compile stage;
/// a program that it accepts gives the encoded blob.
/// The host function catalog is not handed over: `MontyRun::new` takes only
/// the code, the script name, the input names and compile options, and host
/// calls are resolved when the contract runs.
pub fn precompile_contract(source: &str, method_names: &[String]) -> (r: Result<
    Vec<u8>,
    PipelineError,
>)
    ensures
        r is Err ==> r->Err_0 is CompilationFailed,
        monty_accepts(program_text(source@, strings_view(method_names@)), script_name(), contract_inputs())
            ==> r is Ok,
        !monty_accepts(program_text(source@, strings_view(method_names@)), script_name(), contract_inputs())
            ==> (r is Err && r->Err_0->stage == CompileStage::Compile),
{
    let program = contract_program(source, method_names);
    let mut inputs: Vec<String> = Vec::new();
    inputs.push("_method".to_owned());
    assert(strings_view(inputs@) =~= contract_inputs());
    match monty_compile(program, "contract.py", inputs) {
        Err(message) => Err(PipelineError::CompilationFailed { stage: CompileStage::Compile, message }),
        Ok(prepared) => match encode_program(&prepared) {
            Err(message) => Err(
                PipelineError::CompilationFailed { stage: CompileStage::Serialize, message },
            ),
            Ok(bytes) => Ok(bytes),
        },
    }
}

} // verus!
