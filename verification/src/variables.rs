//! The variables that tell the build driver which tools serve a target.

use vstd::prelude::*;
use vstd::string::*;
use crate::layout::{sysroot_flag, sysroot_flag_of};
use crate::resolver::{Toolchain, ToolchainView};
use crate::text::{copy_bytes, native, to_native};
use crate::triple::{variable_form, variable_name};

verus! {

/// The name of the variable that holds the global compiler flags.
pub const FLAGS_VARIABLE: &'static str = "CARGO_ENCODED_RUSTFLAGS";

/// A variable to set for the build driver.
#[derive(Debug, PartialEq, Eq)]
pub struct Variable {
    pub name: String,
    pub value: Vec<u8>,
}

/// A [`Variable`] as contracts see it.
pub struct VariableView {
    pub name: Seq<char>,
    pub value: Seq<u8>,
}

impl View for Variable {
    type V = VariableView;

    open spec fn view(&self) -> VariableView {
        VariableView { name: self.name@, value: self.value@ }
    }
}

/// The variables that a list holds.
pub open spec fn views(list: Seq<Variable>) -> Seq<VariableView> {
    list.map_values(|v: Variable| v@)
}

/// The name of the variable that names the archiver for a target.
pub open spec fn archiver_variable(target: Seq<char>) -> Seq<char> {
    "AR_"@ + target
}

/// The name of the variable that names the compiler for a target.
pub open spec fn compiler_variable(target: Seq<char>) -> Seq<char> {
    "CC_"@ + target
}

/// The name of the variable that holds further compiler arguments for a
/// target.
pub open spec fn arguments_variable(target: Seq<char>) -> Seq<char> {
    "BINDGEN_EXTRA_CLANG_ARGS_"@ + target
}

/// The name of the variable that names the linker for a target.
pub open spec fn linker_variable(target: Seq<char>) -> Seq<char> {
    "CARGO_TARGET_"@ + variable_form(target) + "_LINKER"@
}

/// The variables to set for a target that a toolchain serves, in the order
/// in which they are set: the archiver, the compiler, the compiler argument
/// that names the sysroot, the linker, and then, only where the toolchain
/// comes with compiler flags, those flags. There are no others.
pub open spec fn variables_of(target: Seq<char>, toolchain: ToolchainView) -> Seq<VariableView> {
    let tools = seq![
        VariableView { name: archiver_variable(target), value: toolchain.archiver },
        VariableView { name: compiler_variable(target), value: toolchain.compiler },
        VariableView {
            name: arguments_variable(target),
            value: sysroot_flag_of(toolchain.sysroot),
        },
        VariableView { name: linker_variable(target), value: toolchain.compiler },
    ];
    match toolchain.compiler_flags {
        Some(flags) => tools.push(VariableView { name: FLAGS_VARIABLE@, value: native(flags) }),
        None => tools,
    }
}

/// A name made of a prefix and what follows it.
fn name_of(prefix: &str, rest: &str) -> (name: String)
    ensures
        name@ == prefix@ + rest@,
{
    let mut name = String::from_str(prefix);
    name.append(rest);
    name
}

/// Lists the variables to set for a target that a toolchain serves.
pub fn variables(target: &str, toolchain: &Toolchain) -> (list: Vec<Variable>)
    ensures
        views(list@) == variables_of(target@, toolchain@),
{
    let mut linker = name_of("CARGO_TARGET_", variable_name(target).as_str());
    linker.append("_LINKER");
    let mut list: Vec<Variable> = Vec::new();
    list.push(Variable { name: name_of("AR_", target), value: copy_bytes(&toolchain.archiver) });
    list.push(Variable { name: name_of("CC_", target), value: copy_bytes(&toolchain.compiler) });
    list.push(
        Variable {
            name: name_of("BINDGEN_EXTRA_CLANG_ARGS_", target),
            value: sysroot_flag(&toolchain.sysroot),
        },
    );
    list.push(Variable { name: linker, value: copy_bytes(&toolchain.compiler) });
    match &toolchain.compiler_flags {
        Some(flags) => {
            list.push(
                Variable {
                    name: String::from_str(FLAGS_VARIABLE),
                    value: to_native(flags.as_str()),
                },
            );
        },
        None => {},
    }
    assert(views(list@) =~= variables_of(target@, toolchain@));
    list
}

/// No two of the variables that are set for a target have the same name, so
/// that none of them replaces another.
pub proof fn law_variable_names_differ(target: Seq<char>, toolchain: ToolchainView)
    ensures
        forall|i: int, j: int|
            0 <= i < j < variables_of(target, toolchain).len() ==> variables_of(
                target,
                toolchain,
            )[i].name != variables_of(target, toolchain)[j].name,
{
    reveal_strlit("AR_");
    reveal_strlit("CC_");
    reveal_strlit("BINDGEN_EXTRA_CLANG_ARGS_");
    reveal_strlit("CARGO_TARGET_");
    reveal_strlit("CARGO_ENCODED_RUSTFLAGS");
    let list = variables_of(target, toolchain);
    let archiver = archiver_variable(target);
    let compiler = compiler_variable(target);
    let arguments = arguments_variable(target);
    let linker = linker_variable(target);
    let flags = FLAGS_VARIABLE@;
    assert(archiver[0] == 'A');
    assert(compiler[0] == 'C' && compiler[1] == 'C');
    assert(arguments[0] == 'B');
    assert(linker == "CARGO_TARGET_"@ + (variable_form(target) + "_LINKER"@));
    assert(linker[0] == 'C' && linker[1] == 'A' && linker[6] == 'T');
    assert(flags[0] == 'C' && flags[1] == 'A' && flags[6] == 'E');
    assert(list[0].name == archiver);
    assert(list[1].name == compiler);
    assert(list[2].name == arguments);
    assert(list[3].name == linker);
    assert(list.len() == 5 ==> list[4].name == flags);
}

} // verus!
