//! What this library takes from swc, and believes of it without proof.
//!
//! The library never looks into a program or a file name. It carries the
//! program from the pipeline to the rewrite engine, and it makes the file
//! name under which the engine sees the file.

use swc_core::common::FileName;
use swc_core::ecma::ast::Program;
use vstd::prelude::*;

verus! {

/// swc's syntax tree of one file, `swc_core::ecma::ast::Program`. Nothing is
/// known of what a program holds.
#[verifier::external_type_specification]
#[verifier::external_body]
pub struct ExProgram(Program);

/// swc's name of a source file, `swc_core::common::FileName`. Nothing is
/// known of what a file name holds but what [`real_file_name`] says.
#[verifier::external_type_specification]
#[verifier::external_body]
pub struct ExFileName(FileName);

/// The file name that swc's `FileName::Real` makes of the path with the
/// characters `path`.
pub uninterp spec fn real_file_name(path: Seq<char>) -> FileName;

/// Makes swc's `FileName::Real` of `path`, taken as a path of the file
/// system. Believed without proof: the name that comes back is a function of
/// the characters of `path` alone, which [`real_file_name`] stands for.
#[verifier::external_body]
pub(crate) fn file_name(path: &str) -> (name: FileName)
    ensures
        name == real_file_name(path@),
{
    FileName::Real(path.into())
}

} // verus!
