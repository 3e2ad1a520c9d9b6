//! Where generated contract bindings are read from and written to.

use std::path::PathBuf;
use vstd::prelude::*;
use vstd::string::StringExecFns;

verus! {

/// A file system path. The value is carried through unread.
#[verifier::external_type_specification]
#[verifier::external_body]
pub struct ExPathBuf(PathBuf);

/// A clone of a path is the same path.
pub assume_specification[ <PathBuf as Clone>::clone ](path: &PathBuf) -> (r: PathBuf)
    ensures
        r == *path,
;

/// The arguments of the binding generator: the directory that holds the
/// interface descriptions and the directory that receives the generated code.
#[derive(Debug)]
pub struct BindArgs {
    /// Input path for contract artifacts.
    pub input_path: PathBuf,
    /// Output path for generated code.
    pub output_path: PathBuf,
}

impl Clone for BindArgs {
    fn clone(&self) -> (r: BindArgs)
        ensures
            r == *self,
    {
        BindArgs { input_path: self.input_path.clone(), output_path: self.output_path.clone() }
    }
}

/// The path of the source file that receives the bindings generated under
/// the module name `filename`.
pub fn gen_it(filename: &str) -> (path: String)
    ensures
        path@ == "./examples/basics/src/"@ + filename@ + ".rs"@,
{
    let path = String::from_str("./examples/basics/src/");
    path.concat(filename).concat(".rs")
}

} // verus!
