//! What the embedded runtime is started with.

use vstd::prelude::*;
use vstd::string::StringExecFns;

verus! {

/// The option that puts the extractor's archive on the class path.
pub open spec fn class_path_option(libpath: Seq<char>) -> Seq<char> {
    "-Djava.class.path="@ + libpath
}

/// The option that makes the runtime check every native call.
pub open spec fn check_option() -> Seq<char> {
    "-Xcheck:jni"@
}

/// The options to start the runtime with: the class path, and the checking
/// option after it when debugging is asked for.
pub open spec fn option_views(libpath: Seq<char>, debug: bool) -> Seq<Seq<char>> {
    if debug {
        seq![class_path_option(libpath), check_option()]
    } else {
        seq![class_path_option(libpath)]
    }
}

/// Lists the options to start the runtime with.
pub fn jvm_options(libpath: &str, debug: bool) -> (options: Vec<String>)
    ensures
        options.deep_view() == option_views(libpath@, debug),
{
    let mut options: Vec<String> = Vec::new();
    let mut class_path = String::from_str("-Djava.class.path=");
    class_path.append(libpath);
    options.push(class_path);
    if debug {
        options.push(String::from_str("-Xcheck:jni"));
    }
    options
}

/// The length of an array as the runtime counts it, where it can count that far.
pub open spec fn array_length(len: nat) -> Option<i32> {
    if len <= i32::MAX {
        Some(len as i32)
    } else {
        None
    }
}

/// Gives the length of an array in the runtime's own integer type, or
/// nothing where the array is longer than the runtime allows.
pub fn java_array_length(len: usize) -> (n: Option<i32>)
    ensures
        n == array_length(len as nat),
{
    if len <= i32::MAX as usize {
        Some(len as i32)
    } else {
        None
    }
}

} // verus!
