//! The memory-backed temporary file in its plain form, without the provider trait.

use vstd::prelude::*;
use crate::error::TempFileError;
use crate::proc_path::descriptor_path;
use crate::proc_path::descriptor_path_string;
use crate::proc_path::lemma_descriptor_path_injective;
use crate::tmp_file::MemFdAnswer;
use crate::tmp_file::MemFdRequest;

verus! {

/// An anonymous memory file, held by its descriptor number.
///
/// The path is valid in the process that created the file and for as long as
/// the descriptor is open: fetch it there, and before `get_file`.
pub struct TmpMemFile {
    pid: u32,
    fd: isize,
}

impl TmpMemFile {
    /// A descriptor number is not negative and fits the type that the
    /// operating system uses for descriptors.
    #[verifier::type_invariant]
    pub closed spec fn well_formed(self) -> bool {
        0 <= self.fd <= i32::MAX
    }

    /// The id of the process that owns the descriptor.
    pub closed spec fn pid_view(self) -> nat {
        self.pid as nat
    }

    /// The number of the descriptor.
    pub closed spec fn descriptor_view(self) -> int {
        self.fd as int
    }

    /// The path under which the file is reached.
    pub open spec fn path_view(self) -> Seq<char> {
        descriptor_path(self.pid_view(), self.descriptor_view() as nat)
    }

    /// Makes the file from the answer to a request: the file that holds the
    /// descriptor that the operating system gave, or the error that stands for
    /// the failure. The request is taken back so that every file stems from a
    /// name hint that was accepted.
    pub fn new(request: MemFdRequest, answer: MemFdAnswer) -> (r: Result<Self, TempFileError>)
        ensures
            r is Ok <==> answer.succeeded(),
            r is Ok ==> r->Ok_0.well_formed() && r->Ok_0.pid_view() == answer.pid
                && r->Ok_0.descriptor_view() == answer.value,
            r is Err ==> r->Err_0 == answer.failure().error(),
    {
        let _ = request;
        match answer.descriptor() {
            Ok(fd) => Ok(TmpMemFile { pid: answer.pid, fd: fd as isize }),
            Err(failure) => Err(failure.to_error()),
        }
    }

    /// The path under which the file is reached. It is the same at every call.
    pub fn get_path(&self) -> (path: String)
        ensures
            path@ == self.path_view(),
    {
        proof {
            use_type_invariant(self);
        }
        descriptor_path_string(self.pid as u64, self.fd as u64)
    }

    /// Uses the file up and hands out its descriptor, which from then on
    /// belongs to whoever wraps it in a file handle.
    pub fn get_file(self) -> (descriptor: i32)
        ensures
            descriptor == self.descriptor_view(),
            descriptor >= 0,
    {
        proof {
            use_type_invariant(&self);
        }
        self.fd as i32
    }
}

/// No path stands for two files: files that give the same path belong to the
/// same process and hold the same descriptor.
pub proof fn lemma_same_path_same_file(a: TmpMemFile, b: TmpMemFile)
    requires
        a.well_formed(),
        b.well_formed(),
        a.path_view() == b.path_view(),
    ensures
        a.pid_view() == b.pid_view(),
        a.descriptor_view() == b.descriptor_view(),
{
    lemma_descriptor_path_injective(
        a.pid_view(),
        a.descriptor_view() as nat,
        b.pid_view(),
        b.descriptor_view() as nat,
    );
}

} // verus!
