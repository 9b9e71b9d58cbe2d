//! Temporary-file providers.
//!
//! A provider stands for one temporary storage resource that other code can
//! reach through a path. The library decides and the driver acts: the library
//! checks the name hint and says what to ask of the operating system, the
//! driver asks, and the library turns the answer into a provider or an error.
//! A provider gives its path any number of times and is used up when it is
//! turned into the handle through which the stored bytes are read.

use vstd::prelude::*;
use crate::error::OsFailure;
use crate::error::TempFileError;
use crate::name::c_string;
use crate::name::c_string_bytes;
use crate::name::contains_nul;
use crate::name::contains_separator;
use crate::name::has_nul;
use crate::name::valid_file_name;
use crate::name::valid_memory_name;
use crate::platform::Platform;
use crate::proc_path::descriptor_path;
use crate::proc_path::descriptor_path_string;
use crate::proc_path::lemma_descriptor_path_injective;

verus! {

/// What every temporary-file provider can do.
pub trait TempFile: Sized {
    /// What the driver is to ask of the operating system.
    type Request;

    /// What the operating system answered.
    type Answer;

    /// What the provider turns into: the owner of the readable data.
    type Handle;

    /// The name hints that this kind of provider takes on a platform.
    spec fn accepts(name: Seq<char>, platform: Platform) -> bool;

    /// What an answer amounts to: the path and the handle of the resource
    /// that was created, or the reason why none was.
    spec fn granted(answer: Self::Answer) -> Result<(Seq<char>, Self::Handle), OsFailure>;

    /// The path under which the resource is reached.
    spec fn path_view(&self) -> Seq<char>;

    /// The handle that the provider holds.
    spec fn handle_view(&self) -> Self::Handle;

    /// Whatever the kind of provider and the platform, a name hint that holds
    /// a null character is not accepted.
    proof fn lemma_nul_not_accepted(name: Seq<char>, platform: Platform)
        requires
            has_nul(name),
        ensures
            !Self::accepts(name, platform),
    ;

    /// Checks the name hint. A hint that is not accepted gives `InvalidName`
    /// and no request, so that nothing is asked of the operating system.
    fn request(name: &str, platform: Platform) -> (r: Result<Self::Request, TempFileError>)
        ensures
            r is Ok <==> Self::accepts(name@, platform),
            r is Err ==> r->Err_0 == TempFileError::InvalidName,
    ;

    /// Makes the provider from the answer to its request: a provider for the
    /// very resource that was granted, or the error that stands for the
    /// failure. The request is taken back so that every provider stems from a
    /// name hint that was accepted.
    fn new(request: Self::Request, answer: Self::Answer) -> (r: Result<Self, TempFileError>)
        ensures
            match Self::granted(answer) {
                Ok((path, handle)) => r is Ok && r->Ok_0.path_view() == path
                    && r->Ok_0.handle_view() == handle,
                Err(failure) => r is Err && r->Err_0 == failure.error(),
            },
            r is Err ==> r->Err_0 != TempFileError::InvalidName,
    ;

    /// The path under which the resource is reached. It is the same at every call.
    fn get_path(&self) -> (path: String)
        ensures
            path@ == self.path_view(),
    ;

    /// Uses the provider up and hands out its handle.
    fn into_file(self) -> (handle: Self::Handle)
        ensures
            handle == self.handle_view(),
    ;
}

/// A request for an anonymous memory file.
pub struct MemFdRequest {
    name: Vec<u8>,
    flags: u32,
}

impl MemFdRequest {
    #[verifier::type_invariant]
    spec fn well_formed(self) -> bool {
        &&& self.name@.len() >= 1
        &&& self.name@.last() == 0u8
        &&& forall|i: int| 0 <= i < self.name@.len() - 1 ==> self.name@[i] != 0u8
        &&& self.flags == 0
    }

    /// The name to attach to the file, as a null-terminated byte string.
    pub closed spec fn name_view(self) -> Seq<u8> {
        self.name@
    }

    /// The flags to create the file with.
    pub closed spec fn flags_view(self) -> u32 {
        self.flags
    }

    /// Makes the request for a name hint, unless the hint holds a null character.
    pub fn for_name(name: &str) -> (r: Result<MemFdRequest, TempFileError>)
        ensures
            r is Ok <==> valid_memory_name(name@),
            r is Err ==> r->Err_0 == TempFileError::InvalidName,
            r is Ok ==> r->Ok_0.name_view() == c_string(name@) && r->Ok_0.flags_view() == 0,
    {
        match c_string_bytes(name) {
            Ok(bytes) => Ok(MemFdRequest { name: bytes, flags: 0 }),
            Err(e) => Err(e),
        }
    }

    /// The name to attach to the file: bytes that end in a null byte and hold no other.
    pub fn name(&self) -> (bytes: &Vec<u8>)
        ensures
            bytes@ == self.name_view(),
            bytes@.len() >= 1,
            bytes@.last() == 0u8,
            forall|i: int| 0 <= i < bytes@.len() - 1 ==> bytes@[i] != 0u8,
    {
        proof {
            use_type_invariant(self);
        }
        &self.name
    }

    /// The flags to create the file with: none.
    pub fn flags(&self) -> (flags: u32)
        ensures
            flags == self.flags_view(),
            flags == 0,
    {
        proof {
            use_type_invariant(self);
        }
        self.flags
    }
}

/// What the operating system answered to a request for an anonymous memory file.
///
/// An answer is used once: the descriptor in it goes over to the provider
/// that is made from it.
#[derive(Debug)]
pub struct MemFdAnswer {
    /// The id of the process that asked.
    pub pid: u32,
    /// What the call returned: a descriptor number, or a negative number.
    pub value: i64,
    /// The error number that a failed call left behind.
    pub errno: i32,
}

impl MemFdAnswer {
    /// Whether the answer holds a descriptor.
    pub open spec fn succeeded(self) -> bool {
        0 <= self.value <= i32::MAX
    }

    /// Why the call gave no descriptor. A number too large for a descriptor
    /// counts as a failure of no particular kind.
    pub open spec fn failure(self) -> OsFailure {
        if self.value < 0 {
            OsFailure::of_errno(self.errno as int)
        } else {
            OsFailure::Other
        }
    }

    /// Reads the answer: the descriptor that was given, or why none was. The
    /// error number counts only where the call failed.
    pub fn descriptor(&self) -> (r: Result<i32, OsFailure>)
        ensures
            self.succeeded() ==> r == Ok::<i32, OsFailure>(self.value as i32),
            !self.succeeded() ==> r == Err::<i32, OsFailure>(self.failure()),
    {
        if self.value < 0 {
            Err(OsFailure::from_errno(self.errno))
        } else if self.value > i32::MAX as i64 {
            Err(OsFailure::Other)
        } else {
            Ok(self.value as i32)
        }
    }
}

/// An anonymous memory file, reached through the descriptor table of its own process.
///
/// The path is valid in the process that created the file and for as long as
/// the descriptor is open: fetch it there, and before `into_file`.
pub struct LinuxMemFd {
    pid: u32,
    fd: i32,
}

impl LinuxMemFd {
    /// A descriptor number is not negative.
    #[verifier::type_invariant]
    pub closed spec fn well_formed(self) -> bool {
        self.fd >= 0
    }

    /// The id of the process that owns the descriptor.
    pub closed spec fn pid_view(self) -> nat {
        self.pid as nat
    }

    /// The number of the descriptor.
    pub closed spec fn descriptor_view(self) -> i32 {
        self.fd
    }
}

impl TempFile for LinuxMemFd {
    type Request = MemFdRequest;

    type Answer = MemFdAnswer;

    type Handle = i32;

    open spec fn accepts(name: Seq<char>, platform: Platform) -> bool {
        valid_memory_name(name)
    }

    open spec fn granted(answer: MemFdAnswer) -> Result<(Seq<char>, i32), OsFailure> {
        if answer.succeeded() {
            Ok((descriptor_path(answer.pid as nat, answer.value as nat), answer.value as i32))
        } else {
            Err(answer.failure())
        }
    }

    open spec fn path_view(&self) -> Seq<char> {
        descriptor_path(self.pid_view(), self.descriptor_view() as nat)
    }

    open spec fn handle_view(&self) -> i32 {
        self.descriptor_view()
    }

    proof fn lemma_nul_not_accepted(name: Seq<char>, platform: Platform) {
    }

    fn request(name: &str, platform: Platform) -> (r: Result<MemFdRequest, TempFileError>)
        ensures
            r is Ok ==> r->Ok_0.name_view() == c_string(name@) && r->Ok_0.flags_view() == 0,
    {
        MemFdRequest::for_name(name)
    }

    fn new(request: MemFdRequest, answer: MemFdAnswer) -> (r: Result<Self, TempFileError>)
        ensures
            r is Ok ==> r->Ok_0.well_formed() && r->Ok_0.pid_view() == answer.pid,
    {
        let _ = request;
        match answer.descriptor() {
            Ok(fd) => Ok(LinuxMemFd { pid: answer.pid, fd }),
            Err(failure) => Err(failure.to_error()),
        }
    }

    fn get_path(&self) -> (path: String) {
        proof {
            use_type_invariant(self);
        }
        descriptor_path_string(self.pid as u64, self.fd as u64)
    }

    fn into_file(self) -> (handle: i32)
        ensures
            handle >= 0,
    {
        proof {
            use_type_invariant(&self);
        }
        self.fd
    }
}

/// No path stands for two resources: memory-backed providers that give the
/// same path belong to the same process and hold the same descriptor. So two
/// providers of one process, which hold different descriptors for as long as
/// both are open, never give the same path.
pub proof fn lemma_same_path_same_resource(a: LinuxMemFd, b: LinuxMemFd)
    requires
        a.well_formed(),
        b.well_formed(),
        a.path_view() == b.path_view(),
    ensures
        a.pid_view() == b.pid_view(),
        a.descriptor_view() == b.descriptor_view(),
{
    lemma_descriptor_path_injective(
        a.pid_view(),
        a.descriptor_view() as nat,
        b.pid_view(),
        b.descriptor_view() as nat,
    );
}

/// A request for a uniquely named file in the system's temporary directory.
pub struct DiskRequest {
    prefix: String,
    platform: Platform,
}

impl DiskRequest {
    #[verifier::type_invariant]
    spec fn well_formed(self) -> bool {
        valid_file_name(self.prefix@, self.platform)
    }

    /// What the name of the file is to begin with.
    pub closed spec fn prefix_view(self) -> Seq<char> {
        self.prefix@
    }

    /// The platform on whose rules the prefix was checked.
    pub closed spec fn platform_view(self) -> Platform {
        self.platform
    }

    /// Makes the request for a name hint, unless the hint holds a null
    /// character or a path separator of the platform.
    pub fn for_name(name: &str, platform: Platform) -> (r: Result<DiskRequest, TempFileError>)
        ensures
            r is Ok <==> valid_file_name(name@, platform),
            r is Err ==> r->Err_0 == TempFileError::InvalidName,
            r is Ok ==> r->Ok_0.prefix_view() == name@ && r->Ok_0.platform_view() == platform,
    {
        if contains_nul(name) || contains_separator(name, platform) {
            Err(TempFileError::InvalidName)
        } else {
            Ok(DiskRequest { prefix: name.to_owned(), platform })
        }
    }

    /// What the name of the file is to begin with: a text without null
    /// characters and without path separators.
    pub fn prefix(&self) -> (prefix: &str)
        ensures
            prefix@ == self.prefix_view(),
            valid_file_name(prefix@, self.platform_view()),
    {
        proof {
            use_type_invariant(self);
        }
        self.prefix.as_str()
    }
}

/// A file that the driver created on disk and opened a second time.
pub struct DiskFile<G, H> {
    /// Removes the directory entry when it is dropped.
    pub guard: G,
    /// The second handle, opened for reading and writing.
    pub handle: H,
    /// The path of the directory entry.
    pub path: String,
}

/// A uniquely named file on disk with a handle that was opened ahead of time.
///
/// The guard removes the directory entry when the provider goes, used up or
/// not. The handle stays usable after that, as far as the platform lets an
/// open file outlive its name.
pub struct GenericTempFile<G, H> {
    guard: G,
    handle: H,
    path: String,
}

impl<G, H> GenericTempFile<G, H> {
    /// The guard that owns the directory entry.
    pub closed spec fn guard_view(self) -> G {
        self.guard
    }
}

impl<G, H> TempFile for GenericTempFile<G, H> {
    type Request = DiskRequest;

    type Answer = Result<DiskFile<G, H>, OsFailure>;

    type Handle = H;

    open spec fn accepts(name: Seq<char>, platform: Platform) -> bool {
        valid_file_name(name, platform)
    }

    open spec fn granted(answer: Result<DiskFile<G, H>, OsFailure>) -> Result<
        (Seq<char>, H),
        OsFailure,
    > {
        match answer {
            Ok(file) => Ok((file.path@, file.handle)),
            Err(failure) => Err(failure),
        }
    }

    closed spec fn path_view(&self) -> Seq<char> {
        self.path@
    }

    closed spec fn handle_view(&self) -> H {
        self.handle
    }

    proof fn lemma_nul_not_accepted(name: Seq<char>, platform: Platform) {
    }

    fn request(name: &str, platform: Platform) -> (r: Result<DiskRequest, TempFileError>)
        ensures
            r is Ok ==> r->Ok_0.prefix_view() == name@ && r->Ok_0.platform_view() == platform,
    {
        DiskRequest::for_name(name, platform)
    }

    fn new(request: DiskRequest, answer: Result<DiskFile<G, H>, OsFailure>) -> (r: Result<
        Self,
        TempFileError,
    >)
        ensures
            answer is Ok ==> r is Ok && r->Ok_0.guard_view() == answer->Ok_0.guard,
    {
        let _ = request;
        match answer {
            Ok(file) => Ok(
                GenericTempFile { guard: file.guard, handle: file.handle, path: file.path },
            ),
            Err(failure) => Err(failure.to_error()),
        }
    }

    fn get_path(&self) -> (path: String) {
        self.path.clone()
    }

    fn into_file(self) -> (handle: H) {
        self.handle
    }
}

/// What the driver is to ask of the operating system for a new temporary file.
pub enum CreateRequest {
    /// An anonymous memory file.
    Memory(MemFdRequest),
    /// A uniquely named file on disk.
    Disk(DiskRequest),
}

/// Starts a new temporary file on the given platform: checks the name hint and
/// picks the kind of provider. Where anonymous memory files exist the file is
/// one of them; elsewhere it is a file on disk.
pub fn new(name: &str, platform: Platform) -> (r: Result<CreateRequest, TempFileError>)
    ensures
        r is Err ==> r->Err_0 == TempFileError::InvalidName,
        has_nul(name@) ==> r is Err,
        platform.memory_backed() ==> (r is Ok <==> valid_memory_name(name@)),
        !platform.memory_backed() ==> (r is Ok <==> valid_file_name(name@, platform)),
        r is Ok && platform.memory_backed() ==> r->Ok_0 is Memory
            && r->Ok_0->Memory_0.name_view() == c_string(name@)
            && r->Ok_0->Memory_0.flags_view() == 0,
        r is Ok && !platform.memory_backed() ==> r->Ok_0 is Disk
            && r->Ok_0->Disk_0.prefix_view() == name@
            && r->Ok_0->Disk_0.platform_view() == platform,
{
    if platform.has_memory_files() {
        match MemFdRequest::for_name(name) {
            Ok(request) => Ok(CreateRequest::Memory(request)),
            Err(e) => Err(e),
        }
    } else {
        match DiskRequest::for_name(name, platform) {
            Ok(request) => Ok(CreateRequest::Disk(request)),
            Err(e) => Err(e),
        }
    }
}

} // verus!
