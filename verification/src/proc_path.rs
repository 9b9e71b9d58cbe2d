//! The path under which a process finds one of its own open descriptors.

use vstd::prelude::*;
use vstd::string::StringExecFns;
use crate::decimal::decimal;
use crate::decimal::is_digit;
use crate::decimal::lemma_decimal_digits;
use crate::decimal::lemma_decimal_injective;
use crate::decimal::push_decimal;

verus! {

/// What stands before the process id: the root of the process filesystem.
pub open spec fn proc_root() -> Seq<char> {
    seq!['/', 'p', 'r', 'o', 'c', '/']
}

/// What stands between the process id and the descriptor number.
pub open spec fn descriptor_dir() -> Seq<char> {
    seq!['/', 'f', 'd', '/']
}

/// The path `/proc/<pid>/fd/<fd>`, both numbers in decimal.
pub open spec fn descriptor_path(pid: nat, fd: nat) -> Seq<char> {
    proc_root() + decimal(pid) + descriptor_dir() + decimal(fd)
}

/// Builds the path `/proc/<pid>/fd/<fd>`.
pub fn descriptor_path_string(pid: u64, fd: u64) -> (path: String)
    ensures
        path@ == descriptor_path(pid as nat, fd as nat),
{
    proof {
        reveal_strlit("/proc/");
        reveal_strlit("/fd/");
    }
    let mut path = String::from_str("/proc/");
    push_decimal(&mut path, pid);
    path.append("/fd/");
    push_decimal(&mut path, fd);
    path
}

/// A path names one process and one descriptor only: two paths are equal only
/// if both numbers are.
pub proof fn lemma_descriptor_path_injective(pid1: nat, fd1: nat, pid2: nat, fd2: nat)
    requires
        descriptor_path(pid1, fd1) == descriptor_path(pid2, fd2),
    ensures
        pid1 == pid2,
        fd1 == fd2,
{
    let first_pid = decimal(pid1);
    let second_pid = decimal(pid2);
    let first_fd = decimal(fd1);
    let second_fd = decimal(fd2);
    let first = descriptor_path(pid1, fd1);
    let second = descriptor_path(pid2, fd2);
    lemma_decimal_digits(pid1);
    lemma_decimal_digits(pid2);
    lemma_decimal_digits(fd1);
    lemma_decimal_digits(fd2);
    let m = first_pid.len() as int;
    let n = second_pid.len() as int;
    // A slash follows the process id, and a slash is no digit: so both
    // process ids have the same number of digits.
    assert(first[6 + m] == '/');
    assert(second[6 + n] == '/');
    if m < n {
        assert(second[6 + m] == second_pid[m]);
    }
    if n < m {
        assert(first[6 + n] == first_pid[n]);
    }
    assert(m == n);
    assert(first_pid =~= first.subrange(6, 6 + m));
    assert(second_pid =~= second.subrange(6, 6 + n));
    assert(first_fd =~= first.subrange(10 + m, first.len() as int));
    assert(second_fd =~= second.subrange(10 + n, second.len() as int));
    lemma_decimal_injective(pid1, pid2);
    lemma_decimal_injective(fd1, fd2);
}

} // verus!
