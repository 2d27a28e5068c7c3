use vstd::prelude::*;
use vstd::string::*;
use crate::text::{dec_str, decimal, digits_value, is_dec_digit, is_space, is_space_char, lemma_dec_str_value, trim_end, trim_start};

verus! {

/// Why a lock could not be taken.
#[derive(Debug, Clone, PartialEq, Eq)]
pub enum LockError {
    Io(String),
    AlreadyLocked,
}

/// A held lock: the path of the lock file that names this process.
#[derive(Debug)]
pub struct Lock {
    pub path: String,
}

/// What taking the lock requires of the file system.
#[derive(Debug, Clone, Copy, PartialEq, Eq, Structural)]
pub enum LockAction {
    /// No lock file exists: create one.
    Create,
    /// A stale lock file exists: delete it, then create one.
    ReclaimThenCreate,
}

/// `t` without one leading `+`.
pub open spec fn strip_plus(t: Seq<char>) -> Seq<char> {
    if t.len() > 0 && t[0] == '+' {
        t.drop_first()
    } else {
        t
    }
}

/// Whether every character of `d` is a decimal digit.
pub open spec fn all_digits(d: Seq<char>) -> bool {
    forall|i: int| 0 <= i < d.len() ==> is_dec_digit(#[trigger] d[i])
}

/// The process id that a run of decimal digits with an optional `+` sign
/// denotes, where it fits in 32 bits.
pub open spec fn u32_of(t: Seq<char>) -> Option<u32> {
    let d = strip_plus(t);
    if d.len() > 0 && all_digits(d) && digits_value(d) <= u32::MAX {
        Some(digits_value(d) as u32)
    } else {
        None
    }
}

/// The process id named by a lock file's text, surrounding white space aside.
pub open spec fn pid_in(contents: Seq<char>) -> Option<u32> {
    u32_of(trim_end(trim_start(contents)))
}

/// What taking the lock does, given whether the file exists, the pid it
/// names, and whether that process is alive.
pub open spec fn acquire_outcome(file_exists: bool, holder: Option<u32>, holder_alive: bool)
    -> Result<LockAction, LockError>
{
    if !file_exists {
        Ok(LockAction::Create)
    } else if holder is Some && holder_alive {
        Err(LockError::AlreadyLocked)
    } else {
        Ok(LockAction::ReclaimThenCreate)
    }
}

/// The text written into a lock file by the process `pid`.
pub fn lock_contents(pid: u32) -> (r: String)
    ensures
        r@ == dec_str(pid as nat),
{
    decimal(pid as u64)
}

/// Reads the process id in a lock file's text: decimal digits, with an
/// optional `+`, between any white space.
pub fn parse_pid(contents: &str) -> (r: Option<u32>)
    ensures
        r == pid_in(contents@),
{
    let n = contents.unicode_len();
    let mut lo: usize = 0;
    assert(contents@.subrange(0, n as int) =~= contents@);
    while lo < n && is_space_char(contents.get_char(lo))
        invariant
            lo <= n,
            n == contents@.len(),
            trim_start(contents@) == trim_start(contents@.subrange(lo as int, n as int)),
        decreases n - lo,
    {
        assert(contents@.subrange(lo as int, n as int).drop_first() =~= contents@.subrange(lo + 1, n as int));
        lo = lo + 1;
    }
    let mut hi: usize = n;
    while hi > lo && is_space_char(contents.get_char(hi - 1))
        invariant
            lo <= hi <= n,
            n == contents@.len(),
            trim_start(contents@) == contents@.subrange(lo as int, n as int),
            trim_end(trim_start(contents@)) == trim_end(contents@.subrange(lo as int, hi as int)),
        decreases hi,
    {
        assert(contents@.subrange(lo as int, hi as int).drop_last() =~= contents@.subrange(lo as int, hi - 1));
        hi = hi - 1;
    }
    let ghost t = contents@.subrange(lo as int, hi as int);
    assert(trim_end(trim_start(contents@)) == t);
    let mut start = lo;
    if lo < hi && contents.get_char(lo) == '+' {
        start = lo + 1;
    }
    let ghost d = contents@.subrange(start as int, hi as int);
    assert(d =~= strip_plus(t));
    if start >= hi {
        return None;
    }
    let mut value: u64 = 0;
    let mut k: usize = start;
    while k < hi
        invariant
            lo <= start <= k <= hi <= n,
            n == contents@.len(),
            d == contents@.subrange(start as int, hi as int),
            d == strip_plus(t),
            trim_end(trim_start(contents@)) == t,
            forall|i: int| start <= i < k ==> is_dec_digit(#[trigger] contents@[i]),
            value <= u32::MAX + 1,
            value == u32::MAX + 1 ==> digits_value(contents@.subrange(start as int, k as int)) > u32::MAX,
            value <= u32::MAX ==> value == digits_value(contents@.subrange(start as int, k as int)),
        decreases hi - k,
    {
        let c = contents.get_char(k);
        if !('0' <= c && c <= '9') {
            assert(d[k - start] == c);
            assert(!is_dec_digit(d[k - start]));
            assert(0 <= k - start < d.len());
            assert(u32_of(t) is None);
            return None;
        }
        let digit = (c as u32 - '0' as u32) as u64;
        let ghost next = contents@.subrange(start as int, k + 1);
        assert(next.drop_last() =~= contents@.subrange(start as int, k as int));
        assert(next.last() == c);
        if value <= u32::MAX as u64 {
            value = value * 10 + digit;
            if value > u32::MAX as u64 {
                value = u32::MAX as u64 + 1;
            }
        }
        k = k + 1;
    }
    assert(contents@.subrange(start as int, k as int) =~= d);
    assert forall|i: int| 0 <= i < d.len() implies is_dec_digit(#[trigger] d[i]) by {
        assert(d[i] == contents@[start + i]);
    }
    if value > u32::MAX as u64 {
        None
    } else {
        Some(value as u32)
    }
}

/// Decides how to take the lock. A lock file whose pid names a live process
/// refuses the lock; one that names a dead process, or no readable pid, is
/// stale and is reclaimed; with no file the lock is simply created.
pub fn acquire_action(file_exists: bool, holder: Option<u32>, holder_alive: bool)
    -> (r: Result<LockAction, LockError>)
    ensures
        r == acquire_outcome(file_exists, holder, holder_alive),
{
    if !file_exists {
        Ok(LockAction::Create)
    } else if holder.is_some() && holder_alive {
        Err(LockError::AlreadyLocked)
    } else {
        Ok(LockAction::ReclaimThenCreate)
    }
}

impl Lock {
    /// The lock held through the file at `path`.
    pub fn held_at(path: String) -> (r: Lock)
        ensures
            r.path@ == path@,
    {
        Lock { path }
    }
}

/// A lock file's text names the process that wrote it.
pub proof fn lemma_lock_contents_name_writer(pid: u32)
    ensures
        pid_in(dec_str(pid as nat)) == Some(pid),
{
    let s = dec_str(pid as nat);
    lemma_dec_str_value(pid as nat);
    assert(!is_space(s[0]));
    assert(trim_start(s) == s);
    assert(!is_space(s.last()));
    assert(trim_end(s) == s);
    assert(s[0] != '+');
}

/// Mutual exclusion across invocations: while the process that wrote the
/// lock file is alive, taking the lock is refused; once the file is removed
/// on release, taking it succeeds; a file that names a dead process is
/// reclaimed without error.
pub proof fn lemma_lock_exclusion(holder: u32, any_pid: Option<u32>, any_alive: bool)
    ensures
        acquire_outcome(true, pid_in(dec_str(holder as nat)), true) == Err::<LockAction, LockError>(LockError::AlreadyLocked),
        acquire_outcome(false, any_pid, any_alive) == Ok::<LockAction, LockError>(LockAction::Create),
        acquire_outcome(true, pid_in(dec_str(holder as nat)), false) == Ok::<LockAction, LockError>(LockAction::ReclaimThenCreate),
{
    lemma_lock_contents_name_writer(holder);
}

} // verus!
