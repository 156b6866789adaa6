//! Choosing practice files: which directory entries qualify, and the
//! bounded run of random picks that looks for one that can be read.

use vstd::prelude::*;
use vstd::string::StrSliceExecFns;

verus! {

/// The picks a sampler grants before it gives up.
pub const MAX_ATTEMPTS: u32 = 100;

/// A name that starts with a dot.
pub open spec fn hidden_name(name: Seq<char>) -> bool {
    name.len() > 0 && name[0] == '.'
}

/// A name that ends with `.rs`.
pub open spec fn rust_file_name(name: Seq<char>) -> bool {
    name.len() >= 3 && name[name.len() - 3] == '.' && name[name.len() - 2] == 'r' && name[name.len()
        - 1] == 's'
}

/// Whether a file named `name` is hidden.
pub fn is_hidden(name: &str) -> (r: bool)
    ensures
        r == hidden_name(name@),
{
    name.unicode_len() > 0 && name.get_char(0) == '.'
}

/// Whether a file named `name` holds Rust source.
pub fn is_rust_file(name: &str) -> (r: bool)
    ensures
        r == rust_file_name(name@),
{
    let n = name.unicode_len();
    n >= 3 && name.get_char(n - 3) == '.' && name.get_char(n - 2) == 'r' && name.get_char(n - 1)
        == 's'
}

/// Whether a directory entry is a candidate: `file_name` is its name where
/// the walk could read it as text, and `None` where the walk failed on it
/// or the name is not text.
pub fn check_path(file_name: Option<&str>) -> (r: bool)
    ensures
        r == match file_name {
            Some(name) => !hidden_name(name@) && rust_file_name(name@),
            None => false,
        },
{
    match file_name {
        Some(name) => !is_hidden(name) && is_rust_file(name),
        None => false,
    }
}

/// Relies on fastrand::usize: a number drawn from `0..n`; it panics only on
/// an empty range.
#[verifier::external_body]
fn random_below(n: usize) -> (r: usize)
    requires
        n > 0,
    ensures
        r < n,
{
    fastrand::usize(..n)
}

/// Whether a sampler that has made `attempts` picks among `candidates`
/// grants another.
pub open spec fn grants(attempts: u32, candidates: usize) -> bool {
    attempts < MAX_ATTEMPTS && candidates > 0
}

/// The picks that successive calls grant, from `attempts` made on.
pub open spec fn picks_left(attempts: u32, candidates: usize) -> nat
    decreases MAX_ATTEMPTS - attempts,
{
    if grants(attempts, candidates) {
        1 + picks_left((attempts + 1) as u32, candidates)
    } else {
        0
    }
}

/// Random picks among a fixed number of candidates, at most `MAX_ATTEMPTS`
/// of them.
pub struct Sampler {
    attempts: u32,
    candidates: usize,
}

impl Sampler {
    /// The picks made so far.
    pub closed spec fn attempts(&self) -> u32 {
        self.attempts
    }

    /// The number of candidates picked from.
    pub closed spec fn candidates(&self) -> usize {
        self.candidates
    }

    /// A sampler over `candidates` candidates that has made no pick.
    pub fn new(candidates: usize) -> (s: Sampler)
        ensures
            s.attempts() == 0,
            s.candidates() == candidates,
    {
        Sampler { attempts: 0, candidates }
    }

    /// The picks made so far.
    pub fn attempts_made(&self) -> (r: u32)
        ensures
            r == self.attempts(),
    {
        self.attempts
    }

    /// The index of the next candidate to try, drawn at random; `None` once
    /// `MAX_ATTEMPTS` picks were made, or where there is no candidate.
    pub fn next_pick(&mut self) -> (r: Option<usize>)
        ensures
            final(self).candidates() == old(self).candidates(),
            grants(old(self).attempts(), old(self).candidates()) ==> {
                &&& r is Some
                &&& r->0 < old(self).candidates()
                &&& final(self).attempts() == old(self).attempts() + 1
            },
            !grants(old(self).attempts(), old(self).candidates()) ==> {
                &&& r is None
                &&& final(self).attempts() == old(self).attempts()
            },
    {
        if self.attempts < MAX_ATTEMPTS && self.candidates > 0 {
            self.attempts = self.attempts + 1;
            Some(random_below(self.candidates))
        } else {
            None
        }
    }
}

/// Where no candidate can be read, a fresh sampler grants exactly
/// `MAX_ATTEMPTS` picks before it gives up: one per call, and none after.
pub proof fn lemma_retry_bound(candidates: usize)
    requires
        candidates > 0,
    ensures
        picks_left(0, candidates) == MAX_ATTEMPTS,
        forall|a: u32| a <= MAX_ATTEMPTS ==> #[trigger] picks_left(a, candidates) == MAX_ATTEMPTS - a,
{
    assert forall|a: u32| a <= MAX_ATTEMPTS implies #[trigger] picks_left(a, candidates)
        == MAX_ATTEMPTS - a by {
        lemma_picks_left(a, candidates);
    }
}

proof fn lemma_picks_left(a: u32, candidates: usize)
    requires
        candidates > 0,
        a <= MAX_ATTEMPTS,
    ensures
        picks_left(a, candidates) == MAX_ATTEMPTS - a,
    decreases MAX_ATTEMPTS - a,
{
    if a < MAX_ATTEMPTS {
        lemma_picks_left((a + 1) as u32, candidates);
    }
}

/// Picks candidates among `candidates` at random and hands each pick to
/// `read` until one yields a text or `MAX_ATTEMPTS` picks were made. Returns
/// that text, if any, and the number of reads made: where no read yields a
/// text, that is exactly `MAX_ATTEMPTS` (none without candidates).
pub fn sample<F: Fn(usize) -> Option<String>>(candidates: usize, read: F) -> (r: (
    Option<String>,
    u32,
))
    requires
        forall|i: usize| i < candidates ==> read.requires((i,)),
    ensures
        r.1 <= MAX_ATTEMPTS,
        candidates == 0 ==> r.0 is None && r.1 == 0,
        candidates > 0 && r.0 is None ==> r.1 == MAX_ATTEMPTS,
        r.0 is Some ==> r.1 >= 1 && exists|i: usize| i < candidates && read.ensures((i,), r.0),
{
    let mut sampler = Sampler::new(candidates);
    loop
        invariant
            sampler.candidates() == candidates,
            sampler.attempts() <= MAX_ATTEMPTS,
            candidates == 0 ==> sampler.attempts() == 0,
            forall|i: usize| i < candidates ==> read.requires((i,)),
        decreases MAX_ATTEMPTS - sampler.attempts(),
    {
        match sampler.next_pick() {
            None => {
                return (None, sampler.attempts_made());
            },
            Some(i) => {
                let text = read(i);
                if text.is_some() {
                    return (text, sampler.attempts_made());
                }
            },
        }
    }
}

} // verus!
