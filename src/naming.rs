//! Naming of the uploaded archive: a time-stamped base name, and the bounded
//! search for a remote name that is not taken yet.
//!
//! The search probes `<base>.zip`, then `<base>-1.zip`, `<base>-2.zip`, ...
//! and stops at the first name that is free. It gives up after
//! `MAX_PROBES` probes. Probing is the caller's work: this module decides,
//! after each probe, what comes next.

use vstd::prelude::*;

use crate::settings::Ftp;
use crate::text::{decimal, push_decimal};

verus! {

/// How many names are probed before the search gives up.
pub const MAX_PROBES: u64 = 99;

/// The base name of an upload: the configured stem, a dash, and the time stamp.
pub open spec fn remote_base(stem: Seq<char>, stamp: Seq<char>) -> Seq<char> {
    stem + seq!['-'] + stamp
}

/// The remote name tried at `index`: `<base>.zip` first, then `<base>-<index>.zip`.
pub open spec fn target_name(base: Seq<char>, index: nat) -> Seq<char> {
    if index == 0 {
        base + seq!['.', 'z', 'i', 'p']
    } else {
        base + seq!['-'] + decimal(index) + seq!['.', 'z', 'i', 'p']
    }
}

/// What the search does next.
#[derive(Clone, Copy, Debug, PartialEq, Eq, Structural)]
pub enum ProbeStep {
    /// Probe whether the name of this index exists.
    Probe(u64),
    /// Upload under the name of this index, which was found free.
    Upload(u64),
    /// Every name that may be probed was taken.
    TooManyCollisions,
}

/// The step after probing the name of `index`, which was `found` or not.
pub open spec fn after_probe(index: u64, found: bool) -> ProbeStep {
    if !found {
        ProbeStep::Upload(index)
    } else if index + 1 >= MAX_PROBES {
        ProbeStep::TooManyCollisions
    } else {
        ProbeStep::Probe((index + 1) as u64)
    }
}

/// The indices probed from `index` on, when `found[i]` tells whether the name
/// of index `i` exists, and the step the search ends with.
pub open spec fn probe_run(found: Seq<bool>, index: nat) -> (Seq<nat>, ProbeStep)
    decreases MAX_PROBES - index,
{
    if index >= MAX_PROBES {
        (Seq::empty(), ProbeStep::TooManyCollisions)
    } else {
        match after_probe(index as u64, found[index as int]) {
            ProbeStep::Probe(next) => {
                if next == index + 1 {
                    let (rest, end) = probe_run(found, next as nat);
                    (seq![index] + rest, end)
                } else {
                    (seq![index], ProbeStep::TooManyCollisions)
                }
            },
            end => (seq![index], end),
        }
    }
}

/// The first step of a search: probe the name of index 0.
pub fn first_probe() -> (r: ProbeStep)
    ensures
        r == ProbeStep::Probe(0),
{
    ProbeStep::Probe(0)
}

/// Decides the next step after the name of `index` was probed.
pub fn next_probe_step(index: u64, found: bool) -> (r: ProbeStep)
    requires
        index < MAX_PROBES,
    ensures
        r == after_probe(index, found),
{
    if !found {
        ProbeStep::Upload(index)
    } else if index + 1 >= MAX_PROBES {
        ProbeStep::TooManyCollisions
    } else {
        ProbeStep::Probe(index + 1)
    }
}

/// The remote name tried at `index` for the base name `base`.
pub fn target_name_for(base: &str, index: u64) -> (r: String)
    ensures
        r@ == target_name(base@, index as nat),
{
    let mut s = String::from_str(base);
    if index != 0 {
        s.append("-");
        push_decimal(&mut s, index);
    }
    s.append(".zip");
    proof {
        reveal_strlit("-");
        reveal_strlit(".zip");
        assert(s@ =~= target_name(base@, index as nat));
    }
    s
}

proof fn lemma_probe_run_from(found: Seq<bool>, k: nat, i: nat)
    requires
        k < MAX_PROBES,
        i <= k,
        k < found.len(),
        forall|j: int| 0 <= j < k ==> found[j],
        !found[k as int],
    ensures
        probe_run(found, i) == (Seq::new((k + 1 - i) as nat, |j: int| (i + j) as nat), ProbeStep::Upload(k as u64)),
    decreases k - i,
{
    if i < k {
        lemma_probe_run_from(found, k, i + 1);
        let (rest, end) = probe_run(found, i + 1);
        assert(seq![i] + rest =~= Seq::new((k + 1 - i) as nat, |j: int| (i + j) as nat));
    } else {
        assert(seq![i] =~= Seq::new((k + 1 - i) as nat, |j: int| (i + j) as nat));
    }
}

/// When the names of indices below `k` are taken and the name of `k` is free
/// (`k < MAX_PROBES`), the search probes exactly the indices `0..=k`, in
/// order, and uploads under the name of `k`.
pub proof fn lemma_search_takes_first_free(found: Seq<bool>, k: nat)
    requires
        k < MAX_PROBES,
        k < found.len(),
        forall|j: int| 0 <= j < k ==> found[j],
        !found[k as int],
    ensures
        probe_run(found, 0) == (Seq::new(k + 1, |j: int| j as nat), ProbeStep::Upload(k as u64)),
{
    lemma_probe_run_from(found, k, 0);
    assert(Seq::new((k + 1 - 0) as nat, |j: int| (0 + j) as nat) =~= Seq::new(k + 1, |j: int| j as nat));
}

proof fn lemma_probe_run_taken_from(found: Seq<bool>, i: nat)
    requires
        i < MAX_PROBES,
        MAX_PROBES <= found.len(),
        forall|j: int| 0 <= j < MAX_PROBES ==> found[j],
    ensures
        probe_run(found, i) == (Seq::new((MAX_PROBES - i) as nat, |j: int| (i + j) as nat), ProbeStep::TooManyCollisions),
    decreases MAX_PROBES - i,
{
    if i + 1 < MAX_PROBES {
        lemma_probe_run_taken_from(found, i + 1);
        let (rest, end) = probe_run(found, i + 1);
        assert(seq![i] + rest =~= Seq::new((MAX_PROBES - i) as nat, |j: int| (i + j) as nat));
    } else {
        assert(seq![i] =~= Seq::new((MAX_PROBES - i) as nat, |j: int| (i + j) as nat));
    }
}

/// When every name is taken, the search probes exactly `MAX_PROBES` names,
/// indices `0..MAX_PROBES` in order, and ends without an upload.
pub proof fn lemma_search_gives_up(found: Seq<bool>)
    requires
        MAX_PROBES <= found.len(),
        forall|j: int| 0 <= j < MAX_PROBES ==> found[j],
    ensures
        probe_run(found, 0) == (Seq::new(MAX_PROBES as nat, |j: int| j as nat), ProbeStep::TooManyCollisions),
{
    lemma_probe_run_taken_from(found, 0);
    assert(Seq::new((MAX_PROBES - 0) as nat, |j: int| (0 + j) as nat) =~= Seq::new(MAX_PROBES as nat, |j: int| j as nat));
}

} // verus!

verus! {

/// `time::Tm`, a broken-down time, carried from `time::now` to `time::strftime`.
#[verifier::external_type_specification]
#[verifier::external_body]
pub struct ExTm(time::Tm);

/// `time::ParseError`, the error of `time::strftime` for a pattern it rejects.
#[verifier::external_type_specification]
#[verifier::external_body]
pub struct ExTimeParseError(time::ParseError);

/// Relies on `time::now`: the current local time. Nothing is promised of it.
#[verifier::external_body]
fn local_now() -> (r: time::Tm) {
    time::now()
}

/// Relies on `time::strftime`: `tm` formatted with the pattern `format`, or an
/// error for a pattern it does not accept. The text depends on the time.
#[verifier::external_body]
fn strftime(format: &str, tm: &time::Tm) -> (r: Result<String, time::ParseError>) {
    time::strftime(format, tm)
}

/// The configured time pattern could not format the current time.
#[derive(Clone, Debug)]
pub struct FileNameError {
    pub pattern: String,
}

/// The base name of an upload for the stem `stem` and the time stamp `stamp`.
pub fn base_name(stem: &str, stamp: &str) -> (r: String)
    ensures
        r@ == remote_base(stem@, stamp@),
{
    let mut s = String::from_str(stem);
    s.append("-");
    s.append(stamp);
    proof {
        reveal_strlit("-");
        assert(s@ =~= remote_base(stem@, stamp@));
    }
    s
}

/// Uploads of archives to the configured remote store.
pub struct FtpAction<'a> {
    pub settings: &'a Ftp,
}

impl<'a> FtpAction<'a> {
    pub fn new(ftp: &'a Ftp) -> (r: FtpAction<'a>)
        ensures
            r.settings == ftp,
    {
        FtpAction { settings: ftp }
    }

    /// The base name for an upload now: the configured stem, a dash, and the
    /// current local time formatted with the configured pattern.
    pub fn generate_file_name(&self) -> (r: Result<String, FileNameError>)
        ensures
            r matches Ok(name) ==> exists|stamp: Seq<char>|
                name@ == remote_base(self.settings.backup_file_name@, stamp),
            r matches Err(e) ==> e.pattern@ == self.settings.backup_suffix_format@,
    {
        let now = local_now();
        match strftime(self.settings.backup_suffix_format.as_str(), &now) {
            Ok(stamp) => Ok(base_name(self.settings.backup_file_name.as_str(), stamp.as_str())),
            Err(_) => Err(FileNameError { pattern: self.settings.backup_suffix_format.clone() }),
        }
    }
}

} // verus!
