//! The candidate search.
//!
//! Opening and creating the configuration file both walk the fixed, ordered
//! list of candidate locations and stop at the first that works. Whether a
//! location works only the operating system can say, so each search is a
//! state machine: it names the location to try next, the shell performs the
//! attempt and reports the outcome, and the machine decides whether the
//! search is over. The machine fixes the order, which failures merely move
//! the search on, which are fatal, and which error is surfaced when every
//! candidate is exhausted.

use vstd::prelude::*;

use crate::error::Error;
use crate::file_handler::FileHandler;
use crate::paths::{join_path, spec_join};

verus! {

/// The index of the first successful outcome, if any.
pub open spec fn first_success(outcomes: Seq<bool>) -> Option<int>
    decreases outcomes.len(),
{
    if outcomes.len() == 0 {
        None
    } else if outcomes[0] {
        Some(0int)
    } else {
        match first_success(outcomes.drop_first()) {
            Some(i) => Some(i + 1),
            None => None,
        }
    }
}

/// Fallback order: when the first `n` candidates fail and candidate `n`
/// succeeds, the search settles on candidate `n`.
pub proof fn lemma_fallback_order(outcomes: Seq<bool>, n: int)
    requires
        0 <= n < outcomes.len(),
        forall|i: int| 0 <= i < n ==> !outcomes[i],
        outcomes[n],
    ensures
        first_success(outcomes) == Some(n),
    decreases n,
{
    if n > 0 {
        lemma_fallback_order(outcomes.drop_first(), n - 1);
    }
}

/// Exhaustion: when every candidate fails, the search settles on none.
pub proof fn lemma_exhaustion(outcomes: Seq<bool>)
    requires
        forall|i: int| 0 <= i < outcomes.len() ==> !outcomes[i],
    ensures
        first_success(outcomes) is None,
    decreases outcomes.len(),
{
    if outcomes.len() > 0 {
        lemma_exhaustion(outcomes.drop_first());
    }
}

/// The views of a sequence of path strings.
pub open spec fn views_of(paths: Seq<String>) -> Seq<Seq<char>> {
    paths.map_values(|p: String| p@)
}

/// The candidate file path contributed by one optional directory: the join
/// of the directory with the file name when the directory resolved, nothing
/// when it did not.
pub open spec fn opt_candidate(dir: Option<String>, name: Seq<char>) -> Seq<Seq<char>> {
    match dir {
        Some(d) => seq![spec_join(d@, name)],
        None => seq![],
    }
}

/// The ordered candidate file paths an `open` search probes: additional
/// search path first, then the binary's directory, the bundle resource
/// directory, the per-user application directory, and last the system-wide
/// cache directory.
pub open spec fn open_candidates(
    name: Seq<char>,
    additional: Option<String>,
    bin: Option<String>,
    bundle: Option<String>,
    user: Option<String>,
    cache: Result<String, Error>,
) -> Seq<Seq<char>> {
    opt_candidate(additional, name) + opt_candidate(bin, name) + opt_candidate(bundle, name)
        + opt_candidate(user, name) + (match cache {
        Ok(c) => seq![spec_join(c@, name)],
        Err(_) => seq![],
    })
}

/// The paths a cleanup visits: the file's name joined onto every candidate
/// directory that resolved, in order — the binary's directory, the per-user
/// application directory, and the system-wide cache directory. Resolution
/// failures are skipped, the final location's included: a location that
/// cannot even be named holds no stale copy. The shell removes the file
/// from each of these paths where it exists and stops at the first removal
/// error.
pub fn cleanup_paths(
    name: &str,
    bin: &Option<String>,
    user: &Option<String>,
    cache: &Option<String>,
) -> (r: Vec<String>)
    ensures
        views_of(r@) == opt_candidate(*bin, name@) + opt_candidate(*user, name@) + opt_candidate(
            *cache,
            name@,
        ),
{
    let mut paths: Vec<String> = Vec::new();
    match bin {
        Some(d) => { paths.push(join_path(d.as_str(), name)) },
        None => {},
    }
    assert(views_of(paths@) =~= opt_candidate(*bin, name@));
    let ghost upto_bin = views_of(paths@);
    match user {
        Some(d) => { paths.push(join_path(d.as_str(), name)) },
        None => {},
    }
    assert(views_of(paths@) =~= upto_bin + opt_candidate(*user, name@));
    let ghost upto_user = views_of(paths@);
    match cache {
        Some(d) => { paths.push(join_path(d.as_str(), name)) },
        None => {},
    }
    assert(views_of(paths@) =~= upto_user + opt_candidate(*cache, name@));
    paths
}

/// The search that `open` runs: probe each candidate path in order for a
/// file that exists and grants the requested access, and settle on the
/// first that does.
///
/// The shell drives it: while `current` names a path, the shell attempts to
/// open that file (for reading, and for writing too when `writable` asks
/// for it) and calls `fail` or `succeed` with the outcome. Failures before
/// the last candidate are non-fatal signals to continue; the error surfaced
/// on exhaustion is the final candidate's, except that when the mandatory
/// final location could not even be resolved, its resolution error wins.
pub struct OpenSearch {
    paths: Vec<String>,
    writable: bool,
    tail_error: Option<Error>,
    last_error: Option<Error>,
    idx: usize,
    history: Ghost<Seq<bool>>,
}

impl OpenSearch {
    /// The candidate file paths, in probe order.
    pub closed spec fn spec_paths(&self) -> Seq<Seq<char>> {
        views_of(self.paths@)
    }

    /// How many candidates have been probed and failed.
    pub closed spec fn spec_idx(&self) -> int {
        self.idx as int
    }

    /// Whether the probe must ask for write access.
    pub closed spec fn spec_writable(&self) -> bool {
        self.writable
    }

    /// The resolution error of the mandatory final location, when it could
    /// not be resolved at all.
    pub closed spec fn spec_tail_error(&self) -> Option<Error> {
        self.tail_error
    }

    /// The most recent probe failure.
    pub closed spec fn spec_last_error(&self) -> Option<Error> {
        self.last_error
    }

    /// The probe outcomes reported so far, in order.
    pub closed spec fn spec_history(&self) -> Seq<bool> {
        self.history@
    }

    /// The machine's invariant: probes happen in order, every outcome so
    /// far was a failure (a success ends the search), a failure has been
    /// recorded whenever one happened, and when the final location resolved
    /// there is at least one candidate to probe.
    pub open spec fn wf(&self) -> bool {
        &&& 0 <= self.spec_idx() <= self.spec_paths().len()
        &&& self.spec_history().len() == self.spec_idx()
        &&& (forall|i: int| 0 <= i < self.spec_idx() ==> !self.spec_history()[i])
        &&& (self.spec_idx() > 0 ==> self.spec_last_error() is Some)
        &&& (self.spec_tail_error() is None ==> self.spec_paths().len() > 0)
    }

    /// Candidates remain to probe.
    pub open spec fn in_progress(&self) -> bool {
        self.spec_idx() < self.spec_paths().len()
    }

    /// Starts the search for a file called `name`, from the outcomes of the
    /// five candidate-directory resolutions, in their fixed priority order.
    /// Every resolution failure but the final one is skipped silently; the
    /// final one is kept, to be surfaced if no candidate works out.
    pub fn new(
        name: &str,
        writable: bool,
        additional: &Option<String>,
        bin: &Option<String>,
        bundle: &Option<String>,
        user: &Option<String>,
        cache: &Result<String, Error>,
    ) -> (s: OpenSearch)
        ensures
            s.wf(),
            s.spec_idx() == 0,
            s.spec_history() == Seq::<bool>::empty(),
            s.spec_writable() == writable,
            s.spec_paths() == open_candidates(name@, *additional, *bin, *bundle, *user, *cache),
            match cache {
                Ok(_) => s.spec_tail_error() is None,
                Err(e) => s.spec_tail_error() matches Some(te) && te == e,
            },
    {
        let mut paths: Vec<String> = Vec::new();
        match additional {
            Some(d) => { paths.push(join_path(d.as_str(), name)) },
            None => {},
        }
        assert(views_of(paths@) =~= opt_candidate(*additional, name@));
        let ghost upto_additional = views_of(paths@);
        match bin {
            Some(d) => { paths.push(join_path(d.as_str(), name)) },
            None => {},
        }
        assert(views_of(paths@) =~= upto_additional + opt_candidate(*bin, name@));
        let ghost upto_bin = views_of(paths@);
        match bundle {
            Some(d) => { paths.push(join_path(d.as_str(), name)) },
            None => {},
        }
        assert(views_of(paths@) =~= upto_bin + opt_candidate(*bundle, name@));
        let ghost upto_bundle = views_of(paths@);
        match user {
            Some(d) => { paths.push(join_path(d.as_str(), name)) },
            None => {},
        }
        assert(views_of(paths@) =~= upto_bundle + opt_candidate(*user, name@));
        let ghost upto_user = views_of(paths@);
        let tail_error = match cache {
            Ok(d) => {
                paths.push(join_path(d.as_str(), name));
                None
            },
            Err(e) => Some(e.clone()),
        };
        assert(views_of(paths@) =~= upto_user + (match *cache {
            Ok(c) => seq![spec_join(c@, name@)],
            Err(_) => seq![],
        }));
        assert(views_of(paths@) =~= open_candidates(
            name@,
            *additional,
            *bin,
            *bundle,
            *user,
            *cache,
        ));
        OpenSearch {
            paths,
            writable,
            tail_error,
            last_error: None,
            idx: 0,
            history: Ghost(Seq::empty()),
        }
    }

    /// The candidate path to probe next, or nothing when the search is
    /// exhausted.
    pub fn current(&self) -> (r: Option<String>)
        requires
            self.wf(),
        ensures
            match r {
                Some(p) => self.in_progress() && p@ == self.spec_paths()[self.spec_idx()],
                None => !self.in_progress(),
            },
    {
        if self.idx < self.paths.len() {
            Some(self.paths[self.idx].clone())
        } else {
            None
        }
    }

    /// Whether probes must ask for write access besides read access.
    pub fn writable(&self) -> (r: bool)
        ensures
            r == self.spec_writable(),
    {
        self.writable
    }

    /// Records that the current candidate failed and moves on to the next.
    pub fn fail(&mut self, err: Error)
        requires
            old(self).wf(),
            old(self).in_progress(),
        ensures
            final(self).wf(),
            final(self).spec_idx() == old(self).spec_idx() + 1,
            final(self).spec_paths() == old(self).spec_paths(),
            final(self).spec_writable() == old(self).spec_writable(),
            final(self).spec_tail_error() == old(self).spec_tail_error(),
            final(self).spec_last_error() == Some(err),
            final(self).spec_history() == old(self).spec_history().push(false),
    {
        let n = self.paths.len();
        proof {
            assert(self.spec_paths().len() == self.paths@.len());
            assert(self.idx < n);
        }
        self.idx = self.idx + 1;
        self.last_error = Some(err);
        proof {
            self.history@ = self.history@.push(false);
        }
    }

    /// Ends the search at the current candidate: the file was opened there,
    /// so the handle points at it. The chosen path is the first whose probe
    /// succeeded.
    pub fn succeed(self) -> (h: FileHandler)
        requires
            self.wf(),
            self.in_progress(),
        ensures
            h@ == self.spec_paths()[self.spec_idx()],
            first_success(self.spec_history().push(true)) == Some(self.spec_idx()),
    {
        proof {
            lemma_fallback_order(self.spec_history().push(true), self.spec_idx());
        }
        let mut s = self;
        let p = s.paths.remove(s.idx);
        FileHandler::at_path(p)
    }

    /// Ends an exhausted search: no candidate succeeded. The error is the
    /// mandatory final location's resolution error when that location never
    /// resolved, and otherwise the last probe's.
    pub fn into_error(self) -> (e: Error)
        requires
            self.wf(),
            !self.in_progress(),
        ensures
            first_success(self.spec_history()) is None,
            match self.spec_tail_error() {
                Some(te) => e == te,
                None => self.spec_last_error() matches Some(le) && e == le,
            },
    {
        proof {
            lemma_exhaustion(self.spec_history());
        }
        match self.tail_error {
            Some(te) => te,
            None => {
                match self.last_error {
                    Some(le) => le,
                    None => vstd::pervasive::unreached(),
                }
            },
        }
    }
}

} // verus!
