//! The creation search.
//!
//! When no candidate location already holds the file, `new_or_default`
//! creates it with the type's default content. The locations tried differ
//! from the open search: the bundle resource directory is never written to,
//! and the per-user and system-wide locations may first need their
//! directory created. The rules also differ in which failures are fatal:
//! a directory or open failure merely moves the search on (except at the
//! mandatory final location), but a failure to write the content after the
//! file was opened is always surfaced at once — continuing could leave a
//! half-written file behind as the chosen one.

use vstd::prelude::*;

use crate::error::Error;
use crate::file_handler::FileHandler;
use crate::paths::{join_path, spec_join};
use crate::search::{first_success, lemma_exhaustion, lemma_fallback_order};

verus! {

/// One location the creation search may try: the directory, the file path
/// inside it, and whether the directory itself must first be created when
/// it is absent.
#[derive(Debug)]
pub struct CreateCandidate {
    /// The candidate directory.
    pub dir: String,
    /// The file path inside the directory.
    pub path: String,
    /// Whether the directory is created when absent before the file is
    /// opened there.
    pub ensure_dir: bool,
}

impl View for CreateCandidate {
    type V = (Seq<char>, Seq<char>, bool);

    open spec fn view(&self) -> Self::V {
        (self.dir@, self.path@, self.ensure_dir)
    }
}

impl Clone for CreateCandidate {
    fn clone(&self) -> (r: Self)
        ensures
            r == self,
    {
        CreateCandidate {
            dir: self.dir.clone(),
            path: self.path.clone(),
            ensure_dir: self.ensure_dir,
        }
    }
}

/// The views of a sequence of candidates.
pub open spec fn cand_views(cands: Seq<CreateCandidate>) -> Seq<(Seq<char>, Seq<char>, bool)> {
    cands.map_values(|c: CreateCandidate| c@)
}

/// The candidate contributed by one optional directory.
pub open spec fn opt_create_candidate(dir: Option<String>, name: Seq<char>, ensure_dir: bool) -> Seq<
    (Seq<char>, Seq<char>, bool),
> {
    match dir {
        Some(d) => seq![(d@, spec_join(d@, name), ensure_dir)],
        None => seq![],
    }
}

/// The ordered locations a creation search tries: additional search path,
/// the binary's directory, the per-user application directory (created when
/// absent), and last the system-wide cache directory (likewise created when
/// absent). The bundle resource directory is read-only and never tried.
pub open spec fn create_candidates(
    name: Seq<char>,
    additional: Option<String>,
    bin: Option<String>,
    user: Option<String>,
    cache: Result<String, Error>,
) -> Seq<(Seq<char>, Seq<char>, bool)> {
    opt_create_candidate(additional, name, false) + opt_create_candidate(bin, name, false)
        + opt_create_candidate(user, name, true) + (match cache {
        Ok(c) => seq![(c@, spec_join(c@, name), true)],
        Err(_) => seq![],
    })
}

/// What the shell reports after attempting the current candidate.
#[derive(Debug)]
pub enum CreateEvent {
    /// The candidate's directory was absent and creating it failed.
    DirFailed(Error),
    /// The file could not be opened there for create-and-truncate.
    OpenFailed(Error),
    /// The file was opened but writing the content under the exclusive
    /// lock failed.
    WriteFailed(Error),
    /// The file was created (or truncated) and the content written whole.
    Written,
}

/// What the search decides after an event.
#[derive(Debug)]
pub enum CreateDecision {
    /// Try the next candidate.
    Continue,
    /// The file stands at this path; the search is over.
    Done(FileHandler),
    /// The search is over with this error.
    Fail(Error),
}

/// The search that `new_or_default` runs after `open` found nothing: try to
/// create the file with the default content in each writable-capable
/// candidate location in order.
///
/// The shell drives it: while `current` names a candidate, the shell makes
/// sure the directory exists when the candidate asks for that, opens the
/// file for create-and-truncate, writes the serialized default under an
/// exclusive lock, and hands the outcome to `step`. The whole drive runs
/// under the process-wide guard, so two threads cannot race to create the
/// same file.
pub struct CreateSearch {
    cands: Vec<CreateCandidate>,
    tail_error: Option<Error>,
    idx: usize,
    history: Ghost<Seq<bool>>,
}

/// After a non-fatal failure the search either moves on to the next
/// candidate, or surfaces the error when the failed candidate was the
/// mandatory final one.
pub open spec fn skip_or_fatal(
    pre: CreateSearch,
    post: CreateSearch,
    e: Error,
    d: CreateDecision,
) -> bool {
    if pre.spec_idx() == pre.spec_cands().len() - 1 && pre.spec_tail_error() is None {
        &&& d == CreateDecision::Fail(e)
        &&& post.spec_idx() == pre.spec_idx()
        &&& post.spec_history() == pre.spec_history()
    } else {
        &&& d is Continue
        &&& post.spec_idx() == pre.spec_idx() + 1
        &&& post.spec_history() == pre.spec_history().push(false)
    }
}

impl CreateSearch {
    /// The candidate locations, in order.
    pub closed spec fn spec_cands(&self) -> Seq<(Seq<char>, Seq<char>, bool)> {
        cand_views(self.cands@)
    }

    /// How many candidates have been tried and failed.
    pub closed spec fn spec_idx(&self) -> int {
        self.idx as int
    }

    /// The resolution error of the mandatory final location, when it could
    /// not be resolved at all.
    pub closed spec fn spec_tail_error(&self) -> Option<Error> {
        self.tail_error
    }

    /// The attempt outcomes reported so far, in order.
    pub closed spec fn spec_history(&self) -> Seq<bool> {
        self.history@
    }

    /// The machine's invariant: attempts happen in order, every outcome so
    /// far was a failure, and an exhausted search always has the mandatory
    /// final location's resolution error to surface — a candidate list that
    /// ends in a resolved final location fails fatally there instead of
    /// running out.
    pub open spec fn wf(&self) -> bool {
        &&& 0 <= self.spec_idx() <= self.spec_cands().len()
        &&& self.spec_history().len() == self.spec_idx()
        &&& (forall|i: int| 0 <= i < self.spec_idx() ==> !self.spec_history()[i])
        &&& (self.spec_idx() == self.spec_cands().len() ==> self.spec_tail_error() is Some)
    }

    /// Candidates remain to try.
    pub open spec fn in_progress(&self) -> bool {
        self.spec_idx() < self.spec_cands().len()
    }

    /// Starts the creation search for a file called `name`, from the
    /// outcomes of the candidate-directory resolutions. Every resolution
    /// failure but the final one is skipped silently; the final one is
    /// kept, to be surfaced if every candidate is exhausted.
    pub fn new(
        name: &str,
        additional: &Option<String>,
        bin: &Option<String>,
        user: &Option<String>,
        cache: &Result<String, Error>,
    ) -> (s: CreateSearch)
        ensures
            s.wf(),
            s.spec_idx() == 0,
            s.spec_history() == Seq::<bool>::empty(),
            s.spec_cands() == create_candidates(name@, *additional, *bin, *user, *cache),
            match cache {
                Ok(_) => s.spec_tail_error() is None,
                Err(e) => s.spec_tail_error() matches Some(te) && te == e,
            },
    {
        let mut cands: Vec<CreateCandidate> = Vec::new();
        match additional {
            Some(d) => {
                cands.push(
                    CreateCandidate {
                        dir: d.clone(),
                        path: join_path(d.as_str(), name),
                        ensure_dir: false,
                    },
                )
            },
            None => {},
        }
        assert(cand_views(cands@) =~= opt_create_candidate(*additional, name@, false));
        let ghost upto_additional = cand_views(cands@);
        match bin {
            Some(d) => {
                cands.push(
                    CreateCandidate {
                        dir: d.clone(),
                        path: join_path(d.as_str(), name),
                        ensure_dir: false,
                    },
                )
            },
            None => {},
        }
        assert(cand_views(cands@) =~= upto_additional + opt_create_candidate(*bin, name@, false));
        let ghost upto_bin = cand_views(cands@);
        match user {
            Some(d) => {
                cands.push(
                    CreateCandidate {
                        dir: d.clone(),
                        path: join_path(d.as_str(), name),
                        ensure_dir: true,
                    },
                )
            },
            None => {},
        }
        assert(cand_views(cands@) =~= upto_bin + opt_create_candidate(*user, name@, true));
        let ghost upto_user = cand_views(cands@);
        let tail_error = match cache {
            Ok(d) => {
                cands.push(
                    CreateCandidate {
                        dir: d.clone(),
                        path: join_path(d.as_str(), name),
                        ensure_dir: true,
                    },
                );
                None
            },
            Err(e) => Some(e.clone()),
        };
        assert(cand_views(cands@) =~= upto_user + (match *cache {
            Ok(c) => seq![(c@, spec_join(c@, name@), true)],
            Err(_) => seq![],
        }));
        assert(cand_views(cands@) =~= create_candidates(name@, *additional, *bin, *user, *cache));
        CreateSearch { cands, tail_error, idx: 0, history: Ghost(Seq::empty()) }
    }

    /// The candidate to try next, or nothing when the search is exhausted.
    pub fn current(&self) -> (r: Option<CreateCandidate>)
        requires
            self.wf(),
        ensures
            match r {
                Some(c) => self.in_progress() && c@ == self.spec_cands()[self.spec_idx()],
                None => !self.in_progress(),
            },
    {
        if self.idx < self.cands.len() {
            Some(self.cands[self.idx].clone())
        } else {
            None
        }
    }

    /// Decides how the search goes on after the shell's attempt at the
    /// current candidate.
    ///
    /// A written file ends the search with the handle, and the chosen
    /// location is the first whose attempt succeeded. A failure to write an
    /// already-opened file is fatal wherever it happens. A directory or
    /// open failure moves the search on, except at the mandatory final
    /// location, where it is surfaced.
    pub fn step(&mut self, ev: CreateEvent) -> (d: CreateDecision)
        requires
            old(self).wf(),
            old(self).in_progress(),
            ev is DirFailed ==> old(self).spec_cands()[old(self).spec_idx()].2,
        ensures
            final(self).wf(),
            final(self).spec_cands() == old(self).spec_cands(),
            final(self).spec_tail_error() == old(self).spec_tail_error(),
            match ev {
                CreateEvent::Written => {
                    &&& d matches CreateDecision::Done(h) && h@ == old(self).spec_cands()[old(
                        self,
                    ).spec_idx()].1
                    &&& first_success(old(self).spec_history().push(true)) == Some(
                        old(self).spec_idx(),
                    )
                    &&& final(self).spec_idx() == old(self).spec_idx()
                    &&& final(self).spec_history() == old(self).spec_history()
                },
                CreateEvent::WriteFailed(e) => {
                    &&& d == CreateDecision::Fail(e)
                    &&& final(self).spec_idx() == old(self).spec_idx()
                    &&& final(self).spec_history() == old(self).spec_history()
                },
                CreateEvent::DirFailed(e) => skip_or_fatal(*old(self), *final(self), e, d),
                CreateEvent::OpenFailed(e) => skip_or_fatal(*old(self), *final(self), e, d),
            },
    {
        let n = self.cands.len();
        proof {
            assert(self.spec_cands().len() == self.cands@.len());
        }
        match ev {
            CreateEvent::Written => {
                proof {
                    lemma_fallback_order(self.spec_history().push(true), self.spec_idx());
                }
                let p = self.cands[self.idx].path.clone();
                CreateDecision::Done(FileHandler::at_path(p))
            },
            CreateEvent::WriteFailed(e) => CreateDecision::Fail(e),
            CreateEvent::DirFailed(e) => self.skip_current(e, n),
            CreateEvent::OpenFailed(e) => self.skip_current(e, n),
        }
    }

    /// Moves past the current candidate after a non-fatal failure, or
    /// surfaces it at the mandatory final location.
    fn skip_current(&mut self, e: Error, n: usize) -> (d: CreateDecision)
        requires
            old(self).wf(),
            old(self).in_progress(),
            n == old(self).spec_cands().len(),
            n == old(self).cands@.len(),
        ensures
            final(self).wf(),
            final(self).spec_cands() == old(self).spec_cands(),
            final(self).spec_tail_error() == old(self).spec_tail_error(),
            skip_or_fatal(*old(self), *final(self), e, d),
    {
        if self.idx == n - 1 && self.tail_error.is_none() {
            CreateDecision::Fail(e)
        } else {
            self.idx = self.idx + 1;
            proof {
                self.history@ = self.history@.push(false);
            }
            CreateDecision::Continue
        }
    }

    /// Ends an exhausted search: every optional candidate failed and the
    /// mandatory final location never resolved, so its resolution error is
    /// surfaced.
    pub fn into_error(self) -> (e: Error)
        requires
            self.wf(),
            !self.in_progress(),
        ensures
            first_success(self.spec_history()) is None,
            self.spec_tail_error() matches Some(te) && e == te,
    {
        proof {
            lemma_exhaustion(self.spec_history());
        }
        match self.tail_error {
            Some(te) => te,
            None => vstd::pervasive::unreached(),
        }
    }
}

} // verus!
