//! The slice of the parsed pipeline document that the audit logic reads:
//! jobs, steps, a step's `uses`/`with` configuration, and key paths into a
//! step. Parsing the document into this shape is a caller's concern.

use vstd::prelude::*;

use crate::strutil::str_eq;

verus! {

/// A step's body: either an inline run script or a use of an external
/// action, carrying the action identifier and its configuration mapping.
pub enum StepBody {
    Run { run: String },
    Uses { uses: String, with: Vec<(String, String)> },
}

/// One step of a job.
pub struct Step {
    pub body: StepBody,
}

/// A job is either a normal job (a list of steps) or a call of a reusable
/// pipeline, which carries nothing this core reads.
pub enum Job {
    Normal { steps: Vec<Step> },
    Reusable,
}

/// A parsed pipeline document: its jobs, in document order.
pub struct Workflow {
    pub jobs: Vec<Job>,
}

#[verifier::ext_equal]
pub enum StepBodyView {
    Run { run: Seq<char> },
    Uses { uses: Seq<char>, with: Seq<(Seq<char>, Seq<char>)> },
}

#[verifier::ext_equal]
pub enum JobView {
    Normal { steps: Seq<StepBodyView> },
    Reusable,
}

#[verifier::ext_equal]
pub struct WorkflowView {
    pub jobs: Seq<JobView>,
}

/// The configuration mapping as a sequence of key/value character pairs.
pub open spec fn with_view(s: Seq<(String, String)>) -> Seq<(Seq<char>, Seq<char>)> {
    s.map_values(|p: (String, String)| (p.0@, p.1@))
}

pub open spec fn steps_view(s: Seq<Step>) -> Seq<StepBodyView> {
    s.map_values(|st: Step| st@)
}

pub open spec fn jobs_view(s: Seq<Job>) -> Seq<JobView> {
    s.map_values(|jb: Job| jb@)
}

impl View for StepBody {
    type V = StepBodyView;

    open spec fn view(&self) -> StepBodyView {
        match self {
            StepBody::Run { run } => StepBodyView::Run { run: run@ },
            StepBody::Uses { uses, with } => StepBodyView::Uses {
                uses: uses@,
                with: with_view(with@),
            },
        }
    }
}

impl View for Step {
    type V = StepBodyView;

    open spec fn view(&self) -> StepBodyView {
        self.body@
    }
}

impl View for Job {
    type V = JobView;

    open spec fn view(&self) -> JobView {
        match self {
            Job::Normal { steps } => JobView::Normal { steps: steps_view(steps@) },
            Job::Reusable => JobView::Reusable,
        }
    }
}

impl View for Workflow {
    type V = WorkflowView;

    open spec fn view(&self) -> WorkflowView {
        WorkflowView { jobs: jobs_view(self.jobs@) }
    }
}

/// The value bound to `key` in a configuration mapping: the first pair with
/// that key, if any.
pub open spec fn spec_with_lookup(with: Seq<(Seq<char>, Seq<char>)>, key: Seq<char>) -> Option<
    Seq<char>,
>
    decreases with.len(),
{
    if with.len() == 0 {
        None
    } else if with[0].0 == key {
        Some(with[0].1)
    } else {
        spec_with_lookup(with.drop_first(), key)
    }
}

proof fn lemma_lookup_skip(s: Seq<(Seq<char>, Seq<char>)>, key: Seq<char>, i: int)
    requires
        0 <= i <= s.len(),
        forall|j: int| 0 <= j < i ==> s[j].0 != key,
    ensures
        spec_with_lookup(s, key) == spec_with_lookup(s.skip(i), key),
    decreases i,
{
    if i > 0 {
        assert(s.skip(1) =~= s.drop_first());
        lemma_lookup_skip(s.drop_first(), key, i - 1);
        assert(s.drop_first().skip(i - 1) =~= s.skip(i));
    } else {
        assert(s.skip(0) =~= s);
    }
}

/// Looks `key` up in a step's configuration mapping.
pub fn with_lookup<'a>(with: &'a Vec<(String, String)>, key: &str) -> (r: Option<&'a String>)
    ensures
        match r {
            Some(v) => spec_with_lookup(with_view(with@), key@) == Some(v@),
            None => spec_with_lookup(with_view(with@), key@) is None,
        },
{
    let ghost w = with_view(with@);
    let mut i: usize = 0;
    while i < with.len()
        invariant
            i <= with.len(),
            w == with_view(with@),
            w.len() == with@.len(),
            forall|j: int| 0 <= j < i ==> w[j].0 != key@,
        decreases with.len() - i,
    {
        assert(w[i as int] == (with@[i as int].0@, with@[i as int].1@));
        if str_eq(with[i].0.as_str(), key) {
            proof {
                lemma_lookup_skip(w, key@, i as int);
                assert(w.skip(i as int)[0] == w[i as int]);
            }
            return Some(&with[i].1);
        }
        i += 1;
    }
    proof {
        lemma_lookup_skip(w, key@, i as int);
        assert(w.skip(i as int).len() == 0);
    }
    None
}

/// True when the configuration mapping binds `key`.
pub open spec fn spec_with_has_key(with: Seq<(Seq<char>, Seq<char>)>, key: Seq<char>) -> bool {
    spec_with_lookup(with, key) is Some
}

} // verus!
