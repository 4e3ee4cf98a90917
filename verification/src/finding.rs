//! The finding model every rule reports through: severity and confidence
//! classifications, locations (a key path into a step plus an annotation),
//! and a builder that binds a finding to a document, checking that each
//! location actually resolves inside it.

use vstd::prelude::*;

use crate::strutil::str_eq;
use crate::workflow::{
    spec_with_has_key, with_lookup, Job, JobView, StepBody, StepBodyView, Workflow,
    WorkflowView,
};

verus! {

/// How important a finding is, least to most.
#[derive(Clone, Copy, PartialEq, Eq, PartialOrd, Ord, Hash, Debug, Structural)]
pub enum Severity {
    Unknown,
    Informational,
    Low,
    Medium,
    High,
}

/// How certain the reporting rule is, least to most.
#[derive(Clone, Copy, PartialEq, Eq, PartialOrd, Ord, Hash, Debug, Structural)]
pub enum Confidence {
    Unknown,
    Low,
    Medium,
    High,
}

/// A place in a document: a job index, a step index, a key path inside that
/// step (empty means the whole step) and a human-readable annotation saying
/// why the place is flagged.
pub struct Location {
    pub job: usize,
    pub step: usize,
    pub keys: Vec<String>,
    pub annotation: String,
}

#[verifier::ext_equal]
pub struct LocationView {
    pub job: int,
    pub step: int,
    pub keys: Seq<Seq<char>>,
    pub annotation: Seq<char>,
}

pub open spec fn keys_view(s: Seq<String>) -> Seq<Seq<char>> {
    s.map_values(|k: String| k@)
}

impl View for Location {
    type V = LocationView;

    open spec fn view(&self) -> LocationView {
        LocationView {
            job: self.job as int,
            step: self.step as int,
            keys: keys_view(self.keys@),
            annotation: self.annotation@,
        }
    }
}

pub open spec fn locations_view(s: Seq<Location>) -> Seq<LocationView> {
    s.map_values(|l: Location| l@)
}

/// The key paths addressable inside a step: the whole step, `run` on a run
/// step, `uses` on a uses step, and `with.<key>` for a configuration key the
/// step binds.
pub open spec fn spec_keys_resolve(step: StepBodyView, keys: Seq<Seq<char>>) -> bool {
    if keys.len() == 0 {
        true
    } else {
        match step {
            StepBodyView::Run { run } => keys.len() == 1 && keys[0] == "run"@,
            StepBodyView::Uses { uses, with } => (keys.len() == 1 && keys[0] == "uses"@) || (
            keys.len() == 2 && keys[0] == "with"@ && spec_with_has_key(with, keys[1])),
        }
    }
}

/// A location resolves when it names a step of a normal job and its key
/// path is addressable inside that step.
pub open spec fn spec_location_resolves(w: WorkflowView, l: LocationView) -> bool {
    &&& 0 <= l.job < w.jobs.len()
    &&& match w.jobs[l.job] {
        JobView::Normal { steps } => {
            &&& 0 <= l.step < steps.len()
            &&& spec_keys_resolve(steps[l.step], l.keys)
        },
        JobView::Reusable => false,
    }
}

/// Checks whether a location resolves inside the given document.
pub fn location_resolves(w: &Workflow, l: &Location) -> (r: bool)
    ensures
        r == spec_location_resolves(w@, l@),
{
    if l.job >= w.jobs.len() {
        return false;
    }
    assert(w@.jobs[l.job as int] == w.jobs@[l.job as int]@);
    match &w.jobs[l.job] {
        Job::Reusable => false,
        Job::Normal { steps } => {
            if l.step >= steps.len() {
                return false;
            }
            assert(w@.jobs[l.job as int] matches JobView::Normal { steps: sv } && sv[l.step as int]
                == steps@[l.step as int]@);
            if l.keys.len() == 0 {
                return true;
            }
            let ghost kv = l@.keys;
            assert(kv[0] == l.keys@[0]@);
            match &steps[l.step].body {
                StepBody::Run { .. } => l.keys.len() == 1 && str_eq(l.keys[0].as_str(), "run"),
                StepBody::Uses { uses: _, with } => {
                    if l.keys.len() == 1 && str_eq(l.keys[0].as_str(), "uses") {
                        true
                    } else if l.keys.len() == 2 && str_eq(l.keys[0].as_str(), "with") {
                        assert(kv[1] == l.keys@[1]@);
                        with_lookup(with, l.keys[1].as_str()).is_some()
                    } else {
                        false
                    }
                },
            }
        },
    }
}

/// A reported issue: the identifier of the rule that produced it, how severe
/// and how certain it is, and one or more locations. A built finding always
/// has at least one location.
pub struct Finding {
    pub ident: &'static str,
    pub severity: Severity,
    pub confidence: Confidence,
    pub locations: Vec<Location>,
}

#[verifier::ext_equal]
pub struct FindingView {
    pub ident: Seq<char>,
    pub severity: Severity,
    pub confidence: Confidence,
    pub locations: Seq<LocationView>,
}

impl View for Finding {
    type V = FindingView;

    open spec fn view(&self) -> FindingView {
        FindingView {
            ident: self.ident@,
            severity: self.severity,
            confidence: self.confidence,
            locations: locations_view(self.locations@),
        }
    }
}

impl Finding {
    /// A well-formed finding reports at least one location.
    pub open spec fn wf(self) -> bool {
        self.locations@.len() >= 1
    }
}

/// Why a finding could not be bound to a document.
#[derive(Clone, Copy, PartialEq, Eq, Debug, Structural)]
pub enum FindingError {
    /// The builder holds no location at all.
    NoLocations,
    /// Some location's key path does not resolve inside the document.
    UnresolvedLocation,
}

/// Accumulates severity, confidence and locations, then binds them to a
/// document as a finding.
pub struct FindingBuilder {
    pub ident: &'static str,
    pub severity: Severity,
    pub confidence: Confidence,
    pub locations: Vec<Location>,
}

impl FindingBuilder {
    pub fn new(ident: &'static str) -> (b: FindingBuilder)
        ensures
            b.ident@ == ident@,
            b.severity == Severity::Unknown,
            b.confidence == Confidence::Unknown,
            b.locations@ =~= Seq::<Location>::empty(),
    {
        FindingBuilder { ident, severity: Severity::Unknown, confidence: Confidence::Unknown, locations: Vec::new() }
    }

    pub fn severity(self, severity: Severity) -> (b: FindingBuilder)
        ensures
            b == (FindingBuilder { severity, ..self }),
    {
        FindingBuilder { severity, ..self }
    }

    pub fn confidence(self, confidence: Confidence) -> (b: FindingBuilder)
        ensures
            b == (FindingBuilder { confidence, ..self }),
    {
        FindingBuilder { confidence, ..self }
    }

    pub fn add_location(self, location: Location) -> (b: FindingBuilder)
        ensures
            b.ident == self.ident,
            b.severity == self.severity,
            b.confidence == self.confidence,
            b.locations@ == self.locations@.push(location),
    {
        let mut b = self;
        b.locations.push(location);
        b
    }

    /// Binds the accumulated finding to `w`. Fails when no location was
    /// added, or when some location does not resolve inside `w`.
    pub fn build(self, w: &Workflow) -> (r: Result<Finding, FindingError>)
        ensures
            match r {
                Ok(f) => {
                    &&& self.locations@.len() >= 1
                    &&& forall|i: int|
                        0 <= i < self.locations@.len() ==> spec_location_resolves(
                            w@,
                            self.locations@[i]@,
                        )
                    &&& f == (Finding {
                        ident: self.ident,
                        severity: self.severity,
                        confidence: self.confidence,
                        locations: self.locations,
                    })
                    &&& f.wf()
                },
                Err(FindingError::NoLocations) => self.locations@.len() == 0,
                Err(FindingError::UnresolvedLocation) => {
                    &&& self.locations@.len() >= 1
                    &&& exists|i: int|
                        0 <= i < self.locations@.len() && !spec_location_resolves(
                            w@,
                            self.locations@[i]@,
                        )
                },
            },
    {
        if self.locations.len() == 0 {
            return Err(FindingError::NoLocations);
        }
        let mut i: usize = 0;
        while i < self.locations.len()
            invariant
                i <= self.locations@.len(),
                forall|j: int| 0 <= j < i ==> spec_location_resolves(w@, self.locations@[j]@),
            decreases self.locations@.len() - i,
        {
            if !location_resolves(w, &self.locations[i]) {
                return Err(FindingError::UnresolvedLocation);
            }
            i += 1;
        }
        Ok(
            Finding {
                ident: self.ident,
                severity: self.severity,
                confidence: self.confidence,
                locations: self.locations,
            },
        )
    }
}

} // verus!
