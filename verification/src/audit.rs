//! The audit contract every rule implements, and the manual-credential
//! rule: it scans the steps of normal jobs for recognized publishing
//! actions whose configuration carries a manually-configured credential
//! instead of relying on Trusted Publishing.

use vstd::prelude::*;

use crate::finding::{
    keys_view, locations_view, spec_location_resolves, Confidence, Finding,
    FindingBuilder, FindingError, FindingView, Location, LocationView, Severity,
};
use crate::github_api::ApiError;
use crate::state::AuditState;
use crate::strutil::{spec_starts_with, str_eq, str_starts_with};
use crate::workflow::{
    spec_with_has_key, spec_with_lookup, steps_view, with_lookup, with_view, Job, JobView,
    StepBody, StepBodyView, Workflow, WorkflowView,
};

verus! {

/// The annotation every manual-credential finding carries.
pub const USES_MANUAL_CREDENTIAL: &'static str =
    "uses a manually-configured credential instead of Trusted Publishing";

/// A rule could not be constructed from the given per-run state.
#[derive(Clone, Copy, PartialEq, Eq, Debug, Structural)]
pub struct ConstructionError;

/// A rule's audit of one document failed.
#[derive(Clone, Copy, PartialEq, Eq, Debug, Structural)]
pub enum AuditError {
    /// A finding could not be bound to the document.
    Binding(FindingError),
    /// A remote-metadata request failed.
    Remote(ApiError),
}

/// The contract every rule implements. Construction performs no request;
/// `audit` reads the document, may consult a remote-metadata client obtained
/// from the per-run state, and never mutates the document.
pub trait WorkflowAudit: Sized {
    /// The stable identifier the rule's findings carry.
    spec fn spec_ident() -> Seq<char>;

    fn ident() -> (r: &'static str)
        ensures
            r@ == Self::spec_ident(),
    ;

    fn desc() -> (r: &'static str);

    fn new(state: AuditState) -> (r: Result<Self, ConstructionError>);

    fn audit(&self, workflow: &Workflow) -> (r: Result<Vec<Finding>, AuditError>);
}

/// The two official package-index upload URLs for which an explicit
/// credential is flagged; a credential against any other explicit index is a
/// third-party setup and is left alone.
pub open spec fn spec_known_index(url: Seq<char>) -> bool {
    url == "https://upload.pypi.org/legacy/"@ || url == "https://test.pypi.org/legacy/"@
}

/// The publishing-action predicate: an explicit `password` is flagged
/// unless it is paired with an explicit index URL outside the official
/// allow-list (`repository-url` is read first, then `repository_url`).
pub open spec fn spec_pypi_manual_credentials(with: Seq<(Seq<char>, Seq<char>)>) -> bool {
    let has_credential = spec_with_has_key(with, "password"@);
    let index_url = if spec_with_lookup(with, "repository-url"@) is Some {
        spec_with_lookup(with, "repository-url"@)
    } else {
        spec_with_lookup(with, "repository_url"@)
    };
    match index_url {
        Some(url) => has_credential && spec_known_index(url),
        None => has_credential,
    }
}

/// The gem-release predicate: `setup-trusted-publisher` set to anything but
/// exactly `"true"` is flagged; absence means the tool's own secure default
/// and is not flagged.
pub open spec fn spec_release_gem_manual_credentials(with: Seq<(Seq<char>, Seq<char>)>) -> bool {
    match spec_with_lookup(with, "setup-trusted-publisher"@) {
        Some(v) => v != "true"@,
        None => false,
    }
}

/// The gem-credential predicate: flagged exactly when `api-token` is set.
pub open spec fn spec_rubygems_credential_manual_credentials(
    with: Seq<(Seq<char>, Seq<char>)>,
) -> bool {
    spec_with_has_key(with, "api-token"@)
}

/// Whether a uses-step is flagged: its action identifier is matched by
/// prefix against the three recognized actions, each with its own predicate
/// over the step's configuration. Unrecognized actions are never flagged.
pub open spec fn spec_step_flagged(uses: Seq<char>, with: Seq<(Seq<char>, Seq<char>)>) -> bool {
    if spec_starts_with(uses, "pypa/gh-action-pypi-publish"@) {
        spec_pypi_manual_credentials(with)
    } else if spec_starts_with(uses, "rubygems/release-gem"@) {
        spec_release_gem_manual_credentials(with)
    } else if spec_starts_with(uses, "rubygems/configure-rubygems-credential"@) {
        spec_rubygems_credential_manual_credentials(with)
    } else {
        false
    }
}

/// The second location of a flagged step: at `with.password` for the
/// publishing action, at the whole step for the gem actions.
pub open spec fn spec_flag_location(j: int, s: int, uses: Seq<char>) -> LocationView {
    if spec_starts_with(uses, "pypa/gh-action-pypi-publish"@) {
        LocationView {
            job: j,
            step: s,
            keys: seq!["with"@, "password"@],
            annotation: USES_MANUAL_CREDENTIAL@,
        }
    } else {
        LocationView { job: j, step: s, keys: Seq::empty(), annotation: USES_MANUAL_CREDENTIAL@ }
    }
}

/// The findings one step contributes: one informational, high-confidence
/// finding located at the step's `uses` key and at the flagged
/// configuration, or nothing.
pub open spec fn spec_step_finding(j: int, s: int, step: StepBodyView) -> Seq<FindingView> {
    match step {
        StepBodyView::Uses { uses, with } => if spec_step_flagged(uses, with) {
            seq![
                FindingView {
                    ident: "use-trusted-publishing"@,
                    severity: Severity::Informational,
                    confidence: Confidence::High,
                    locations: seq![
                        LocationView {
                            job: j,
                            step: s,
                            keys: seq!["uses"@],
                            annotation: "this step"@,
                        },
                        spec_flag_location(j, s, uses),
                    ],
                },
            ]
        } else {
            Seq::empty()
        },
        StepBodyView::Run { .. } => Seq::empty(),
    }
}

pub open spec fn spec_steps_findings(steps: Seq<StepBodyView>, j: int, upto: int) -> Seq<
    FindingView,
>
    decreases upto,
{
    if upto <= 0 {
        Seq::empty()
    } else {
        spec_steps_findings(steps, j, upto - 1) + spec_step_finding(j, upto - 1, steps[upto - 1])
    }
}

pub open spec fn spec_job_findings(job: JobView, j: int) -> Seq<FindingView> {
    match job {
        JobView::Normal { steps } => spec_steps_findings(steps, j, steps.len() as int),
        JobView::Reusable => Seq::empty(),
    }
}

pub open spec fn spec_jobs_findings(jobs: Seq<JobView>, upto: int) -> Seq<FindingView>
    decreases upto,
{
    if upto <= 0 {
        Seq::empty()
    } else {
        spec_jobs_findings(jobs, upto - 1) + spec_job_findings(jobs[upto - 1], upto - 1)
    }
}

/// Every finding the manual-credential rule reports on `w`, in document
/// order: jobs in order, steps in order, one finding per flagged step.
pub open spec fn spec_audit_findings(w: WorkflowView) -> Seq<FindingView> {
    spec_jobs_findings(w.jobs, w.jobs.len() as int)
}

pub open spec fn findings_view(fs: Seq<Finding>) -> Seq<FindingView> {
    fs.map_values(|f: Finding| f@)
}

/// The shape every finding of the manual-credential rule has: the rule's
/// identifier, informational severity, high confidence, and exactly two
/// locations (never zero: a finding always carries at least one location).
pub open spec fn spec_finding_shape(f: FindingView) -> bool {
    &&& f.ident == "use-trusted-publishing"@
    &&& f.severity == Severity::Informational
    &&& f.confidence == Confidence::High
    &&& f.locations.len() == 2
}

proof fn lemma_steps_findings_shape(steps: Seq<StepBodyView>, j: int, upto: int)
    ensures
        forall|i: int|
            0 <= i < spec_steps_findings(steps, j, upto).len() ==> spec_finding_shape(
                #[trigger] spec_steps_findings(steps, j, upto)[i],
            ),
    decreases upto,
{
    if upto > 0 {
        lemma_steps_findings_shape(steps, j, upto - 1);
        let prefix = spec_steps_findings(steps, j, upto - 1);
        let tail = spec_step_finding(j, upto - 1, steps[upto - 1]);
        assert forall|i: int|
            0 <= i < spec_steps_findings(steps, j, upto).len() implies spec_finding_shape(
            #[trigger] spec_steps_findings(steps, j, upto)[i],
        ) by {
            if i < prefix.len() {
                assert(spec_steps_findings(steps, j, upto)[i] == prefix[i]);
            } else {
                assert(spec_steps_findings(steps, j, upto)[i] == tail[i - prefix.len()]);
                assert(tail.len() == 1 && i == prefix.len());
                assert(spec_finding_shape(tail[0]));
            }
        }
    }
}

proof fn lemma_jobs_findings_shape(jobs: Seq<JobView>, upto: int)
    ensures
        forall|i: int|
            0 <= i < spec_jobs_findings(jobs, upto).len() ==> spec_finding_shape(
                #[trigger] spec_jobs_findings(jobs, upto)[i],
            ),
    decreases upto,
{
    if upto > 0 {
        lemma_jobs_findings_shape(jobs, upto - 1);
        match jobs[upto - 1] {
            JobView::Normal { steps } => {
                lemma_steps_findings_shape(steps, upto - 1, steps.len() as int);
            },
            JobView::Reusable => {},
        }
        let prefix = spec_jobs_findings(jobs, upto - 1);
        let tail = spec_job_findings(jobs[upto - 1], upto - 1);
        assert forall|i: int|
            0 <= i < spec_jobs_findings(jobs, upto).len() implies spec_finding_shape(
            #[trigger] spec_jobs_findings(jobs, upto)[i],
        ) by {
            if i < prefix.len() {
                assert(spec_jobs_findings(jobs, upto)[i] == prefix[i]);
            } else {
                assert(spec_jobs_findings(jobs, upto)[i] == tail[i - prefix.len()]);
            }
        }
    }
}

/// Every finding the rule reports on any document has the rule's identity,
/// severity and confidence, and exactly two locations.
pub proof fn lemma_audit_findings_shape(w: WorkflowView)
    ensures
        forall|i: int|
            0 <= i < spec_audit_findings(w).len() ==> spec_finding_shape(
                #[trigger] spec_audit_findings(w)[i],
            ),
{
    lemma_jobs_findings_shape(w.jobs, w.jobs.len() as int);
}

/// The manual-credential rule. It keeps the per-run state other rules use
/// for remote metadata, though its own checks are purely document-local.
pub struct UseTrustedPublishing {
    pub _state: AuditState,
}

impl UseTrustedPublishing {
    /// The publishing-action decision over a step's configuration.
    pub fn pypi_publish_uses_manual_credentials(&self, with: &Vec<(String, String)>) -> (r: bool)
        ensures
            r == spec_pypi_manual_credentials(with_view(with@)),
    {
        let has_manual_credential = with_lookup(with, "password").is_some();
        let index_url = match with_lookup(with, "repository-url") {
            Some(url) => Some(url),
            None => with_lookup(with, "repository_url"),
        };
        match index_url {
            Some(url) => has_manual_credential && (str_eq(
                url.as_str(),
                "https://upload.pypi.org/legacy/",
            ) || str_eq(url.as_str(), "https://test.pypi.org/legacy/")),
            None => has_manual_credential,
        }
    }

    /// The gem-release decision over a step's configuration.
    pub fn release_gem_uses_manual_credentials(&self, with: &Vec<(String, String)>) -> (r: bool)
        ensures
            r == spec_release_gem_manual_credentials(with_view(with@)),
    {
        match with_lookup(with, "setup-trusted-publisher") {
            Some(v) => !str_eq(v.as_str(), "true"),
            None => false,
        }
    }

    /// The gem-credential decision over a step's configuration.
    pub fn rubygems_credential_uses_manual_credentials(&self, with: &Vec<(String, String)>) -> (r:
        bool)
        ensures
            r == spec_rubygems_credential_manual_credentials(with_view(with@)),
    {
        with_lookup(with, "api-token").is_some()
    }
}

/// Builds the one finding a flagged step contributes. `pypi` says whether
/// the step uses the publishing action, whose finding points at
/// `with.password` instead of the whole step.
fn build_step_finding(workflow: &Workflow, j: usize, s: usize, pypi: bool) -> (f: Finding)
    requires
        j < workflow@.jobs.len(),
        ({
            &&& workflow@.jobs[j as int] matches JobView::Normal { steps }
            &&& (s as int) < steps.len()
            &&& ({
                &&& steps[s as int] matches StepBodyView::Uses { uses, with }
                &&& pypi == spec_starts_with(uses, "pypa/gh-action-pypi-publish"@)
                &&& (pypi ==> spec_with_has_key(with, "password"@))
            })
        }),
    ensures
        ({
            let uses = workflow@.jobs[j as int]->Normal_steps[s as int]->Uses_uses;
            f@ == (FindingView {
                ident: "use-trusted-publishing"@,
                severity: Severity::Informational,
                confidence: Confidence::High,
                locations: seq![
                    LocationView {
                        job: j as int,
                        step: s as int,
                        keys: seq!["uses"@],
                        annotation: "this step"@,
                    },
                    spec_flag_location(j as int, s as int, uses),
                ],
            })
        }),
{
    let mut uses_keys: Vec<String> = Vec::new();
    uses_keys.push("uses".to_owned());
    let uses_location = Location { job: j, step: s, keys: uses_keys, annotation: "this step".to_owned() };
    let mut flag_keys: Vec<String> = Vec::new();
    if pypi {
        flag_keys.push("with".to_owned());
        flag_keys.push("password".to_owned());
    }
    let flag_location = Location {
        job: j,
        step: s,
        keys: flag_keys,
        annotation: USES_MANUAL_CREDENTIAL.to_owned(),
    };
    proof {
        assert(keys_view(uses_location.keys@) =~= seq!["uses"@]);
        if pypi {
            assert(keys_view(flag_location.keys@) =~= seq!["with"@, "password"@]);
        } else {
            assert(keys_view(flag_location.keys@) =~= Seq::<Seq<char>>::empty());
        }
    }
    let builder = FindingBuilder::new(UseTrustedPublishing::ident()).severity(
        Severity::Informational,
    ).confidence(Confidence::High).add_location(uses_location).add_location(flag_location);
    proof {
        let wv = workflow@;
        let ghost lv0 = builder.locations@[0]@;
        let ghost lv1 = builder.locations@[1]@;
        assert(spec_location_resolves(wv, lv0));
        assert(spec_location_resolves(wv, lv1));
        assert(forall|i: int|
            0 <= i < builder.locations@.len() ==> spec_location_resolves(
                wv,
                builder.locations@[i]@,
            ));
    }
    match builder.build(workflow) {
        Ok(f) => {
            proof {
                assert(locations_view(builder.locations@) =~= seq![
                    builder.locations@[0]@,
                    builder.locations@[1]@,
                ]);
                assert(f@ =~= (FindingView {
                    ident: "use-trusted-publishing"@,
                    severity: Severity::Informational,
                    confidence: Confidence::High,
                    locations: seq![
                        LocationView {
                            job: j as int,
                            step: s as int,
                            keys: seq!["uses"@],
                            annotation: "this step"@,
                        },
                        spec_flag_location(
                            j as int,
                            s as int,
                            workflow@.jobs[j as int]->Normal_steps[s as int]->Uses_uses,
                        ),
                    ],
                }));
            }
            f
        },
        Err(_) => {
            proof {
                assert(false);
            }
            Finding {
                ident: "use-trusted-publishing",
                severity: Severity::Informational,
                confidence: Confidence::High,
                locations: Vec::new(),
            }
        },
    }
}

impl WorkflowAudit for UseTrustedPublishing {
    open spec fn spec_ident() -> Seq<char> {
        "use-trusted-publishing"@
    }

    fn ident() -> (r: &'static str)
        ensures
            r@ == Self::spec_ident(),
    {
        "use-trusted-publishing"
    }

    fn desc() -> (r: &'static str) {
        "prefer trusted publishing for authentication"
    }

    fn new(state: AuditState) -> (r: Result<Self, ConstructionError>)
        ensures
            r matches Ok(rule) && rule._state == state,
    {
        Ok(UseTrustedPublishing { _state: state })
    }

    /// Scans every step of every normal job and reports exactly the flagged
    /// steps, in document order.
    fn audit(&self, workflow: &Workflow) -> (r: Result<Vec<Finding>, AuditError>)
        ensures
            r matches Ok(fs) && findings_view(fs@) == spec_audit_findings(workflow@),
    {
        let ghost wv = workflow@;
        let mut findings: Vec<Finding> = Vec::new();
        let mut j: usize = 0;
        while j < workflow.jobs.len()
            invariant
                j <= workflow.jobs@.len(),
                wv == workflow@,
                wv.jobs.len() == workflow.jobs@.len(),
                findings_view(findings@) == spec_jobs_findings(wv.jobs, j as int),
            decreases workflow.jobs@.len() - j,
        {
            proof {
                assert(wv.jobs[j as int] == workflow.jobs@[j as int]@);
            }
            match &workflow.jobs[j] {
                Job::Reusable => {
                    proof {
                        assert(findings_view(findings@) =~= spec_jobs_findings(wv.jobs, j + 1));
                    }
                },
                Job::Normal { steps } => {
                    let ghost sv = steps_view(steps@);
                    proof {
                        assert(wv.jobs[j as int] == (JobView::Normal { steps: sv }));
                    }
                    let mut s: usize = 0;
                    while s < steps.len()
                        invariant
                            s <= steps@.len(),
                            sv == steps_view(steps@),
                            sv.len() == steps@.len(),
                            wv == workflow@,
                            j < wv.jobs.len(),
                            wv.jobs[j as int] == (JobView::Normal { steps: sv }),
                            findings_view(findings@) == spec_jobs_findings(wv.jobs, j as int)
                                + spec_steps_findings(sv, j as int, s as int),
                        decreases steps@.len() - s,
                    {
                        proof {
                            assert(sv[s as int] == steps@[s as int]@);
                        }
                        match &steps[s].body {
                            StepBody::Run { .. } => {
                                proof {
                                    assert(findings_view(findings@) =~= spec_jobs_findings(
                                        wv.jobs,
                                        j as int,
                                    ) + spec_steps_findings(sv, j as int, s + 1));
                                }
                            },
                            StepBody::Uses { uses, with } => {
                                let ghost wview = with_view(with@);
                                proof {
                                    assert(sv[s as int] == (StepBodyView::Uses {
                                        uses: uses@,
                                        with: wview,
                                    }));
                                }
                                let mut flagged: bool = false;
                                let mut pypi: bool = false;
                                if str_starts_with(uses.as_str(), "pypa/gh-action-pypi-publish") {
                                    pypi = true;
                                    flagged = self.pypi_publish_uses_manual_credentials(with);
                                } else if str_starts_with(uses.as_str(), "rubygems/release-gem") {
                                    flagged = self.release_gem_uses_manual_credentials(with);
                                } else if str_starts_with(
                                    uses.as_str(),
                                    "rubygems/configure-rubygems-credential",
                                ) {
                                    flagged = self.rubygems_credential_uses_manual_credentials(
                                        with,
                                    );
                                }
                                if flagged {
                                    assert(spec_step_flagged(uses@, wview));
                                    let finding = build_step_finding(workflow, j, s, pypi);
                                    let ghost prev = findings@;
                                    findings.push(finding);
                                    proof {
                                        assert(spec_step_finding(j as int, s as int, sv[s as int])
                                            =~= seq![finding@]);
                                        assert(findings_view(findings@) =~= findings_view(
                                            prev,
                                        ).push(finding@));
                                        assert(spec_steps_findings(sv, j as int, s + 1)
                                            == spec_steps_findings(sv, j as int, s as int)
                                            + spec_step_finding(j as int, s as int, sv[s as int]));
                                        assert(findings_view(findings@) =~= spec_jobs_findings(
                                            wv.jobs,
                                            j as int,
                                        ) + spec_steps_findings(sv, j as int, s + 1));
                                    }
                                } else {
                                    proof {
                                        assert(spec_step_finding(j as int, s as int, sv[s as int])
                                            =~= Seq::<FindingView>::empty());
                                        assert(findings_view(findings@) =~= spec_jobs_findings(
                                            wv.jobs,
                                            j as int,
                                        ) + spec_steps_findings(sv, j as int, s + 1));
                                    }
                                }
                            },
                        }
                        s += 1;
                    }
                    proof {
                        assert(spec_steps_findings(sv, j as int, sv.len() as int)
                            == spec_job_findings(wv.jobs[j as int], j as int));
                        assert(findings_view(findings@) =~= spec_jobs_findings(wv.jobs, j + 1));
                    }
                },
            }
            j += 1;
        }
        proof {
            assert(findings_view(findings@) == spec_audit_findings(wv));
        }
        Ok(findings)
    }
}

} // verus!
