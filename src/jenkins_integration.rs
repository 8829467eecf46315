use vstd::prelude::*;

use crate::jenkins_response::{JenkinsBuildResult, JenkinsBuildStatus, JenkinsJob, JenkinsJobResponse};
use crate::remote_integration::RemoteIntegration;
use crate::remote_status::RemoteStatus;

verus! {

/// What one job contributed to a poll: the status of its last build, or `None`
/// where that status could not be had (the request failed, or the build has no
/// result).
pub type JobOutcome = Option<JenkinsBuildStatus>;

pub open spec fn is_success(o: JobOutcome) -> bool {
    o == Some(JenkinsBuildStatus::Success)
}

/// Failed and unstable builds both count as failures.
pub open spec fn is_failure(o: JobOutcome) -> bool {
    o == Some(JenkinsBuildStatus::Failure) || o == Some(JenkinsBuildStatus::Unstable)
}

/// Neither a success nor a failure: not retrieved, not built, aborted, or running.
pub open spec fn is_indeterminate(o: JobOutcome) -> bool {
    !is_success(o) && !is_failure(o)
}

pub open spec fn is_in_progress(o: JobOutcome) -> bool {
    o == Some(JenkinsBuildStatus::Building)
}

pub open spec fn one_if(b: bool) -> nat {
    if b {
        1
    } else {
        0
    }
}

/// Counts of a poll's outcomes: successes, failures, indeterminate, in progress.
pub open spec fn tally(s: Seq<JobOutcome>) -> (nat, nat, nat, nat)
    decreases s.len(),
{
    if s.len() == 0 {
        (0, 0, 0, 0)
    } else {
        let t = tally(s.drop_last());
        let o = s.last();
        (
            t.0 + one_if(is_success(o)),
            t.1 + one_if(is_failure(o)),
            t.2 + one_if(is_indeterminate(o)),
            t.3 + one_if(is_in_progress(o)),
        )
    }
}

/// The status that S successes, F failures, N indeterminate outcomes and P
/// builds in progress add up to. Without a success it is Failing only when the
/// failures outnumber the indeterminate outcomes; with one, any failure makes
/// it Failing.
pub open spec fn verdict(s: nat, f: nat, n: nat, p: nat) -> RemoteStatus {
    if s == 0 {
        if n > f || f == 0 {
            RemoteStatus::Unknown
        } else {
            RemoteStatus::Failing
        }
    } else if f == 0 {
        if p > 0 {
            RemoteStatus::InProgress
        } else if s > n {
            RemoteStatus::Passing
        } else {
            RemoteStatus::Failing
        }
    } else {
        RemoteStatus::Failing
    }
}

/// The status of a poll whose jobs gave the outcomes `s`.
pub open spec fn jobs_status(s: Seq<JobOutcome>) -> RemoteStatus {
    let t = tally(s);
    verdict(t.0, t.1, t.2, t.3)
}

/// The outcome of one job: `None` where its last build could not be fetched.
pub open spec fn outcome_of(fetched: Option<JenkinsBuildResult>) -> JobOutcome {
    match fetched {
        None => None,
        Some(r) => if r.building {
            Some(JenkinsBuildStatus::Building)
        } else {
            r.build_result
        },
    }
}

/// The status of a whole poll: `None` where the job listing itself could not be
/// fetched, else what each enabled job's last build request gave.
pub open spec fn poll_status(poll: Option<Seq<Option<JenkinsBuildResult>>>) -> RemoteStatus {
    match poll {
        None => RemoteStatus::Unknown,
        Some(fetched) => jobs_status(fetched.map_values(|f: Option<JenkinsBuildResult>| outcome_of(f))),
    }
}

/// Reduces the outcomes of a poll's jobs to one status.
pub fn aggregate_outcomes(outcomes: &Vec<JobOutcome>) -> (r: RemoteStatus)
    ensures
        r == jobs_status(outcomes@),
{
    let mut successes: usize = 0;
    let mut failures: usize = 0;
    let mut indeterminate: usize = 0;
    let mut in_progress: usize = 0;
    let mut i: usize = 0;
    while i < outcomes.len()
        invariant
            i <= outcomes.len(),
            successes <= i,
            failures <= i,
            indeterminate <= i,
            in_progress <= i,
            tally(outcomes@.take(i as int)) == (
                successes as nat,
                failures as nat,
                indeterminate as nat,
                in_progress as nat,
            ),
        decreases outcomes.len() - i,
    {
        let o = outcomes[i];
        assert(outcomes@.take(i + 1).drop_last() =~= outcomes@.take(i as int));
        match o {
            Some(JenkinsBuildStatus::Success) => {
                successes = successes + 1;
            },
            Some(JenkinsBuildStatus::Failure) | Some(JenkinsBuildStatus::Unstable) => {
                failures = failures + 1;
            },
            Some(JenkinsBuildStatus::Building) => {
                indeterminate = indeterminate + 1;
                in_progress = in_progress + 1;
            },
            _ => {
                indeterminate = indeterminate + 1;
            },
        }
        i = i + 1;
    }
    assert(outcomes@.take(outcomes.len() as int) =~= outcomes@);
    if successes == 0 {
        if indeterminate > failures || failures == 0 {
            RemoteStatus::Unknown
        } else {
            RemoteStatus::Failing
        }
    } else if failures == 0 {
        if in_progress > 0 {
            RemoteStatus::InProgress
        } else if successes > indeterminate {
            RemoteStatus::Passing
        } else {
            RemoteStatus::Failing
        }
    } else {
        RemoteStatus::Failing
    }
}


/// A failure anywhere in `s` is counted.
proof fn lemma_failure_counted(s: Seq<JobOutcome>, i: int)
    requires
        0 <= i < s.len(),
        is_failure(s[i]),
    ensures
        tally(s).1 > 0,
    decreases s.len(),
{
    if i < s.len() - 1 {
        lemma_failure_counted(s.drop_last(), i);
    }
}

/// Where every outcome is a success or a failure, nothing is indeterminate.
proof fn lemma_nothing_indeterminate(s: Seq<JobOutcome>)
    requires
        forall|k: int| 0 <= k < s.len() ==> is_success(#[trigger] s[k]) || is_failure(s[k]),
    ensures
        tally(s).2 == 0,
    decreases s.len(),
{
    if s.len() > 0 {
        lemma_nothing_indeterminate(s.drop_last());
    }
}

/// With no success and no failure but something indeterminate, the status is
/// Unknown, never Failing.
pub proof fn lemma_no_signal_is_unknown(s: Seq<JobOutcome>)
    requires
        tally(s).0 == 0,
        tally(s).1 == 0,
        tally(s).2 > 0,
    ensures
        jobs_status(s) == RemoteStatus::Unknown,
{
}

/// With successes, no failure, nothing in progress, and more successes than
/// indeterminate outcomes, the status is Passing.
pub proof fn lemma_clear_successes_pass(s: Seq<JobOutcome>)
    requires
        tally(s).0 > 0,
        tally(s).1 == 0,
        tally(s).3 == 0,
        tally(s).0 > tally(s).2,
    ensures
        jobs_status(s) == RemoteStatus::Passing,
{
}

/// A failure among jobs that otherwise all succeeded makes the status Failing.
pub proof fn lemma_failure_among_successes_fails(s: Seq<JobOutcome>, i: int)
    requires
        0 <= i < s.len(),
        is_failure(s[i]),
        forall|k: int| 0 <= k < s.len() && k != i ==> is_success(#[trigger] s[k]),
    ensures
        jobs_status(s) == RemoteStatus::Failing,
{
    lemma_failure_counted(s, i);
    lemma_nothing_indeterminate(s);
}

/// Whatever else a poll holds, one failure keeps the status from Passing.
pub proof fn lemma_failure_never_passes(s: Seq<JobOutcome>, i: int)
    requires
        0 <= i < s.len(),
        is_failure(s[i]),
    ensures
        jobs_status(s) != RemoteStatus::Passing,
{
    lemma_failure_counted(s, i);
}

/// What `outcome_of` says, on one fetched build.
pub fn job_outcome(fetched: &Option<JenkinsBuildResult>) -> (r: JobOutcome)
    ensures
        r == outcome_of(*fetched),
{
    match fetched {
        None => None,
        Some(result) => if result.building {
            Some(JenkinsBuildStatus::Building)
        } else {
            result.build_result
        },
    }
}

/// Where the listing of all jobs is read.
pub open spec fn jobs_url_spec(base: Seq<char>) -> Seq<char> {
    base + "/api/json"@
}

/// Where the last build of the job `name` is read.
pub open spec fn job_url_spec(base: Seq<char>, name: Seq<char>) -> Seq<char> {
    base + "/job/"@ + name + "/lastBuild/api/json"@
}

/// The last-build URLs of the jobs that are not disabled, in listing order.
pub open spec fn job_url_list(base: Seq<char>, jobs: Seq<JenkinsJob>) -> Seq<Seq<char>>
    decreases jobs.len(),
{
    if jobs.len() == 0 {
        Seq::empty()
    } else {
        let rest = job_url_list(base, jobs.drop_last());
        if jobs.last().color.is_disabled() {
            rest
        } else {
            rest.push(job_url_spec(base, jobs.last().name@))
        }
    }
}

/// Settings of a Jenkins server and of the light that shows its health.
pub struct JenkinsIntegration {
    r: u16,
    g: u16,
    b: u16,
    username: String,
    password: String,
    base_url: String,
}

/// The settings of a `JenkinsIntegration`, as plain values.
pub struct JenkinsSettings {
    pub red: u16,
    pub green: u16,
    pub blue: u16,
    pub username: Seq<char>,
    pub password: Seq<char>,
    pub base_url: Seq<char>,
}

impl View for JenkinsIntegration {
    type V = JenkinsSettings;

    closed spec fn view(&self) -> JenkinsSettings {
        JenkinsSettings {
            red: self.r,
            green: self.g,
            blue: self.b,
            username: self.username@,
            password: self.password@,
            base_url: self.base_url@,
        }
    }
}

impl JenkinsIntegration {
    pub fn new(r: u16, g: u16, b: u16, username: &str, password: &str, base_url: &str) -> (j:
        JenkinsIntegration)
        ensures
            j@ == (JenkinsSettings {
                red: r,
                green: g,
                blue: b,
                username: username@,
                password: password@,
                base_url: base_url@,
            }),
    {
        JenkinsIntegration {
            r: r,
            g: g,
            b: b,
            username: String::from_str(username),
            password: String::from_str(password),
            base_url: String::from_str(base_url),
        }
    }

    pub fn username(&self) -> (r: &str)
        ensures
            r@ == self@.username,
    {
        self.username.as_str()
    }

    pub fn password(&self) -> (r: &str)
        ensures
            r@ == self@.password,
    {
        self.password.as_str()
    }

    /// The URL of the job listing.
    pub fn jobs_url(&self) -> (r: String)
        ensures
            r@ == jobs_url_spec(self@.base_url),
    {
        let mut url = self.base_url.clone();
        url.append("/api/json");
        url
    }

    /// The URL of the last build of the job `name`.
    pub fn job_url(&self, name: &str) -> (r: String)
        ensures
            r@ == job_url_spec(self@.base_url, name@),
    {
        let mut url = self.base_url.clone();
        url.append("/job/");
        url.append(name);
        url.append("/lastBuild/api/json");
        url
    }

    /// The URLs to poll for a listing: one per job that is not disabled, in order.
    pub fn job_urls(&self, listing: &JenkinsJobResponse) -> (r: Vec<String>)
        ensures
            r@.len() == job_url_list(self@.base_url, listing.jobs@).len(),
            forall|k: int|
                0 <= k < r@.len() ==> #[trigger] r@[k]@ == job_url_list(
                    self@.base_url,
                    listing.jobs@,
                )[k],
    {
        let jobs = &listing.jobs;
        let mut urls: Vec<String> = Vec::new();
        let mut i: usize = 0;
        while i < jobs.len()
            invariant
                i <= jobs.len(),
                jobs@ == listing.jobs@,
                urls@.len() == job_url_list(self@.base_url, jobs@.take(i as int)).len(),
                forall|k: int|
                    0 <= k < urls@.len() ==> #[trigger] urls@[k]@ == job_url_list(
                        self@.base_url,
                        jobs@.take(i as int),
                    )[k],
            decreases jobs.len() - i,
        {
            assert(jobs@.take(i + 1).drop_last() =~= jobs@.take(i as int));
            let job = &jobs[i];
            if !job.color.is_disabled() {
                let url = self.job_url(job.name.as_str());
                urls.push(url);
            }
            i = i + 1;
        }
        assert(jobs@.take(jobs.len() as int) =~= jobs@);
        urls
    }

    /// The status of one poll: `None` where the job listing could not be
    /// fetched, else, for each enabled job in turn, its last build or `None`
    /// where that request failed.
    pub fn get_status(poll: &Option<Vec<Option<JenkinsBuildResult>>>) -> (r: RemoteStatus)
        ensures
            r == poll_status(
                match poll {
                    None => None,
                    Some(v) => Some(v@),
                },
            ),
    {
        match poll {
            None => RemoteStatus::Unknown,
            Some(fetched) => {
                let mut outcomes: Vec<JobOutcome> = Vec::new();
                let mut i: usize = 0;
                while i < fetched.len()
                    invariant
                        i <= fetched.len(),
                        outcomes@.len() == i,
                        forall|k: int|
                            0 <= k < i ==> #[trigger] outcomes@[k] == outcome_of(fetched@[k]),
                    decreases fetched.len() - i,
                {
                    let o = job_outcome(&fetched[i]);
                    outcomes.push(o);
                    i = i + 1;
                }
                assert(outcomes@ =~= fetched@.map_values(
                    |f: Option<JenkinsBuildResult>| outcome_of(f),
                ));
                aggregate_outcomes(&outcomes)
            },
        }
    }
}

impl RemoteIntegration for JenkinsIntegration {
    fn get_red_id(&self) -> (r: u16)
        ensures
            r == self@.red,
    {
        self.r
    }

    fn get_green_id(&self) -> (r: u16)
        ensures
            r == self@.green,
    {
        self.g
    }

    fn get_blue_id(&self) -> (r: u16)
        ensures
            r == self@.blue,
    {
        self.b
    }
}

} // verus!
