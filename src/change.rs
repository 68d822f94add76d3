use vstd::prelude::*;
use crate::error::JobError;

verus! {

/// The options of one job run, as given on the command line.
pub struct RunOptions {
    pub stage: String,
    /// Space separated, in the order in which the phases run.
    pub phases: String,
    /// Review change selector.
    pub change: String,
    pub pipeline: String,
    pub job_root: String,
    pub project: String,
    pub user: String,
    pub server: String,
    pub ent: String,
    pub org: String,
    pub patchset: String,
    pub change_id: String,
    pub git_url: String,
    pub shasum: String,
    pub branch: String,
    pub docker_image: String,
    pub skip_default: bool,
    pub local: bool,
}

/// The git reference to build, and whether it is the local working tree.
pub struct ResolvedChange {
    pub reference: String,
    pub is_local: bool,
    pub patchset: String,
}

/// The patchset asked for, `latest` when none was given.
pub open spec fn patchset_of(p: Seq<char>) -> Seq<char> {
    if p.len() == 0 {
        "latest"@
    } else {
        p
    }
}

/// The reference under which the server publishes a review's patchset.
pub open spec fn review_reference(pipeline: Seq<char>, change: Seq<char>, patchset: Seq<char>) -> Seq<char> {
    "_reviews/"@ + pipeline + "/"@ + change + "/"@ + patchset_of(patchset)
}

/// No selector names a change: the local HEAD is built.
pub open spec fn needs_local_head_spec(o: &RunOptions) -> bool {
    o.branch@.len() == 0 && o.change@.len() == 0 && o.shasum@.len() == 0
}

/// The reference that the first selector present gives; branch before
/// review change before shasum before the local HEAD.
pub open spec fn reference_of(o: &RunOptions, pipeline: Seq<char>, head: Seq<char>) -> Seq<char> {
    if o.branch@.len() > 0 {
        o.branch@
    } else if o.change@.len() > 0 {
        review_reference(pipeline, o.change@, o.patchset@)
    } else if o.shasum@.len() > 0 {
        Seq::empty()
    } else {
        head
    }
}

/// What a successful resolution holds.
pub open spec fn resolved_as(rc: ResolvedChange, o: &RunOptions, pipeline: Seq<char>, head: Seq<char>) -> bool {
    &&& rc.reference@ == reference_of(o, pipeline, head)
    &&& rc.is_local == needs_local_head_spec(o)
    &&& rc.patchset@ == patchset_of(o.patchset@)
}

/// The value of the local HEAD query, or empty where it failed.
pub open spec fn head_value(h: Result<String, JobError>) -> Seq<char> {
    match h {
        Ok(s) => s@,
        Err(_) => Seq::empty(),
    }
}

/// Whether resolving `opts` reads the local HEAD.
pub fn needs_local_head(opts: &RunOptions) -> (r: bool)
    ensures
        r == needs_local_head_spec(opts),
{
    opts.branch.as_str().is_empty() && opts.change.as_str().is_empty() && opts.shasum.as_str().is_empty()
}

/// Turns the change selectors of `opts` into a git reference. `local_head`
/// is what the local HEAD query gave; it is read only where no selector is set.
pub fn resolve_change(opts: &RunOptions, pipeline: &str, local_head: Result<String, JobError>) -> (r: Result<ResolvedChange, JobError>)
    ensures
        needs_local_head_spec(opts) && local_head is Err ==> r == Err::<ResolvedChange, JobError>(local_head->Err_0),
        !(needs_local_head_spec(opts) && local_head is Err) ==> r is Ok && resolved_as(r->Ok_0, opts, pipeline@, head_value(local_head)),
{
    let patch = if opts.patchset.as_str().is_empty() {
        "latest".to_owned()
    } else {
        opts.patchset.clone()
    };
    if !opts.branch.as_str().is_empty() {
        Ok(ResolvedChange { reference: opts.branch.clone(), is_local: false, patchset: patch })
    } else if !opts.change.as_str().is_empty() {
        let mut reference = String::from_str("_reviews/");
        reference.append(pipeline);
        reference.append("/");
        reference.append(opts.change.as_str());
        reference.append("/");
        reference.append(patch.as_str());
        Ok(ResolvedChange { reference, is_local: false, patchset: patch })
    } else if !opts.shasum.as_str().is_empty() {
        Ok(ResolvedChange { reference: String::new(), is_local: false, patchset: patch })
    } else {
        match local_head {
            Ok(head) => Ok(ResolvedChange { reference: head, is_local: true, patchset: patch }),
            Err(e) => Err(e),
        }
    }
}

/// Where the change is cloned from: an explicit git URL, else the working
/// directory for a local change, else the server's SSH URL.
pub fn clone_source(opts: &RunOptions, resolved: &ResolvedChange, cwd: &str, ssh_url: Result<String, JobError>) -> (r: Result<String, JobError>)
    ensures
        opts.git_url@.len() > 0 ==> r is Ok && r->Ok_0@ == opts.git_url@,
        opts.git_url@.len() == 0 && resolved.is_local ==> r is Ok && r->Ok_0@ == cwd@,
        opts.git_url@.len() == 0 && !resolved.is_local ==> match ssh_url {
            Ok(u) => r is Ok && r->Ok_0@ == u@,
            Err(e) => r == Err::<String, JobError>(e),
        },
{
    if !opts.git_url.as_str().is_empty() {
        Ok(opts.git_url.clone())
    } else if resolved.is_local {
        Ok(cwd.to_owned())
    } else {
        ssh_url
    }
}

/// Picks `default` only for a local run whose own value is empty.
pub fn with_default(val: &str, default: &str, local: &bool) -> (r: String)
    ensures
        r@ == (if !*local || val@.len() > 0 { val@ } else { default@ }),
{
    if !*local || !val.is_empty() {
        val.to_owned()
    } else {
        default.to_owned()
    }
}

/// Everything that the workspace provisioner is told of the change.
pub struct ChangeRecord {
    pub enterprise: String,
    pub organization: String,
    pub project: String,
    pub pipeline: String,
    pub stage: String,
    pub phase: String,
    pub git_url: String,
    pub sha: String,
    pub patchset_branch: String,
    pub change_id: String,
    pub patchset_number: String,
}

/// The names of the job's place in the delivery hierarchy, after
/// configuration was merged in.
pub struct JobNames {
    pub enterprise: String,
    pub organization: String,
    pub project: String,
    pub pipeline: String,
}

/// The record of a run: its names, the stage and phases and change ids of
/// `opts`, the clone URL and the resolved reference and patchset.
pub fn change_record(opts: &RunOptions, names: &JobNames, resolved: &ResolvedChange, clone_url: &str) -> (r: ChangeRecord)
    ensures
        r.enterprise@ == names.enterprise@,
        r.organization@ == names.organization@,
        r.project@ == names.project@,
        r.pipeline@ == names.pipeline@,
        r.stage@ == opts.stage@,
        r.phase@ == opts.phases@,
        r.git_url@ == clone_url@,
        r.sha@ == opts.shasum@,
        r.patchset_branch@ == resolved.reference@,
        r.change_id@ == opts.change_id@,
        r.patchset_number@ == resolved.patchset@,
{
    ChangeRecord {
        enterprise: names.enterprise.clone(),
        organization: names.organization.clone(),
        project: names.project.clone(),
        pipeline: names.pipeline.clone(),
        stage: opts.stage.clone(),
        phase: opts.phases.clone(),
        git_url: clone_url.to_owned(),
        sha: opts.shasum.clone(),
        patchset_branch: resolved.reference.clone(),
        change_id: opts.change_id.clone(),
        patchset_number: resolved.patchset.clone(),
    }
}

/// A non-empty branch decides the reference, whatever else is set.
pub proof fn lemma_branch_decides(o: &RunOptions, pipeline: Seq<char>, head: Seq<char>)
    requires
        o.branch@.len() > 0,
    ensures
        reference_of(o, pipeline, head) == o.branch@,
        !needs_local_head_spec(o),
{
}

/// Without a branch, a review change id gives the review reference, with
/// the patchset `latest` where none is given.
pub proof fn lemma_review_reference(o: &RunOptions, pipeline: Seq<char>, head: Seq<char>)
    requires
        o.branch@.len() == 0,
        o.change@.len() > 0,
    ensures
        reference_of(o, pipeline, head) == "_reviews/"@ + pipeline + "/"@ + o.change@ + "/"@ + patchset_of(o.patchset@),
        o.patchset@.len() == 0 ==> patchset_of(o.patchset@) == "latest"@,
        !needs_local_head_spec(o),
{
}

/// With no selector set, the change is local and its reference is the
/// local HEAD.
pub proof fn lemma_local_head(o: &RunOptions, pipeline: Seq<char>, head: Seq<char>)
    requires
        o.branch@.len() == 0,
        o.change@.len() == 0,
        o.shasum@.len() == 0,
    ensures
        needs_local_head_spec(o),
        reference_of(o, pipeline, head) == head,
{
}

} // verus!
