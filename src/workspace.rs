use vstd::prelude::*;
use crate::error::JobError;

verus! {

/// The hierarchical key that names one job's workspace.
pub struct WorkspaceKey {
    pub server: String,
    pub ent: String,
    pub org: String,
    pub project: String,
    pub pipeline: String,
    pub stage: String,
    /// Space separated phase names.
    pub phases: String,
}

/// `base` with the segment `seg` appended.
pub open spec fn join_spec(base: Seq<char>, seg: Seq<char>) -> Seq<char> {
    base + "/"@ + seg
}

/// The phases joined with `-` in place of each space.
pub open spec fn phase_dir_spec(phases: Seq<char>) -> Seq<char> {
    phases.map_values(|c: char| if c == ' ' { '-' } else { c })
}

/// Where workspaces live: the home directory itself for a privileged
/// process, its `.delivery` directory otherwise.
pub open spec fn workspace_base_spec(home: Seq<char>, privileged: bool) -> Seq<char> {
    if privileged {
        home
    } else {
        join_spec(home, ".delivery"@)
    }
}

/// The job directory under `base` for the seven segments of the key.
pub open spec fn key_path(
    base: Seq<char>,
    server: Seq<char>,
    ent: Seq<char>,
    org: Seq<char>,
    project: Seq<char>,
    pipeline: Seq<char>,
    stage: Seq<char>,
    phases: Seq<char>,
) -> Seq<char> {
    join_spec(join_spec(join_spec(join_spec(join_spec(join_spec(join_spec(
        base, server), ent), org), project), pipeline), stage), phase_dir_spec(phases))
}

pub open spec fn job_path_spec(home: Seq<char>, privileged: bool, k: &WorkspaceKey) -> Seq<char> {
    key_path(workspace_base_spec(home, privileged), k.server@, k.ent@, k.org@, k.project@,
        k.pipeline@, k.stage@, k.phases@)
}

pub(crate) fn join(base: &mut String, seg: &str)
    ensures
        final(base)@ == join_spec(old(base)@, seg@),
{
    base.append("/");
    base.append(seg);
}

/// The phase list as a directory name: each space becomes `-`.
pub fn phase_dir(phases: &str) -> (r: String)
    ensures
        r@ == phase_dir_spec(phases@),
{
    let n = phases.unicode_len();
    let mut r = String::new();
    let mut i: usize = 0;
    while i < n
        invariant
            n == phases@.len(),
            i <= n,
            r@ == phase_dir_spec(phases@.subrange(0, i as int)),
        decreases n - i,
    {
        if phases.get_char(i) == ' ' {
            proof {
                reveal_strlit("-");
            }
            assert("-"@ =~= seq!['-']);
            r.append("-");
        } else {
            let c = phases.substring_char(i, i + 1);
            assert(c@ =~= seq![phases@[i as int]]);
            r.append(c);
        }
        assert(phases@.subrange(0, i + 1) =~= phases@.subrange(0, i as int).push(phases@[i as int]));
        assert(phase_dir_spec(phases@.subrange(0, i + 1)) =~= phase_dir_spec(phases@.subrange(0, i as int)) + seq![
            if phases@[i as int] == ' ' { '-' } else { phases@[i as int] },
        ]);
        i = i + 1;
    }
    assert(phases@.subrange(0, n as int) =~= phases@);
    r
}

/// The root under which workspaces are made for the given home directory.
pub fn workspace_base(home: &str, privileged: bool) -> (r: String)
    ensures
        r@ == workspace_base_spec(home@, privileged),
{
    let mut r = home.to_owned();
    if !privileged {
        join(&mut r, ".delivery");
    }
    r
}

/// The job's workspace root: `job_root` where one is given, else the key's
/// directory under the workspace base of `home`.
pub fn locate(home: &Option<String>, privileged: bool, job_root: &str, key: &WorkspaceKey) -> (r: Result<String, JobError>)
    ensures
        job_root@.len() > 0 ==> r is Ok && r->Ok_0@ == job_root@,
        job_root@.len() == 0 && home is None ==> r == Err::<String, JobError>(JobError::NoHomeDirectory),
        job_root@.len() == 0 && home is Some ==> r is Ok && r->Ok_0@ == job_path_spec(home->Some_0@, privileged, key),
{
    if !job_root.is_empty() {
        return Ok(job_root.to_owned());
    }
    match home {
        None => Err(JobError::NoHomeDirectory),
        Some(h) => {
            let mut p = workspace_base(h.as_str(), privileged);
            join(&mut p, key.server.as_str());
            join(&mut p, key.ent.as_str());
            join(&mut p, key.org.as_str());
            join(&mut p, key.project.as_str());
            join(&mut p, key.pipeline.as_str());
            join(&mut p, key.stage.as_str());
            let d = phase_dir(key.phases.as_str());
            join(&mut p, d.as_str());
            Ok(p)
        }
    }
}

proof fn lemma_cancel_right(x: Seq<char>, y: Seq<char>, t: Seq<char>)
    requires
        x + t == y + t,
    ensures
        x == y,
{
    assert((x + t).len() == x.len() + t.len());
    assert((y + t).len() == y.len() + t.len());
    assert(x.len() == y.len());
    assert forall|i: int| 0 <= i < x.len() implies x[i] == y[i] by {
        assert((x + t)[i] == x[i]);
        assert((y + t)[i] == y[i]);
    }
    assert(x =~= y);
}

proof fn lemma_cancel_left(p: Seq<char>, x: Seq<char>, y: Seq<char>)
    requires
        p + x == p + y,
    ensures
        x == y,
{
    assert((p + x).len() == p.len() + x.len());
    assert((p + y).len() == p.len() + y.len());
    assert(x.len() == y.len());
    assert forall|i: int| 0 <= i < x.len() implies x[i] == y[i] by {
        assert((p + x)[p.len() + i] == x[i]);
        assert((p + y)[p.len() + i] == y[i]);
    }
    assert(x =~= y);
}

/// A path that appends the same segments to two bases is the same only
/// where the bases are.
proof fn lemma_key_path_base(b1: Seq<char>, b2: Seq<char>, s: Seq<char>, e: Seq<char>, o: Seq<char>,
    p: Seq<char>, pi: Seq<char>, st: Seq<char>, ph: Seq<char>)
    requires
        key_path(b1, s, e, o, p, pi, st, ph) == key_path(b2, s, e, o, p, pi, st, ph),
    ensures
        b1 == b2,
{
    let sep = "/"@;
    let t = sep + s + sep + e + sep + o + sep + p + sep + pi + sep + st + sep + phase_dir_spec(ph);
    assert(key_path(b1, s, e, o, p, pi, st, ph) =~= b1 + t);
    assert(key_path(b2, s, e, o, p, pi, st, ph) =~= b2 + t);
    lemma_cancel_right(b1, b2, t);
}

/// Equal paths with all but one segment equal have that segment equal.
proof fn lemma_middle(p: Seq<char>, x: Seq<char>, y: Seq<char>, t: Seq<char>)
    requires
        p + x + t == p + y + t,
    ensures
        x == y,
{
    lemma_cancel_right(p + x, p + y, t);
    lemma_cancel_left(p, x, y);
}

proof fn lemma_path_differs_in_home(home1: Seq<char>, home2: Seq<char>, priv1: bool, priv2: bool, k1: &WorkspaceKey, k2: &WorkspaceKey)
    requires
        home1 != home2 && priv1 == priv2 && k1.server@ == k2.server@ && k1.ent@ == k2.ent@ && k1.org@ == k2.org@ && k1.project@ == k2.project@ && k1.pipeline@ == k2.pipeline@ && k1.stage@ == k2.stage@ && k1.phases@ == k2.phases@,
    ensures
        job_path_spec(home1, priv1, k1) != job_path_spec(home2, priv2, k2),
{
    let b1 = workspace_base_spec(home1, priv1);
    let b2 = workspace_base_spec(home2, priv2);
    let sep = "/"@;
    if job_path_spec(home1, priv1, k1) == job_path_spec(home2, priv2, k2) {
        lemma_key_path_base(b1, b2, k1.server@, k1.ent@, k1.org@, k1.project@, k1.pipeline@, k1.stage@, k1.phases@);
        if !priv1 {
            assert(b1 =~= home1 + (sep + ".delivery"@));
            assert(b2 =~= home2 + (sep + ".delivery"@));
            lemma_cancel_right(home1, home2, sep + ".delivery"@);
        }
    }
}

proof fn lemma_path_differs_in_privilege(home1: Seq<char>, home2: Seq<char>, priv1: bool, priv2: bool, k1: &WorkspaceKey, k2: &WorkspaceKey)
    requires
        home1 == home2 && priv1 != priv2 && k1.server@ == k2.server@ && k1.ent@ == k2.ent@ && k1.org@ == k2.org@ && k1.project@ == k2.project@ && k1.pipeline@ == k2.pipeline@ && k1.stage@ == k2.stage@ && k1.phases@ == k2.phases@,
    ensures
        job_path_spec(home1, priv1, k1) != job_path_spec(home2, priv2, k2),
{
    let b1 = workspace_base_spec(home1, priv1);
    let b2 = workspace_base_spec(home2, priv2);
    let sep = "/"@;
    if job_path_spec(home1, priv1, k1) == job_path_spec(home2, priv2, k2) {
        lemma_key_path_base(b1, b2, k1.server@, k1.ent@, k1.org@, k1.project@, k1.pipeline@, k1.stage@, k1.phases@);
        assert(b1.len() != b2.len()) by {
            reveal_strlit("/");
            reveal_strlit(".delivery");
        }
    }
}

proof fn lemma_path_differs_in_server(home1: Seq<char>, home2: Seq<char>, priv1: bool, priv2: bool, k1: &WorkspaceKey, k2: &WorkspaceKey)
    requires
        home1 == home2 && priv1 == priv2 && k1.server@ != k2.server@ && k1.ent@ == k2.ent@ && k1.org@ == k2.org@ && k1.project@ == k2.project@ && k1.pipeline@ == k2.pipeline@ && k1.stage@ == k2.stage@ && k1.phases@ == k2.phases@,
    ensures
        job_path_spec(home1, priv1, k1) != job_path_spec(home2, priv2, k2),
{
    let b1 = workspace_base_spec(home1, priv1);
    let b2 = workspace_base_spec(home2, priv2);
    let sep = "/"@;
    if job_path_spec(home1, priv1, k1) == job_path_spec(home2, priv2, k2) {
        let p = b1 + sep;
        let t = sep + k1.ent@ + sep + k1.org@ + sep + k1.project@ + sep + k1.pipeline@ + sep + k1.stage@ + sep + phase_dir_spec(k1.phases@);
        assert(job_path_spec(home1, priv1, k1) =~= p + k1.server@ + t);
        assert(job_path_spec(home2, priv2, k2) =~= p + k2.server@ + t);
        lemma_middle(p, k1.server@, k2.server@, t);
    }
}

proof fn lemma_path_differs_in_ent(home1: Seq<char>, home2: Seq<char>, priv1: bool, priv2: bool, k1: &WorkspaceKey, k2: &WorkspaceKey)
    requires
        home1 == home2 && priv1 == priv2 && k1.ent@ != k2.ent@ && k1.server@ == k2.server@ && k1.org@ == k2.org@ && k1.project@ == k2.project@ && k1.pipeline@ == k2.pipeline@ && k1.stage@ == k2.stage@ && k1.phases@ == k2.phases@,
    ensures
        job_path_spec(home1, priv1, k1) != job_path_spec(home2, priv2, k2),
{
    let b1 = workspace_base_spec(home1, priv1);
    let b2 = workspace_base_spec(home2, priv2);
    let sep = "/"@;
    if job_path_spec(home1, priv1, k1) == job_path_spec(home2, priv2, k2) {
        let p = b1 + sep + k1.server@ + sep;
        let t = sep + k1.org@ + sep + k1.project@ + sep + k1.pipeline@ + sep + k1.stage@ + sep + phase_dir_spec(k1.phases@);
        assert(job_path_spec(home1, priv1, k1) =~= p + k1.ent@ + t);
        assert(job_path_spec(home2, priv2, k2) =~= p + k2.ent@ + t);
        lemma_middle(p, k1.ent@, k2.ent@, t);
    }
}

proof fn lemma_path_differs_in_org(home1: Seq<char>, home2: Seq<char>, priv1: bool, priv2: bool, k1: &WorkspaceKey, k2: &WorkspaceKey)
    requires
        home1 == home2 && priv1 == priv2 && k1.org@ != k2.org@ && k1.server@ == k2.server@ && k1.ent@ == k2.ent@ && k1.project@ == k2.project@ && k1.pipeline@ == k2.pipeline@ && k1.stage@ == k2.stage@ && k1.phases@ == k2.phases@,
    ensures
        job_path_spec(home1, priv1, k1) != job_path_spec(home2, priv2, k2),
{
    let b1 = workspace_base_spec(home1, priv1);
    let b2 = workspace_base_spec(home2, priv2);
    let sep = "/"@;
    if job_path_spec(home1, priv1, k1) == job_path_spec(home2, priv2, k2) {
        let p = b1 + sep + k1.server@ + sep + k1.ent@ + sep;
        let t = sep + k1.project@ + sep + k1.pipeline@ + sep + k1.stage@ + sep + phase_dir_spec(k1.phases@);
        assert(job_path_spec(home1, priv1, k1) =~= p + k1.org@ + t);
        assert(job_path_spec(home2, priv2, k2) =~= p + k2.org@ + t);
        lemma_middle(p, k1.org@, k2.org@, t);
    }
}

proof fn lemma_path_differs_in_project(home1: Seq<char>, home2: Seq<char>, priv1: bool, priv2: bool, k1: &WorkspaceKey, k2: &WorkspaceKey)
    requires
        home1 == home2 && priv1 == priv2 && k1.project@ != k2.project@ && k1.server@ == k2.server@ && k1.ent@ == k2.ent@ && k1.org@ == k2.org@ && k1.pipeline@ == k2.pipeline@ && k1.stage@ == k2.stage@ && k1.phases@ == k2.phases@,
    ensures
        job_path_spec(home1, priv1, k1) != job_path_spec(home2, priv2, k2),
{
    let b1 = workspace_base_spec(home1, priv1);
    let b2 = workspace_base_spec(home2, priv2);
    let sep = "/"@;
    if job_path_spec(home1, priv1, k1) == job_path_spec(home2, priv2, k2) {
        let p = b1 + sep + k1.server@ + sep + k1.ent@ + sep + k1.org@ + sep;
        let t = sep + k1.pipeline@ + sep + k1.stage@ + sep + phase_dir_spec(k1.phases@);
        assert(job_path_spec(home1, priv1, k1) =~= p + k1.project@ + t);
        assert(job_path_spec(home2, priv2, k2) =~= p + k2.project@ + t);
        lemma_middle(p, k1.project@, k2.project@, t);
    }
}

proof fn lemma_path_differs_in_pipeline(home1: Seq<char>, home2: Seq<char>, priv1: bool, priv2: bool, k1: &WorkspaceKey, k2: &WorkspaceKey)
    requires
        home1 == home2 && priv1 == priv2 && k1.pipeline@ != k2.pipeline@ && k1.server@ == k2.server@ && k1.ent@ == k2.ent@ && k1.org@ == k2.org@ && k1.project@ == k2.project@ && k1.stage@ == k2.stage@ && k1.phases@ == k2.phases@,
    ensures
        job_path_spec(home1, priv1, k1) != job_path_spec(home2, priv2, k2),
{
    let b1 = workspace_base_spec(home1, priv1);
    let b2 = workspace_base_spec(home2, priv2);
    let sep = "/"@;
    if job_path_spec(home1, priv1, k1) == job_path_spec(home2, priv2, k2) {
        let p = b1 + sep + k1.server@ + sep + k1.ent@ + sep + k1.org@ + sep + k1.project@ + sep;
        let t = sep + k1.stage@ + sep + phase_dir_spec(k1.phases@);
        assert(job_path_spec(home1, priv1, k1) =~= p + k1.pipeline@ + t);
        assert(job_path_spec(home2, priv2, k2) =~= p + k2.pipeline@ + t);
        lemma_middle(p, k1.pipeline@, k2.pipeline@, t);
    }
}

proof fn lemma_path_differs_in_stage(home1: Seq<char>, home2: Seq<char>, priv1: bool, priv2: bool, k1: &WorkspaceKey, k2: &WorkspaceKey)
    requires
        home1 == home2 && priv1 == priv2 && k1.stage@ != k2.stage@ && k1.server@ == k2.server@ && k1.ent@ == k2.ent@ && k1.org@ == k2.org@ && k1.project@ == k2.project@ && k1.pipeline@ == k2.pipeline@ && k1.phases@ == k2.phases@,
    ensures
        job_path_spec(home1, priv1, k1) != job_path_spec(home2, priv2, k2),
{
    let b1 = workspace_base_spec(home1, priv1);
    let b2 = workspace_base_spec(home2, priv2);
    let sep = "/"@;
    if job_path_spec(home1, priv1, k1) == job_path_spec(home2, priv2, k2) {
        let p = b1 + sep + k1.server@ + sep + k1.ent@ + sep + k1.org@ + sep + k1.project@ + sep + k1.pipeline@ + sep;
        let t = sep + phase_dir_spec(k1.phases@);
        assert(job_path_spec(home1, priv1, k1) =~= p + k1.stage@ + t);
        assert(job_path_spec(home2, priv2, k2) =~= p + k2.stage@ + t);
        lemma_middle(p, k1.stage@, k2.stage@, t);
    }
}

proof fn lemma_path_differs_in_phases(home1: Seq<char>, home2: Seq<char>, priv1: bool, priv2: bool, k1: &WorkspaceKey, k2: &WorkspaceKey)
    requires
        home1 == home2 && priv1 == priv2 && phase_dir_spec(k1.phases@) != phase_dir_spec(k2.phases@) && k1.server@ == k2.server@ && k1.ent@ == k2.ent@ && k1.org@ == k2.org@ && k1.project@ == k2.project@ && k1.pipeline@ == k2.pipeline@ && k1.stage@ == k2.stage@,
    ensures
        job_path_spec(home1, priv1, k1) != job_path_spec(home2, priv2, k2),
{
    let b1 = workspace_base_spec(home1, priv1);
    let b2 = workspace_base_spec(home2, priv2);
    let sep = "/"@;
    if job_path_spec(home1, priv1, k1) == job_path_spec(home2, priv2, k2) {
        let p = b1 + sep + k1.server@ + sep + k1.ent@ + sep + k1.org@ + sep + k1.project@ + sep + k1.pipeline@ + sep + k1.stage@ + sep;
        let t = Seq::<char>::empty();
        assert(job_path_spec(home1, priv1, k1) =~= p + phase_dir_spec(k1.phases@) + t);
        assert(job_path_spec(home2, priv2, k2) =~= p + phase_dir_spec(k2.phases@) + t);
        lemma_middle(p, phase_dir_spec(k1.phases@), phase_dir_spec(k2.phases@), t);
    }
}

/// The workspace path is a function of the privilege, the home directory
/// and the seven key segments. Changing one of them alone gives another
/// path; two phase lists count as different where their directory names
/// (spaces read as `-`) differ.
pub proof fn lemma_workspace_path_deterministic(home1: Seq<char>, home2: Seq<char>, priv1: bool, priv2: bool, k1: &WorkspaceKey, k2: &WorkspaceKey)
    ensures
        home1 == home2 && priv1 == priv2 && k1.server@ == k2.server@ && k1.ent@ == k2.ent@ && k1.org@ == k2.org@ && k1.project@ == k2.project@ && k1.pipeline@ == k2.pipeline@ && k1.stage@ == k2.stage@ && k1.phases@ == k2.phases@ ==> job_path_spec(home1, priv1, k1) == job_path_spec(home2, priv2, k2),
        home1 != home2 && priv1 == priv2 && k1.server@ == k2.server@ && k1.ent@ == k2.ent@ && k1.org@ == k2.org@ && k1.project@ == k2.project@ && k1.pipeline@ == k2.pipeline@ && k1.stage@ == k2.stage@ && k1.phases@ == k2.phases@ ==> job_path_spec(home1, priv1, k1) != job_path_spec(home2, priv2, k2),
        home1 == home2 && priv1 != priv2 && k1.server@ == k2.server@ && k1.ent@ == k2.ent@ && k1.org@ == k2.org@ && k1.project@ == k2.project@ && k1.pipeline@ == k2.pipeline@ && k1.stage@ == k2.stage@ && k1.phases@ == k2.phases@ ==> job_path_spec(home1, priv1, k1) != job_path_spec(home2, priv2, k2),
        home1 == home2 && priv1 == priv2 && k1.server@ != k2.server@ && k1.ent@ == k2.ent@ && k1.org@ == k2.org@ && k1.project@ == k2.project@ && k1.pipeline@ == k2.pipeline@ && k1.stage@ == k2.stage@ && k1.phases@ == k2.phases@ ==> job_path_spec(home1, priv1, k1) != job_path_spec(home2, priv2, k2),
        home1 == home2 && priv1 == priv2 && k1.ent@ != k2.ent@ && k1.server@ == k2.server@ && k1.org@ == k2.org@ && k1.project@ == k2.project@ && k1.pipeline@ == k2.pipeline@ && k1.stage@ == k2.stage@ && k1.phases@ == k2.phases@ ==> job_path_spec(home1, priv1, k1) != job_path_spec(home2, priv2, k2),
        home1 == home2 && priv1 == priv2 && k1.org@ != k2.org@ && k1.server@ == k2.server@ && k1.ent@ == k2.ent@ && k1.project@ == k2.project@ && k1.pipeline@ == k2.pipeline@ && k1.stage@ == k2.stage@ && k1.phases@ == k2.phases@ ==> job_path_spec(home1, priv1, k1) != job_path_spec(home2, priv2, k2),
        home1 == home2 && priv1 == priv2 && k1.project@ != k2.project@ && k1.server@ == k2.server@ && k1.ent@ == k2.ent@ && k1.org@ == k2.org@ && k1.pipeline@ == k2.pipeline@ && k1.stage@ == k2.stage@ && k1.phases@ == k2.phases@ ==> job_path_spec(home1, priv1, k1) != job_path_spec(home2, priv2, k2),
        home1 == home2 && priv1 == priv2 && k1.pipeline@ != k2.pipeline@ && k1.server@ == k2.server@ && k1.ent@ == k2.ent@ && k1.org@ == k2.org@ && k1.project@ == k2.project@ && k1.stage@ == k2.stage@ && k1.phases@ == k2.phases@ ==> job_path_spec(home1, priv1, k1) != job_path_spec(home2, priv2, k2),
        home1 == home2 && priv1 == priv2 && k1.stage@ != k2.stage@ && k1.server@ == k2.server@ && k1.ent@ == k2.ent@ && k1.org@ == k2.org@ && k1.project@ == k2.project@ && k1.pipeline@ == k2.pipeline@ && k1.phases@ == k2.phases@ ==> job_path_spec(home1, priv1, k1) != job_path_spec(home2, priv2, k2),
        home1 == home2 && priv1 == priv2 && phase_dir_spec(k1.phases@) != phase_dir_spec(k2.phases@) && k1.server@ == k2.server@ && k1.ent@ == k2.ent@ && k1.org@ == k2.org@ && k1.project@ == k2.project@ && k1.pipeline@ == k2.pipeline@ && k1.stage@ == k2.stage@ ==> job_path_spec(home1, priv1, k1) != job_path_spec(home2, priv2, k2),
{
    if home1 != home2 && priv1 == priv2 && k1.server@ == k2.server@ && k1.ent@ == k2.ent@ && k1.org@ == k2.org@ && k1.project@ == k2.project@ && k1.pipeline@ == k2.pipeline@ && k1.stage@ == k2.stage@ && k1.phases@ == k2.phases@ {
        lemma_path_differs_in_home(home1, home2, priv1, priv2, k1, k2);
    }
    if home1 == home2 && priv1 != priv2 && k1.server@ == k2.server@ && k1.ent@ == k2.ent@ && k1.org@ == k2.org@ && k1.project@ == k2.project@ && k1.pipeline@ == k2.pipeline@ && k1.stage@ == k2.stage@ && k1.phases@ == k2.phases@ {
        lemma_path_differs_in_privilege(home1, home2, priv1, priv2, k1, k2);
    }
    if home1 == home2 && priv1 == priv2 && k1.server@ != k2.server@ && k1.ent@ == k2.ent@ && k1.org@ == k2.org@ && k1.project@ == k2.project@ && k1.pipeline@ == k2.pipeline@ && k1.stage@ == k2.stage@ && k1.phases@ == k2.phases@ {
        lemma_path_differs_in_server(home1, home2, priv1, priv2, k1, k2);
    }
    if home1 == home2 && priv1 == priv2 && k1.ent@ != k2.ent@ && k1.server@ == k2.server@ && k1.org@ == k2.org@ && k1.project@ == k2.project@ && k1.pipeline@ == k2.pipeline@ && k1.stage@ == k2.stage@ && k1.phases@ == k2.phases@ {
        lemma_path_differs_in_ent(home1, home2, priv1, priv2, k1, k2);
    }
    if home1 == home2 && priv1 == priv2 && k1.org@ != k2.org@ && k1.server@ == k2.server@ && k1.ent@ == k2.ent@ && k1.project@ == k2.project@ && k1.pipeline@ == k2.pipeline@ && k1.stage@ == k2.stage@ && k1.phases@ == k2.phases@ {
        lemma_path_differs_in_org(home1, home2, priv1, priv2, k1, k2);
    }
    if home1 == home2 && priv1 == priv2 && k1.project@ != k2.project@ && k1.server@ == k2.server@ && k1.ent@ == k2.ent@ && k1.org@ == k2.org@ && k1.pipeline@ == k2.pipeline@ && k1.stage@ == k2.stage@ && k1.phases@ == k2.phases@ {
        lemma_path_differs_in_project(home1, home2, priv1, priv2, k1, k2);
    }
    if home1 == home2 && priv1 == priv2 && k1.pipeline@ != k2.pipeline@ && k1.server@ == k2.server@ && k1.ent@ == k2.ent@ && k1.org@ == k2.org@ && k1.project@ == k2.project@ && k1.stage@ == k2.stage@ && k1.phases@ == k2.phases@ {
        lemma_path_differs_in_pipeline(home1, home2, priv1, priv2, k1, k2);
    }
    if home1 == home2 && priv1 == priv2 && k1.stage@ != k2.stage@ && k1.server@ == k2.server@ && k1.ent@ == k2.ent@ && k1.org@ == k2.org@ && k1.project@ == k2.project@ && k1.pipeline@ == k2.pipeline@ && k1.phases@ == k2.phases@ {
        lemma_path_differs_in_stage(home1, home2, priv1, priv2, k1, k2);
    }
    if home1 == home2 && priv1 == priv2 && phase_dir_spec(k1.phases@) != phase_dir_spec(k2.phases@) && k1.server@ == k2.server@ && k1.ent@ == k2.ent@ && k1.org@ == k2.org@ && k1.project@ == k2.project@ && k1.pipeline@ == k2.pipeline@ && k1.stage@ == k2.stage@ {
        lemma_path_differs_in_phases(home1, home2, priv1, priv2, k1, k2);
    }
}

} // verus!
