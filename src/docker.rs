use vstd::prelude::*;
use crate::change::RunOptions;

verus! {

/// A run is handed to a container exactly when an image is named.
pub fn delegates_to_container(opts: &RunOptions) -> (r: bool)
    ensures
        r == (opts.docker_image@.len() > 0),
{
    !opts.docker_image.as_str().is_empty()
}

/// The text of each string of a list.
pub open spec fn strs(v: Seq<String>) -> Seq<Seq<char>> {
    v.map_values(|s: String| s@)
}

/// `flag value` where the value is set, nothing otherwise.
pub open spec fn flag_value_args(flag: Seq<char>, value: Seq<char>) -> Seq<Seq<char>> {
    if value.len() == 0 {
        Seq::empty()
    } else {
        seq![flag, value]
    }
}

/// The flags with values, in order, of the delegated command.
pub open spec fn flag_pairs(o: &RunOptions) -> Seq<(Seq<char>, Seq<char>)> {
    seq![
        ("--change"@, o.change@),
        ("--for"@, o.pipeline@),
        ("--job-root"@, o.job_root@),
        ("--project"@, o.project@),
        ("--user"@, o.user@),
        ("--server"@, o.server@),
        ("--ent"@, o.ent@),
        ("--org"@, o.org@),
        ("--patchset"@, o.patchset@),
        ("--change_id"@, o.change_id@),
        ("--git-url"@, o.git_url@),
        ("--shasum"@, o.shasum@),
        ("--branch"@, o.branch@),
    ]
}

/// The arguments that the pairs give, in order.
pub open spec fn flag_value_list(pairs: Seq<(Seq<char>, Seq<char>)>) -> Seq<Seq<char>>
    decreases pairs.len(),
{
    if pairs.len() == 0 {
        Seq::empty()
    } else {
        flag_value_list(pairs.drop_last()) + flag_value_args(pairs.last().0, pairs.last().1)
    }
}

/// The arguments before the flags: the container and the command it runs.
pub open spec fn base_args(o: &RunOptions, cwd: Seq<char>) -> Seq<Seq<char>> {
    seq![
        "run"@, "-t"@, "-i"@, "-v"@, cwd + ":"@ + cwd, "-w"@, cwd, "--dns"@, "8.8.8.8"@,
        o.docker_image@, "delivery"@, "job"@, o.stage@, o.phases@,
    ]
}

/// `flag` alone where it is set.
pub open spec fn bare_flag_args(flag: Seq<char>, value: bool) -> Seq<Seq<char>> {
    if value {
        seq![flag]
    } else {
        Seq::empty()
    }
}

/// The full argument list of the container run.
pub open spec fn docker_args_spec(o: &RunOptions, cwd: Seq<char>) -> Seq<Seq<char>> {
    base_args(o, cwd) + flag_value_list(flag_pairs(o)) + bare_flag_args("--skip-default"@, o.skip_default)
        + bare_flag_args("--local"@, o.local)
}

fn push_str(args: &mut Vec<String>, s: &str)
    ensures
        strs(final(args)@) == strs(old(args)@).push(s@),
{
    args.push(s.to_owned());
    assert(strs(final(args)@) =~= strs(old(args)@).push(s@));
}

fn maybe_add_flag_value(args: &mut Vec<String>, flag: &str, value: &str)
    ensures
        strs(final(args)@) == strs(old(args)@) + flag_value_args(flag@, value@),
{
    if !value.is_empty() {
        push_str(args, flag);
        push_str(args, value);
    }
    assert(strs(final(args)@) =~= strs(old(args)@) + flag_value_args(flag@, value@));
}

fn maybe_add_flag(args: &mut Vec<String>, flag: &str, value: &bool)
    ensures
        strs(final(args)@) == strs(old(args)@) + bare_flag_args(flag@, *value),
{
    if *value {
        push_str(args, flag);
    }
    assert(strs(final(args)@) =~= strs(old(args)@) + bare_flag_args(flag@, *value));
}

/// The arguments of the container runtime's `run` that runs the same job
/// inside `opts.docker_image`, with `cwd` mounted at the same path and used
/// as the working directory, and every option that is set passed on.
pub fn docker_args(opts: &RunOptions, cwd: &str) -> (r: Vec<String>)
    ensures
        strs(r@) == docker_args_spec(opts, cwd@),
{
    let mut args: Vec<String> = Vec::new();
    let mut volume = cwd.to_owned();
    volume.append(":");
    volume.append(cwd);
    push_str(&mut args, "run");
    push_str(&mut args, "-t");
    push_str(&mut args, "-i");
    push_str(&mut args, "-v");
    push_str(&mut args, volume.as_str());
    push_str(&mut args, "-w");
    push_str(&mut args, cwd);
    push_str(&mut args, "--dns");
    push_str(&mut args, "8.8.8.8");
    push_str(&mut args, opts.docker_image.as_str());
    push_str(&mut args, "delivery");
    push_str(&mut args, "job");
    push_str(&mut args, opts.stage.as_str());
    push_str(&mut args, opts.phases.as_str());
    let ghost base = strs(args@);
    assert(base =~= base_args(opts, cwd@));
    let pairs: Vec<(&str, &str)> = vec![
        ("--change", opts.change.as_str()),
        ("--for", opts.pipeline.as_str()),
        ("--job-root", opts.job_root.as_str()),
        ("--project", opts.project.as_str()),
        ("--user", opts.user.as_str()),
        ("--server", opts.server.as_str()),
        ("--ent", opts.ent.as_str()),
        ("--org", opts.org.as_str()),
        ("--patchset", opts.patchset.as_str()),
        ("--change_id", opts.change_id.as_str()),
        ("--git-url", opts.git_url.as_str()),
        ("--shasum", opts.shasum.as_str()),
        ("--branch", opts.branch.as_str()),
    ];
    let ghost fp = flag_pairs(opts);
    assert(pairs@.len() == fp.len());
    assert(forall|j: int| 0 <= j < fp.len() ==> #[trigger] fp[j] == (pairs@[j].0@, pairs@[j].1@));
    let mut i: usize = 0;
    while i < pairs.len()
        invariant
            fp == flag_pairs(opts),
            pairs@.len() == fp.len(),
            forall|j: int| 0 <= j < fp.len() ==> #[trigger] fp[j] == (pairs@[j].0@, pairs@[j].1@),
            i <= pairs@.len(),
            strs(args@) == base + flag_value_list(fp.subrange(0, i as int)),
        decreases pairs@.len() - i,
    {
        let (flag, value) = pairs[i];
        maybe_add_flag_value(&mut args, flag, value);
        assert(fp.subrange(0, i + 1).drop_last() =~= fp.subrange(0, i as int));
        assert(fp[i as int] == (flag@, value@));
        i = i + 1;
    }
    assert(fp.subrange(0, fp.len() as int) =~= fp);
    maybe_add_flag(&mut args, "--skip-default", &opts.skip_default);
    maybe_add_flag(&mut args, "--local", &opts.local);
    args
}

/// Every flag value in `pairs` that is set stands in the argument list.
proof fn lemma_flag_values_present(pairs: Seq<(Seq<char>, Seq<char>)>, j: int)
    requires
        0 <= j < pairs.len(),
        pairs[j].1.len() > 0,
    ensures
        flag_value_list(pairs).contains(pairs[j].1),
    decreases pairs.len(),
{
    let l = flag_value_list(pairs);
    let front = flag_value_list(pairs.drop_last());
    let back = flag_value_args(pairs.last().0, pairs.last().1);
    assert(l == front + back);
    if j == pairs.len() - 1 {
        assert(l[front.len() as int + 1] == pairs[j].1);
    } else {
        lemma_flag_values_present(pairs.drop_last(), j);
        let k = choose|k: int| 0 <= k < front.len() && front[k] == pairs[j].1;
        assert(l[k] == pairs[j].1);
    }
}

/// Every string option that is set is passed on to the delegated command.
pub proof fn lemma_docker_args_carry_options(o: &RunOptions, cwd: Seq<char>)
    ensures
        forall|j: int| 0 <= j < flag_pairs(o).len() && (#[trigger] flag_pairs(o)[j]).1.len() > 0
            ==> docker_args_spec(o, cwd).contains(flag_pairs(o)[j].1),
        docker_args_spec(o, cwd).contains(o.stage@),
        docker_args_spec(o, cwd).contains(o.phases@),
        docker_args_spec(o, cwd).contains(o.docker_image@),
{
    let all = docker_args_spec(o, cwd);
    let b = base_args(o, cwd);
    let fl = flag_value_list(flag_pairs(o));
    let rest = bare_flag_args("--skip-default"@, o.skip_default) + bare_flag_args("--local"@, o.local);
    assert(all =~= b + fl + rest);
    assert forall|j: int| 0 <= j < flag_pairs(o).len() && (#[trigger] flag_pairs(o)[j]).1.len() > 0
        implies all.contains(flag_pairs(o)[j].1) by {
        lemma_flag_values_present(flag_pairs(o), j);
        let k = choose|k: int| 0 <= k < fl.len() && fl[k] == flag_pairs(o)[j].1;
        assert(all[b.len() as int + k] == fl[k]);
    }
    assert(all[12] == o.stage@);
    assert(all[13] == o.phases@);
    assert(all[9] == o.docker_image@);
}

/// Collects the bytes of a child's output and hands out each line as soon as
/// its newline arrives; bytes of an unfinished line are held back.
pub struct LineRelay {
    pending: Vec<u8>,
}

impl LineRelay {
    /// The bytes held back: they hold no newline.
    pub closed spec fn pending_spec(&self) -> Seq<u8> {
        self.pending@
    }

    pub open spec fn wf(&self) -> bool {
        !self.pending_spec().contains(10u8)
    }

    /// A relay that holds nothing.
    pub fn new() -> (r: LineRelay)
        ensures
            r.wf(),
            r.pending_spec() == Seq::<u8>::empty(),
    {
        LineRelay { pending: Vec::new() }
    }

    /// Takes one byte of output. A newline completes the held line, which
    /// comes back with its newline and is no longer held; any other byte is
    /// held and nothing comes back.
    pub fn push(&mut self, b: u8) -> (r: Option<Vec<u8>>)
        requires
            old(self).wf(),
        ensures
            final(self).wf(),
            b == 10u8 ==> r is Some && r->Some_0@ == old(self).pending_spec().push(b)
                && final(self).pending_spec() == Seq::<u8>::empty(),
            b != 10u8 ==> r is None && final(self).pending_spec() == old(self).pending_spec().push(b),
    {
        self.pending.push(b);
        if b == 10u8 {
            let mut line: Vec<u8> = Vec::new();
            core::mem::swap(&mut line, &mut self.pending);
            Some(line)
        } else {
            proof {
                assert forall|k: int| 0 <= k < self.pending@.len() implies self.pending@[k] != 10u8 by {
                    if k < old(self).pending@.len() {
                        assert(!old(self).pending@.contains(10u8));
                        assert(old(self).pending@[k] != 10u8);
                    }
                }
            }
            None
        }
    }

    /// The bytes of the line not yet finished.
    pub fn pending(&self) -> (r: &Vec<u8>)
        ensures
            r@ == self.pending_spec(),
    {
        &self.pending
    }
}

} // verus!
