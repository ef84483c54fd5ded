use vstd::prelude::*;

use vstd::string::StrSliceExecFns;

verus! {

/// The conversation history of one session — the instructions entered and
/// the commands generated so far, in order — together with the environment
/// facts captured once at session start.
pub struct State {
    pub command_log: Vec<String>,
    pub prompts_log: Vec<String>,
    pub shell: String,
    pub os: String,
}

impl State {
    /// A fresh history for the given environment: both logs empty.
    pub fn new(shell: String, os: String) -> (r: State)
        ensures
            r.command_log@.len() == 0,
            r.prompts_log@.len() == 0,
            r.shell == shell,
            r.os == os,
    {
        State { command_log: Vec::new(), prompts_log: Vec::new(), shell, os }
    }
}

/// The last '/'-separated segment of `s`.
pub open spec fn last_segment(s: Seq<char>) -> Seq<char>
    decreases s.len(),
{
    if s.len() == 0 {
        s
    } else if s.last() == '/' {
        Seq::empty()
    } else {
        last_segment(s.drop_last()).push(s.last())
    }
}

/// The characters after the last separator form the last segment.
proof fn lemma_last_segment_subrange(s: Seq<char>, k: int)
    requires
        0 <= k <= s.len(),
        forall|i: int| k <= i < s.len() ==> s[i] != '/',
        k > 0 ==> s[k - 1] == '/',
    ensures
        last_segment(s) == s.subrange(k, s.len() as int),
    decreases s.len(),
{
    if k == s.len() {
        if s.len() == 0 {
            assert(s.subrange(0, 0) =~= s);
        } else {
            assert(s.subrange(k, s.len() as int) =~= Seq::<char>::empty());
        }
    } else {
        assert(s.last() != '/');
        lemma_last_segment_subrange(s.drop_last(), k);
        assert(s.drop_last().subrange(k, s.len() - 1).push(s.last()) =~= s.subrange(
            k,
            s.len() as int,
        ));
    }
}

/// The shell's name within the path that names it: the path's last
/// '/'-separated segment, as `str::split('/').last()` would return it.
pub fn shell_from_path(path: &str) -> (r: String)
    ensures
        r@ == last_segment(path@),
{
    let n = path.unicode_len();
    let mut k: usize = n;
    while k > 0 && path.get_char(k - 1) != '/'
        invariant
            k <= n,
            n == path@.len(),
            forall|i: int| k <= i < n ==> path@[i] != '/',
        decreases k,
    {
        k -= 1;
    }
    proof {
        lemma_last_segment_subrange(path@, k as int);
    }
    path.substring_char(k, n).to_owned()
}

} // verus!
