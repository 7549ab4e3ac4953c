//! Deriving the owning workload's name from a generated pod name.
use vstd::prelude::*;
use vstd::string::*;

verus! {

/// The part of `s` before its last hyphen, or `None` when `s` has no hyphen.
pub open spec fn before_last_hyphen(s: Seq<char>) -> Option<Seq<char>>
    decreases s.len(),
{
    if s.len() == 0 {
        None
    } else if s.last() == '-' {
        Some(s.drop_last())
    } else {
        before_last_hyphen(s.drop_last())
    }
}

/// `s` without its last hyphen-delimited segment; `s` itself when it has no hyphen.
pub open spec fn strip_last_segment(s: Seq<char>) -> Seq<char> {
    match before_last_hyphen(s) {
        Some(p) => p,
        None => s,
    }
}

/// The workload that owns pod `pod`: the pod name with its last two
/// hyphen-delimited segments (the replica-set hash and the pod suffix) removed.
/// A name with a single hyphen loses one segment; one without hyphens stays as it is.
pub open spec fn owner_name(pod: Seq<char>) -> Seq<char> {
    strip_last_segment(strip_last_segment(pod))
}

proof fn lemma_no_hyphen_before(s: Seq<char>)
    requires
        !s.contains('-'),
    ensures
        before_last_hyphen(s) is None,
    decreases s.len(),
{
    if s.len() > 0 {
        assert(s.last() == s[s.len() - 1]);
        assert forall|c: char| s.drop_last().contains(c) implies s.contains(c) by {
            let i = choose|i: int| 0 <= i < s.drop_last().len() && s.drop_last()[i] == c;
            assert(s[i] == c);
        }
        lemma_no_hyphen_before(s.drop_last());
    }
}

/// A pod name without hyphens is its own owner's name.
pub proof fn lemma_owner_of_name_without_hyphen(pod: Seq<char>)
    requires
        !pod.contains('-'),
    ensures
        owner_name(pod) == pod,
{
    lemma_no_hyphen_before(pod);
}

fn strip_segment(s: &str) -> (r: String)
    ensures
        r@ == strip_last_segment(s@),
{
    let n = s.unicode_len();
    let mut i: usize = n;
    assert(s@.subrange(0, n as int) =~= s@);
    while i > 0
        invariant
            i <= n,
            n == s@.len(),
            before_last_hyphen(s@) == before_last_hyphen(s@.subrange(0, i as int)),
        decreases i,
    {
        let c = s.get_char(i - 1);
        assert(s@.subrange(0, i as int).drop_last() =~= s@.subrange(0, i - 1));
        if c == '-' {
            let head = s.substring_char(0, i - 1);
            return head.to_owned();
        }
        i = i - 1;
    }
    s.to_owned()
}

/// The name of the workload that owns the pod named `pod_name`.
pub fn extract_deployment_name(pod_name: &str) -> (r: String)
    ensures
        r@ == owner_name(pod_name@),
{
    let once = strip_segment(pod_name);
    strip_segment(once.as_str())
}

} // verus!
