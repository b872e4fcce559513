use vstd::prelude::*;

verus! {

/// True when `g` reads the sequence `s` by position: it accepts every index
/// inside `s` and returns the element stored there.
pub open spec fn reads_sequence<T, F: Fn(usize) -> T>(g: F, s: Seq<T>) -> bool {
    &&& forall|i: usize| #![trigger g.requires((i,))] (i as int) < s.len() ==> g.requires((i,))
    &&& forall|i: usize, v: T| #[trigger] g.ensures((i,), v) ==> v == s[i as int]
}

/// Wraps an ordered sequence as a signal: a function from an index to the
/// element at that index. An index past the end is outside its domain.
pub fn array_to_fn<T: Copy>(array: Vec<T>) -> (r: impl Fn(usize) -> T)
    ensures
        reads_sequence(r, array@),
{
    move |i: usize| -> (v: T)
        requires
            i < array.len(),
        ensures
            v == array@[i as int],
        { array[i] }
}

/// True when `r` holds, at each index below `n`, a value that `g` may return
/// for that index.
pub open spec fn samples_of<T, F: Fn(usize) -> T>(r: Seq<T>, g: F, n: nat) -> bool {
    &&& r.len() == n
    &&& forall|i: usize| (i as int) < n ==> #[trigger] g.ensures((i,), r[i as int])
}

/// Evaluates a signal at each index of `0..n`, in ascending order, and
/// collects the values.
pub fn fn_to_array<T, F: Fn(usize) -> T>(f: F, n: usize) -> (r: Vec<T>)
    requires
        forall|i: usize| i < n ==> #[trigger] f.requires((i,)),
    ensures
        samples_of(r@, f, n as nat),
{
    let mut r: Vec<T> = Vec::new();
    let mut i: usize = 0;
    while i < n
        invariant
            i <= n,
            forall|j: usize| j < n ==> #[trigger] f.requires((j,)),
            samples_of(r@, f, i as nat),
        decreases n - i,
    {
        let v = f(i);
        r.push(v);
        i = i + 1;
    }
    r
}

/// Materialising a signal that reads a sequence gives that sequence back,
/// element for element: `fn_to_array(array_to_fn(s), s.len()) == s`.
pub proof fn lemma_adapter_round_trip<T, F: Fn(usize) -> T>(s: Seq<T>, g: F, r: Seq<T>)
    requires
        s.len() <= usize::MAX,
        reads_sequence(g, s),
        samples_of(r, g, s.len()),
    ensures
        r == s,
{
    assert forall|k: int| 0 <= k < s.len() implies r[k] == s[k] by {
        let i = k as usize;
        assert(g.ensures((i,), r[i as int]));
    }
    assert(r =~= s);
}

} // verus!
