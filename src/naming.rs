//! Qualified names: `<router id>_<local name>`.
use vstd::prelude::*;

verus! {

/// Separates a router id from the local name inside a qualified name.
pub const ROUTER_SEPERATOR: char = '_';

/// `s` holds no separator.
pub open spec fn no_sep(s: Seq<char>) -> bool {
    forall|j: int| 0 <= j < s.len() ==> s[j] != ROUTER_SEPERATOR
}

/// `i` is the position of the leftmost separator in `s`.
pub open spec fn first_sep_at(s: Seq<char>, i: int) -> bool {
    &&& 0 <= i < s.len()
    &&& s[i] == ROUTER_SEPERATOR
    &&& no_sep(s.take(i))
}

/// The split of `s` at its leftmost separator: the part before it, and the
/// part after it if there is a separator at all.
pub open spec fn split_spec(s: Seq<char>) -> (Seq<char>, Option<Seq<char>>) {
    if no_sep(s) {
        (s, None)
    } else {
        let i = choose|i: int| first_sep_at(s, i);
        (s.take(i), Some(s.skip(i + 1)))
    }
}

/// The qualified name of `local` under router `router_id`.
pub open spec fn qualified(router_id: Seq<char>, local: Seq<char>) -> Seq<char> {
    router_id + seq![ROUTER_SEPERATOR] + local
}

/// The local name that a qualified name addresses: what follows the leftmost
/// separator, or the whole name where there is none.
pub open spec fn local_part(s: Seq<char>) -> Seq<char> {
    match split_spec(s).1 {
        Some(l) => l,
        None => s,
    }
}

/// The router id that a qualified name addresses.
pub open spec fn router_part(s: Seq<char>) -> Seq<char> {
    split_spec(s).0
}

/// The view of an optional string.
pub open spec fn opt_view(o: Option<String>) -> Option<Seq<char>> {
    match o {
        Some(s) => Some(s@),
        None => None,
    }
}

/// `s` with every separator left out.
pub open spec fn strip_sep(s: Seq<char>) -> Seq<char>
    decreases s.len(),
{
    if s.len() == 0 {
        s
    } else if s.last() == ROUTER_SEPERATOR {
        strip_sep(s.drop_last())
    } else {
        strip_sep(s.drop_last()).push(s.last())
    }
}

/// A leftmost separator, where one exists, is the only one of its kind.
pub proof fn lemma_first_sep_unique(s: Seq<char>, i: int, k: int)
    requires
        first_sep_at(s, i),
        first_sep_at(s, k),
    ensures
        i == k,
{
    if i < k {
        assert(s.take(k)[i] == s[i]);
    } else if k < i {
        assert(s.take(i)[k] == s[k]);
    }
}

/// The split of a string whose leftmost separator stands at `i`.
pub proof fn lemma_split_at(s: Seq<char>, i: int)
    requires
        first_sep_at(s, i),
    ensures
        split_spec(s) == (s.take(i), Some(s.skip(i + 1))),
{
    assert(!no_sep(s));
    let k = choose|k: int| first_sep_at(s, k);
    lemma_first_sep_unique(s, i, k);
}

/// Splitting a qualified name gives back the router id and the local name,
/// whenever the router id itself holds no separator.
pub proof fn lemma_split_qualified(router_id: Seq<char>, local: Seq<char>)
    requires
        no_sep(router_id),
    ensures
        split_spec(qualified(router_id, local)) == (router_id, Some(local)),
        router_part(qualified(router_id, local)) == router_id,
        local_part(qualified(router_id, local)) == local,
{
    let q = qualified(router_id, local);
    let n = router_id.len() as int;
    assert(q.take(n) =~= router_id);
    assert(q.skip(n + 1) =~= local);
    assert(q[n] == ROUTER_SEPERATOR);
    lemma_split_at(q, n);
}

/// Splits `input` at its leftmost separator. The second part is `None` when
/// `input` holds no separator, and the first part is then all of `input`.
pub fn split_at_seperator(input: String) -> (r: (String, Option<String>))
    ensures
        r.0@ == split_spec(input@).0,
        opt_view(r.1) == split_spec(input@).1,
{
    let n = input.as_str().unicode_len();
    let mut i: usize = 0;
    while i < n
        invariant
            n == input@.len(),
            0 <= i <= n,
            no_sep(input@.take(i as int)),
        decreases n - i,
    {
        let c = input.as_str().get_char(i);
        if c == ROUTER_SEPERATOR {
            let before = String::from_str(input.as_str().substring_char(0, i));
            let after = String::from_str(input.as_str().substring_char(i + 1, n));
            proof {
                lemma_split_at(input@, i as int);
                assert(input@.subrange(0, i as int) =~= input@.take(i as int));
                assert(input@.subrange(i + 1, n as int) =~= input@.skip(i + 1));
            }
            return (before, Some(after));
        }
        assert(input@.take(i + 1) =~= input@.take(i as int).push(c));
        i = i + 1;
    }
    assert(input@.take(n as int) =~= input@);
    (input, None)
}

/// The qualified name of `local` under `router_id`.
pub fn qualify(router_id: &str, local: &str) -> (r: String)
    ensures
        r@ == qualified(router_id@, local@),
{
    let mut r = String::from_str(router_id);
    r.append("_");
    proof {
        reveal_strlit("_");
        assert("_"@ =~= seq![ROUTER_SEPERATOR]);
    }
    r.append(local);
    r
}

/// Whether `s` is acceptable as a router id: it holds no separator.
pub fn is_valid_router_id(s: &str) -> (r: bool)
    ensures
        r == no_sep(s@),
{
    let n = s.unicode_len();
    let mut i: usize = 0;
    while i < n
        invariant
            n == s@.len(),
            0 <= i <= n,
            forall|j: int| 0 <= j < i ==> s@[j] != ROUTER_SEPERATOR,
        decreases n - i,
    {
        if s.get_char(i) == ROUTER_SEPERATOR {
            return false;
        }
        i = i + 1;
    }
    true
}

/// The router id given to a Wasm file: its file stem with every separator
/// left out.
pub fn router_id_from_stem(stem: &str) -> (r: String)
    ensures
        r@ == strip_sep(stem@),
        no_sep(r@),
{
    let n = stem.unicode_len();
    let mut r = String::new();
    let mut i: usize = 0;
    proof {
        assert(stem@.take(0) =~= Seq::<char>::empty());
    }
    while i < n
        invariant
            n == stem@.len(),
            0 <= i <= n,
            r@ == strip_sep(stem@.take(i as int)),
            no_sep(r@),
        decreases n - i,
    {
        let c = stem.get_char(i);
        proof {
            let t = stem@.take(i + 1);
            assert(t.drop_last() =~= stem@.take(i as int));
            assert(t.last() == c);
        }
        if c != ROUTER_SEPERATOR {
            let piece = stem.substring_char(i, i + 1);
            proof {
                assert(piece@ =~= seq![c]);
            }
            r.append(piece);
            assert(r@ =~= strip_sep(stem@.take(i as int)).push(c));
        }
        i = i + 1;
    }
    assert(stem@.take(n as int) =~= stem@);
    r
}

} // verus!
