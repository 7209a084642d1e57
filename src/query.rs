//! Extraction of the `name` parameter from a raw query string.
use vstd::prelude::*;
use vstd::string::StrSliceExecFns;

verus! {

/// Number of characters before the first `&` of `q` (all of `q` if it has none).
pub open spec fn field_len(q: Seq<char>) -> nat
    decreases q.len(),
{
    if q.len() == 0 || q[0] == '&' {
        0
    } else {
        1 + field_len(q.drop_first())
    }
}

/// The fragments of `q` between `&` separators, in order; a string without
/// `&` is a single fragment, and the empty string is one empty fragment.
pub open spec fn fragments(q: Seq<char>) -> Seq<Seq<char>>
    decreases q.len(),
{
    let n = field_len(q);
    if n >= q.len() {
        seq![q]
    } else {
        seq![q.take(n as int)] + fragments(q.skip((n + 1) as int))
    }
}

/// The five characters `name=`.
pub open spec fn name_key() -> Seq<char> {
    seq!['n', 'a', 'm', 'e', '=']
}

/// A fragment is a `name` pair when its key, the part before its first `=`,
/// is `name` and an `=` follows it.
pub open spec fn is_name_pair(f: Seq<char>) -> bool {
    f.len() >= 5 && f.take(5) == name_key()
}

/// The value of the first `name` pair among `frags`, if any.
pub open spec fn first_name_value(frags: Seq<Seq<char>>) -> Option<Seq<char>>
    decreases frags.len(),
{
    if frags.len() == 0 {
        None
    } else if is_name_pair(frags[0]) {
        Some(frags[0].skip(5))
    } else {
        first_name_value(frags.drop_first())
    }
}

/// The name used when the query carries none.
pub open spec fn default_name() -> Seq<char> {
    seq!['W', 'o', 'r', 'l', 'd']
}

/// The name a query selects: the value of its first `name` pair, else `World`.
pub open spec fn greeting_name(query: Option<Seq<char>>) -> Seq<char> {
    match query {
        None => default_name(),
        Some(q) => match first_name_value(fragments(q)) {
            Some(v) => v,
            None => default_name(),
        },
    }
}

/// The view of an optional query string.
pub open spec fn query_view(query: Option<&str>) -> Option<Seq<char>> {
    match query {
        Some(q) => Some(q@),
        None => None,
    }
}

pub proof fn lemma_field_len(q: Seq<char>, k: int)
    requires
        0 <= k <= q.len(),
        forall|i: int| 0 <= i < k ==> q[i] != '&',
        k == q.len() || q[k] == '&',
    ensures
        field_len(q) == k,
    decreases k,
{
    if k > 0 {
        let r = q.drop_first();
        assert forall|i: int| 0 <= i < k - 1 implies r[i] != '&' by {
            assert(r[i] == q[i + 1]);
        }
        lemma_field_len(r, k - 1);
    }
}

/// Returns the value of the first `name=` fragment of `q`, if there is one.
fn find_name_value(q: &str) -> (r: Option<String>)
    ensures
        match r {
            Some(v) => first_name_value(fragments(q@)) == Some(v@),
            None => first_name_value(fragments(q@)) is None,
        },
{
    let n = q.unicode_len();
    let mut start: usize = 0;
    assert(q@.skip(0) =~= q@);
    loop
        invariant
            n == q@.len(),
            start <= n,
            first_name_value(fragments(q@)) == first_name_value(fragments(q@.skip(start as int))),
        decreases n - start,
    {
        let ghost rest = q@.skip(start as int);
        let mut end: usize = start;
        while end < n && q.get_char(end) != '&'
            invariant
                n == q@.len(),
                start <= end <= n,
                forall|i: int| start <= i < end ==> q@[i] != '&',
            decreases n - end,
        {
            end = end + 1;
        }
        proof {
            assert forall|i: int| 0 <= i < end - start implies rest[i] != '&' by {
                assert(rest[i] == q@[start + i]);
            }
            if end < n {
                assert(rest[end - start] == q@[end as int]);
            }
            lemma_field_len(rest, end - start);
        }
        let ghost frag = rest.take(end - start);
        let is_pair = end - start >= 5 && q.get_char(start) == 'n' && q.get_char(start + 1) == 'a'
            && q.get_char(start + 2) == 'm' && q.get_char(start + 3) == 'e'
            && q.get_char(start + 4) == '=';
        proof {
            if end >= n {
                assert(fragments(rest) == seq![rest]);
                assert(frag =~= rest);
            } else {
                assert(fragments(rest) == seq![frag] + fragments(rest.skip(end - start + 1)));
            }
            let fr = fragments(rest);
            assert(fr[0] == frag);
            assert(fr.drop_first() =~= if end >= n { Seq::<Seq<char>>::empty() } else {
                fragments(rest.skip(end - start + 1))
            });
            if end - start >= 5 {
                assert(frag.take(5) =~= name_key() <==> is_pair) by {
                    if is_pair {
                        assert forall|i: int| 0 <= i < 5 implies frag.take(5)[i] == name_key()[i] by {
                            assert(frag.take(5)[i] == q@[start + i]);
                        }
                    }
                    if frag.take(5) =~= name_key() {
                        assert(frag.take(5)[0] == q@[start as int]);
                        assert(frag.take(5)[1] == q@[start + 1]);
                        assert(frag.take(5)[2] == q@[start + 2]);
                        assert(frag.take(5)[3] == q@[start + 3]);
                        assert(frag.take(5)[4] == q@[start + 4]);
                    }
                }
            }
        }
        if is_pair {
            let v = q.substring_char(start + 5, end);
            proof {
                assert(frag.skip(5) =~= v@);
            }
            return Some(v.to_owned());
        }
        if end >= n {
            proof {
                assert(first_name_value(fragments(rest).drop_first()) is None);
            }
            return None;
        }
        proof {
            assert(rest.skip(end - start + 1) =~= q@.skip(end + 1));
        }
        start = end + 1;
    }
}

/// The name a raw query string selects: the value of the first fragment that
/// reads `name=<value>` (the value may be empty), or `World` when the query is
/// absent or holds no such fragment. Fragments are split on `&`, and each on
/// its first `=`; nothing is decoded.
pub fn extract_name_from_query(query: Option<&str>) -> (r: String)
    ensures
        r@ == greeting_name(query_view(query)),
{
    let found = match query {
        Some(q) => find_name_value(q),
        None => None,
    };
    match found {
        Some(v) => v,
        None => {
            let d = String::from_str("World");
            proof {
                reveal_strlit("World");
            }
            assert(d@ =~= default_name());
            d
        },
    }
}

} // verus!
