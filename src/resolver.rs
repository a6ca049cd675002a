use vstd::prelude::*;

use crate::address::IpAddress;

verus! {

/// The first address of the preferred family (IPv4) in `s`, if any.
pub open spec fn first_ipv4(s: Seq<IpAddress>) -> Option<IpAddress>
    decreases s.len(),
{
    if s.len() == 0 {
        None
    } else if s[0] is V4 {
        Some(s[0])
    } else {
        first_ipv4(s.drop_first())
    }
}

/// The address a target string resolves to: the literal address it parsed as, if
/// it parsed; otherwise the first IPv4 address that name resolution produced, if
/// resolution succeeded and produced one; otherwise none.
pub open spec fn resolution(literal: Option<IpAddress>, looked_up: Option<Seq<IpAddress>>) -> Option<
    IpAddress,
> {
    match literal {
        Some(a) => Some(a),
        None => match looked_up {
            Some(s) => first_ipv4(s),
            None => None,
        },
    }
}

/// What name resolution gave, as a sequence of addresses.
pub open spec fn lookup_view(looked_up: &Option<Vec<IpAddress>>) -> Option<Seq<IpAddress>> {
    match looked_up {
        Some(v) => Some(v@),
        None => None,
    }
}

proof fn lemma_first_ipv4_skip(s: Seq<IpAddress>, i: int)
    requires
        0 <= i < s.len(),
        !(s[i] is V4),
    ensures
        first_ipv4(s.subrange(i, s.len() as int)) == first_ipv4(s.subrange(i + 1, s.len() as int)),
{
    let t = s.subrange(i, s.len() as int);
    assert(t.drop_first() =~= s.subrange(i + 1, s.len() as int));
}

/// Picks the first IPv4 address out of the addresses that name resolution
/// produced.
pub fn select_ipv4(addrs: &Vec<IpAddress>) -> (r: Option<IpAddress>)
    ensures
        r == first_ipv4(addrs@),
{
    let mut i: usize = 0;
    assert(addrs@.subrange(0, addrs@.len() as int) =~= addrs@);
    while i < addrs.len()
        invariant
            i <= addrs@.len(),
            first_ipv4(addrs@) == first_ipv4(addrs@.subrange(i as int, addrs@.len() as int)),
        decreases addrs@.len() - i,
    {
        if addrs[i].is_ipv4() {
            let ghost t = addrs@.subrange(i as int, addrs@.len() as int);
            assert(t[0] == addrs@[i as int]);
            return Some(addrs[i]);
        }
        proof {
            lemma_first_ipv4_skip(addrs@, i as int);
        }
        i = i + 1;
    }
    assert(addrs@.subrange(i as int, addrs@.len() as int).len() == 0);
    None
}

proof fn lemma_first_ipv4_none(s: Seq<IpAddress>)
    requires
        forall|i: int| 0 <= i < s.len() ==> !(#[trigger] s[i] is V4),
    ensures
        first_ipv4(s) is None,
    decreases s.len(),
{
    if s.len() > 0 {
        assert forall|i: int| 0 <= i < s.drop_first().len() implies !(#[trigger] s.drop_first()[i] is V4) by {
            assert(s.drop_first()[i] == s[i + 1]);
        }
        lemma_first_ipv4_none(s.drop_first());
    }
}

/// A literal address resolves to itself, whatever name resolution would have
/// given; a string that is no literal resolves to nothing when name resolution
/// fails or yields no IPv4 address.
pub proof fn lemma_resolution_determinism(
    a: IpAddress,
    looked_up: Option<Seq<IpAddress>>,
    found: Seq<IpAddress>,
)
    ensures
        resolution(Some(a), looked_up) == Some(a),
        resolution(None, None) is None,
        (forall|i: int| 0 <= i < found.len() ==> !(#[trigger] found[i] is V4)) ==> resolution(
            None,
            Some(found),
        ) is None,
{
    if forall|i: int| 0 <= i < found.len() ==> !(#[trigger] found[i] is V4) {
        lemma_first_ipv4_none(found);
    }
}

/// Resolving the same literal address twice gives the same address both times,
/// even where name resolution would answer differently each time.
pub proof fn lemma_resolution_idempotent(
    a: IpAddress,
    first: Option<Seq<IpAddress>>,
    second: Option<Seq<IpAddress>>,
)
    ensures
        resolution(Some(a), first) == resolution(Some(a), second),
        resolution(Some(a), first) == Some(a),
{
}

/// Resolves one target from what the literal parse gave and, where that failed,
/// what name resolution gave (`None` when resolution itself failed).
pub fn resolve(literal: Option<IpAddress>, looked_up: &Option<Vec<IpAddress>>) -> (r: Option<
    IpAddress,
>)
    ensures
        r == resolution(literal, lookup_view(looked_up)),
{
    match literal {
        Some(a) => Some(a),
        None => match looked_up {
            Some(v) => select_ipv4(v),
            None => None,
        },
    }
}

} // verus!
