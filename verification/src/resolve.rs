//! Fallback resolution: given a chain of optional values and a terminal
//! default, the first present value wins. Pure and total — resolution never
//! fails.

use vstd::prelude::*;

verus! {

/// The primary value when present, else the terminal default.
pub open spec fn resolve_spec<T>(primary: Option<T>, terminal: T) -> T {
    match primary {
        Some(v) => v,
        None => terminal,
    }
}

/// The first present value of the chain, else the terminal default.
pub open spec fn first_present_spec<T>(chain: Seq<Option<T>>, terminal: T) -> T
    decreases chain.len(),
{
    if chain.len() == 0 {
        terminal
    } else {
        match chain[0] {
            Some(v) => v,
            None => first_present_spec(chain.drop_first(), terminal),
        }
    }
}

/// Resolves a single optional value against a terminal default.
pub fn resolve<T>(primary: Option<T>, terminal: T) -> (r: T)
    ensures
        r == resolve_spec(primary, terminal),
{
    match primary {
        Some(v) => v,
        None => terminal,
    }
}

/// Resolves a whole chain, left to right, against a terminal default.
#[verifier::loop_isolation(false)]
pub fn resolve_chain<T>(chain: Vec<Option<T>>, terminal: T) -> (r: T)
    ensures
        r == first_present_spec(chain@, terminal),
{
    let ghost orig: Seq<Option<T>> = chain@;
    let mut chain = chain;
    let mut i: usize = 0;
    proof {
        assert(chain@.subrange(0, chain@.len() as int) =~= chain@);
    }
    while i < chain.len()
        invariant
            i <= chain.len(),
            chain@ == orig,
            forall|j: int| 0 <= j < i ==> chain@[j] is None,
            first_present_spec(orig, terminal) == first_present_spec(
                chain@.subrange(i as int, chain@.len() as int),
                terminal,
            ),
        decreases chain.len() - i,
    {
        let ghost rest = chain@.subrange(i as int, chain@.len() as int);
        if chain[i].is_some() {
            // take the element out of the vector so it can be returned by
            // value without a `Clone` bound on `T`
            let v = chain.remove(i);
            proof {
                assert(rest[0] == orig[i as int]);
            }
            match v {
                Some(v) => {
                    proof {
                        assert(rest.len() > 0);
                        assert(first_present_spec(rest, terminal) == rest[0]->0);
                    }
                    return v;
                },
                None => {
                    proof {
                        assert(false);
                    }
                },
            }
        }
        proof {
            assert(rest[0] is None);
            assert(rest.drop_first() =~= chain@.subrange(i + 1, chain@.len() as int));
        }
        i = i + 1;
    }
    proof {
        assert(chain@.subrange(i as int, chain@.len() as int).len() == 0);
    }
    terminal
}

/// The view of a resolved optional string.
pub open spec fn resolve_str_view(primary: Option<String>, terminal: String) -> Seq<char> {
    match primary {
        Some(s) => s@,
        None => terminal@,
    }
}

/// Resolves an optional string against a terminal default, borrowing both.
pub fn resolve_string(primary: &Option<String>, terminal: &String) -> (r: String)
    ensures
        r@ == resolve_str_view(*primary, *terminal),
{
    match primary {
        Some(s) => s.clone(),
        None => terminal.clone(),
    }
}

/// Law: when every value of the chain is absent, resolution yields the
/// terminal default.
pub proof fn lemma_resolve_all_absent<T>(chain: Seq<Option<T>>, terminal: T)
    requires
        forall|i: int| 0 <= i < chain.len() ==> chain[i] is None,
    ensures
        first_present_spec(chain, terminal) == terminal,
    decreases chain.len(),
{
    if chain.len() > 0 {
        lemma_resolve_all_absent(chain.drop_first(), terminal);
    }
}

/// Law: resolution yields the first present value — if position `i` holds a
/// present value and every position before it is absent, that value is the
/// result.
pub proof fn lemma_resolve_first_present<T>(chain: Seq<Option<T>>, terminal: T, i: int)
    requires
        0 <= i < chain.len(),
        chain[i] is Some,
        forall|j: int| 0 <= j < i ==> chain[j] is None,
    ensures
        first_present_spec(chain, terminal) == chain[i]->0,
    decreases i,
{
    if i > 0 {
        lemma_resolve_first_present(chain.drop_first(), terminal, i - 1);
    }
}

} // verus!
