//! The generation model: a thin adapter around a Markov chain.
//!
//! The chain itself is an opaque capability of the `markov` crate. What the
//! verifier tracks of it is the multiset of lines it was fed; what a chain
//! generates is random, and nothing is promised of it beyond being text.

use vstd::multiset::Multiset;
use vstd::prelude::*;

use crate::lines::spec_lines;
use crate::lines::split_lines;
use crate::textops::lower_of;
use crate::textops::lowercase;

verus! {

/// A generation model over words: a Markov chain of the `markov` crate,
/// held opaquely.
#[verifier::external_body]
pub struct TextChain {
    inner: markov::Chain<String>,
}

/// The lines a chain has been fed, as a multiset: feeding is deterministic
/// in the chain and the line, and the order of distinct feeds does not show
/// in the chain.
pub uninterp spec fn chain_lines(c: TextChain) -> Multiset<Seq<char>>;

/// Relies on `markov::Chain::of_order`: a fresh chain has been fed nothing.
/// An order of zero is refused by the crate.
#[verifier::external_body]
fn chain_of_order(order: usize) -> (r: TextChain)
    requires
        1 <= order,
    ensures
        chain_lines(r) == Multiset::<Seq<char>>::empty(),
{
    TextChain { inner: markov::Chain::of_order(order) }
}

/// Relies on `markov::Chain::feed_str`: feeding adds the line, and nothing
/// else, to what the chain was fed.
#[verifier::external_body]
fn chain_feed_str(chain: &mut TextChain, line: &str)
    ensures
        chain_lines(*final(chain)) == chain_lines(*old(chain)).insert(line@),
{
    chain.inner.feed_str(line);
}

/// Relies on `markov::Chain::generate_str`: the result is random text;
/// nothing more is promised. A chain that was never fed is excluded: on
/// one the crate's sampling panics.
#[verifier::external_body]
fn chain_generate(chain: &TextChain) -> (r: String)
    requires
        chain_lines(*chain) != Multiset::<Seq<char>>::empty(),
{
    chain.inner.generate_str()
}

/// Relies on `markov::Chain::generate_str_from_token`: random text starting
/// from the token, or empty where the token is unknown; which of the two
/// cannot be promised of a random result.
#[verifier::external_body]
fn chain_generate_from_token(chain: &TextChain, token: &str) -> (r: String) {
    chain.inner.generate_str_from_token(token)
}

/// Relies on `markov::Chain::is_empty`: true exactly where nothing has been
/// fed into the chain.
#[verifier::external_body]
fn chain_is_fed(chain: &TextChain) -> (r: bool)
    ensures
        r == (chain_lines(*chain) != Multiset::<Seq<char>>::empty()),
{
    !chain.inner.is_empty()
}

/// The lines a chain built from the given text has been fed: each line of
/// the text, lowercased.
pub open spec fn fed_lines(text: Seq<char>) -> Multiset<Seq<char>> {
    spec_lines(text).map_values(|l: Seq<char>| lower_of(l)).to_multiset()
}

/// Build a generation model from corpus text: an order-two chain fed every
/// line of the text, lowercased.
pub fn get_chain_from_text(text: &str) -> (r: TextChain)
    ensures
        chain_lines(r) == fed_lines(text@),
{
    broadcast use vstd::seq_lib::group_to_multiset_ensures;

    let lines = split_lines(text);
    let mut chain = chain_of_order(2);
    let ghost lowered = spec_lines(text@).map_values(|l: Seq<char>| lower_of(l));
    let mut i: usize = 0;
    proof {
        assert(lowered.take(0) =~= Seq::<Seq<char>>::empty());
        assert(lowered.take(0).to_multiset() =~= Multiset::<Seq<char>>::empty());
    }
    while i < lines.len()
        invariant
            lines@.map_values(|s: String| s@) == spec_lines(text@),
            lowered == spec_lines(text@).map_values(|l: Seq<char>| lower_of(l)),
            i <= lines@.len(),
            chain_lines(chain) == lowered.take(i as int).to_multiset(),
        decreases lines@.len() - i,
    {
        let low = lowercase(lines[i].as_str());
        chain_feed_str(&mut chain, low.as_str());
        proof {
            assert(lowered[i as int] == lower_of(lines@[i as int]@));
            assert(lowered.take(i + 1 as int) =~= lowered.take(i as int).push(
                lowered[i as int],
            ));
            vstd::seq_lib::to_multiset_build(lowered.take(i as int), lowered[i as int]);
            assert(lowered.take(i as int).push(lowered[i as int]).to_multiset()
                =~= lowered.take(i as int).to_multiset().insert(lowered[i as int]));
        }
        i = i + 1;
    }
    proof {
        assert(lowered.take(lines@.len() as int) =~= lowered);
    }
    chain
}

/// What the caller sees of a drawn string: the string itself where the
/// draw produced one, else the message naming the input, since an empty
/// draw signals that the seed had no match.
pub fn fallback_reply(generated: &str, input: &str) -> (r: String)
    ensures
        generated@.len() > 0 ==> r@ == generated@,
        generated@.len() == 0 ==> r@ == "No string found for "@ + input@,
        r@.len() > 0,
{
    if generated.unicode_len() == 0 {
        proof {
            reveal_strlit("No string found for ");
        }
        let prefix: String = "No string found for ".to_owned();
        prefix.concat(input)
    } else {
        generated.to_owned()
    }
}

/// The reply to a generation request: text drawn from the chain, seeded by
/// the lowercased input where one is given, and passed through
/// [`fallback_reply`], so the result is never empty. The draw itself is
/// random and nothing more is promised of it. An unseeded request needs a
/// chain that was fed at least one line, as the crate's unseeded sampling
/// panics on an empty chain.
pub fn generate_reply(chain: &TextChain, input: &str) -> (r: String)
    requires
        input@.len() == 0 ==> chain_lines(*chain) != Multiset::<Seq<char>>::empty(),
    ensures
        r@.len() > 0,
{
    let generated = if input.unicode_len() == 0 {
        chain_generate(chain)
    } else {
        let low = lowercase(input);
        chain_generate_from_token(chain, low.as_str())
    };
    fallback_reply(generated.as_str(), input)
}

/// The reply where one can be drawn: as [`generate_reply`], or nothing in
/// the one state the sampler cannot serve, an unseeded request against a
/// chain that was never fed.
pub fn try_generate_reply(chain: &TextChain, input: &str) -> (r: Option<String>)
    ensures
        match r {
            Some(reply) => reply@.len() > 0,
            None => input@.len() == 0 && chain_lines(*chain) == Multiset::<Seq<char>>::empty(),
        },
{
    if input.unicode_len() == 0 && !chain_is_fed(chain) {
        None
    } else {
        Some(generate_reply(chain, input))
    }
}

} // verus!
