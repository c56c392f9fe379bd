//! Broadcast fan-out decisions: which viewer sinks survive a delivery
//! round, and the one-character payload each live sink is sent.
//!
//! The sinks themselves are network connections and live with the caller;
//! this module fixes the rule that a sink whose write failed is removed
//! permanently, and that the others are kept in order.

use vstd::prelude::*;

verus! {

/// The sinks that remain after one delivery round: exactly those whose
/// write succeeded, in their original order.
pub open spec fn surviving<T>(sinks: Seq<T>, write_ok: Seq<bool>) -> Seq<T>
    recommends
        sinks.len() == write_ok.len(),
    decreases sinks.len(),
{
    if sinks.len() == 0 {
        Seq::empty()
    } else {
        let rest = surviving(sinks.skip(1), write_ok.skip(1));
        if write_ok[0] {
            seq![sinks[0]] + rest
        } else {
            rest
        }
    }
}

/// Removes from `sinks` exactly the entries whose write failed, keeping
/// the rest in order: the per-character pruning step of the broadcast
/// fan-out, with `write_ok[i]` the outcome of writing to `sinks[i]`.
pub fn prune_failed<T>(sinks: Vec<T>, write_ok: &Vec<bool>) -> (kept: Vec<T>)
    requires
        sinks@.len() == write_ok@.len(),
    ensures
        kept@ == surviving(sinks@, write_ok@),
{
    let ghost orig = sinks@;
    let n: usize = write_ok.len();
    let mut rest = sinks;
    let mut kept: Vec<T> = Vec::new();
    let mut i: usize = 0;
    proof {
        assert(rest@ =~= orig.skip(0));
        assert(write_ok@.skip(0) =~= write_ok@);
        assert(kept@ + surviving(rest@, write_ok@.skip(0)) =~= surviving(orig, write_ok@));
    }
    while rest.len() > 0
        invariant
            n == write_ok@.len(),
            i + rest@.len() == write_ok@.len(),
            orig.len() == write_ok@.len(),
            rest@ =~= orig.skip(i as int),
            surviving(orig, write_ok@) == kept@ + surviving(rest@, write_ok@.skip(i as int)),
        decreases rest@.len(),
    {
        let s = rest.remove(0);
        proof {
            assert(rest@ =~= orig.skip(i as int).skip(1));
            assert(rest@ =~= orig.skip(i as int + 1));
            assert(write_ok@.skip(i as int).skip(1) =~= write_ok@.skip(i as int + 1));
            assert(write_ok@.skip(i as int)[0] == write_ok@[i as int]);
        }
        if write_ok[i] {
            kept.push(s);
            proof {
                assert(kept@ + surviving(rest@, write_ok@.skip(i as int + 1)) =~= kept@.drop_last()
                    + (seq![s] + surviving(rest@, write_ok@.skip(i as int + 1))));
            }
        }
        i += 1;
    }
    proof {
        assert(kept@ + surviving(rest@, write_ok@.skip(i as int)) =~= kept@);
    }
    kept
}

/// Relies on String::push: appends the given character to the end of the
/// string and changes nothing else.
#[verifier::external_body]
fn push_char(s: &mut String, c: char)
    ensures
        final(s)@ == old(s)@.push(c),
{
    s.push(c)
}

/// The payload of one broadcast frame: exactly the one character being
/// delivered, not batched and not terminated.
pub fn frame_payload(c: char) -> (s: String)
    ensures
        s@ == seq![c],
{
    let mut s = String::new();
    push_char(&mut s, c);
    proof {
        assert(s@ =~= seq![c]);
    }
    s
}

} // verus!
