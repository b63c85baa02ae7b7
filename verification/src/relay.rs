//! Message relay: fan-out of a received text line to every other
//! registered peer.
//!
//! The relay never delivers a line back to its sender, and it tags each
//! relayed copy with the sender's identity before fan-out. Delivery itself
//! is the transport's job; this module decides exactly who receives what.

use crate::registry::Registry;
use crate::text::{spec_dec, u64_to_dec};
use vstd::prelude::*;
use vstd::string::StringExecFns;

verus! {

/// The relayed copy of `line`: the line prefixed with the sender's
/// identity tag.
pub open spec fn spec_framed_line(sender: u64, line: Seq<char>) -> Seq<char> {
    "Client<"@ + spec_dec(sender as nat) + ">: "@ + line
}

/// Builds the relayed copy of a line, tagged with the sender's identity.
pub fn frame_line(sender: u64, line: &str) -> (r: String)
    ensures
        r@ == spec_framed_line(sender, line@),
{
    let mut s = "Client<".to_owned();
    let digits = u64_to_dec(sender);
    s.append(digits.as_str());
    s.append(">: ");
    s.append(line);
    proof {
        assert(s@ =~= spec_framed_line(sender, line@));
    }
    s
}

/// The recipients of a broadcast: every registered identity except
/// `excluding`, each exactly once, in whatever order the registry holds
/// them.
pub fn broadcast_targets<H>(reg: &Registry<H>, excluding: u64) -> (r: Vec<u64>)
    requires
        reg.wf(),
    ensures
        r@.no_duplicates(),
        forall|k: u64| r@.contains(k) <==> (reg@.dom().contains(k) && k != excluding),
{
    let ids = reg.ids();
    let n = ids.len();
    let mut r: Vec<u64> = Vec::new();
    let mut i: usize = 0;
    while i < n
        invariant
            i <= n,
            n == ids@.len(),
            ids@.no_duplicates(),
            forall|k: u64| ids@.contains(k) <==> reg@.dom().contains(k),
            r@.no_duplicates(),
            forall|k: u64| r@.contains(k) <==> (ids@.subrange(0, i as int).contains(k) && k
                != excluding),
        decreases n - i,
    {
        let id = ids[i];
        let ghost r0 = r@;
        if id != excluding {
            proof {
                if r@.contains(id) {
                    assert(ids@.subrange(0, i as int).contains(id));
                    let j = choose|j: int|
                        0 <= j < ids@.subrange(0, i as int).len() && (#[trigger] ids@.subrange(
                            0,
                            i as int,
                        )[j]) == id;
                    assert(ids@[j] == id && ids@[i as int] == id);
                }
            }
            r.push(id);
        }
        proof {
            assert(ids@.subrange(0, (i + 1) as int) =~= ids@.subrange(0, i as int).push(
                ids@[i as int],
            ));
            assert forall|k: u64|
                r@.contains(k) <==> (ids@.subrange(0, (i + 1) as int).contains(k) && k
                    != excluding) by {
                if ids@.subrange(0, (i + 1) as int).contains(k) && k != excluding {
                    let j = choose|j: int|
                        0 <= j < ids@.subrange(0, (i + 1) as int).len() && (#[trigger] ids@.subrange(
                            0,
                            (i + 1) as int,
                        )[j]) == k;
                    if j < i {
                        assert(ids@.subrange(0, i as int)[j] == k);
                        assert(ids@.subrange(0, i as int).contains(k));
                        assert(r0.contains(k));
                        let j3 = choose|j3: int| 0 <= j3 < r0.len() && r0[j3] == k;
                        assert(r@[j3] == k);
                        assert(r@.contains(k));
                    } else {
                        assert(k == id);
                        assert(r@[r@.len() - 1] == k);
                        assert(r@.contains(k));
                    }
                }
                if r@.contains(k) {
                    let j = choose|j: int| 0 <= j < r@.len() && r@[j] == k;
                    if id != excluding && j == r@.len() - 1 {
                        assert(k == id);
                        assert(ids@.subrange(0, (i + 1) as int)[i as int] == k);
                        assert(ids@.subrange(0, (i + 1) as int).contains(k));
                    } else {
                        assert(r0[j] == k);
                        assert(r0.contains(k));
                        assert(ids@.subrange(0, i as int).contains(k));
                        let j2 = choose|j2: int|
                            0 <= j2 < ids@.subrange(0, i as int).len() && (#[trigger] ids@.subrange(
                                0,
                                i as int,
                            )[j2]) == k;
                        assert(ids@.subrange(0, (i + 1) as int)[j2] == k);
                        assert(ids@.subrange(0, (i + 1) as int).contains(k));
                    }
                }
            }
        }
        i += 1;
    }
    proof {
        assert(ids@.subrange(0, n as int) =~= ids@);
    }
    r
}

/// The full relay decision for one received text line: the tagged copy to
/// send, and the identities to send it to (everyone but the sender).
pub fn relay_plan<H>(reg: &Registry<H>, sender: u64, line: &str) -> (r: (String, Vec<u64>))
    requires
        reg.wf(),
    ensures
        r.0@ == spec_framed_line(sender, line@),
        r.1@.no_duplicates(),
        forall|k: u64| r.1@.contains(k) <==> (reg@.dom().contains(k) && k != sender),
{
    (frame_line(sender, line), broadcast_targets(reg, sender))
}

} // verus!
