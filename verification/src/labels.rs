//! Label discovery for control-transfer targets.
//!
//! A label table holds exactly the addresses that some jump, branch or
//! call in the program targets, in ascending order. Symbolic names are
//! assigned by position in that order, so the table fixes the names.

use vstd::prelude::*;
use crate::isa::Instruction;

verus! {

/// The control-transfer target of an instruction, if it has one.
pub open spec fn target_of(ins: Instruction) -> Option<u16> {
    match ins {
        Instruction::Jmp(a) => Some(a),
        Instruction::Brh(_, a) => Some(a),
        Instruction::Cal(a) => Some(a),
        _ => None,
    }
}

/// Whether some instruction of `p` transfers control to address `a`.
pub open spec fn is_target(p: Seq<Instruction>, a: u16) -> bool {
    exists|i: int| 0 <= i < p.len() && target_of(#[trigger] p[i]) == Some(a)
}

/// Strictly ascending order.
pub open spec fn sorted_strict(l: Seq<u16>) -> bool {
    forall|i: int, j: int| 0 <= i < j < l.len() ==> l[i] < l[j]
}

/// A label table for `p`: strictly ascending, holding an address if and
/// only if some control transfer of `p` targets it. Ascending order and
/// the iff make the table unique, so each target appears exactly once
/// and unreferenced addresses do not appear.
pub open spec fn is_label_table(l: Seq<u16>, p: Seq<Instruction>) -> bool {
    &&& sorted_strict(l)
    &&& forall|a: u16| l.contains(a) <==> is_target(p, a)
}

/// Inserts `a` into a strictly ascending vector, keeping it strictly
/// ascending; a no-op when `a` is already present.
fn insert_sorted(v: &mut Vec<u16>, a: u16)
    requires
        sorted_strict(old(v)@),
    ensures
        sorted_strict(final(v)@),
        forall|x: u16| final(v)@.contains(x) <==> (old(v)@.contains(x) || x == a),
{
    let mut i: usize = 0;
    while i < v.len() && v[i] < a
        invariant
            sorted_strict(v@),
            i <= v@.len(),
            forall|k: int| 0 <= k < i ==> v@[k] < a,
        decreases v@.len() - i,
    {
        i += 1;
    }
    if i < v.len() && v[i] == a {
        proof {
            assert(v@.contains(a));
        }
        return ;
    }
    proof {
        if i < v@.len() {
            assert(v@[i as int] > a);
        }
    }
    let ghost oldv = v@;
    v.insert(i, a);
    proof {
        let s = v@;
        assert(s =~= oldv.subrange(0, i as int).push(a) + oldv.subrange(
            i as int,
            oldv.len() as int,
        ));
        assert forall|k: int| 0 <= k < s.len() implies (if k < i {
            s[k] == oldv[k]
        } else if k == i {
            s[k] == a
        } else {
            s[k] == oldv[k - 1]
        }) by {}
        assert forall|x: u16| s.contains(x) implies (oldv.contains(x) || x == a) by {
            let k = choose|k: int| 0 <= k < s.len() && s[k] == x;
            if k < i {
                assert(oldv[k] == x);
            } else if k > i {
                assert(oldv[k - 1] == x);
            }
        }
        assert forall|x: u16| oldv.contains(x) implies s.contains(x) by {
            let k = choose|k: int| 0 <= k < oldv.len() && oldv[k] == x;
            if k < i {
                assert(s[k] == x);
            } else {
                assert(s[k + 1] == x);
            }
        }
        assert(s.contains(a)) by {
            assert(s[i as int] == a);
        }
    }
}

/// Collects the target address of every jump, branch and call of the
/// program into an ascending table: the program's label table.
pub fn find_labels(instructions: &[Instruction]) -> (r: Vec<u16>)
    ensures
        is_label_table(r@, instructions@),
{
    let mut labels: Vec<u16> = Vec::new();
    let mut n: usize = 0;
    while n < instructions.len()
        invariant
            n <= instructions@.len(),
            sorted_strict(labels@),
            forall|a: u16|
                labels@.contains(a) <==> is_target(instructions@.subrange(0, n as int), a),
        decreases instructions@.len() - n,
    {
        let ghost prefix = instructions@.subrange(0, n as int);
        let ghost next = instructions@.subrange(0, n + 1);
        proof {
            assert(next.drop_last() =~= prefix);
            assert(next.last() == instructions@[n as int]);
            assert forall|a: u16| is_target(prefix, a) implies is_target(next, a) by {
                let i = choose|i: int| 0 <= i < prefix.len() && target_of(prefix[i]) == Some(a);
                assert(target_of(next[i]) == Some(a));
            }
            assert forall|a: u16|
                is_target(next, a) && target_of(instructions@[n as int]) != Some(
                    a,
                ) implies is_target(prefix, a) by {
                let i = choose|i: int| 0 <= i < next.len() && target_of(next[i]) == Some(a);
                assert(i < next.len() - 1);
                assert(target_of(prefix[i]) == Some(a));
            }
        }
        match instructions[n] {
            Instruction::Jmp(addr) => {
                insert_sorted(&mut labels, addr);
                proof {
                    assert(target_of(next[n as int]) == Some(addr));
                }
            },
            Instruction::Brh(_, addr) => {
                insert_sorted(&mut labels, addr);
                proof {
                    assert(target_of(next[n as int]) == Some(addr));
                }
            },
            Instruction::Cal(addr) => {
                insert_sorted(&mut labels, addr);
                proof {
                    assert(target_of(next[n as int]) == Some(addr));
                }
            },
            _ => {
                proof {
                    assert(target_of(instructions@[n as int]) is None);
                }
            },
        }
        n += 1;
    }
    proof {
        assert(instructions@.subrange(0, instructions@.len() as int) =~= instructions@);
    }
    labels
}

/// A label table holds no address twice: each control-transfer target
/// appears exactly once.
pub proof fn lemma_label_table_no_duplicates(l: Seq<u16>, p: Seq<Instruction>)
    requires
        is_label_table(l, p),
    ensures
        forall|i: int, j: int| 0 <= i < j < l.len() ==> l[i] != l[j],
{
}

/// Two strictly ascending sequences with the same members are the same
/// sequence.
pub proof fn lemma_sorted_same_membership_equal(l1: Seq<u16>, l2: Seq<u16>)
    requires
        sorted_strict(l1),
        sorted_strict(l2),
        forall|a: u16| l1.contains(a) <==> l2.contains(a),
    ensures
        l1 == l2,
    decreases l1.len(),
{
    if l1.len() == 0 {
        if l2.len() > 0 {
            assert(l2.contains(l2[0]));
            assert(false);
        }
        assert(l1 =~= l2);
    } else {
        assert(l1.contains(l1[0]));
        if l2.len() == 0 {
            assert(false);
        }
        let i = choose|i: int| 0 <= i < l2.len() && l2[i] == l1[0];
        assert(l2[0] <= l1[0]);
        assert(l2.contains(l2[0]));
        let j = choose|j: int| 0 <= j < l1.len() && l1[j] == l2[0];
        assert(l1[0] <= l2[0]);
        assert(l1[0] == l2[0]);
        let t1 = l1.drop_first();
        let t2 = l2.drop_first();
        assert forall|a: u16| t1.contains(a) implies t2.contains(a) by {
            lemma_tail_membership(l1, a);
            lemma_membership_tail(l2, a);
        }
        assert forall|a: u16| t2.contains(a) implies t1.contains(a) by {
            lemma_tail_membership(l2, a);
            lemma_membership_tail(l1, a);
        }
        lemma_sorted_same_membership_equal(t1, t2);
        assert(l1 =~= l2) by {
            assert forall|k: int| 0 <= k < l1.len() implies l1[k] == l2[k] by {
                if k > 0 {
                    assert(l1[k] == t1[k - 1]);
                    assert(l2[k] == t2[k - 1]);
                }
            }
        }
    }
}

/// In a strictly ascending sequence, a member of the tail is a member of
/// the whole that exceeds the head.
proof fn lemma_tail_membership(l: Seq<u16>, a: u16)
    requires
        sorted_strict(l),
        l.len() > 0,
        l.drop_first().contains(a),
    ensures
        l.contains(a),
        a > l[0],
{
    let t = l.drop_first();
    let k = choose|k: int| 0 <= k < t.len() && t[k] == a;
    assert(l[k + 1] == a);
}

/// In a strictly ascending sequence, a member that exceeds the head is a
/// member of the tail.
proof fn lemma_membership_tail(l: Seq<u16>, a: u16)
    requires
        sorted_strict(l),
        l.len() > 0,
        l.contains(a),
        a > l[0],
    ensures
        l.drop_first().contains(a),
{
    let k = choose|k: int| 0 <= k < l.len() && l[k] == a;
    assert(k > 0);
    assert(l.drop_first()[k - 1] == a);
}

/// Label discovery is deterministic: any two programs whose sets of
/// control-transfer targets agree have the same label table — the same
/// addresses, in the same order, and so the same generated names. In
/// particular, discovering labels twice on one program yields identical
/// tables.
pub proof fn lemma_label_determinism(
    p1: Seq<Instruction>,
    p2: Seq<Instruction>,
    l1: Seq<u16>,
    l2: Seq<u16>,
)
    requires
        is_label_table(l1, p1),
        is_label_table(l2, p2),
        forall|a: u16| is_target(p1, a) <==> is_target(p2, a),
    ensures
        l1 == l2,
{
    lemma_sorted_same_membership_equal(l1, l2);
}

} // verus!
