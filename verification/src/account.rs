use vstd::prelude::*;
use vstd::string::*;
use vstd::utf8::*;

verus! {

/// How one account name stands to another in the order of a roster.
#[derive(Clone, Copy, Debug, PartialEq, Eq, Structural)]
pub enum AccountOrder {
    Before,
    Same,
    After,
}

/// `k` is the first place where the byte strings differ, and `a` is the
/// smaller one there: it ends at `k`, or its byte at `k` is the smaller.
pub open spec fn parts_at(a: Seq<u8>, b: Seq<u8>, k: int) -> bool {
    &&& 0 <= k <= a.len()
    &&& k <= b.len()
    &&& forall|i: int| 0 <= i < k ==> a[i] == b[i]
    &&& (k == a.len() && k < b.len()) || (k < a.len() && k < b.len() && a[k] < b[k])
}

/// Byte strings in dictionary order.
pub open spec fn bytes_before(a: Seq<u8>, b: Seq<u8>) -> bool {
    exists|k: int| parts_at(a, b, k)
}

/// Account names are ordered as their UTF-8 bytes are, which is the order of
/// strings in the standard library.
pub open spec fn account_before(a: Seq<char>, b: Seq<char>) -> bool {
    bytes_before(encode_utf8(a), encode_utf8(b))
}

/// No byte string comes before itself, and none of two comes before the other
/// both ways.
pub proof fn lemma_bytes_before_asymmetric(a: Seq<u8>, b: Seq<u8>)
    requires
        bytes_before(a, b),
    ensures
        a != b,
        !bytes_before(b, a),
{
    let k = choose|k: int| parts_at(a, b, k);
    if bytes_before(b, a) {
        let m = choose|m: int| parts_at(b, a, m);
        if k < m {
            assert(b[k] == a[k]);
        } else if m < k {
            assert(a[m] == b[m]);
        }
    }
}

/// The order of byte strings is transitive.
pub proof fn lemma_bytes_before_transitive(a: Seq<u8>, b: Seq<u8>, c: Seq<u8>)
    requires
        bytes_before(a, b),
        bytes_before(b, c),
    ensures
        bytes_before(a, c),
{
    let k = choose|k: int| parts_at(a, b, k);
    let m = choose|m: int| parts_at(b, c, m);
    let n = if k <= m {
        k
    } else {
        m
    };
    assert forall|i: int| 0 <= i < n implies a[i] == c[i] by {
        assert(a[i] == b[i]);
        assert(b[i] == c[i]);
    }
    if k < m {
        assert(b[k] == c[k]);
    } else if m < k {
        assert(a[m] == b[m]);
    }
    assert(parts_at(a, c, n));
}

/// The order of account names is strict and transitive.
pub proof fn lemma_account_order(a: Seq<char>, b: Seq<char>, c: Seq<char>)
    ensures
        account_before(a, b) ==> a != b && !account_before(b, a),
        account_before(a, b) && account_before(b, c) ==> account_before(a, c),
{
    if account_before(a, b) {
        lemma_bytes_before_asymmetric(encode_utf8(a), encode_utf8(b));
        if account_before(b, c) {
            lemma_bytes_before_transitive(encode_utf8(a), encode_utf8(b), encode_utf8(c));
        }
    }
}

/// Compares two account names. Exactly one of the three answers is right for
/// any two names.
pub fn compare_accounts(a: &String, b: &String) -> (order: AccountOrder)
    ensures
        order == AccountOrder::Before <==> account_before(a@, b@),
        order == AccountOrder::Same <==> a@ == b@,
        order == AccountOrder::After <==> account_before(b@, a@),
{
    let x = a.as_str().as_bytes();
    let y = b.as_str().as_bytes();
    proof {
        lemma_account_order(a@, b@, a@);
        lemma_account_order(b@, a@, b@);
    }
    let mut i: usize = 0;
    while i < x.len() && i < y.len()
        invariant
            i <= x@.len(),
            i <= y@.len(),
            x@ == encode_utf8(a@),
            y@ == encode_utf8(b@),
            forall|j: int| 0 <= j < i ==> x@[j] == y@[j],
        decreases x@.len() - i,
    {
        if x[i] < y[i] {
            proof {
                assert(parts_at(x@, y@, i as int));
            }
            return AccountOrder::Before;
        }
        if x[i] > y[i] {
            proof {
                assert(parts_at(y@, x@, i as int));
            }
            return AccountOrder::After;
        }
        i += 1;
    }
    if x.len() < y.len() {
        proof {
            assert(parts_at(x@, y@, i as int));
        }
        AccountOrder::Before
    } else if x.len() > y.len() {
        proof {
            assert(parts_at(y@, x@, i as int));
        }
        AccountOrder::After
    } else {
        proof {
            assert(x@ =~= y@);
            encode_utf8_decode_utf8(a@);
            encode_utf8_decode_utf8(b@);
        }
        AccountOrder::Same
    }
}

} // verus!
