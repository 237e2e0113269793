use vstd::prelude::*;

verus! {

/// The ASCII digit for a value below ten.
pub open spec fn digit_byte(d: nat) -> u8 {
    (48 + d % 10) as u8
}

/// The decimal rendering of `n`, most significant digit first, with no leading zeros.
pub open spec fn decimal(n: nat) -> Seq<u8>
    decreases n,
{
    if n < 10 {
        seq![digit_byte(n)]
    } else {
        decimal(n / 10).push(digit_byte(n % 10))
    }
}

/// The bytes of the decimal rendering of `n`.
pub fn decimal_bytes(n: u64) -> (r: Vec<u8>)
    ensures
        r@ == decimal(n as nat),
    decreases n,
{
    let d: u8 = (n % 10) as u8;
    if n < 10 {
        vec![48 + d]
    } else {
        let mut r = decimal_bytes(n / 10);
        r.push(48 + d);
        r
    }
}

/// `s` holds a zero byte, which a terminated native string cannot carry.
pub open spec fn has_nul(s: Seq<u8>) -> bool {
    exists|i: int| 0 <= i < s.len() && s[i] == 0
}

/// `p` is the position of the first zero byte of `s`.
pub open spec fn is_first_nul(s: Seq<u8>, p: int) -> bool {
    &&& 0 <= p < s.len()
    &&& s[p] == 0
    &&& forall|j: int| 0 <= j < p ==> s[j] != 0
}

/// The fixed prefix of the name of every cached statement: `__diesel_stmt_`.
pub open spec fn name_prefix() -> Seq<u8> {
    seq![95u8, 95u8, 100u8, 105u8, 101u8, 115u8, 101u8, 108u8, 95u8, 115u8, 116u8, 109u8, 116u8, 95u8]
}

/// The server-side name of the cached statement numbered `counter`.
pub open spec fn cached_name(counter: u64) -> Seq<u8> {
    name_prefix() + decimal(counter as nat)
}

/// The bytes of the server-side name of the cached statement numbered `counter`.
pub fn cached_statement_name(counter: u64) -> (r: Vec<u8>)
    ensures
        r@ == cached_name(counter),
        !has_nul(r@),
{
    let mut r: Vec<u8> = vec![95u8, 95u8, 100u8, 105u8, 101u8, 115u8, 101u8, 108u8, 95u8, 115u8, 116u8, 109u8, 116u8, 95u8];
    let mut digits = decimal_bytes(counter);
    r.append(&mut digits);
    proof {
        assert(r@ =~= cached_name(counter));
        lemma_cached_name_has_no_nul(counter);
    }
    r
}

/// Every byte of a decimal rendering is an ASCII digit.
pub proof fn lemma_decimal_digits(n: nat)
    ensures
        decimal(n).len() >= 1,
        decimal(n).len() == 1 <==> n < 10,
        forall|i: int| 0 <= i < decimal(n).len() ==> 48 <= #[trigger] decimal(n)[i] <= 57,
    decreases n,
{
    if n >= 10 {
        lemma_decimal_digits(n / 10);
    }
}

/// No cached statement name holds a zero byte.
pub proof fn lemma_cached_name_has_no_nul(counter: u64)
    ensures
        !has_nul(cached_name(counter)),
{
    lemma_decimal_digits(counter as nat);
    let s = cached_name(counter);
    assert forall|i: int| 0 <= i < s.len() implies s[i] != 0 by {
        if i >= name_prefix().len() {
            assert(s[i] == decimal(counter as nat)[i - name_prefix().len()]);
        }
    }
}

/// Distinct numbers have distinct decimal renderings.
pub proof fn lemma_decimal_injective(a: nat, b: nat)
    requires
        decimal(a) == decimal(b),
    ensures
        a == b,
    decreases a,
{
    lemma_decimal_digits(a);
    lemma_decimal_digits(b);
    let da = decimal(a);
    let db = decimal(b);
    assert(da[da.len() - 1] == digit_byte(a % 10));
    assert(db[db.len() - 1] == digit_byte(b % 10));
    assert(a % 10 == b % 10);
    if a >= 10 {
        assert(b >= 10);
        assert(decimal(a / 10) =~= da.drop_last());
        assert(decimal(b / 10) =~= db.drop_last());
        lemma_decimal_injective(a / 10, b / 10);
    }
}

/// Two cached statements prepared with different counters never share a server-side name.
pub proof fn lemma_cached_names_distinct(c1: u64, c2: u64)
    requires
        c1 != c2,
    ensures
        cached_name(c1) != cached_name(c2),
{
    if cached_name(c1) == cached_name(c2) {
        let k = name_prefix().len() as int;
        assert(decimal(c1 as nat) =~= cached_name(c1).subrange(k, cached_name(c1).len() as int));
        assert(decimal(c2 as nat) =~= cached_name(c2).subrange(k, cached_name(c2).len() as int));
        lemma_decimal_injective(c1 as nat, c2 as nat);
    }
}

} // verus!
