//! The named values that a store keeps beside its records, and the steps by which its
//! schema is brought up to date; and which journal it can be kept with.
//!
//! A number is kept as eight bytes, the most significant first. Bytes of another length
//! are no number.
use crate::outside::debug_quote;
use crate::outside;
use crate::store::StoreError;
use crate::text::same_text;
use vstd::prelude::*;

verus! {

/// The number that bytes stand for, the most significant first.
pub open spec fn be_value(bytes: Seq<u8>) -> nat
    decreases bytes.len(),
{
    if bytes.len() == 0 {
        0
    } else {
        be_value(bytes.drop_last()) * 256 + bytes.last() as nat
    }
}

/// The signed number that has the same eight bytes as an unsigned one.
pub open spec fn signed(value: nat) -> int {
    if value < 0x8000_0000_0000_0000 {
        value as int
    } else {
        value - 0x1_0000_0000_0000_0000
    }
}

/// A kept value that is a number.
pub open spec fn meta_number(value: Option<Seq<u8>>) -> Option<nat> {
    match value {
        Some(bytes) => if bytes.len() == 8 {
            Some(be_value(bytes))
        } else {
            None
        },
        None => None,
    }
}

proof fn lemma_be_value_step(bytes: Seq<u8>, k: int)
    requires
        0 <= k < bytes.len(),
    ensures
        be_value(bytes.take(k + 1)) == be_value(bytes.take(k)) * 256 + bytes[k] as nat,
{
    assert(bytes.take(k + 1).drop_last() =~= bytes.take(k));
}

/// Reads a kept value as an unsigned number.
pub fn meta_get_u64(value: &Option<Vec<u8>>) -> (r: Option<u64>)
    ensures
        match (r, meta_number(crate::text::view_bytes(*value))) {
            (Some(n), Some(m)) => n == m,
            (None, None) => true,
            _ => false,
        },
{
    match value {
        Some(bytes) => {
            if bytes.len() != 8 {
                return None;
            }
            let mut n: u64 = 0;
            let mut limit: u128 = 1;
            let mut k: usize = 0;
            assert(bytes@.take(0) =~= Seq::<u8>::empty());
            while k < 8
                invariant
                    k <= 8,
                    bytes@.len() == 8,
                    n == be_value(bytes@.take(k as int)),
                    n < limit,
                    k == 0 ==> limit == 1,
                    k == 1 ==> limit == 0x100,
                    k == 2 ==> limit == 0x1_0000,
                    k == 3 ==> limit == 0x100_0000,
                    k == 4 ==> limit == 0x1_0000_0000,
                    k == 5 ==> limit == 0x100_0000_0000,
                    k == 6 ==> limit == 0x1_0000_0000_0000,
                    k == 7 ==> limit == 0x100_0000_0000_0000,
                    k == 8 ==> limit == 0x1_0000_0000_0000_0000,
                decreases 8 - k,
            {
                proof {
                    lemma_be_value_step(bytes@, k as int);
                }
                n = n * 256 + bytes[k] as u64;
                limit = limit * 256;
                k = k + 1;
            }
            assert(bytes@.take(8) =~= bytes@);
            Some(n)
        },
        None => None,
    }
}

/// The eight bytes that keep an unsigned number.
pub fn meta_set_u64(value: u64) -> (r: Vec<u8>)
    ensures
        meta_number(Some(r@)) == Some(value as nat),
{
    let q6 = value / 256;
    let q5 = q6 / 256;
    let q4 = q5 / 256;
    let q3 = q4 / 256;
    let q2 = q3 / 256;
    let q1 = q2 / 256;
    let q0 = q1 / 256;
    assert(q0 < 256);
    let r = vec![
        q0 as u8,
        (q1 % 256) as u8,
        (q2 % 256) as u8,
        (q3 % 256) as u8,
        (q4 % 256) as u8,
        (q5 % 256) as u8,
        (q6 % 256) as u8,
        (value % 256) as u8,
    ];
    proof {
        assert(r@.take(0) =~= Seq::<u8>::empty());
        assert(r@.take(8) =~= r@);
        lemma_be_value_step(r@, 0);
        assert(be_value(r@.take(1)) == q0);
        lemma_be_value_step(r@, 1);
        assert(be_value(r@.take(2)) == q1);
        lemma_be_value_step(r@, 2);
        assert(be_value(r@.take(3)) == q2);
        lemma_be_value_step(r@, 3);
        assert(be_value(r@.take(4)) == q3);
        lemma_be_value_step(r@, 4);
        assert(be_value(r@.take(5)) == q4);
        lemma_be_value_step(r@, 5);
        assert(be_value(r@.take(6)) == q5);
        lemma_be_value_step(r@, 6);
        assert(be_value(r@.take(7)) == q6);
        lemma_be_value_step(r@, 7);
    }
    r
}

/// Reads a kept value as a signed number.
pub fn meta_get_i64(value: &Option<Vec<u8>>) -> (r: Option<i64>)
    ensures
        match (r, meta_number(crate::text::view_bytes(*value))) {
            (Some(n), Some(m)) => n == signed(m),
            (None, None) => true,
            _ => false,
        },
{
    match meta_get_u64(value) {
        Some(n) => if n < 0x8000_0000_0000_0000 {
            Some(n as i64)
        } else {
            Some((n - 0x8000_0000_0000_0000) as i64 + i64::MIN)
        },
        None => None,
    }
}

/// The eight bytes that keep a signed number.
pub fn meta_set_i64(value: i64) -> (r: Vec<u8>)
    ensures
        meta_number(Some(r@)) is Some,
        signed(meta_number(Some(r@))->0) == value,
{
    if value >= 0 {
        meta_set_u64(value as u64)
    } else {
        meta_set_u64((value - i64::MIN) as u64 + 0x8000_0000_0000_0000)
    }
}

/// The steps that a schema of a given version still lacks, in their order.
pub open spec fn lacking(version: i64, steps: Seq<i64>) -> Seq<i64> {
    steps.filter(|step: i64| version < step)
}

/// Finds the steps that a schema still lacks. Each is named by the version that it
/// leads to.
pub fn outstanding_migrations(version: i64, steps: &Vec<i64>) -> (r: Vec<i64>)
    ensures
        r@ == lacking(version, steps@),
{
    let mut r: Vec<i64> = Vec::new();
    let mut k: usize = 0;
    assert(lacking(version, steps@.take(0)) =~= Seq::<i64>::empty()) by {
        reveal(Seq::filter);
    }
    while k < steps.len()
        invariant
            k <= steps.len(),
            r@ == lacking(version, steps@.take(k as int)),
        decreases steps.len() - k,
    {
        proof {
            reveal(Seq::filter);
            assert(steps@.take(k + 1).drop_last() =~= steps@.take(k as int));
        }
        if version < steps[k] {
            r.push(steps[k]);
        }
        k = k + 1;
    }
    assert(steps@.take(steps@.len() as int) =~= steps@);
    r
}

/// The journal of a database lets what was claimed last: it is written ahead. A database
/// in memory says that it is there.
pub open spec fn is_lasting_journal(mode: Seq<char>) -> bool {
    mode == "wal"@ || mode == "memory"@
}

/// Tells whether the journal of a database lets what was claimed last.
pub fn journal_holds(mode: &str) -> (r: bool)
    ensures
        r == is_lasting_journal(mode@),
{
    same_text(mode, "wal") || same_text(mode, "memory")
}

/// Refuses a database whose journal does not let what was claimed last.
pub fn check_journal(mode: &str) -> (r: Result<(), StoreError>)
    ensures
        match r {
            Ok(()) => is_lasting_journal(mode@),
            Err(StoreError::Corrupt(why)) => !is_lasting_journal(mode@) && why@ == "journal_mode is "@
                + outside::quoted(mode@) + ", expected wal (durable claim/CAS need WAL)"@,
            Err(_) => false,
        },
{
    if journal_holds(mode) {
        return Ok(());
    }
    let shown = debug_quote(mode);
    Err(
        StoreError::Corrupt(
            "journal_mode is ".to_owned().concat(&shown).concat(
                ", expected wal (durable claim/CAS need WAL)",
            ),
        ),
    )
}

/// A number is kept in one way only: bytes of one length that stand for the same number
/// are the same.
pub proof fn numbers_are_kept_in_one_way(a: Seq<u8>, b: Seq<u8>)
    requires
        a.len() == b.len(),
        be_value(a) == be_value(b),
    ensures
        a == b,
    decreases a.len(),
{
    if a.len() > 0 {
        numbers_are_kept_in_one_way(a.drop_last(), b.drop_last());
        assert(a =~= a.drop_last().push(a.last()));
        assert(b =~= b.drop_last().push(b.last()));
    } else {
        assert(a =~= b);
    }
}

/// A schema that was brought to the last of its steps lacks nothing more: opening it
/// again changes nothing.
pub proof fn opening_again_changes_nothing(version: i64, steps: Seq<i64>)
    requires
        forall|i: int| 0 <= i < steps.len() ==> #[trigger] steps[i] <= version,
    ensures
        lacking(version, steps) == Seq::<i64>::empty(),
    decreases steps.len(),
{
    reveal(Seq::filter);
    if steps.len() > 0 {
        let rest = steps.drop_last();
        assert forall|i: int| 0 <= i < rest.len() implies #[trigger] rest[i] <= version by {
            assert(rest[i] == steps[i]);
        }
        opening_again_changes_nothing(version, rest);
        assert(steps.last() == steps[steps.len() - 1]);
    } else {
        assert(lacking(version, steps) =~= Seq::<i64>::empty());
    }
}

} // verus!
