//! Deterministic artifact names. A committed artifact for version `v` lives
//! under `jdk-<v>.tar.gz`; a staged download carries a run identifier in its
//! name so that concurrent attempts never collide on the same staging file.

use vstd::prelude::*;

verus! {

/// The decimal rendering of a number, as ASCII digit bytes, no leading
/// zeroes (a single `0` for zero).
pub open spec fn dec_digits(v: nat) -> Seq<u8>
    decreases v,
{
    if v < 10 {
        seq![(48 + v) as u8]
    } else {
        dec_digits(v / 10).push((48 + v % 10) as u8)
    }
}

/// The numeric value a digit string denotes.
pub open spec fn digits_val(s: Seq<u8>) -> nat
    decreases s.len(),
{
    if s.len() == 0 {
        0
    } else {
        (digits_val(s.drop_last()) * 10 + (s.last() - 48)) as nat
    }
}

/// The bytes of `jdk-`.
pub open spec fn jdk_prefix() -> Seq<u8> {
    seq![106u8, 100u8, 107u8, 45u8]
}

/// The bytes of `.tar.gz`.
pub open spec fn archive_suffix() -> Seq<u8> {
    seq![46u8, 116u8, 97u8, 114u8, 46u8, 103u8, 122u8]
}

/// The bytes of `.part-`.
pub open spec fn staging_infix() -> Seq<u8> {
    seq![46u8, 112u8, 97u8, 114u8, 116u8, 45u8]
}

/// The committed cache name for a version: `jdk-<version>.tar.gz`.
pub open spec fn artifact_name_spec(version: u64) -> Seq<u8> {
    jdk_prefix() + dec_digits(version as nat) + archive_suffix()
}

/// The staging name for one acquisition run:
/// `jdk-<version>.tar.gz.part-<run>`.
pub open spec fn staging_name_spec(version: u64, run: u64) -> Seq<u8> {
    artifact_name_spec(version) + staging_infix() + dec_digits(run as nat)
}

/// Reading the decimal rendering back gives the number rendered.
pub proof fn lemma_digits_val_round(v: nat)
    ensures
        digits_val(dec_digits(v)) == v,
    decreases v,
{
    if v < 10 {
        let s = dec_digits(v);
        assert(s.len() == 1);
        assert(s.drop_last().len() == 0);
        assert(digits_val(s.drop_last()) == 0);
        assert(s.last() == (48 + v) as u8);
        assert(digits_val(s) == (0 * 10 + ((48 + v) as u8 - 48)) as nat);
    } else {
        lemma_digits_val_round(v / 10);
        let s = dec_digits(v);
        assert(s.drop_last() =~= dec_digits(v / 10));
        assert(s.last() == (48 + v % 10) as u8);
        vstd::arithmetic::div_mod::lemma_fundamental_div_mod(v as int, 10);
        assert(digits_val(s) == (v / 10) * 10 + v % 10);
    }
}

/// Decimal renderings of distinct numbers differ.
pub proof fn lemma_dec_digits_injective(a: nat, b: nat)
    requires
        dec_digits(a) == dec_digits(b),
    ensures
        a == b,
{
    lemma_digits_val_round(a);
    lemma_digits_val_round(b);
}

/// Two acquisition runs with distinct run identifiers stage under distinct
/// names, whatever the version: concurrent attempts never write the same
/// staging file.
pub proof fn lemma_staging_names_distinct(version: u64, r1: u64, r2: u64)
    requires
        r1 != r2,
    ensures
        staging_name_spec(version, r1) != staging_name_spec(version, r2),
{
    let s1 = staging_name_spec(version, r1);
    let s2 = staging_name_spec(version, r2);
    if s1 == s2 {
        let pre = artifact_name_spec(version) + staging_infix();
        assert(dec_digits(r1 as nat) =~= s1.subrange(pre.len() as int, s1.len() as int));
        assert(dec_digits(r2 as nat) =~= s2.subrange(pre.len() as int, s2.len() as int));
        lemma_dec_digits_injective(r1 as nat, r2 as nat);
    }
}

/// A staging name is never a committed artifact name: an interrupted or
/// unverified download is always distinguishable from a valid cache entry.
pub proof fn lemma_staging_is_not_artifact(v1: u64, v2: u64, run: u64)
    ensures
        staging_name_spec(v1, run) != artifact_name_spec(v2),
{
    let s = staging_name_spec(v1, run);
    let a = artifact_name_spec(v2);
    if s == a {
        assert(a.last() == 122);
        assert(s.last() == dec_digits(run as nat).last());
        lemma_dec_digits_last_is_digit(run as nat);
    }
}

proof fn lemma_dec_digits_last_is_digit(v: nat)
    ensures
        48 <= dec_digits(v).last() <= 57,
    decreases v,
{
    if v >= 10 {
        lemma_dec_digits_last_is_digit(v % 10);
    }
}

/// Appends the decimal rendering of a number.
pub fn push_decimal(v: u64, out: &mut Vec<u8>)
    ensures
        final(out)@ == old(out)@ + dec_digits(v as nat),
    decreases v,
{
    if v < 10 {
        out.push(48 + (v as u8));
        proof {
            assert(out@ =~= old(out)@ + dec_digits(v as nat));
        }
    } else {
        push_decimal(v / 10, out);
        out.push(48 + ((v % 10) as u8));
        proof {
            assert(out@ =~= old(out)@ + dec_digits(v as nat));
        }
    }
}

/// The committed cache name for a version, `jdk-<version>.tar.gz`, used both
/// for lookup and for commit so that re-runs are idempotent.
pub fn artifact_name(version: u64) -> (r: Vec<u8>)
    ensures
        r@ == artifact_name_spec(version),
{
    let mut r: Vec<u8> = Vec::new();
    r.push(106);
    r.push(100);
    r.push(107);
    r.push(45);
    proof {
        assert(r@ =~= jdk_prefix());
    }
    push_decimal(version, &mut r);
    r.push(46);
    r.push(116);
    r.push(97);
    r.push(114);
    r.push(46);
    r.push(103);
    r.push(122);
    proof {
        assert(r@ =~= artifact_name_spec(version));
    }
    r
}

/// The staging name for one acquisition run of a version.
pub fn staging_name(version: u64, run: u64) -> (r: Vec<u8>)
    ensures
        r@ == staging_name_spec(version, run),
{
    let mut r = artifact_name(version);
    r.push(46);
    r.push(112);
    r.push(97);
    r.push(114);
    r.push(116);
    r.push(45);
    proof {
        assert(r@ =~= artifact_name_spec(version) + staging_infix());
    }
    push_decimal(run, &mut r);
    proof {
        assert(r@ =~= staging_name_spec(version, run));
    }
    r
}

} // verus!
