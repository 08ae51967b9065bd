//! Reading the release registry's responses. The registry publishes the
//! available major versions as a JSON array of integers under the key
//! `available_releases`, and, per version, an array of release objects whose
//! binaries carry a `checksum` string field holding a 64-digit hexadecimal
//! digest.
//!
//! Each reading is specified as a byte-level state machine folded over the
//! response body; the executable parsers are proved to compute exactly that
//! fold. A response the machine does not accept is malformed, never an empty
//! answer: an empty checksum set is itself malformed, so it can never pass
//! silently as "no checksum required".

use vstd::prelude::*;
use crate::ProvisioningError;
use crate::hex::is_hex_digit;

verus! {

/// Whitespace accepted between tokens.
pub open spec fn is_ws(b: u8) -> bool {
    b == 32 || b == 9 || b == 10 || b == 13
}

/// An ASCII decimal digit.
pub open spec fn is_digit(b: u8) -> bool {
    48 <= b && b <= 57
}

/// The quoted key `"available_releases"`, as bytes.
pub open spec fn versions_key() -> Seq<u8> {
    seq![
        34u8, 97u8, 118u8, 97u8, 105u8, 108u8, 97u8, 98u8, 108u8, 101u8, 95u8, 114u8, 101u8,
        108u8, 101u8, 97u8, 115u8, 101u8, 115u8, 34u8,
    ]
}

/// The quoted key `"checksum"`, as bytes.
pub open spec fn checksum_key() -> Seq<u8> {
    seq![34u8, 99u8, 104u8, 101u8, 99u8, 107u8, 115u8, 117u8, 109u8, 34u8]
}

/// The state of the versions reading: scanning for the key (`Seek` holds how
/// much of it has matched), then expecting `:` and `[`, then walking the
/// integer list. A version of more than eight digits is rejected. Since the
/// key's quote character occurs in the key only at its ends, falling back to
/// one matched byte when a quote breaks a partial match, and to none
/// otherwise, finds every occurrence of the key.
pub enum VersionsState {
    Seek(int),
    Colon,
    Open,
    Item(Seq<u64>),
    Val(Seq<u64>),
    Num(Seq<u64>, nat, nat),
    Sep(Seq<u64>),
    Finish(Seq<u64>),
    Bad,
}

/// One byte of the versions reading.
pub open spec fn versions_step(st: VersionsState, b: u8) -> VersionsState {
    match st {
        VersionsState::Seek(p) => if b == versions_key()[p] {
            if p + 1 == versions_key().len() {
                VersionsState::Colon
            } else {
                VersionsState::Seek(p + 1)
            }
        } else if b == 34 {
            VersionsState::Seek(1)
        } else {
            VersionsState::Seek(0)
        },
        VersionsState::Colon => if is_ws(b) {
            VersionsState::Colon
        } else if b == 58 {
            VersionsState::Open
        } else {
            VersionsState::Bad
        },
        VersionsState::Open => if is_ws(b) {
            VersionsState::Open
        } else if b == 91 {
            VersionsState::Item(seq![])
        } else {
            VersionsState::Bad
        },
        VersionsState::Item(acc) => if is_ws(b) {
            VersionsState::Item(acc)
        } else if is_digit(b) {
            VersionsState::Num(acc, (b - 48) as nat, 1)
        } else if b == 93 {
            VersionsState::Finish(acc)
        } else {
            VersionsState::Bad
        },
        VersionsState::Val(acc) => if is_ws(b) {
            VersionsState::Val(acc)
        } else if is_digit(b) {
            VersionsState::Num(acc, (b - 48) as nat, 1)
        } else {
            VersionsState::Bad
        },
        VersionsState::Num(acc, cur, n) => if is_digit(b) {
            if n >= 8 {
                VersionsState::Bad
            } else {
                VersionsState::Num(acc, (cur * 10 + (b - 48)) as nat, (n + 1) as nat)
            }
        } else if is_ws(b) {
            VersionsState::Sep(acc.push(cur as u64))
        } else if b == 44 {
            VersionsState::Val(acc.push(cur as u64))
        } else if b == 93 {
            VersionsState::Finish(acc.push(cur as u64))
        } else {
            VersionsState::Bad
        },
        VersionsState::Sep(acc) => if is_ws(b) {
            VersionsState::Sep(acc)
        } else if b == 44 {
            VersionsState::Val(acc)
        } else if b == 93 {
            VersionsState::Finish(acc)
        } else {
            VersionsState::Bad
        },
        VersionsState::Finish(acc) => VersionsState::Finish(acc),
        VersionsState::Bad => VersionsState::Bad,
    }
}

/// The versions reading folded over a byte sequence.
pub open spec fn versions_run(st: VersionsState, s: Seq<u8>) -> VersionsState
    decreases s.len(),
{
    if s.len() == 0 {
        st
    } else {
        versions_run(versions_step(st, s[0]), s.drop_first())
    }
}

/// What the versions document denotes: the integer list under
/// `available_releases`, or nothing if the document is not of that shape.
pub open spec fn parse_versions_spec(s: Seq<u8>) -> Option<Seq<u64>> {
    match versions_run(VersionsState::Seek(0), s) {
        VersionsState::Finish(acc) => Option::Some(acc),
        _ => Option::None,
    }
}

proof fn lemma_versions_run_snoc(st: VersionsState, s: Seq<u8>, b: u8)
    ensures
        versions_run(st, s.push(b)) == versions_step(versions_run(st, s), b),
    decreases s.len(),
{
    if s.len() == 0 {
        assert(s.push(b)[0] == b);
        assert(s.push(b).drop_first() =~= s);
        assert(versions_run(st, s.push(b)) == versions_run(versions_step(st, b), s));
        assert(versions_run(versions_step(st, b), s) == versions_step(st, b));
        assert(versions_run(st, s) == st);
    } else {
        assert(s.push(b)[0] == s[0]);
        assert(s.push(b).drop_first() =~= s.drop_first().push(b));
        assert(versions_run(st, s.push(b)) == versions_run(
            versions_step(st, s[0]),
            s.drop_first().push(b),
        ));
        lemma_versions_run_snoc(versions_step(st, s[0]), s.drop_first(), b);
        assert(versions_run(st, s) == versions_run(versions_step(st, s[0]), s.drop_first()));
    }
}

/// Ten to a power.
pub open spec fn pow10(n: nat) -> nat
    decreases n,
{
    if n == 0 {
        1
    } else {
        10 * pow10((n - 1) as nat)
    }
}

proof fn lemma_pow10_mono(a: nat, b: nat)
    requires
        a <= b,
    ensures
        pow10(a) <= pow10(b),
    decreases b,
{
    if a < b {
        lemma_pow10_mono(a, (b - 1) as nat);
    }
}

enum VState {
    Seek(usize),
    Colon,
    Open,
    Item(Vec<u64>),
    Val(Vec<u64>),
    Num(Vec<u64>, u64, u8),
    Sep(Vec<u64>),
    Finish(Vec<u64>),
    Bad,
}

spec fn vstate_view(st: &VState) -> VersionsState {
    match st {
        VState::Seek(p) => VersionsState::Seek(*p as int),
        VState::Colon => VersionsState::Colon,
        VState::Open => VersionsState::Open,
        VState::Item(acc) => VersionsState::Item(acc@),
        VState::Val(acc) => VersionsState::Val(acc@),
        VState::Num(acc, cur, n) => VersionsState::Num(acc@, *cur as nat, *n as nat),
        VState::Sep(acc) => VersionsState::Sep(acc@),
        VState::Finish(acc) => VersionsState::Finish(acc@),
        VState::Bad => VersionsState::Bad,
    }
}

spec fn vstate_wf(st: &VState) -> bool {
    match st {
        VState::Seek(p) => *p < 20,
        VState::Num(acc, cur, n) => 1 <= *n <= 8 && (*cur as nat) < pow10(*n as nat),
        _ => true,
    }
}

fn versions_key_vec() -> (r: Vec<u8>)
    ensures
        r@ == versions_key(),
{
    let mut r: Vec<u8> = Vec::new();
    r.push(34);
    r.push(97);
    r.push(118);
    r.push(97);
    r.push(105);
    r.push(108);
    r.push(97);
    r.push(98);
    r.push(108);
    r.push(101);
    r.push(95);
    r.push(114);
    r.push(101);
    r.push(108);
    r.push(101);
    r.push(97);
    r.push(115);
    r.push(101);
    r.push(115);
    r.push(34);
    proof {
        assert(r@ =~= versions_key());
    }
    r
}

fn versions_step_x(st: VState, b: u8, key: &Vec<u8>) -> (r: VState)
    requires
        vstate_wf(&st),
        key@ == versions_key(),
    ensures
        vstate_view(&r) == versions_step(vstate_view(&st), b),
        vstate_wf(&r),
{
    match st {
        VState::Seek(p) => {
            if b == key[p] {
                if p + 1 == key.len() {
                    VState::Colon
                } else {
                    VState::Seek(p + 1)
                }
            } else if b == 34 {
                VState::Seek(1)
            } else {
                VState::Seek(0)
            }
        },
        VState::Colon => {
            if b == 32 || b == 9 || b == 10 || b == 13 {
                VState::Colon
            } else if b == 58 {
                VState::Open
            } else {
                VState::Bad
            }
        },
        VState::Open => {
            if b == 32 || b == 9 || b == 10 || b == 13 {
                VState::Open
            } else if b == 91 {
                let acc: Vec<u64> = Vec::new();
                proof {
                    assert(acc@ =~= Seq::<u64>::empty());
                }
                VState::Item(acc)
            } else {
                VState::Bad
            }
        },
        VState::Item(acc) => {
            if b == 32 || b == 9 || b == 10 || b == 13 {
                VState::Item(acc)
            } else if 48 <= b && b <= 57 {
                proof {
                    reveal_with_fuel(pow10, 3);
                    assert(pow10(1) == 10);
                }
                VState::Num(acc, (b - 48) as u64, 1)
            } else if b == 93 {
                VState::Finish(acc)
            } else {
                VState::Bad
            }
        },
        VState::Val(acc) => {
            if b == 32 || b == 9 || b == 10 || b == 13 {
                VState::Val(acc)
            } else if 48 <= b && b <= 57 {
                proof {
                    reveal_with_fuel(pow10, 3);
                    assert(pow10(1) == 10);
                }
                VState::Num(acc, (b - 48) as u64, 1)
            } else {
                VState::Bad
            }
        },
        VState::Num(mut acc, cur, n) => {
            if 48 <= b && b <= 57 {
                if n >= 8 {
                    VState::Bad
                } else {
                    proof {
                        reveal_with_fuel(pow10, 9);
                        lemma_pow10_mono(n as nat, 7);
                        assert(pow10(7) == 10000000);
                        assert(cur < 10000000);
                        assert(pow10((n + 1) as nat) == 10 * pow10(n as nat));
                        assert(cur * 10 + (b - 48) < pow10((n + 1) as nat));
                    }
                    VState::Num(acc, cur * 10 + ((b - 48) as u64), n + 1)
                }
            } else if b == 32 || b == 9 || b == 10 || b == 13 {
                acc.push(cur);
                VState::Sep(acc)
            } else if b == 44 {
                acc.push(cur);
                VState::Val(acc)
            } else if b == 93 {
                acc.push(cur);
                VState::Finish(acc)
            } else {
                VState::Bad
            }
        },
        VState::Sep(acc) => {
            if b == 32 || b == 9 || b == 10 || b == 13 {
                VState::Sep(acc)
            } else if b == 44 {
                VState::Val(acc)
            } else if b == 93 {
                VState::Finish(acc)
            } else {
                VState::Bad
            }
        },
        VState::Finish(acc) => VState::Finish(acc),
        VState::Bad => VState::Bad,
    }
}

/// Reads the registry's versions document. Returns the published major
/// versions exactly when the document holds an `available_releases` integer
/// array, and `CatalogMalformed` otherwise — never an empty answer for an
/// unreadable document.
pub fn parse_versions(body: &[u8]) -> (r: Result<Vec<u64>, ProvisioningError>)
    ensures
        match r {
            Ok(vs) => parse_versions_spec(body@) == Option::Some(vs@),
            Err(e) => {
                &&& e == ProvisioningError::CatalogMalformed
                &&& parse_versions_spec(body@) == Option::None::<Seq<u64>>
            },
        },
{
    let key = versions_key_vec();
    let mut st = VState::Seek(0);
    let mut i: usize = 0;
    while i < body.len()
        invariant
            i <= body@.len(),
            key@ == versions_key(),
            vstate_wf(&st),
            vstate_view(&st) == versions_run(VersionsState::Seek(0), body@.subrange(0, i as int)),
        decreases body@.len() - i,
    {
        let b = body[i];
        proof {
            assert(body@.subrange(0, i as int).push(b) =~= body@.subrange(0, i + 1 as int));
            lemma_versions_run_snoc(VersionsState::Seek(0), body@.subrange(0, i as int), b);
        }
        st = versions_step_x(st, b, &key);
        i += 1;
    }
    proof {
        assert(body@.subrange(0, body@.len() as int) =~= body@);
    }
    match st {
        VState::Finish(acc) => Ok(acc),
        _ => Err(ProvisioningError::CatalogMalformed),
    }
}

/// What the catalog publishes for one version: the digests of its binaries,
/// in the order the document lists them. Platform selection is out of
/// scope: matching any published digest is sufficient.
pub struct ReleaseInfo {
    pub version: u64,
    pub checksums: Vec<Vec<u8>>,
}

/// The state of the checksums reading: a leading `[` (the expected
/// array-of-release-objects shape), then every occurrence of the key
/// `"checksum"` followed by `:` and a quoted 64-digit hexadecimal value.
/// A key whose value is not such a digest makes the document malformed, as
/// does a document with no checksum at all. The quote character occurs in
/// the key only at its ends, so the same fallback rule as for the versions
/// key finds every occurrence.
pub enum ChecksumsState {
    Lead,
    Seek(int, Seq<Seq<u8>>),
    Colon(Seq<Seq<u8>>),
    Quote(Seq<Seq<u8>>),
    Value(Seq<Seq<u8>>, Seq<u8>),
    Bad,
}

/// One byte of the checksums reading.
pub open spec fn checksums_step(st: ChecksumsState, b: u8) -> ChecksumsState {
    match st {
        ChecksumsState::Lead => if is_ws(b) {
            ChecksumsState::Lead
        } else if b == 91 {
            ChecksumsState::Seek(0, seq![])
        } else {
            ChecksumsState::Bad
        },
        ChecksumsState::Seek(p, acc) => if b == checksum_key()[p] {
            if p + 1 == checksum_key().len() {
                ChecksumsState::Colon(acc)
            } else {
                ChecksumsState::Seek(p + 1, acc)
            }
        } else if b == 34 {
            ChecksumsState::Seek(1, acc)
        } else {
            ChecksumsState::Seek(0, acc)
        },
        ChecksumsState::Colon(acc) => if is_ws(b) {
            ChecksumsState::Colon(acc)
        } else if b == 58 {
            ChecksumsState::Quote(acc)
        } else {
            ChecksumsState::Bad
        },
        ChecksumsState::Quote(acc) => if is_ws(b) {
            ChecksumsState::Quote(acc)
        } else if b == 34 {
            ChecksumsState::Value(acc, seq![])
        } else {
            ChecksumsState::Bad
        },
        ChecksumsState::Value(acc, cur) => if b == 34 {
            if cur.len() == 64 {
                ChecksumsState::Seek(0, acc.push(cur))
            } else {
                ChecksumsState::Bad
            }
        } else if is_hex_digit(b) {
            ChecksumsState::Value(acc, cur.push(b))
        } else {
            ChecksumsState::Bad
        },
        ChecksumsState::Bad => ChecksumsState::Bad,
    }
}

/// The checksums reading folded over a byte sequence.
pub open spec fn checksums_run(st: ChecksumsState, s: Seq<u8>) -> ChecksumsState
    decreases s.len(),
{
    if s.len() == 0 {
        st
    } else {
        checksums_run(checksums_step(st, s[0]), s.drop_first())
    }
}

/// What the per-version release document denotes: the published digests, or
/// nothing if the document is not of the expected shape or holds none.
pub open spec fn parse_checksums_spec(s: Seq<u8>) -> Option<Seq<Seq<u8>>> {
    match checksums_run(ChecksumsState::Lead, s) {
        ChecksumsState::Seek(p, acc) => if acc.len() > 0 {
            Option::Some(acc)
        } else {
            Option::None
        },
        _ => Option::None,
    }
}

proof fn lemma_checksums_run_snoc(st: ChecksumsState, s: Seq<u8>, b: u8)
    ensures
        checksums_run(st, s.push(b)) == checksums_step(checksums_run(st, s), b),
    decreases s.len(),
{
    if s.len() == 0 {
        assert(s.push(b)[0] == b);
        assert(s.push(b).drop_first() =~= s);
        assert(checksums_run(st, s.push(b)) == checksums_run(checksums_step(st, b), s));
        assert(checksums_run(checksums_step(st, b), s) == checksums_step(st, b));
        assert(checksums_run(st, s) == st);
    } else {
        assert(s.push(b)[0] == s[0]);
        assert(s.push(b).drop_first() =~= s.drop_first().push(b));
        assert(checksums_run(st, s.push(b)) == checksums_run(
            checksums_step(st, s[0]),
            s.drop_first().push(b),
        ));
        lemma_checksums_run_snoc(checksums_step(st, s[0]), s.drop_first(), b);
        assert(checksums_run(st, s) == checksums_run(checksums_step(st, s[0]), s.drop_first()));
    }
}

enum CState {
    Lead,
    Seek(usize, Vec<Vec<u8>>),
    Colon(Vec<Vec<u8>>),
    Quote(Vec<Vec<u8>>),
    Value(Vec<Vec<u8>>, Vec<u8>),
    Bad,
}

spec fn cstate_view(st: &CState) -> ChecksumsState {
    match st {
        CState::Lead => ChecksumsState::Lead,
        CState::Seek(p, acc) => ChecksumsState::Seek(*p as int, acc.deep_view()),
        CState::Colon(acc) => ChecksumsState::Colon(acc.deep_view()),
        CState::Quote(acc) => ChecksumsState::Quote(acc.deep_view()),
        CState::Value(acc, cur) => ChecksumsState::Value(acc.deep_view(), cur@),
        CState::Bad => ChecksumsState::Bad,
    }
}

spec fn cstate_wf(st: &CState) -> bool {
    match st {
        CState::Seek(p, acc) => *p < 10,
        _ => true,
    }
}

fn checksum_key_vec() -> (r: Vec<u8>)
    ensures
        r@ == checksum_key(),
{
    let mut r: Vec<u8> = Vec::new();
    r.push(34);
    r.push(99);
    r.push(104);
    r.push(101);
    r.push(99);
    r.push(107);
    r.push(115);
    r.push(117);
    r.push(109);
    r.push(34);
    proof {
        assert(r@ =~= checksum_key());
    }
    r
}

fn checksums_step_x(st: CState, b: u8, key: &Vec<u8>) -> (r: CState)
    requires
        cstate_wf(&st),
        key@ == checksum_key(),
    ensures
        cstate_view(&r) == checksums_step(cstate_view(&st), b),
        cstate_wf(&r),
{
    match st {
        CState::Lead => {
            if b == 32 || b == 9 || b == 10 || b == 13 {
                CState::Lead
            } else if b == 91 {
                let acc: Vec<Vec<u8>> = Vec::new();
                proof {
                    assert(acc.deep_view() =~= Seq::<Seq<u8>>::empty());
                }
                CState::Seek(0, acc)
            } else {
                CState::Bad
            }
        },
        CState::Seek(p, acc) => {
            if b == key[p] {
                if p + 1 == key.len() {
                    CState::Colon(acc)
                } else {
                    CState::Seek(p + 1, acc)
                }
            } else if b == 34 {
                CState::Seek(1, acc)
            } else {
                CState::Seek(0, acc)
            }
        },
        CState::Colon(acc) => {
            if b == 32 || b == 9 || b == 10 || b == 13 {
                CState::Colon(acc)
            } else if b == 58 {
                CState::Quote(acc)
            } else {
                CState::Bad
            }
        },
        CState::Quote(acc) => {
            if b == 32 || b == 9 || b == 10 || b == 13 {
                CState::Quote(acc)
            } else if b == 34 {
                let cur: Vec<u8> = Vec::new();
                proof {
                    assert(cur@ =~= Seq::<u8>::empty());
                }
                CState::Value(acc, cur)
            } else {
                CState::Bad
            }
        },
        CState::Value(mut acc, mut cur) => {
            if b == 34 {
                if cur.len() == 64 {
                    let ghost before = acc.deep_view();
                    let ghost pushed = cur@;
                    acc.push(cur);
                    proof {
                        assert(acc@[before.len() as int].deep_view() =~= pushed);
                        assert(acc.deep_view() =~= before.push(pushed));
                    }
                    CState::Seek(0, acc)
                } else {
                    CState::Bad
                }
            } else if (48 <= b && b <= 57) || (97 <= b && b <= 102) || (65 <= b && b <= 70) {
                cur.push(b);
                CState::Value(acc, cur)
            } else {
                CState::Bad
            }
        },
        CState::Bad => CState::Bad,
    }
}

/// Reads the registry's per-version release document. Returns the published
/// digests — each a 64-digit hexadecimal string — exactly when the document
/// is an array shape holding at least one well-formed `checksum` field, and
/// `CatalogMalformed` otherwise. An unreadable document is never an empty
/// set of checksums.
pub fn parse_checksums(body: &[u8]) -> (r: Result<Vec<Vec<u8>>, ProvisioningError>)
    ensures
        match r {
            Ok(cs) => {
                &&& parse_checksums_spec(body@) == Option::Some(cs.deep_view())
                &&& cs.deep_view().len() > 0
            },
            Err(e) => {
                &&& e == ProvisioningError::CatalogMalformed
                &&& parse_checksums_spec(body@) == Option::None::<Seq<Seq<u8>>>
            },
        },
{
    let key = checksum_key_vec();
    let mut st = CState::Lead;
    let mut i: usize = 0;
    while i < body.len()
        invariant
            i <= body@.len(),
            key@ == checksum_key(),
            cstate_wf(&st),
            cstate_view(&st) == checksums_run(ChecksumsState::Lead, body@.subrange(0, i as int)),
        decreases body@.len() - i,
    {
        let b = body[i];
        proof {
            assert(body@.subrange(0, i as int).push(b) =~= body@.subrange(0, i + 1 as int));
            lemma_checksums_run_snoc(ChecksumsState::Lead, body@.subrange(0, i as int), b);
        }
        st = checksums_step_x(st, b, &key);
        i += 1;
    }
    proof {
        assert(body@.subrange(0, body@.len() as int) =~= body@);
    }
    match st {
        CState::Seek(p, acc) => {
            if acc.len() > 0 {
                Ok(acc)
            } else {
                Err(ProvisioningError::CatalogMalformed)
            }
        },
        _ => Err(ProvisioningError::CatalogMalformed),
    }
}

/// Reads one version's release document into its `ReleaseInfo`: exactly the
/// published digests, or `CatalogMalformed` for a document of any other
/// shape.
pub fn release_info(version: u64, body: &[u8]) -> (r: Result<ReleaseInfo, ProvisioningError>)
    ensures
        match r {
            Ok(ri) => {
                &&& ri.version == version
                &&& parse_checksums_spec(body@) == Option::Some(ri.checksums.deep_view())
                &&& ri.checksums.deep_view().len() > 0
            },
            Err(e) => {
                &&& e == ProvisioningError::CatalogMalformed
                &&& parse_checksums_spec(body@) == Option::None::<Seq<Seq<u8>>>
            },
        },
{
    let checksums = parse_checksums(body)?;
    Ok(ReleaseInfo { version, checksums })
}

} // verus!
