//! The release registry's endpoints: the fixed versions endpoint, and the
//! per-version download and release-details locations, built
//! deterministically from the version number.

use vstd::prelude::*;
use crate::naming::dec_digits;

verus! {

/// The bytes of `https://api.adoptium.net/v3/info/available_releases`.
pub open spec fn versions_endpoint_spec() -> Seq<u8> {
    seq![104u8, 116u8, 116u8, 112u8, 115u8, 58u8, 47u8, 47u8, 97u8, 112u8, 105u8, 46u8, 97u8, 100u8, 111u8, 112u8, 116u8, 105u8, 117u8, 109u8, 46u8, 110u8, 101u8, 116u8, 47u8, 118u8, 51u8, 47u8, 105u8, 110u8, 102u8, 111u8, 47u8, 97u8, 118u8, 97u8, 105u8, 108u8, 97u8, 98u8, 108u8, 101u8, 95u8, 114u8, 101u8, 108u8, 101u8, 97u8, 115u8, 101u8, 115u8]
}

/// The bytes of `https://api.adoptium.net/v3/binary/latest/`.
pub open spec fn binary_prefix() -> Seq<u8> {
    seq![104u8, 116u8, 116u8, 112u8, 115u8, 58u8, 47u8, 47u8, 97u8, 112u8, 105u8, 46u8, 97u8, 100u8, 111u8, 112u8, 116u8, 105u8, 117u8, 109u8, 46u8, 110u8, 101u8, 116u8, 47u8, 118u8, 51u8, 47u8, 98u8, 105u8, 110u8, 97u8, 114u8, 121u8, 47u8, 108u8, 97u8, 116u8, 101u8, 115u8, 116u8, 47u8]
}

/// The bytes of `/ga/linux/x64/jdk/hotspot/normal/eclipse`.
pub open spec fn binary_suffix() -> Seq<u8> {
    seq![47u8, 103u8, 97u8, 47u8, 108u8, 105u8, 110u8, 117u8, 120u8, 47u8, 120u8, 54u8, 52u8, 47u8, 106u8, 100u8, 107u8, 47u8, 104u8, 111u8, 116u8, 115u8, 112u8, 111u8, 116u8, 47u8, 110u8, 111u8, 114u8, 109u8, 97u8, 108u8, 47u8, 101u8, 99u8, 108u8, 105u8, 112u8, 115u8, 101u8]
}

/// The bytes of `https://api.adoptium.net/v3/assets/latest/`.
pub open spec fn assets_prefix() -> Seq<u8> {
    seq![104u8, 116u8, 116u8, 112u8, 115u8, 58u8, 47u8, 47u8, 97u8, 112u8, 105u8, 46u8, 97u8, 100u8, 111u8, 112u8, 116u8, 105u8, 117u8, 109u8, 46u8, 110u8, 101u8, 116u8, 47u8, 118u8, 51u8, 47u8, 97u8, 115u8, 115u8, 101u8, 116u8, 115u8, 47u8, 108u8, 97u8, 116u8, 101u8, 115u8, 116u8, 47u8]
}

/// The bytes of `/hotspot`.
pub open spec fn assets_suffix() -> Seq<u8> {
    seq![47u8, 104u8, 111u8, 116u8, 115u8, 112u8, 111u8, 116u8]
}

/// The download location of a version's binary artifact.
pub open spec fn download_url_spec(version: u64) -> Seq<u8> {
    binary_prefix() + dec_digits(version as nat) + binary_suffix()
}

/// The location of a version's release details, checksums included.
pub open spec fn assets_url_spec(version: u64) -> Seq<u8> {
    assets_prefix() + dec_digits(version as nat) + assets_suffix()
}

/// The endpoint listing the available major versions.
pub fn versions_endpoint() -> (r: Vec<u8>)
    ensures
        r@ == versions_endpoint_spec(),
{
    let mut r: Vec<u8> = Vec::new();
    r.push(104);
    r.push(116);
    r.push(116);
    r.push(112);
    r.push(115);
    r.push(58);
    r.push(47);
    r.push(47);
    r.push(97);
    r.push(112);
    r.push(105);
    r.push(46);
    r.push(97);
    r.push(100);
    r.push(111);
    r.push(112);
    r.push(116);
    r.push(105);
    r.push(117);
    r.push(109);
    r.push(46);
    r.push(110);
    r.push(101);
    r.push(116);
    r.push(47);
    r.push(118);
    r.push(51);
    r.push(47);
    r.push(105);
    r.push(110);
    r.push(102);
    r.push(111);
    r.push(47);
    r.push(97);
    r.push(118);
    r.push(97);
    r.push(105);
    r.push(108);
    r.push(97);
    r.push(98);
    r.push(108);
    r.push(101);
    r.push(95);
    r.push(114);
    r.push(101);
    r.push(108);
    r.push(101);
    r.push(97);
    r.push(115);
    r.push(101);
    r.push(115);
    proof {
        assert(r@ =~= versions_endpoint_spec());
    }
    r
}

/// The download location of a version's binary artifact.
pub fn download_url(version: u64) -> (r: Vec<u8>)
    ensures
        r@ == download_url_spec(version),
{
    let mut r: Vec<u8> = Vec::new();
    r.push(104);
    r.push(116);
    r.push(116);
    r.push(112);
    r.push(115);
    r.push(58);
    r.push(47);
    r.push(47);
    r.push(97);
    r.push(112);
    r.push(105);
    r.push(46);
    r.push(97);
    r.push(100);
    r.push(111);
    r.push(112);
    r.push(116);
    r.push(105);
    r.push(117);
    r.push(109);
    r.push(46);
    r.push(110);
    r.push(101);
    r.push(116);
    r.push(47);
    r.push(118);
    r.push(51);
    r.push(47);
    r.push(98);
    r.push(105);
    r.push(110);
    r.push(97);
    r.push(114);
    r.push(121);
    r.push(47);
    r.push(108);
    r.push(97);
    r.push(116);
    r.push(101);
    r.push(115);
    r.push(116);
    r.push(47);
    proof {
        assert(r@ =~= binary_prefix());
    }
    crate::naming::push_decimal(version, &mut r);
    r.push(47);
    r.push(103);
    r.push(97);
    r.push(47);
    r.push(108);
    r.push(105);
    r.push(110);
    r.push(117);
    r.push(120);
    r.push(47);
    r.push(120);
    r.push(54);
    r.push(52);
    r.push(47);
    r.push(106);
    r.push(100);
    r.push(107);
    r.push(47);
    r.push(104);
    r.push(111);
    r.push(116);
    r.push(115);
    r.push(112);
    r.push(111);
    r.push(116);
    r.push(47);
    r.push(110);
    r.push(111);
    r.push(114);
    r.push(109);
    r.push(97);
    r.push(108);
    r.push(47);
    r.push(101);
    r.push(99);
    r.push(108);
    r.push(105);
    r.push(112);
    r.push(115);
    r.push(101);
    proof {
        assert(r@ =~= download_url_spec(version));
    }
    r
}

/// The location of a version's release details.
pub fn assets_url(version: u64) -> (r: Vec<u8>)
    ensures
        r@ == assets_url_spec(version),
{
    let mut r: Vec<u8> = Vec::new();
    r.push(104);
    r.push(116);
    r.push(116);
    r.push(112);
    r.push(115);
    r.push(58);
    r.push(47);
    r.push(47);
    r.push(97);
    r.push(112);
    r.push(105);
    r.push(46);
    r.push(97);
    r.push(100);
    r.push(111);
    r.push(112);
    r.push(116);
    r.push(105);
    r.push(117);
    r.push(109);
    r.push(46);
    r.push(110);
    r.push(101);
    r.push(116);
    r.push(47);
    r.push(118);
    r.push(51);
    r.push(47);
    r.push(97);
    r.push(115);
    r.push(115);
    r.push(101);
    r.push(116);
    r.push(115);
    r.push(47);
    r.push(108);
    r.push(97);
    r.push(116);
    r.push(101);
    r.push(115);
    r.push(116);
    r.push(47);
    proof {
        assert(r@ =~= assets_prefix());
    }
    crate::naming::push_decimal(version, &mut r);
    r.push(47);
    r.push(104);
    r.push(111);
    r.push(116);
    r.push(115);
    r.push(112);
    r.push(111);
    r.push(116);
    proof {
        assert(r@ =~= assets_url_spec(version));
    }
    r
}

} // verus!
