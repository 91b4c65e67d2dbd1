//! A semi-unique identifier of the computer the agent runs on, derived by
//! hashing machine facts together with a timestamp.
//!
//! The machine facts come from the `whoami` crate and depend on the host;
//! nothing beyond their being strings can be promised of them.  The hash
//! itself is Fowler–Noll–Vo (64-bit FNV-1a) over the UTF-8 bytes of the
//! fields, fully specified here.

use vstd::arithmetic::div_mod::lemma_div_denominator;
use vstd::prelude::*;
use vstd::utf8::encode_utf8;

verus! {

/// The FNV-1a 64-bit offset basis.
pub const FNV_OFFSET: u64 = 14695981039346656037;

/// The FNV-1a 64-bit prime.
pub const FNV_PRIME: u64 = 1099511628211;

/// Absorb one byte into an FNV-1a state: exclusive-or, then multiply by
/// the prime modulo two to the sixty-fourth.
pub open spec fn fnv1a_step(h: u64, b: u8) -> u64 {
    ((((h ^ (b as u64)) as nat) * (FNV_PRIME as nat)) % 0x1_0000_0000_0000_0000) as u64
}

/// Absorb a byte sequence into an FNV-1a state, left to right.
pub open spec fn fnv1a(bytes: Seq<u8>, h: u64) -> u64
    decreases bytes.len(),
{
    if bytes.len() == 0 {
        h
    } else {
        fnv1a_step(fnv1a(bytes.drop_last(), h), bytes.last())
    }
}

/// Absorb the contents of `v` into the state `h`.
fn hash_bytes(v: &Vec<u8>, h: u64) -> (r: u64)
    ensures
        r == fnv1a(v@, h),
{
    let mut acc = h;
    let mut i: usize = 0;
    proof {
        assert(v@.subrange(0, 0) =~= Seq::<u8>::empty());
    }
    while i < v.len()
        invariant
            i <= v.len(),
            acc == fnv1a(v@.subrange(0, i as int), h),
        decreases v.len() - i,
    {
        let b = v[i];
        acc = (acc ^ (b as u64)).wrapping_mul(FNV_PRIME);
        proof {
            assert(v@.subrange(0, i + 1).drop_last() =~= v@.subrange(0, i as int));
            assert(v@.subrange(0, i + 1).last() == v@[i as int]);
        }
        i = i + 1;
    }
    proof {
        assert(v@.subrange(0, v@.len() as int) =~= v@);
    }
    acc
}

/// Absorb the UTF-8 bytes of `s`, then a separator byte, into `h`.
fn hash_str_field(s: &str, h: u64) -> (r: u64)
    ensures
        r == fnv1a_step(fnv1a(encode_utf8(s@), h), 0xff),
{
    let bytes = s.as_bytes_vec();
    let inner = hash_bytes(&bytes, h);
    (inner ^ 0xffu64).wrapping_mul(FNV_PRIME)
}

/// Byte `i` of the little-endian form of `t`.
pub open spec fn le_byte(t: u128, i: nat) -> u8
    decreases i,
{
    if i == 0 {
        (t % 256) as u8
    } else {
        le_byte(t / 256, (i - 1) as nat)
    }
}

/// The sixteen little-endian bytes of `t`.
pub open spec fn u128_le_bytes(t: u128) -> Seq<u8> {
    Seq::new(16, |i: int| le_byte(t, i as nat))
}

/// Render `t` as its sixteen little-endian bytes.
fn u128_to_le_bytes(t: u128) -> (r: Vec<u8>)
    ensures
        r@ == u128_le_bytes(t),
{
    let mut r: Vec<u8> = Vec::new();
    let mut rem = t;
    let mut i: usize = 0;
    while i < 16
        invariant
            i <= 16,
            r@.len() == i,
            forall|j: int| 0 <= j < i ==> r@[j] == le_byte(t, j as nat),
            rem == divided_down(t, i as nat),
        decreases 16 - i,
    {
        r.push((rem % 256) as u8);
        proof {
            lemma_le_byte_of_divided(t, i as nat);
            lemma_divided_step(t, i as nat);
        }
        rem = rem / 256;
        i = i + 1;
    }
    proof {
        assert(r@ =~= u128_le_bytes(t));
    }
    r
}

/// `t` divided down by 256, `i` times.
spec fn divided_down(t: u128, i: nat) -> u128
    decreases i,
{
    if i == 0 {
        t
    } else {
        divided_down(t, (i - 1) as nat) / 256
    }
}

/// The lowest byte after dividing down `i` times is byte `i`.
proof fn lemma_le_byte_of_divided(t: u128, i: nat)
    ensures
        (divided_down(t, i) % 256) as u8 == le_byte(t, i),
    decreases i,
{
    if i > 0 {
        lemma_le_byte_of_divided(t / 256, (i - 1) as nat);
        lemma_divided_of_quotient(t, (i - 1) as nat);
    }
}

/// Dividing down one more time divides the result by 256.
proof fn lemma_divided_step(t: u128, i: nat)
    ensures
        divided_down(t, i + 1) == divided_down(t, i) / 256,
{
}

/// Dividing `t / 256` down `i` times equals dividing `t` down `i + 1`
/// times.
proof fn lemma_divided_of_quotient(t: u128, i: nat)
    ensures
        divided_down(t / 256, i) == divided_down(t, i + 1),
    decreases i,
{
    assert(divided_down(t, i + 1) == divided_down(t, i) / 256);
    if i == 0 {
        assert(divided_down(t / 256, 0) == t / 256);
        assert(divided_down(t, 0) == t);
    } else {
        lemma_divided_of_quotient(t, (i - 1) as nat);
        assert(divided_down(t / 256, i) == divided_down(t / 256, (i - 1) as nat) / 256);
    }
}

/// Facts about this computer which together identify it semi-uniquely.
pub struct ComputerIdentifier {
    /// The user's preferred languages, concatenated.
    pub language: String,
    /// The machine's device name.
    pub device_name: String,
    /// The platform the agent runs on.
    pub platform: String,
    /// The operating system distribution.
    pub operating_system: String,
    /// The login name of the current user.
    pub name: String,
    /// A timestamp in milliseconds past the epoch, mixed in so that two
    /// requests from one machine can still differ.
    pub time: u128,
}

/// Mathematical model of a computer identifier.
pub struct IdentifierModel {
    pub language: Seq<char>,
    pub device_name: Seq<char>,
    pub platform: Seq<char>,
    pub operating_system: Seq<char>,
    pub name: Seq<char>,
    pub time: u128,
}

impl View for ComputerIdentifier {
    type V = IdentifierModel;

    open spec fn view(&self) -> IdentifierModel {
        IdentifierModel {
            language: self.language@,
            device_name: self.device_name@,
            platform: self.platform@,
            operating_system: self.operating_system@,
            name: self.name@,
            time: self.time,
        }
    }
}

/// The identifying hash of a computer: FNV-1a over the UTF-8 bytes of
/// each field, a separator byte after each, and the timestamp's sixteen
/// little-endian bytes last.
pub open spec fn identifier_hash(m: IdentifierModel) -> u64 {
    let h1 = fnv1a_step(fnv1a(encode_utf8(m.language), FNV_OFFSET), 0xff);
    let h2 = fnv1a_step(fnv1a(encode_utf8(m.device_name), h1), 0xff);
    let h3 = fnv1a_step(fnv1a(encode_utf8(m.platform), h2), 0xff);
    let h4 = fnv1a_step(fnv1a(encode_utf8(m.operating_system), h3), 0xff);
    let h5 = fnv1a_step(fnv1a(encode_utf8(m.name), h4), 0xff);
    fnv1a(u128_le_bytes(m.time), h5)
}

/// Relies on whoami::lang: the user's preferred languages, which depend
/// on the host environment.
#[verifier::external_body]
fn host_languages() -> (r: String) {
    #[allow(deprecated)]
    whoami::lang().collect()
}

/// Relies on whoami::devicename: the host's device name.
#[verifier::external_body]
fn host_devicename() -> (r: String) {
    whoami::devicename()
}

/// Relies on whoami::platform: the host's platform, rendered as text.
#[verifier::external_body]
fn host_platform() -> (r: String) {
    whoami::platform().to_string()
}

/// Relies on whoami::distro: the host's operating system distribution.
#[verifier::external_body]
fn host_distro() -> (r: String) {
    whoami::distro()
}

/// Relies on whoami::username: the login name of the current user.
#[verifier::external_body]
fn host_username() -> (r: String) {
    whoami::username()
}

impl ComputerIdentifier {
    /// Gather the identifying facts of this computer, stamped with the
    /// given time in milliseconds past the epoch.
    pub fn from_environment(now_millis: u128) -> (r: ComputerIdentifier)
        ensures
            r.time == now_millis,
    {
        ComputerIdentifier {
            language: host_languages(),
            device_name: host_devicename(),
            platform: host_platform(),
            operating_system: host_distro(),
            name: host_username(),
            time: now_millis,
        }
    }

    /// Generate the hash that semi-uniquely identifies this computer.
    /// When a time is supplied it replaces the stored timestamp first,
    /// for recipients that validate the request against their own clock.
    pub fn get_hash(&mut self, time: Option<u128>) -> (r: u64)
        ensures
            final(self).time == (match time {
                Some(t) => t,
                None => old(self).time,
            }),
            *final(self) == (ComputerIdentifier { time: final(self).time, ..*old(self) }),
            r == identifier_hash(final(self)@),
    {
        if let Some(new_time) = time {
            self.time = new_time;
        }
        let h1 = hash_str_field(self.language.as_str(), FNV_OFFSET);
        let h2 = hash_str_field(self.device_name.as_str(), h1);
        let h3 = hash_str_field(self.platform.as_str(), h2);
        let h4 = hash_str_field(self.operating_system.as_str(), h3);
        let h5 = hash_str_field(self.name.as_str(), h4);
        let time_bytes = u128_to_le_bytes(self.time);
        hash_bytes(&time_bytes, h5)
    }
}

} // verus!
