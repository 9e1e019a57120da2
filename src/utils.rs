use std::collections::hash_map::DefaultHasher;
use std::hash::Hasher;
use std::time::{Duration, SystemTime, UNIX_EPOCH};
use vstd::prelude::*;
use vstd::std_specs::hash::DefaultHasherAdditionalSpecFns;

verus! {

#[verifier::external_type_specification]
#[verifier::external_body]
pub struct ExSystemTime(SystemTime);

/// Relies on `SystemTime::now`: a reading of the system clock. Nothing is
/// promised of it.
#[verifier::external_body]
fn system_time_now() -> SystemTime {
    SystemTime::now()
}

/// Relies on `SystemTime::duration_since`: the time from the Unix epoch to
/// `t`, `None` when `t` lies before the epoch.
#[verifier::external_body]
fn since_unix_epoch(t: &SystemTime) -> Option<Duration> {
    t.duration_since(UNIX_EPOCH).ok()
}

/// Relies on `Duration::as_nanos`: the whole duration in nanoseconds.
pub assume_specification[ Duration::as_nanos ](d: &Duration) -> u128;

/// Byte `i` of `n`, counting from the least significant.
pub open spec fn byte_of(n: u128, i: u32) -> u8 {
    ((n >> (8 * i)) & 0xff) as u8
}

/// The sixteen bytes of `n`, least significant first.
fn u128_le_bytes(n: u128) -> (bytes: Vec<u8>)
    ensures
        bytes@.len() == 16,
        forall|i: int| 0 <= i < 16 ==> bytes@[i] == byte_of(n, i as u32),
{
    let mut bytes: Vec<u8> = Vec::new();
    let mut i: u32 = 0;
    while i < 16
        invariant
            i <= 16,
            bytes@.len() == i,
            forall|k: int| 0 <= k < i ==> bytes@[k] == byte_of(n, k as u32),
        decreases 16 - i,
    {
        bytes.push(((n >> (8 * i)) & 0xff) as u8);
        i = i + 1;
    }
    bytes
}

/// A number that varies from call to call: the hash of the clock's reading
/// in nanoseconds, cut to 32 bits. Not suited to anything secret.
pub fn gen_rand_number() -> (r: u32)
    ensures
        exists|b: Seq<u8>| r == (DefaultHasher::spec_finish(seq![b]) as u32),
{
    let now = system_time_now();
    let nanos: u128 = match since_unix_epoch(&now) {
        Some(d) => d.as_nanos(),
        None => 0,
    };
    let bytes = u128_le_bytes(nanos);
    let mut hasher = DefaultHasher::new();
    hasher.write(bytes.as_slice());
    let h = hasher.finish();
    proof {
        assert(hasher@ =~= seq![bytes@]);
    }
    h as u32
}

} // verus!
