//! One-time passwords for confirming an e-mail address.

use crate::error::{AppError, AppResult};
use crate::text::{decimal_nat, push_decimal};
use rand::Rng;
use std::collections::hash_map::DefaultHasher;
use std::hash::{Hash, Hasher};
use vstd::prelude::*;
use vstd::std_specs::hash::DefaultHasherAdditionalSpecFns;

verus! {

/// How long a one-time password stays valid, in seconds.
pub const OTP_LIFETIME_SEC: u64 = 300;

/// What the fingerprint of a one-time password is computed from.
#[derive(Hash)]
pub struct HashData {
    pub email: String,
    pub otp: u32,
}

/// Issues and checks one-time passwords.
pub struct OTPService {}

/// Ten to the power `n`.
pub open spec fn pow10(n: nat) -> nat
    decreases n,
{
    if n == 0 {
        1
    } else {
        10 * pow10((n - 1) as nat)
    }
}

/// Whether a password sent at `sent` has expired at `now`.
pub open spec fn expired_at(now: int, sent: int) -> bool {
    now - sent > OTP_LIFETIME_SEC
}

/// Calls `gen_range` of `rand` on the thread's generator: a number drawn
/// from `low..high`. Nothing is claimed of the number but that it lies in
/// the range.
#[verifier::external_body]
fn random_in_range(low: u32, high: u32) -> (value: u32)
    requires
        low < high,
    ensures
        low <= value < high,
{
    rand::thread_rng().gen_range(low..high)
}

/// What hashing an address and a one-time password writes to a hasher.
pub uninterp spec fn hashed_fields(email: Seq<char>, otp: u32) -> Seq<Seq<u8>>;

/// The fingerprint of an address and a one-time password: the 64-bit hash
/// that std's default hasher, newly made, comes to after the two were
/// written to it.
pub open spec fn fingerprint_of(email: Seq<char>, otp: u32) -> u64 {
    DefaultHasher::spec_finish(hashed_fields(email, otp))
}

/// Calls `Hash::hash` of std on `data`, which writes the fields to
/// `hasher`, the address first. What is written depends on the two fields
/// alone, and it comes after what the hasher already holds.
#[verifier::external_body]
fn feed(data: &HashData, hasher: &mut DefaultHasher)
    ensures
        final(hasher)@ == old(hasher)@ + hashed_fields(data.email@, data.otp),
{
    data.hash(hasher);
}

/// What `get_current_timestamp` of `jsonwebtoken` returns is the system
/// clock's time in seconds since 1970. Nothing is claimed of the number.
pub assume_specification[ jsonwebtoken::get_current_timestamp ]() -> (now: u64)
;

fn power_of_ten(n: u32) -> (p: u32)
    requires
        n <= 9,
    ensures
        p == pow10(n as nat),
{
    let mut p: u32 = 1;
    let mut i: u32 = 0;
    while i < n
        invariant
            i <= n <= 9,
            p == pow10(i as nat),
            p <= 1000000000,
        decreases n - i,
    {
        proof {
            lemma_pow10_bound((i + 1) as nat);
        }
        p = p * 10;
        i = i + 1;
    }
    p
}

proof fn lemma_pow10_bound(n: nat)
    requires
        n <= 9,
    ensures
        1 <= pow10(n) <= 1000000000,
        n > 0 ==> pow10((n - 1) as nat) * 10 == pow10(n),
        n > 0 ==> 1 <= pow10((n - 1) as nat) < pow10(n),
    decreases n,
{
    reveal_with_fuel(pow10, 11);
}

impl OTPService {
    pub fn new() -> (service: Self) {
        OTPService {  }
    }

    /// A one-time password of `len` decimal digits, drawn at random; `len`
    /// must be between 1 and 9.
    pub fn generate(&self, len: u32) -> (otp: AppResult<u32>)
        ensures
            1 <= len <= 9 <==> otp is Ok,
            otp matches Ok(value) ==> pow10((len - 1) as nat) <= value < pow10(len as nat),
            len < 1 ==> (otp matches Err(AppError::Internal(description)) && description@
                == "OTP length must be greater than 0"@),
            len > 9 ==> (otp matches Err(AppError::Internal(description)) && description@
                == "OTP length must be lesser than 10"@),
    {
        if len < 1 {
            return Err(AppError::internal("OTP length must be greater than 0"));
        }
        if len > 9 {
            return Err(AppError::internal("OTP length must be lesser than 10"));
        }
        let lower = power_of_ten(len - 1);
        let upper = power_of_ten(len);
        proof {
            lemma_pow10_bound(len as nat);
        }
        Ok(random_in_range(lower, upper))
    }

    /// A fingerprint of an address and its one-time password: the 64-bit
    /// hash of the two, in decimal.
    pub fn make_otp_hash(&self, email: &str, otp: u32) -> (fingerprint: String)
        ensures
            fingerprint@ == decimal_nat(fingerprint_of(email@, otp) as nat),
    {
        let mut hasher = DefaultHasher::new();
        let data = HashData { email: email.to_owned(), otp };
        feed(&data, &mut hasher);
        proof {
            assert(hasher@ =~= hashed_fields(email@, otp));
        }
        let hash = hasher.finish();
        let mut fingerprint = String::new();
        push_decimal(&mut fingerprint, hash);
        proof {
            assert(fingerprint@ =~= decimal_nat(hash as nat));
        }
        fingerprint
    }

    /// Whether a password sent at `send_timestamp_seconds` has expired at
    /// `now`: more than five minutes have passed.
    pub fn is_otp_expired_at(&self, now: u64, send_timestamp_seconds: u64) -> (expired: bool)
        ensures
            expired == expired_at(now as int, send_timestamp_seconds as int),
    {
        now > send_timestamp_seconds && now - send_timestamp_seconds > OTP_LIFETIME_SEC
    }

    /// Whether a password sent at `send_timestamp_seconds` has expired by
    /// the system clock.
    pub fn is_otp_expired(&self, send_timestamp_seconds: u64) -> (expired: bool)
        ensures
            exists|now: u64| expired == expired_at(now as int, send_timestamp_seconds as int),
    {
        let now = jsonwebtoken::get_current_timestamp();
        self.is_otp_expired_at(now, send_timestamp_seconds)
    }
}

} // verus!
