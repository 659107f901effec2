//! Time stamps, authentication tokens and the lock state of the device.

use crate::bytes::{
    be_bytes_u32, be_bytes_u64, i32_as_u32, i64_as_u64, le_bytes_u64, push_be_u32, push_be_u64,
    push_le_u64, u32_from_i32, u64_from_i64,
};
use crate::device::Platform;
use crate::error::Error;
use crate::ta::info::LockState;
use crate::ta::KeyMintTa;
use crate::wire::keymint::ErrorCode;
use crate::wire::types::{
    HardwareAuthToken, HardwareAuthTokenView, TimeStampToken, TimeStampTokenView, Timestamp,
};
use crate::crypto::MonotonicClock;
use vstd::prelude::*;

verus! {

/// The label that starts the MAC input of every time stamp token: the
/// text `Auth Verification`.
pub open spec fn time_stamp_mac_label() -> Seq<u8> {
    seq![
        0x41u8, 0x75, 0x74, 0x68, 0x20, 0x56, 0x65, 0x72, 0x69, 0x66, 0x69, 0x63, 0x61, 0x74, 0x69,
        0x6f, 0x6e,
    ]
}

/// The bytes over which the MAC of a time stamp token is computed: the
/// label, the challenge and the time in big-endian order, and the number 1
/// in four bytes.
pub open spec fn timestamp_token_mac_input_of(token: TimeStampTokenView) -> Seq<u8> {
    time_stamp_mac_label() + be_bytes_u64(u64_from_i64(token.challenge)) + be_bytes_u64(
        u64_from_i64(token.timestamp.milliseconds),
    ) + be_bytes_u32(1)
}

/// The time stamp token for a challenge at a time, before it is
/// authenticated.
pub open spec fn unsigned_token(challenge: i64, milliseconds: i64) -> TimeStampTokenView {
    TimeStampTokenView {
        challenge,
        timestamp: Timestamp { milliseconds },
        mac: Seq::empty(),
    }
}

/// Builds the bytes over which the MAC of a time stamp token is computed.
pub fn timestamp_token_mac_input(token: &TimeStampToken) -> (r: Result<Vec<u8>, Error>)
    ensures
        r matches Ok(bytes) && bytes@ == timestamp_token_mac_input_of(token@),
{
    let label: [u8; 17] = [
        0x41, 0x75, 0x74, 0x68, 0x20, 0x56, 0x65, 0x72, 0x69, 0x66, 0x69, 0x63, 0x61, 0x74, 0x69,
        0x6f, 0x6e,
    ];
    assert(label@ =~= time_stamp_mac_label());
    let mut result: Vec<u8> = Vec::new();
    result.extend_from_slice(label.as_slice());
    push_be_u64(&mut result, i64_as_u64(token.challenge));
    push_be_u64(&mut result, i64_as_u64(token.timestamp.milliseconds));
    push_be_u32(&mut result, 1);
    Ok(result)
}

/// The bytes over which the MAC of a hardware authentication token is
/// computed on a machine of the given byte order: a zero byte for the
/// version; the challenge, the user and the authenticator, eight bytes each
/// in the byte order of the machine; the kind of authenticator in four
/// bytes and the time in eight, both in big-endian order.
pub open spec fn hardware_auth_token_mac_input_of(
    token: HardwareAuthTokenView,
    little_endian: bool,
) -> Seq<u8> {
    let native = |x: i64|
        if little_endian {
            le_bytes_u64(u64_from_i64(x))
        } else {
            be_bytes_u64(u64_from_i64(x))
        };
    seq![0u8] + native(token.challenge) + native(token.user_id) + native(token.authenticator_id)
        + be_bytes_u32(u32_from_i32(token.authenticator_type.code() as i32)) + be_bytes_u64(
        u64_from_i64(token.timestamp.milliseconds),
    )
}

/// Appends the eight bytes of `x` in the byte order given.
fn push_native_i64(out: &mut Vec<u8>, x: i64, little_endian: bool)
    ensures
        final(out)@ == old(out)@ + if little_endian {
            le_bytes_u64(u64_from_i64(x))
        } else {
            be_bytes_u64(u64_from_i64(x))
        },
{
    if little_endian {
        push_le_u64(out, i64_as_u64(x));
    } else {
        push_be_u64(out, i64_as_u64(x));
    }
}

/// Builds the bytes over which the MAC of a hardware authentication token
/// is computed, for a machine of the given byte order.
pub fn hardware_auth_token_mac_input_for(token: &HardwareAuthToken, little_endian: bool) -> (r:
    Vec<u8>)
    ensures
        r@ == hardware_auth_token_mac_input_of(token@, little_endian),
{
    let mut result: Vec<u8> = Vec::new();
    result.push(0u8);
    assert(result@ =~= seq![0u8]);
    push_native_i64(&mut result, token.challenge, little_endian);
    push_native_i64(&mut result, token.user_id, little_endian);
    push_native_i64(&mut result, token.authenticator_id, little_endian);
    push_be_u32(&mut result, i32_as_u32(token.authenticator_type.to_i32()));
    push_be_u64(&mut result, i64_as_u64(token.timestamp.milliseconds));
    result
}

/// Tells the byte order of this machine with `u16::from_ne_bytes`: whether
/// the bytes 1, 0 read in native order give the number 1. The answer depends
/// on the machine, so nothing is claimed of it.
#[verifier::external_body]
fn native_order_is_little_endian() -> bool {
    u16::from_ne_bytes([1, 0]) == 1
}

/// Builds the bytes over which the MAC of a hardware authentication token
/// is computed on this machine. Three of the fields are laid out in the byte
/// order of the machine, as the protocol has it; the bytes are those of
/// [`hardware_auth_token_mac_input_of`] for one of the two byte orders.
pub fn hardware_auth_token_mac_input(token: &HardwareAuthToken) -> (r: Result<Vec<u8>, Error>)
    ensures
        r matches Ok(bytes) && (bytes@ == hardware_auth_token_mac_input_of(token@, true) || bytes@
            == hardware_auth_token_mac_input_of(token@, false)),
{
    Ok(hardware_auth_token_mac_input_for(token, native_order_is_little_endian()))
}

/// The MAC input of a token depends on nothing but the content of the token
/// and the byte order: tokens with the same content have the same input.
pub proof fn lemma_equal_tokens_equal_mac_input(
    a: HardwareAuthTokenView,
    b: HardwareAuthTokenView,
    little_endian: bool,
)
    requires
        a == b,
    ensures
        hardware_auth_token_mac_input_of(a, little_endian) == hardware_auth_token_mac_input_of(
            b,
            little_endian,
        ),
{
}

impl<P: Platform> KeyMintTa<P> {
    /// Records that the device has been locked.
    ///
    /// The time of locking comes from the clock of the secure environment
    /// where there is one. Without a clock the caller has to hand in a time
    /// stamp token whose MAC is the HMAC-SHA256 of its MAC input under the
    /// HMAC key of the device: a token with another MAC gives
    /// `InvalidArgument`, and so does the lack of a token. On failure
    /// nothing changes.
    pub fn device_locked(&mut self, password_only: bool, timestamp_token: Option<TimeStampToken>) -> (r:
        Result<(), Error>)
        ensures
            match r {
                Ok(()) => *final(self) == (KeyMintTa {
                    device_locked: final(self).device_locked,
                    ..*old(self)
                }) && match final(self).device_locked {
                    LockState::Unlocked => false,
                    LockState::LockedSince(t) => !password_only && (old(self).imp.clock is None
                        ==> timestamp_token is Some && t == timestamp_token->Some_0.timestamp),
                    LockState::PasswordLockedSince(t) => password_only && (old(self).imp.clock
                        is None ==> timestamp_token is Some && t
                        == timestamp_token->Some_0.timestamp),
                },
                Err(_) => *final(self) == *old(self),
            },
            old(self).imp.clock is Some ==> r is Ok,
            old(self).imp.clock is None ==> r == match timestamp_token {
                None => Err(Error::Hal(ErrorCode::InvalidArgument)),
                Some(token) => match old(self).device_hmac_of(
                    timestamp_token_mac_input_of(token@),
                ) {
                    Err(e) => Err(e),
                    Ok(mac) => if token@.mac == mac {
                        Ok(())
                    } else {
                        Err(Error::Hal(ErrorCode::InvalidArgument))
                    },
                },
            },
    {
        let now = match &self.imp.clock {
            Some(clock) => Timestamp { milliseconds: clock.now() },
            None => match timestamp_token {
                Some(token) => {
                    let mac_input = match timestamp_token_mac_input(&token) {
                        Err(e) => { return Err(e); },
                        Ok(m) => m,
                    };
                    match self.verify_device_hmac(mac_input.as_slice(), token.mac.as_slice()) {
                        Err(e) => { return Err(e); },
                        Ok(verified) => if !verified {
                            return Err(Error::Hal(ErrorCode::InvalidArgument));
                        },
                    }
                    token.timestamp
                },
                None => { return Err(Error::Hal(ErrorCode::InvalidArgument)); },
            },
        };
        self.device_locked = if password_only {
            LockState::PasswordLockedSince(now)
        } else {
            LockState::LockedSince(now)
        };
        Ok(())
    }

    /// Whether no time stamp token can be issued for `challenge`, with the
    /// error `e`: there is no clock, and `e` is `Unimplemented`; or, at some
    /// time of the clock, the token cannot be authenticated under the HMAC
    /// key of the device, and `e` says why.
    pub open spec fn cannot_stamp(&self, challenge: i64, e: Error) -> bool {
        if self.imp.clock is None {
            e == Error::Hal(ErrorCode::Unimplemented)
        } else {
            exists|milliseconds: i64|
                self.device_hmac_of(
                    timestamp_token_mac_input_of(#[trigger] unsigned_token(challenge, milliseconds)),
                ) == Err::<Seq<u8>, Error>(e)
        }
    }

    /// Issues a time stamp token for a challenge: the time of the clock of
    /// the secure environment, authenticated under the HMAC key of the
    /// device. Fails with `Unimplemented` where there is no clock.
    pub fn generate_timestamp(&self, challenge: i64) -> (r: Result<TimeStampToken, Error>)
        ensures
            r matches Err(e) ==> self.cannot_stamp(challenge, e),
            self.imp.clock is None ==> r == Err::<TimeStampToken, Error>(
                Error::Hal(ErrorCode::Unimplemented),
            ),
            r matches Ok(token) ==> token@.challenge == challenge && self.device_hmac_of(
                timestamp_token_mac_input_of(token@),
            ) == Ok::<Seq<u8>, Error>(token@.mac),
            self.imp.clock is Some && self.hmac_key is None ==> r == Err::<TimeStampToken, Error>(
                Error::Hal(ErrorCode::HardwareNotYetAvailable),
            ),
    {
        match &self.imp.clock {
            Some(clock) => {
                let mut ret = TimeStampToken {
                    challenge,
                    timestamp: Timestamp { milliseconds: clock.now() },
                    mac: Vec::new(),
                };
                let mac_input = match timestamp_token_mac_input(&ret) {
                    Err(e) => { return Err(e); },
                    Ok(m) => m,
                };
                assert(ret@ == unsigned_token(challenge, ret.timestamp.milliseconds));
                match self.device_hmac(mac_input.as_slice()) {
                    Err(e) => Err(e),
                    Ok(mac) => {
                        ret.mac = mac;
                        Ok(ret)
                    },
                }
            },
            None => Err(Error::Hal(ErrorCode::Unimplemented)),
        }
    }
}

} // verus!
