//! The chat server's transport session with time-based rekeying: every
//! session draws a random rekey interval of 30 to 120 seconds, counts the
//! messages it seals and opens, and counts its key rotations.
//!
//! Times are milliseconds on a monotonic clock chosen by the caller.
use vstd::prelude::*;

use rand::Rng;

use crate::error::NoiseError;
use crate::noise::{
    after_open, after_seal, can_seal, is_snow_error_text, open, opened, opens, rekey_incoming,
    rekey_outgoing, rekeyed_in, rekeyed_out, seal, sealed, sent_one, received_one, rotated, sealed_by,
    key_opens, aes_gcm_transport, aes_gcm_open, recv_key, recv_nonce, MAX_MESSAGE_LEN, TAG_LEN,
};

verus! {

/// Shortest time between two rekeys, in seconds.
pub const MIN_REKEY_INTERVAL_SECS: u64 = 30;

/// Longest time between two rekeys, in seconds.
pub const MAX_REKEY_INTERVAL_SECS: u64 = 120;

#[verifier::external_type_specification]
#[verifier::external_body]
pub struct ExThreadRng(rand::rngs::ThreadRng);

/// Calls `rand::thread_rng`. Nothing is claimed.
#[verifier::external_body]
fn thread_rng() -> (r: rand::rngs::ThreadRng) {
    rand::thread_rng()
}

/// Calls `rand::Rng::gen_range` on `low..=high`, which panics on an empty
/// range. Trusted: the value lies in the range; which value it is depends on
/// chance.
#[verifier::external_body]
fn gen_range_inclusive(rng: &mut rand::rngs::ThreadRng, low: u64, high: u64) -> (r: u64)
    requires
        low <= high,
    ensures
        low <= r <= high,
{
    rng.gen_range(low..=high)
}

/// A random rekey interval, in seconds.
fn random_rekey_interval() -> (r: u64)
    ensures
        MIN_REKEY_INTERVAL_SECS <= r <= MAX_REKEY_INTERVAL_SECS,
{
    let mut rng = thread_rng();
    gen_range_inclusive(&mut rng, MIN_REKEY_INTERVAL_SECS, MAX_REKEY_INTERVAL_SECS)
}

/// A transport session that rotates its keys on a random schedule.
pub struct RekeyingSession {
    transport: snow::TransportState,
    message_count: u64,
    next_rekey_ms: u64,
    rekey_count: u64,
}

/// What the rekey timer does at one tick.
#[derive(Debug)]
pub enum RekeyTick {
    /// No rotation is due yet.
    NotDue,
    /// A rotation is due: send this sealed rekey command to the peer, then
    /// report the outcome with `rekey_sent`.
    Send(Vec<u8>),
    /// A rotation is due but the rekey command could not be sealed; the
    /// timer stops.
    Stop(NoiseError),
}

impl RekeyingSession {
    /// The transport state this session seals and opens with.
    pub closed spec fn transport_state(&self) -> snow::TransportState {
        self.transport
    }

    /// Messages sealed or opened so far.
    pub closed spec fn messages(&self) -> u64 {
        self.message_count
    }

    /// Key rotations performed so far.
    pub closed spec fn rekeys(&self) -> u64 {
        self.rekey_count
    }

    /// When the next rotation is due.
    pub closed spec fn next_rekey(&self) -> u64 {
        self.next_rekey_ms
    }

    /// Whether a rotation is due at time `now`.
    pub open spec fn rekey_due(&self, now: u64) -> bool {
        now >= self.next_rekey()
    }

    /// Seen from time `now`: no rotation is due for the next 30 seconds, and
    /// one is due from 120 seconds on.
    pub open spec fn scheduled_within_window(&self, now: u64) -> bool {
        &&& forall|t: u64|
            now <= t < now + MIN_REKEY_INTERVAL_SECS * 1000 ==> !(#[trigger] self.rekey_due(t))
        &&& forall|t: u64|
            t >= now + MAX_REKEY_INTERVAL_SECS * 1000 ==> #[trigger] self.rekey_due(t)
    }

    /// A session whose first rotation is due `interval_secs` after `now_ms`.
    pub fn with_interval(transport: snow::TransportState, now_ms: u64, interval_secs: u64) -> (r:
        Self)
        requires
            now_ms + interval_secs * 1000 <= u64::MAX,
        ensures
            r.messages() == 0,
            r.rekeys() == 0,
            r.next_rekey() == now_ms + interval_secs * 1000,
            r.transport_state() == transport,
    {
        RekeyingSession {
            transport,
            message_count: 0,
            next_rekey_ms: now_ms + interval_secs * 1000,
            rekey_count: 0,
        }
    }

    /// A new session at time `now_ms`, with a random first interval of 30 to
    /// 120 seconds.
    pub fn new(transport: snow::TransportState, now_ms: u64) -> (r: Self)
        requires
            now_ms + MAX_REKEY_INTERVAL_SECS * 1000 <= u64::MAX,
        ensures
            r.messages() == 0,
            r.rekeys() == 0,
            now_ms + MIN_REKEY_INTERVAL_SECS * 1000 <= r.next_rekey(),
            r.next_rekey() <= now_ms + MAX_REKEY_INTERVAL_SECS * 1000,
            r.scheduled_within_window(now_ms),
            r.transport_state() == transport,
    {
        let interval = random_rekey_interval();
        Self::with_interval(transport, now_ms, interval)
    }

    /// Encrypts one message and counts it. A plaintext whose sealed size
    /// (its length plus the 16-byte tag) fits 65535 bytes is encrypted
    /// exactly where the transport may seal; the ciphertext is the sealing
    /// of the plaintext under the current state, which then advances. A
    /// refused message is not counted and leaves the transport as it was.
    pub fn encrypt(&mut self, plaintext: &[u8]) -> (r: Result<Vec<u8>, NoiseError>)
        requires
            plaintext@.len() + TAG_LEN <= usize::MAX,
            old(self).messages() < u64::MAX,
        ensures
            r is Ok <==> (plaintext@.len() + TAG_LEN <= MAX_MESSAGE_LEN && can_seal(
                old(self).transport_state(),
            )),
            r matches Ok(c) ==> c@ == sealed(old(self).transport_state(), plaintext@) && c@.len()
                == plaintext@.len() + TAG_LEN && final(self).transport_state() == after_seal(
                old(self).transport_state(),
            ),
            r is Ok ==> sent_one(final(self).transport_state(), old(self).transport_state()),
            r matches Ok(c) ==> (aes_gcm_transport(old(self).transport_state()) ==> sealed_by(
                old(self).transport_state(),
                plaintext@,
                c@,
            )),
            r matches Err(e) ==> (e matches NoiseError::EncryptionError(m) && is_snow_error_text(m))
                && final(self).transport_state() == old(self).transport_state(),
            final(self).messages() == old(self).messages() + (if r is Ok { 1int } else { 0int }),
            final(self).rekeys() == old(self).rekeys(),
            final(self).next_rekey() == old(self).next_rekey(),
    {
        let r = seal(&mut self.transport, plaintext);
        if r.is_ok() {
            self.message_count = self.message_count + 1;
        }
        r
    }

    /// Decrypts one message and counts it. Input of 16 to 65535 bytes is
    /// decrypted exactly where the transport opens it; the plaintext is the
    /// opening of the input, the input's length less the tag, and the state
    /// advances. A refused message is not counted and leaves the transport
    /// as it was.
    pub fn decrypt(&mut self, ciphertext: &[u8]) -> (r: Result<Vec<u8>, NoiseError>)
        requires
            old(self).messages() < u64::MAX,
        ensures
            r is Ok <==> (TAG_LEN <= ciphertext@.len() <= MAX_MESSAGE_LEN && opens(
                old(self).transport_state(),
                ciphertext@,
            )),
            r matches Ok(p) ==> p@ == opened(old(self).transport_state(), ciphertext@) && p@.len()
                + TAG_LEN == ciphertext@.len() && final(self).transport_state() == after_open(
                old(self).transport_state(),
            ),
            r is Ok ==> received_one(final(self).transport_state(), old(self).transport_state()),
            aes_gcm_transport(old(self).transport_state()) ==> (r is Ok <==> key_opens(
                old(self).transport_state(),
                ciphertext@,
            )),
            r matches Ok(p) ==> (aes_gcm_transport(old(self).transport_state()) ==> aes_gcm_open(
                recv_key(old(self).transport_state()),
                recv_nonce(old(self).transport_state()),
                ciphertext@,
            ) == Some(p@)),
            r matches Err(e) ==> (e matches NoiseError::DecryptionError(m) && is_snow_error_text(m))
                && final(self).transport_state() == old(self).transport_state(),
            final(self).messages() == old(self).messages() + (if r is Ok { 1int } else { 0int }),
            final(self).rekeys() == old(self).rekeys(),
            final(self).next_rekey() == old(self).next_rekey(),
    {
        let r = open(&mut self.transport, ciphertext);
        if r.is_ok() {
            self.message_count = self.message_count + 1;
        }
        r
    }

    /// Rotates both directions' keys at `now_ms` and schedules the next
    /// rotation `interval_secs` later.
    pub fn rekey_with_interval(&mut self, now_ms: u64, interval_secs: u64)
        requires
            old(self).rekeys() < u64::MAX,
            now_ms + interval_secs * 1000 <= u64::MAX,
        ensures
            final(self).rekeys() == old(self).rekeys() + 1,
            final(self).messages() == old(self).messages(),
            final(self).next_rekey() == now_ms + interval_secs * 1000,
            final(self).transport_state() == rekeyed_in(rekeyed_out(old(self).transport_state())),
            rotated(final(self).transport_state(), old(self).transport_state()),
    {
        self.rekey_count = self.rekey_count + 1;
        rekey_outgoing(&mut self.transport);
        rekey_incoming(&mut self.transport);
        self.next_rekey_ms = now_ms + interval_secs * 1000;
    }

    /// Rotates both directions' keys at `now_ms` and schedules the next
    /// rotation after a fresh random interval of 30 to 120 seconds: no
    /// rotation is due again before 30 seconds have passed, and one is due
    /// once 120 seconds have.
    pub fn perform_rekey(&mut self, now_ms: u64)
        requires
            old(self).rekeys() < u64::MAX,
            now_ms + MAX_REKEY_INTERVAL_SECS * 1000 <= u64::MAX,
        ensures
            final(self).rekeys() == old(self).rekeys() + 1,
            final(self).messages() == old(self).messages(),
            now_ms + MIN_REKEY_INTERVAL_SECS * 1000 <= final(self).next_rekey(),
            final(self).next_rekey() <= now_ms + MAX_REKEY_INTERVAL_SECS * 1000,
            final(self).scheduled_within_window(now_ms),
            final(self).transport_state() == rekeyed_in(rekeyed_out(old(self).transport_state())),
            rotated(final(self).transport_state(), old(self).transport_state()),
    {
        let interval = random_rekey_interval();
        self.rekey_with_interval(now_ms, interval);
    }

    /// One tick of the rekey timer at `now_ms`. Where no rotation is due the
    /// session is untouched. Where one is due, the rekey command is sealed
    /// under the current (old) keys, counted like any sealed message, and
    /// handed back to be sent; the keys are not yet rotated, which the
    /// caller does with `perform_rekey` once the command is sent. A command
    /// that cannot be sealed stops the timer and leaves the session as it
    /// was.
    pub fn rekey_tick(&mut self, now_ms: u64, command: &[u8]) -> (r: RekeyTick)
        requires
            command@.len() + TAG_LEN <= usize::MAX,
            old(self).messages() < u64::MAX,
        ensures
            r is NotDue <==> !old(self).rekey_due(now_ms),
            r is NotDue ==> *final(self) == *old(self),
            r is Send <==> (old(self).rekey_due(now_ms) && command@.len() + TAG_LEN
                <= MAX_MESSAGE_LEN && can_seal(old(self).transport_state())),
            r matches RekeyTick::Send(c) ==> {
                &&& c@ == sealed(old(self).transport_state(), command@)
                &&& final(self).transport_state() == after_seal(old(self).transport_state())
                &&& sent_one(final(self).transport_state(), old(self).transport_state())
                &&& final(self).messages() == old(self).messages() + 1
                &&& final(self).rekeys() == old(self).rekeys()
                &&& final(self).next_rekey() == old(self).next_rekey()
            },
            r matches RekeyTick::Stop(e) ==> {
                &&& e matches NoiseError::EncryptionError(m) && is_snow_error_text(m)
                &&& final(self).transport_state() == old(self).transport_state()
                &&& final(self).messages() == old(self).messages()
                &&& final(self).rekeys() == old(self).rekeys()
                &&& final(self).next_rekey() == old(self).next_rekey()
            },
    {
        if !self.should_rekey(now_ms) {
            return RekeyTick::NotDue;
        }
        match self.encrypt(command) {
            Ok(c) => RekeyTick::Send(c),
            Err(e) => RekeyTick::Stop(e),
        }
    }

    /// What follows the sending of a sealed rekey command at `now_ms`: where
    /// it was delivered, both directions' keys are rotated and the next
    /// rotation scheduled (as `perform_rekey`), and the timer goes on (`true`);
    /// where the send failed, the keys stay and the timer stops (`false`).
    pub fn rekey_sent(&mut self, now_ms: u64, delivered: bool) -> (r: bool)
        requires
            delivered ==> old(self).rekeys() < u64::MAX,
            delivered ==> now_ms + MAX_REKEY_INTERVAL_SECS * 1000 <= u64::MAX,
        ensures
            r == delivered,
            !delivered ==> *final(self) == *old(self),
            delivered ==> {
                &&& final(self).rekeys() == old(self).rekeys() + 1
                &&& final(self).messages() == old(self).messages()
                &&& now_ms + MIN_REKEY_INTERVAL_SECS * 1000 <= final(self).next_rekey()
                &&& final(self).next_rekey() <= now_ms + MAX_REKEY_INTERVAL_SECS * 1000
                &&& final(self).scheduled_within_window(now_ms)
                &&& final(self).transport_state() == rekeyed_in(
                    rekeyed_out(old(self).transport_state()),
                )
                &&& rotated(final(self).transport_state(), old(self).transport_state())
            },
    {
        if delivered {
            self.perform_rekey(now_ms);
        }
        delivered
    }

    /// Whether a rotation is due at `now_ms`.
    pub fn should_rekey(&self, now_ms: u64) -> (r: bool)
        ensures
            r == self.rekey_due(now_ms),
    {
        now_ms >= self.next_rekey_ms
    }

    /// Messages sealed or opened so far.
    pub fn get_message_count(&self) -> (r: u64)
        ensures
            r == self.messages(),
    {
        self.message_count
    }

    /// Key rotations performed so far.
    pub fn get_rekey_count(&self) -> (r: u64)
        ensures
            r == self.rekeys(),
    {
        self.rekey_count
    }

    /// Milliseconds until the next rotation is due, or zero if it is due.
    pub fn get_time_until_next_rekey(&self, now_ms: u64) -> (r: u64)
        ensures
            r == (if now_ms >= self.next_rekey() { 0 } else { self.next_rekey() - now_ms }),
    {
        if now_ms >= self.next_rekey_ms {
            0
        } else {
            self.next_rekey_ms - now_ms
        }
    }
}

} // verus!
