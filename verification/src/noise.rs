//! Noise protocol sessions (`Noise_XXpsk2_25519_AESGCM_SHA256`) built on the
//! `snow` crate: handshake set-up, the steps of the three-message handshake
//! for both roles, and an encrypted transport session.
use vstd::prelude::*;

use crate::error::NoiseError;

verus! {

/// The Noise protocol name used by every party.
pub const NOISE_PATTERN: &'static str = "Noise_XXpsk2_25519_AESGCM_SHA256";

/// Position of the pre-shared key in the handshake pattern (`psk2`).
pub const PSK_POSITION: u8 = 2;

/// Length of the AEAD tag added to every transport message.
pub const TAG_LEN: usize = 16;

/// Largest Noise message, in bytes.
pub const MAX_MESSAGE_LEN: usize = 65535;

// ---------------------------------------------------------------------------
// Outside items from `snow`.
// ---------------------------------------------------------------------------

#[verifier::external_type_specification]
#[verifier::external_body]
pub struct ExNoiseParams(snow::params::NoiseParams);

#[verifier::external_type_specification]
#[verifier::external_body]
pub struct ExBuilder<'builder>(snow::Builder<'builder>);

#[verifier::external_type_specification]
#[verifier::external_body]
pub struct ExKeypair(snow::Keypair);

#[verifier::external_type_specification]
#[verifier::external_body]
pub struct ExHandshakeState(snow::HandshakeState);

#[verifier::external_type_specification]
#[verifier::external_body]
pub struct ExTransportState(snow::TransportState);

#[verifier::external_type_specification]
#[verifier::external_body]
pub struct ExSnowError(snow::Error);

// What the `snow` values hold, as far as this library relies on it. Each
// name is a function of the value alone; `snow` computes these results
// without chance (fresh ephemeral keys are drawn only when a handshake
// message is written, and nothing is named of that message).

/// The protocol name held by parsed Noise parameters.
pub uninterp spec fn params_name(p: snow::params::NoiseParams) -> Seq<char>;

/// The protocol name a builder was made with.
pub uninterp spec fn builder_protocol(b: snow::Builder) -> Seq<char>;

/// The local static private key set on a builder, if any.
pub uninterp spec fn builder_local_key(b: snow::Builder) -> Option<Seq<u8>>;

/// The pre-shared key set on a builder at a location, if any.
pub uninterp spec fn builder_psk(b: snow::Builder, location: u8) -> Option<Seq<u8>>;

/// The private half of a key pair.
pub uninterp spec fn keypair_secret(k: snow::Keypair) -> Seq<u8>;

/// Whether a handshake state is the initiator's.
pub uninterp spec fn hs_is_initiator(h: snow::HandshakeState) -> bool;

/// The protocol name of a handshake state.
pub uninterp spec fn hs_protocol(h: snow::HandshakeState) -> Seq<char>;

/// The pre-shared key a handshake state holds at a location, if any.
pub uninterp spec fn hs_psk(h: snow::HandshakeState, location: u8) -> Option<Seq<u8>>;

/// Whether every message of the handshake pattern has been processed.
pub uninterp spec fn hs_finished(h: snow::HandshakeState) -> bool;

/// How many handshake messages the state has written or read successfully
/// (snow's pattern position).
pub uninterp spec fn hs_position(h: snow::HandshakeState) -> nat;

/// Whether writing the next handshake message, with this payload, into a
/// buffer of 65535 bytes succeeds.
pub uninterp spec fn hs_write_ok(h: snow::HandshakeState, payload: Seq<u8>) -> bool;

/// Whether reading `message`, with an output buffer of 65535 bytes, succeeds.
pub uninterp spec fn hs_read_ok(h: snow::HandshakeState, message: Seq<u8>) -> bool;

/// The handshake state after reading `message` (whether or not it succeeds).
pub uninterp spec fn hs_after_read(h: snow::HandshakeState, message: Seq<u8>) -> snow::HandshakeState;

/// The transport state a finished handshake turns into.
pub uninterp spec fn transport_of(h: snow::HandshakeState) -> snow::TransportState;

/// Whether parsed parameters choose what this library runs: the base
/// `Noise`, the XX pattern with the `psk2` modifier, Curve25519, AES-GCM and
/// SHA-256.
pub uninterp spec fn standard_params(p: snow::params::NoiseParams) -> bool;

/// Whether a builder holds standard parameters and snow's default crypto
/// resolver, and no prologue.
pub uninterp spec fn standard_builder(b: snow::Builder) -> bool;

/// Whether a handshake state runs standard parameters on the default
/// resolver's primitives, with no prologue.
pub uninterp spec fn standard_handshake(h: snow::HandshakeState) -> bool;

/// Whether both ciphers of a transport state are the default resolver's
/// AES-256-GCM.
pub uninterp spec fn aes_gcm_transport(t: snow::TransportState) -> bool;

/// The nonce of the transport state's sending cipher.
pub uninterp spec fn send_nonce(t: snow::TransportState) -> u64;

/// Whether the transport state may send at all: it is not the responder of a
/// one-way pattern, and its sending cipher holds a key.
pub uninterp spec fn may_send(t: snow::TransportState) -> bool;

/// The key bytes last set on the transport state's sending cipher.
pub uninterp spec fn send_key(t: snow::TransportState) -> Seq<u8>;

/// The nonce of the transport state's receiving cipher.
pub uninterp spec fn recv_nonce(t: snow::TransportState) -> u64;

/// Whether the transport state may receive at all: it is not the initiator
/// of a one-way pattern, and its receiving cipher holds a key.
pub uninterp spec fn may_receive(t: snow::TransportState) -> bool;

/// The key bytes last set on the transport state's receiving cipher.
pub uninterp spec fn recv_key(t: snow::TransportState) -> Seq<u8>;

/// What snow's AES-256-GCM cipher writes for `plaintext` under `key` and
/// `nonce` (the nonce's eight big-endian bytes after four zero bytes), with
/// no associated data: the ciphertext, then the 16-byte tag.
pub uninterp spec fn aes_gcm_seal(key: Seq<u8>, nonce: u64, plaintext: Seq<u8>) -> Seq<u8>;

/// What snow's AES-256-GCM cipher gives back for `message` (ciphertext, then
/// tag) under `key` and `nonce`, with no associated data: the plaintext, or
/// `None` where the tag does not verify.
pub uninterp spec fn aes_gcm_open(key: Seq<u8>, nonce: u64, message: Seq<u8>) -> Option<Seq<u8>>;

/// The length of the library's handshake message at a position, with an
/// empty payload: `e` with its tag (48 bytes), then `e, ee, s, es, psk`
/// (96), then `s, se` (64).
pub open spec fn handshake_message_len(position: nat) -> nat {
    if position == 0 {
        48
    } else if position == 1 {
        96
    } else {
        64
    }
}

/// Whether the state can write its next handshake message: it is a standard
/// state holding a pre-shared key in slot 2, the handshake is not over, and
/// the message is its own (the initiator writes messages 0 and 2, the
/// responder message 1).
pub open spec fn my_turn_to_write(h: snow::HandshakeState) -> bool {
    &&& standard_handshake(h)
    &&& hs_psk(h, PSK_POSITION) is Some
    &&& hs_position(h) < 3
    &&& hs_is_initiator(h) <==> hs_position(h) % 2 == 0
}

/// A standard state with a pre-shared key in slot 2 that has processed
/// `position` messages.
pub open spec fn at_step(h: snow::HandshakeState, position: nat) -> bool {
    &&& standard_handshake(h)
    &&& hs_psk(h, PSK_POSITION) is Some
    &&& hs_position(h) == position
}

/// `q` reads the first message that `h` writes: both are standard states
/// (no prologue) of the same protocol name that have processed no message,
/// `h` the initiator's and `q` the responder's. The first XX message is `e`
/// and the payload sealed under a key drawn from the name and `e` alone (the
/// pre-shared key enters with the second message), so both sides agree on it.
pub open spec fn reads_first_message_of(q: snow::HandshakeState, h: snow::HandshakeState) -> bool {
    &&& standard_handshake(q)
    &&& standard_handshake(h)
    &&& hs_protocol(q) == hs_protocol(h)
    &&& hs_is_initiator(h)
    &&& !hs_is_initiator(q)
    &&& hs_position(h) == 0
    &&& hs_position(q) == 0
}

/// A responder as this library creates it, before any message: a standard
/// state of `Noise_XXpsk2_25519_AESGCM_SHA256` at position 0.
pub open spec fn fresh_responder(q: snow::HandshakeState) -> bool {
    &&& standard_handshake(q)
    &&& hs_protocol(q) == NOISE_PATTERN@
    &&& !hs_is_initiator(q)
    &&& hs_position(q) == 0
}

/// The library's two sides meet at the first message: a fresh initiator and
/// a fresh responder as this library creates them (whatever their pre-shared
/// keys) are such that the responder reads what the initiator writes first.
pub proof fn lemma_fresh_sides_meet(
    h: snow::HandshakeState,
    q: snow::HandshakeState,
    psk_h: Seq<u8>,
    psk_q: Seq<u8>,
)
    requires
        fresh_handshake(h, true, psk_h),
        fresh_handshake(q, false, psk_q),
    ensures
        reads_first_message_of(q, h),
        fresh_responder(q),
{
}

/// A standard state has finished exactly after its three messages.
pub open spec fn finishes_at_three(h: snow::HandshakeState) -> bool {
    standard_handshake(h) ==> (hs_finished(h) <==> hs_position(h) == 3)
}

/// The key a cipher holds after snow's rekey: the first 32 bytes of sealing
/// 32 zero bytes at the reserved nonce `u64::MAX`.
pub open spec fn rekeyed_key(key: Seq<u8>) -> Seq<u8> {
    aes_gcm_seal(key, u64::MAX, Seq::new(32, |i: int| 0u8)).subrange(0, 32)
}

/// Whether the transport state may seal a message: it may send and its
/// sending nonce is not exhausted (snow reserves the largest nonce).
pub open spec fn can_seal(t: snow::TransportState) -> bool {
    may_send(t) && send_nonce(t) < u64::MAX
}

/// `a` and `b` have the same sending side: key, nonce and permission.
pub open spec fn same_sending(a: snow::TransportState, b: snow::TransportState) -> bool {
    &&& send_key(a) == send_key(b)
    &&& send_nonce(a) == send_nonce(b)
    &&& may_send(a) == may_send(b)
}

/// `a` and `b` have the same receiving side: key, nonce and permission.
pub open spec fn same_receiving(a: snow::TransportState, b: snow::TransportState) -> bool {
    &&& recv_key(a) == recv_key(b)
    &&& recv_nonce(a) == recv_nonce(b)
    &&& may_receive(a) == may_receive(b)
}

/// `after` has sealed one more message than `before`: the sending nonce
/// went up by one and nothing else changed.
pub open spec fn sent_one(after: snow::TransportState, before: snow::TransportState) -> bool {
    &&& aes_gcm_transport(after) == aes_gcm_transport(before)
    &&& send_key(after) == send_key(before)
    &&& send_nonce(after) == send_nonce(before) + 1
    &&& may_send(after) == may_send(before)
    &&& same_receiving(after, before)
}

/// `after` has opened one more message than `before`: the receiving nonce
/// went up by one and nothing else changed.
pub open spec fn received_one(after: snow::TransportState, before: snow::TransportState) -> bool {
    &&& aes_gcm_transport(after) == aes_gcm_transport(before)
    &&& recv_key(after) == recv_key(before)
    &&& recv_nonce(after) == recv_nonce(before) + 1
    &&& may_receive(after) == may_receive(before)
    &&& same_sending(after, before)
}

/// `after` is `before` with both directions' keys rotated: for AES-GCM each
/// key becomes its rekeyed key; nonces and permissions stay.
pub open spec fn rotated(after: snow::TransportState, before: snow::TransportState) -> bool {
    &&& aes_gcm_transport(after) == aes_gcm_transport(before)
    &&& send_nonce(after) == send_nonce(before)
    &&& may_send(after) == may_send(before)
    &&& recv_nonce(after) == recv_nonce(before)
    &&& may_receive(after) == may_receive(before)
    &&& aes_gcm_transport(before) ==> send_key(after) == rekeyed_key(send_key(before))
        && recv_key(after) == rekeyed_key(recv_key(before))
}

/// `a`'s sending direction feeds `b`'s receiving direction: both are
/// AES-GCM transports, `a` may send and `b` may receive, with the same key
/// at the same nonce.
pub open spec fn paired(a: snow::TransportState, b: snow::TransportState) -> bool {
    &&& aes_gcm_transport(a)
    &&& aes_gcm_transport(b)
    &&& may_send(a)
    &&& may_receive(b)
    &&& send_key(a) == recv_key(b)
    &&& send_nonce(a) == recv_nonce(b)
}

/// `c` is what `a` sealed `p` to: the plaintext plus the tag, within the
/// message limit, at an unexhausted nonce, and it opens back to `p` under
/// `a`'s sending key and nonce.
pub open spec fn sealed_by(a: snow::TransportState, p: Seq<u8>, c: Seq<u8>) -> bool {
    &&& c.len() == p.len() + TAG_LEN
    &&& c.len() <= MAX_MESSAGE_LEN
    &&& send_nonce(a) < u64::MAX
    &&& aes_gcm_open(send_key(a), send_nonce(a), c) == Some(p)
}

/// `b` opens `c` with its receiving key at its receiving nonce: the input
/// is 16 to 65535 bytes, `b` may receive, its nonce is not exhausted and the
/// tag verifies.
pub open spec fn key_opens(b: snow::TransportState, c: Seq<u8>) -> bool {
    &&& TAG_LEN <= c.len() <= MAX_MESSAGE_LEN
    &&& may_receive(b)
    &&& recv_nonce(b) < u64::MAX
    &&& aes_gcm_open(recv_key(b), recv_nonce(b), c) is Some
}

/// Round trip: where `a`'s sending direction is paired with `b`'s receiving
/// direction, `b` opens what `a` sealed, and gets the plaintext back.
pub proof fn lemma_round_trip(a: snow::TransportState, b: snow::TransportState, p: Seq<u8>, c: Seq<u8>)
    requires
        paired(a, b),
        sealed_by(a, p, c),
    ensures
        key_opens(b, c),
        aes_gcm_open(recv_key(b), recv_nonce(b), c) == Some(p),
{
}

/// Messages delivered in order keep a pair: after `a` seals one message and
/// `b` opens one, `a`'s sending direction is still paired with `b`'s
/// receiving direction.
pub proof fn lemma_pairing_advances(
    a0: snow::TransportState,
    a1: snow::TransportState,
    b0: snow::TransportState,
    b1: snow::TransportState,
)
    requires
        paired(a0, b0),
        sent_one(a1, a0),
        received_one(b1, b0),
    ensures
        paired(a1, b1),
{
}

/// Traffic in the other direction leaves a pair alone: where `a` only opens
/// and `b` only seals, `a`'s sending direction stays paired with `b`'s
/// receiving direction.
pub proof fn lemma_pairing_survives_replies(
    a0: snow::TransportState,
    a1: snow::TransportState,
    b0: snow::TransportState,
    b1: snow::TransportState,
)
    requires
        paired(a0, b0),
        received_one(a1, a0),
        sent_one(b1, b0),
    ensures
        paired(a1, b1),
{
}

/// Rotating both ends keeps a pair: where both `a` and `b` rotate both
/// directions' keys, `a`'s sending direction stays paired with `b`'s
/// receiving direction.
pub proof fn lemma_rotation_keeps_pairing(
    a0: snow::TransportState,
    a1: snow::TransportState,
    b0: snow::TransportState,
    b1: snow::TransportState,
)
    requires
        paired(a0, b0),
        rotated(a1, a0),
        rotated(b1, b0),
    ensures
        paired(a1, b1),
{
}

/// The ciphertext (with tag) that sealing `payload` gives.
pub uninterp spec fn sealed(t: snow::TransportState, payload: Seq<u8>) -> Seq<u8>;

/// The transport state after sealing one message.
pub uninterp spec fn after_seal(t: snow::TransportState) -> snow::TransportState;

/// Whether the transport state opens `message`: it is allowed to receive,
/// holds a key, its receiving nonce is not exhausted and the tag verifies.
pub uninterp spec fn opens(t: snow::TransportState, message: Seq<u8>) -> bool;

/// The plaintext that opening `message` gives.
pub uninterp spec fn opened(t: snow::TransportState, message: Seq<u8>) -> Seq<u8>;

/// The transport state after opening one message.
pub uninterp spec fn after_open(t: snow::TransportState) -> snow::TransportState;

/// The transport state after rotating the sending key.
pub uninterp spec fn rekeyed_out(t: snow::TransportState) -> snow::TransportState;

/// The transport state after rotating the receiving key.
pub uninterp spec fn rekeyed_in(t: snow::TransportState) -> snow::TransportState;

/// Parses a Noise protocol name with `snow::params::NoiseParams::from_str`.
/// Trusted: parsed parameters keep the whole name (`s.to_owned()`), and the
/// library's own name parses into the standard parameters its five parts
/// spell. When other names parse is not described.
#[verifier::external_body]
fn parse_noise_params(name: &str) -> (r: Result<snow::params::NoiseParams, snow::Error>)
    ensures
        r matches Ok(p) ==> params_name(p) == name@,
        name@ == NOISE_PATTERN@ ==> r is Ok,
        r matches Ok(p) ==> (name@ == NOISE_PATTERN@ ==> standard_params(p)),
{
    name.parse::<snow::params::NoiseParams>()
}

/// Calls `snow::Builder::new` (default crypto resolver). Trusted: the
/// builder carries the parameters and their name, the default resolver, no
/// local key and no pre-shared key.
#[verifier::external_body]
fn new_builder<'b>(params: snow::params::NoiseParams) -> (r: snow::Builder<'b>)
    ensures
        builder_protocol(r) == params_name(params),
        standard_builder(r) == standard_params(params),
        builder_local_key(r) is None,
        forall|l: u8| #[trigger] builder_psk(r, l) is None,
{
    snow::Builder::new(params)
}

/// Calls `snow::Builder::generate_keypair`; the keys are random. Trusted:
/// the default resolver only offers Curve25519, whose private keys are 32
/// bytes, and it always offers a random source and Curve25519, so a
/// standard builder always gets a key pair.
#[verifier::external_body]
fn generate_keypair(builder: &snow::Builder) -> (r: Result<snow::Keypair, snow::Error>)
    ensures
        r matches Ok(k) ==> keypair_secret(k).len() == 32,
        standard_builder(*builder) ==> r is Ok,
{
    builder.generate_keypair()
}

/// The `private` field of a `snow::Keypair`.
#[verifier::external_body]
fn keypair_private(keypair: &snow::Keypair) -> (r: &[u8])
    ensures
        r@ == keypair_secret(*keypair),
{
    &keypair.private
}

/// Calls `snow::Builder::local_private_key`. Trusted: only the local key
/// changes. A key is later copied into a 32-byte Curve25519 key, so longer
/// keys would panic at build time; 32 bytes are asked for.
#[verifier::external_body]
fn with_local_private_key<'b>(builder: snow::Builder<'b>, key: &'b [u8]) -> (r: snow::Builder<'b>)
    requires
        key@.len() == 32,
    ensures
        builder_protocol(r) == builder_protocol(builder),
        standard_builder(r) == standard_builder(builder),
        builder_local_key(r) == Some(key@),
        forall|l: u8| #[trigger] builder_psk(r, l) == builder_psk(builder, l),
{
    builder.local_private_key(key)
}

/// Calls `snow::Builder::psk`, which indexes an array of ten slots and so
/// panics for a location of ten or more. Trusted: only that slot changes.
#[verifier::external_body]
fn with_psk<'b>(builder: snow::Builder<'b>, location: u8, key: &'b [u8; 32]) -> (r: snow::Builder<
    'b,
>)
    requires
        location < 10,
    ensures
        builder_protocol(r) == builder_protocol(builder),
        standard_builder(r) == standard_builder(builder),
        builder_local_key(r) == builder_local_key(builder),
        builder_psk(r, location) == Some(key@),
        forall|l: u8| l != location ==> #[trigger] builder_psk(r, l) == builder_psk(builder, l),
{
    builder.psk(location, key)
}

/// Calls `snow::Builder::build_initiator`. The local key is copied into a
/// 32-byte Curve25519 key, which panics for a longer key, so a 32-byte key
/// (or none) is asked for. Trusted: a built state is the initiator's, in its
/// first message, with the builder's protocol name, pre-shared keys and
/// primitives, at pattern position 0. A standard builder with a local key
/// and 32-byte pre-shared keys passes every check of `build`.
#[verifier::external_body]
fn build_initiator(builder: snow::Builder) -> (r: Result<snow::HandshakeState, snow::Error>)
    requires
        builder_local_key(builder) matches Some(k) ==> k.len() == 32,
    ensures
        (standard_builder(builder) && builder_local_key(builder) is Some && forall|l: u8|
            l < 10 ==> (#[trigger] builder_psk(builder, l) matches Some(k) ==> k.len() == 32))
            ==> r is Ok,
        r matches Ok(h) ==> standard_handshake(h) == standard_builder(builder) && hs_position(h) == 0,
        r matches Ok(h) ==> hs_is_initiator(h) && !hs_finished(h) && hs_protocol(h)
            == builder_protocol(builder) && forall|l: u8|
            l < 10 ==> #[trigger] hs_psk(h, l) == builder_psk(builder, l),
{
    builder.build_initiator()
}

/// Calls `snow::Builder::build_responder`, with the same requirement on the
/// local key. Trusted: a built state is the responder's, in its first
/// message, with the builder's protocol name, pre-shared keys and
/// primitives, at pattern position 0; it is built under the same conditions
/// as the initiator's.
#[verifier::external_body]
fn build_responder(builder: snow::Builder) -> (r: Result<snow::HandshakeState, snow::Error>)
    requires
        builder_local_key(builder) matches Some(k) ==> k.len() == 32,
    ensures
        (standard_builder(builder) && builder_local_key(builder) is Some && forall|l: u8|
            l < 10 ==> (#[trigger] builder_psk(builder, l) matches Some(k) ==> k.len() == 32))
            ==> r is Ok,
        r matches Ok(h) ==> standard_handshake(h) == standard_builder(builder) && hs_position(h) == 0,
        r matches Ok(h) ==> !hs_is_initiator(h) && !hs_finished(h) && hs_protocol(h)
            == builder_protocol(builder) && forall|l: u8|
            l < 10 ==> #[trigger] hs_psk(h, l) == builder_psk(builder, l),
{
    builder.build_responder()
}

/// Calls `snow::HandshakeState::write_message` on the whole of `message`,
/// which must be 65535 bytes (shorter buffers can make snow panic). Trusted:
/// the buffer keeps its length; success is a function of the state and the
/// payload; at most 65535 bytes are written; the role, protocol name and
/// pre-shared keys stay; a success moves the pattern position on by one, and
/// a standard state is finished exactly at position 3. On its own turn a
/// standard state with its pre-shared key writes with an empty payload (its
/// tokens only copy keys, mix, compute Curve25519, which cannot fail, and
/// seal), giving 48, 96 or 64 bytes by position. A standard initiator's first
/// message is read by every standard responder of the same protocol name
/// that has read nothing yet (both derive the payload key from the name and
/// `e`; the pre-shared key comes in later). The bytes depend on fresh
/// ephemeral keys and are not otherwise described.
#[verifier::external_body]
fn handshake_write(state: &mut snow::HandshakeState, payload: &[u8], message: &mut Vec<u8>) -> (r:
    Result<usize, snow::Error>)
    requires
        old(message)@.len() == MAX_MESSAGE_LEN,
    ensures
        final(message)@.len() == old(message)@.len(),
        r is Ok <==> hs_write_ok(*old(state), payload@),
        r matches Ok(n) ==> n <= MAX_MESSAGE_LEN,
        hs_is_initiator(*final(state)) == hs_is_initiator(*old(state)),
        standard_handshake(*final(state)) == standard_handshake(*old(state)),
        hs_protocol(*final(state)) == hs_protocol(*old(state)),
        forall|l: u8| #[trigger] hs_psk(*final(state), l) == hs_psk(*old(state), l),
        r is Ok ==> hs_position(*final(state)) == hs_position(*old(state)) + 1,
        r is Err ==> hs_position(*final(state)) == hs_position(*old(state)),
        finishes_at_three(*final(state)),
        (my_turn_to_write(*old(state)) && payload@.len() == 0) ==> r is Ok,
        r matches Ok(n) ==> (standard_handshake(*old(state)) && payload@.len() == 0 ==> n
            == handshake_message_len(hs_position(*old(state)))),
        r matches Ok(n) ==> forall|q: snow::HandshakeState|
            reads_first_message_of(q, *old(state)) ==> #[trigger] hs_read_ok(
                q,
                final(message)@.subrange(0, n as int),
            ),
{
    state.write_message(payload, message.as_mut_slice())
}

/// Calls `snow::HandshakeState::read_message` with `payload`, 65535 bytes,
/// as the output buffer. Trusted: the buffer keeps its length; success and
/// the next state are functions of the state and the message; the role,
/// protocol name and pre-shared keys stay; a success moves the pattern
/// position on by one, and a standard state is finished exactly at
/// position 3.
#[verifier::external_body]
fn handshake_read(state: &mut snow::HandshakeState, message: &[u8], payload: &mut Vec<u8>) -> (r:
    Result<usize, snow::Error>)
    requires
        old(payload)@.len() == MAX_MESSAGE_LEN,
    ensures
        final(payload)@.len() == old(payload)@.len(),
        r is Ok <==> hs_read_ok(*old(state), message@),
        *final(state) == hs_after_read(*old(state), message@),
        hs_is_initiator(*final(state)) == hs_is_initiator(*old(state)),
        standard_handshake(*final(state)) == standard_handshake(*old(state)),
        hs_protocol(*final(state)) == hs_protocol(*old(state)),
        forall|l: u8| #[trigger] hs_psk(*final(state), l) == hs_psk(*old(state), l),
        r is Ok ==> hs_position(*final(state)) == hs_position(*old(state)) + 1,
        r is Err ==> hs_position(*final(state)) == hs_position(*old(state)),
        finishes_at_three(*final(state)),
{
    state.read_message(message, payload.as_mut_slice())
}

/// Calls `snow::HandshakeState::into_transport_mode`. Trusted, as the
/// source shows: it succeeds exactly for a finished handshake, whose last
/// message split the chaining key into both directions' ciphers with nonce
/// zero. A standard state runs XX, which is not one-way, on AES-GCM, so its
/// transport may send and receive.
#[verifier::external_body]
fn into_transport(state: snow::HandshakeState) -> (r: Result<snow::TransportState, snow::Error>)
    ensures
        r is Ok <==> hs_finished(state),
        r matches Ok(t) ==> t == transport_of(state) && send_nonce(t) == 0 && recv_nonce(t) == 0,
        r matches Ok(t) ==> (standard_handshake(state) ==> may_send(t) && may_receive(t)
            && aes_gcm_transport(t)),
{
    state.into_transport_mode()
}

/// Calls `snow::TransportState::write_message` on the whole of `message`.
/// Trusted, as the source shows for the ciphers of snow's default resolver:
/// the buffer keeps its length; the call succeeds exactly when the sealed
/// size (payload plus the 16-byte tag) fits both 65535 bytes and the buffer
/// and the state may seal; a success reports the sealed size, writes the
/// sealed bytes at the front of the buffer and advances the state, whose
/// sending nonce goes up by one; a refusal leaves the state as it was. With
/// AES-GCM the bytes are the cipher's sealing under the sending key and
/// nonce, which AES-GCM opens back to the payload under the same key and
/// nonce.
#[verifier::external_body]
fn transport_write(state: &mut snow::TransportState, payload: &[u8], message: &mut Vec<u8>) -> (r:
    Result<usize, snow::Error>)
    ensures
        final(message)@.len() == old(message)@.len(),
        r is Ok <==> (payload@.len() + TAG_LEN <= MAX_MESSAGE_LEN && payload@.len() + TAG_LEN
            <= old(message)@.len() && can_seal(*old(state))),
        r matches Ok(n) ==> n == payload@.len() + TAG_LEN && final(message)@.subrange(0, n as int)
            == sealed(*old(state), payload@) && *final(state) == after_seal(*old(state)),
        r is Ok ==> sent_one(*final(state), *old(state)),
        r matches Ok(n) ==> (aes_gcm_transport(*old(state)) ==> final(message)@.subrange(0, n as int)
            == aes_gcm_seal(send_key(*old(state)), send_nonce(*old(state)), payload@)),
        r matches Ok(n) ==> (aes_gcm_transport(*old(state)) ==> aes_gcm_open(
            send_key(*old(state)),
            send_nonce(*old(state)),
            final(message)@.subrange(0, n as int),
        ) == Some(payload@)),
        r is Err ==> *final(state) == *old(state),
{
    state.write_message(payload, message.as_mut_slice())
}

/// Calls `snow::TransportState::read_message` with `payload` as the output
/// buffer. Trusted, as the source shows: the buffer keeps its length; the
/// call succeeds exactly when the input is 16 to 65535 bytes long, the buffer
/// holds the input less the tag, and the state opens it; a success reports
/// the input length less the tag, writes the plaintext at the front of the
/// buffer and advances the receiving side only (its nonce goes up by one); a
/// refusal leaves the state as it was. With AES-GCM it opens exactly where
/// the cipher's opening under the receiving key and nonce verifies, giving
/// that plaintext.
#[verifier::external_body]
fn transport_read(state: &mut snow::TransportState, message: &[u8], payload: &mut Vec<u8>) -> (r:
    Result<usize, snow::Error>)
    ensures
        final(payload)@.len() == old(payload)@.len(),
        r is Ok <==> (TAG_LEN <= message@.len() <= MAX_MESSAGE_LEN && message@.len()
            <= old(payload)@.len() + TAG_LEN && opens(*old(state), message@)),
        r matches Ok(n) ==> n + TAG_LEN == message@.len() && final(payload)@.subrange(0, n as int)
            == opened(*old(state), message@) && *final(state) == after_open(*old(state)),
        r is Ok ==> received_one(*final(state), *old(state)),
        aes_gcm_transport(*old(state)) ==> (r is Ok <==> (message@.len() <= old(payload)@.len()
            + TAG_LEN && key_opens(*old(state), message@))),
        r matches Ok(n) ==> (aes_gcm_transport(*old(state)) ==> aes_gcm_open(
            recv_key(*old(state)),
            recv_nonce(*old(state)),
            message@,
        ) == Some(final(payload)@.subrange(0, n as int))),
        r is Err ==> *final(state) == *old(state),
{
    state.read_message(message, payload.as_mut_slice())
}

/// Calls `snow::TransportState::rekey_outgoing`. Trusted: the state becomes
/// the named rotation of its sending key; the cipher's key changes (for
/// AES-GCM, by the default `Cipher::rekey`), its nonce and key presence do
/// not, and the receiving side is untouched.
#[verifier::external_body]
pub(crate) fn rekey_outgoing(state: &mut snow::TransportState)
    ensures
        *final(state) == rekeyed_out(*old(state)),
        aes_gcm_transport(*final(state)) == aes_gcm_transport(*old(state)),
        send_nonce(*final(state)) == send_nonce(*old(state)),
        may_send(*final(state)) == may_send(*old(state)),
        aes_gcm_transport(*old(state)) ==> send_key(*final(state)) == rekeyed_key(
            send_key(*old(state)),
        ),
        same_receiving(*final(state), *old(state)),
{
    state.rekey_outgoing()
}

/// Calls `snow::TransportState::rekey_incoming`. Trusted: the state becomes
/// the named rotation of its receiving key, changed as `rekey_outgoing`
/// changes the sending one; the sending side is untouched.
#[verifier::external_body]
pub(crate) fn rekey_incoming(state: &mut snow::TransportState)
    ensures
        *final(state) == rekeyed_in(*old(state)),
        aes_gcm_transport(*final(state)) == aes_gcm_transport(*old(state)),
        recv_nonce(*final(state)) == recv_nonce(*old(state)),
        may_receive(*final(state)) == may_receive(*old(state)),
        aes_gcm_transport(*old(state)) ==> recv_key(*final(state)) == rekeyed_key(
            recv_key(*old(state)),
        ),
        same_sending(*final(state), *old(state)),
{
    state.rekey_incoming()
}

// ---------------------------------------------------------------------------
// Handshake set-up.
// ---------------------------------------------------------------------------

/// `m` is the text (`Display`) of some `snow` error.
pub open spec fn is_snow_error_text(m: String) -> bool {
    exists|e: snow::Error| #[trigger] vstd::string::to_string_from_display_ensures::<snow::Error>(&e, m)
}

/// A handshake error carrying the text of `e`.
fn handshake_error(e: &snow::Error) -> (r: NoiseError)
    ensures
        r matches NoiseError::HandshakeError(m) && vstd::string::to_string_from_display_ensures::<
            snow::Error,
        >(e, m),
{
    NoiseError::HandshakeError(e.to_string())
}

/// A fresh handshake state as this library builds it: the given role, in
/// its first message, for `Noise_XXpsk2_25519_AESGCM_SHA256` on the default
/// resolver, with `psk` in slot 2 and no other pre-shared key, at position 0.
pub open spec fn fresh_handshake(h: snow::HandshakeState, initiator: bool, psk: Seq<u8>) -> bool {
    &&& hs_is_initiator(h) == initiator
    &&& !hs_finished(h)
    &&& hs_protocol(h) == NOISE_PATTERN@
    &&& standard_handshake(h)
    &&& hs_position(h) == 0
    &&& hs_psk(h, PSK_POSITION) == Some(psk)
    &&& forall|l: u8| l < 10 && l != PSK_POSITION ==> #[trigger] hs_psk(h, l) is None
}

fn create_handshake(psk: &[u8; 32], initiator: bool) -> (r: Result<snow::HandshakeState, NoiseError>)
    ensures
        r is Ok,
        r matches Ok(h) ==> fresh_handshake(h, initiator, psk@),
{
    let params = match parse_noise_params(NOISE_PATTERN) {
        Ok(p) => p,
        Err(e) => return Err(handshake_error(&e)),
    };
    let builder = new_builder(params);
    let keypair = match generate_keypair(&builder) {
        Ok(k) => k,
        Err(e) => return Err(handshake_error(&e)),
    };
    let builder = with_local_private_key(builder, keypair_private(&keypair));
    let builder = with_psk(builder, PSK_POSITION, psk);
    let built = if initiator {
        build_initiator(builder)
    } else {
        build_responder(builder)
    };
    match built {
        Ok(h) => Ok(h),
        Err(e) => Err(handshake_error(&e)),
    }
}

/// A handshake state for the initiating side, with a fresh static key pair
/// and `psk` in position 2. It is always created.
pub fn create_initiator(psk: &[u8; 32]) -> (r: Result<snow::HandshakeState, NoiseError>)
    ensures
        r is Ok,
        r matches Ok(h) ==> fresh_handshake(h, true, psk@),
{
    create_handshake(psk, true)
}

/// A handshake state for the responding side, with a fresh static key pair
/// and `psk` in position 2. It is always created.
pub fn create_responder(psk: &[u8; 32]) -> (r: Result<snow::HandshakeState, NoiseError>)
    ensures
        r is Ok,
        r matches Ok(h) ==> fresh_handshake(h, false, psk@),
{
    create_handshake(psk, false)
}

// ---------------------------------------------------------------------------
// The handshake exchange.
// ---------------------------------------------------------------------------

/// A WebSocket frame as the protocol sees it.
#[derive(Debug)]
pub enum Frame {
    Binary(Vec<u8>),
    Text(String),
    Close,
    Other,
}

/// Why a handshake did not complete.
#[derive(Debug, PartialEq, Eq)]
pub enum HandshakeFailure {
    /// The handshake state could not be created.
    Setup(NoiseError),
    /// `snow` refused a handshake message; the text is its error.
    Protocol(String),
    /// The peer sent a frame that is not binary.
    UnexpectedFrame,
    /// The connection ended before the handshake did.
    ConnectionClosed,
}

/// How an incoming handshake frame is judged before it is read: `None` for
/// a binary frame, otherwise the failure it causes.
pub open spec fn frame_failure(frame: Option<Frame>) -> Option<HandshakeFailure> {
    match frame {
        None => Some(HandshakeFailure::ConnectionClosed),
        Some(Frame::Binary(_)) => None,
        Some(_) => Some(HandshakeFailure::UnexpectedFrame),
    }
}

fn protocol_failure(e: &snow::Error) -> (r: HandshakeFailure)
    ensures
        r matches HandshakeFailure::Protocol(m) && vstd::string::to_string_from_display_ensures::<
            snow::Error,
        >(e, m),
{
    HandshakeFailure::Protocol(e.to_string())
}

/// Whether `f` is a refusal by `snow`, carrying the text of its error.
pub open spec fn is_protocol_failure(f: HandshakeFailure) -> bool {
    f matches HandshakeFailure::Protocol(m) && is_snow_error_text(m)
}

/// `a` has the role, protocol, primitives and pre-shared keys of `b`.
pub open spec fn same_keying(a: snow::HandshakeState, b: snow::HandshakeState) -> bool {
    &&& hs_is_initiator(a) == hs_is_initiator(b)
    &&& hs_protocol(a) == hs_protocol(b)
    &&& standard_handshake(a) == standard_handshake(b)
    &&& forall|l: u8| #[trigger] hs_psk(a, l) == hs_psk(b, l)
}

/// A handshake state keyed as this library keys it: the given role, the
/// protocol `Noise_XXpsk2_25519_AESGCM_SHA256` on the default resolver,
/// `psk` in slot 2 and no other pre-shared key.
pub open spec fn keyed_handshake(h: snow::HandshakeState, initiator: bool, psk: Seq<u8>) -> bool {
    &&& hs_is_initiator(h) == initiator
    &&& hs_protocol(h) == NOISE_PATTERN@
    &&& standard_handshake(h)
    &&& hs_psk(h, PSK_POSITION) == Some(psk)
    &&& forall|l: u8| l < 10 && l != PSK_POSITION ==> #[trigger] hs_psk(h, l) is None
}

proof fn lemma_same_keying_keeps_keyed(a: snow::HandshakeState, b: snow::HandshakeState, initiator: bool, psk: Seq<u8>)
    requires
        same_keying(a, b),
        keyed_handshake(b, initiator, psk),
    ensures
        keyed_handshake(a, initiator, psk),
{
    assert forall|l: u8| l < 10 && l != PSK_POSITION implies #[trigger] hs_psk(a, l) is None by {
        assert(hs_psk(a, l) == hs_psk(b, l));
    }
}

/// Writes the next handshake message with an empty payload.
fn write_step(state: &mut snow::HandshakeState) -> (r: Result<Vec<u8>, HandshakeFailure>)
    ensures
        r is Ok <==> hs_write_ok(*old(state), Seq::<u8>::empty()),
        r matches Ok(m) ==> m@.len() <= MAX_MESSAGE_LEN,
        r matches Err(f) ==> is_protocol_failure(f),
        same_keying(*final(state), *old(state)),
        my_turn_to_write(*old(state)) ==> r is Ok,
        r matches Ok(m) ==> (standard_handshake(*old(state)) ==> m@.len() == handshake_message_len(
            hs_position(*old(state)),
        )),
        r is Ok ==> hs_position(*final(state)) == hs_position(*old(state)) + 1,
        r is Err ==> hs_position(*final(state)) == hs_position(*old(state)),
        finishes_at_three(*final(state)),
        r matches Ok(m) ==> forall|q: snow::HandshakeState|
            reads_first_message_of(q, *old(state)) ==> #[trigger] hs_read_ok(q, m@),
{
    let mut buf: Vec<u8> = vec![0u8; MAX_MESSAGE_LEN];
    let empty: Vec<u8> = Vec::new();
    assert(empty@ == Seq::<u8>::empty());
    match handshake_write(state, empty.as_slice(), &mut buf) {
        Ok(n) => {
            let ghost written = buf@.subrange(0, n as int);
            buf.truncate(n);
            assert(buf@ =~= written);
            Ok(buf)
        },
        Err(e) => Err(protocol_failure(&e)),
    }
}

/// Reads a handshake message from a frame.
fn read_step(state: &mut snow::HandshakeState, frame: Option<Frame>) -> (r: Result<
    (),
    HandshakeFailure,
>)
    ensures
        frame_failure(frame) matches Some(f) ==> (r == Err::<(), HandshakeFailure>(f)
            && *final(state) == *old(state)),
        frame matches Some(Frame::Binary(d)) ==> {
            &&& r is Ok <==> hs_read_ok(*old(state), d@)
            &&& *final(state) == hs_after_read(*old(state), d@)
            &&& r matches Err(f) ==> is_protocol_failure(f)
            &&& r is Ok ==> hs_position(*final(state)) == hs_position(*old(state)) + 1
            &&& r is Err ==> hs_position(*final(state)) == hs_position(*old(state))
            &&& finishes_at_three(*final(state))
        },
        same_keying(*final(state), *old(state)),
{
    match frame {
        None => Err(HandshakeFailure::ConnectionClosed),
        Some(Frame::Binary(data)) => {
            let mut buf: Vec<u8> = vec![0u8; MAX_MESSAGE_LEN];
            match handshake_read(state, data.as_slice(), &mut buf) {
                Ok(_) => Ok(()),
                Err(e) => Err(protocol_failure(&e)),
            }
        },
        Some(_) => Err(HandshakeFailure::UnexpectedFrame),
    }
}

/// What reading a frame and then writing the reply does, from state `s0`:
/// a frame that is not binary fails as `frame_failure` says; a binary frame
/// `d` is refused where the state does not read it, and otherwise the reply
/// is written exactly where the state after reading can write.
pub open spec fn read_then_write(
    s0: snow::HandshakeState,
    frame: Option<Frame>,
    r: Result<Vec<u8>, HandshakeFailure>,
    s1: snow::HandshakeState,
) -> bool {
    &&& frame_failure(frame) matches Some(f) ==> r == Err::<Vec<u8>, HandshakeFailure>(f) && s1
        == s0
    &&& frame matches Some(Frame::Binary(d)) ==> {
        &&& !hs_read_ok(s0, d@) ==> (r matches Err(f) && is_protocol_failure(f) && s1
            == hs_after_read(s0, d@))
        &&& hs_read_ok(s0, d@) ==> (r is Ok <==> hs_write_ok(
            hs_after_read(s0, d@),
            Seq::<u8>::empty(),
        ))
        &&& r matches Err(f) ==> is_protocol_failure(f)
    }
    &&& r matches Ok(m) ==> m@.len() <= MAX_MESSAGE_LEN
    &&& same_keying(s1, s0)
}

/// The initiating side of the three-message handshake (Alice, Bob or a
/// plain client).
pub struct InitiatorHandshake {
    state: snow::HandshakeState,
}

impl InitiatorHandshake {
    /// The handshake state held.
    pub closed spec fn handshake_state(&self) -> snow::HandshakeState {
        self.state
    }

    /// Creates the initiator and writes the first handshake message, which
    /// the caller sends to the responder. It always succeeds.
    pub fn start(psk: &[u8; 32]) -> (r: Result<(InitiatorHandshake, Vec<u8>), HandshakeFailure>)
        ensures
            r is Ok,
            r matches Ok((h, first)) ==> keyed_handshake(h.handshake_state(), true, psk@)
                && first@.len() == handshake_message_len(0) && hs_position(h.handshake_state())
                == 1 && finishes_at_three(h.handshake_state()),
            r matches Ok((h, first)) ==> forall|q: snow::HandshakeState|
                fresh_responder(q) ==> #[trigger] hs_read_ok(q, first@),
    {
        let mut state = match create_initiator(psk) {
            Ok(s) => s,
            Err(e) => return Err(HandshakeFailure::Setup(e)),
        };
        let ghost s0 = state;
        let first = write_step(&mut state)?;
        proof {
            lemma_same_keying_keeps_keyed(state, s0, true, psk@);
            assert forall|q: snow::HandshakeState| fresh_responder(q) implies #[trigger] hs_read_ok(
                q,
                first@,
            ) by {
                assert(reads_first_message_of(q, s0));
            }
        }
        Ok((InitiatorHandshake { state }, first))
    }

    /// Reads the responder's reply (`None` where the connection ended) and
    /// writes the final handshake message, which the caller sends. After the
    /// first message, a binary reply is answered exactly where it is read,
    /// with the 64-byte final message, and the handshake is then finished.
    pub fn answer(&mut self, reply: Option<Frame>) -> (r: Result<Vec<u8>, HandshakeFailure>)
        ensures
            read_then_write(
                old(self).handshake_state(),
                reply,
                r,
                final(self).handshake_state(),
            ),
            reply matches Some(Frame::Binary(d)) ==> (at_step(old(self).handshake_state(), 1)
                && hs_is_initiator(old(self).handshake_state()) ==> (r is Ok <==> hs_read_ok(
                old(self).handshake_state(),
                d@,
            ))),
            r matches Ok(m) ==> (standard_handshake(old(self).handshake_state()) ==> m@.len()
                == handshake_message_len(hs_position(old(self).handshake_state()) + 1)),
            r is Ok ==> hs_position(final(self).handshake_state()) == hs_position(
                old(self).handshake_state(),
            ) + 2 && finishes_at_three(final(self).handshake_state()),
    {
        let ghost s0 = self.state;
        match read_step(&mut self.state, reply) {
            Ok(()) => {},
            Err(f) => return Err(f),
        }
        let ghost s1 = self.state;
        let r = write_step(&mut self.state);
        proof {
            assert(same_keying(self.state, s0)) by {
                assert forall|l: u8| #[trigger] hs_psk(self.state, l) == hs_psk(s0, l) by {
                    assert(hs_psk(self.state, l) == hs_psk(s1, l));
                }
            }
        }
        r
    }

    /// Enters transport mode once the final message is sent: it succeeds
    /// exactly for a finished handshake, with that handshake's transport.
    pub fn finish(self) -> (r: Result<snow::TransportState, HandshakeFailure>)
        ensures
            r is Ok <==> hs_finished(self.handshake_state()),
            r matches Ok(t) ==> t == transport_of(self.handshake_state()) && send_nonce(t) == 0,
            r matches Ok(t) ==> recv_nonce(t) == 0,
            r matches Ok(t) ==> (standard_handshake(self.handshake_state()) ==> can_seal(t)
                && may_receive(t) && aes_gcm_transport(t)),
            r matches Err(f) ==> is_protocol_failure(f),
    {
        match into_transport(self.state) {
            Ok(t) => Ok(t),
            Err(e) => Err(protocol_failure(&e)),
        }
    }
}

/// The responding side of the three-message handshake (the chat server).
pub struct ResponderHandshake {
    state: snow::HandshakeState,
}

impl ResponderHandshake {
    /// The handshake state held.
    pub closed spec fn handshake_state(&self) -> snow::HandshakeState {
        self.state
    }

    /// Creates the responder. It always succeeds.
    pub fn new(psk: &[u8; 32]) -> (r: Result<ResponderHandshake, HandshakeFailure>)
        ensures
            r is Ok,
            r matches Ok(h) ==> fresh_handshake(h.handshake_state(), false, psk@),
    {
        match create_responder(psk) {
            Ok(state) => Ok(ResponderHandshake { state }),
            Err(e) => Err(HandshakeFailure::Setup(e)),
        }
    }

    /// Reads the initiator's first message (`None` where the connection
    /// ended) and writes the reply, which the caller sends. On a fresh
    /// responder, a binary first message is answered exactly where it is
    /// read, with the 96-byte reply.
    pub fn respond(&mut self, first: Option<Frame>) -> (r: Result<Vec<u8>, HandshakeFailure>)
        ensures
            read_then_write(
                old(self).handshake_state(),
                first,
                r,
                final(self).handshake_state(),
            ),
            first matches Some(Frame::Binary(d)) ==> (at_step(old(self).handshake_state(), 0)
                && !hs_is_initiator(old(self).handshake_state()) ==> (r is Ok <==> hs_read_ok(
                old(self).handshake_state(),
                d@,
            ))),
            r matches Ok(m) ==> (standard_handshake(old(self).handshake_state()) ==> m@.len()
                == handshake_message_len(hs_position(old(self).handshake_state()) + 1)),
            r is Ok ==> hs_position(final(self).handshake_state()) == hs_position(
                old(self).handshake_state(),
            ) + 2 && finishes_at_three(final(self).handshake_state()),
    {
        let ghost s0 = self.state;
        match read_step(&mut self.state, first) {
            Ok(()) => {},
            Err(f) => return Err(f),
        }
        let ghost s1 = self.state;
        let r = write_step(&mut self.state);
        proof {
            assert(same_keying(self.state, s0)) by {
                assert forall|l: u8| #[trigger] hs_psk(self.state, l) == hs_psk(s0, l) by {
                    assert(hs_psk(self.state, l) == hs_psk(s1, l));
                }
            }
        }
        r
    }

    /// Reads the initiator's final message and enters transport mode: for a
    /// binary frame this succeeds exactly where the state reads it and the
    /// handshake is then finished, with the transport of that state.
    pub fn complete(self, last: Option<Frame>) -> (r: Result<snow::TransportState, HandshakeFailure>)
        ensures
            frame_failure(last) matches Some(f) ==> (r matches Err(g) && g == f),
            last matches Some(Frame::Binary(d)) ==> {
                let s1 = hs_after_read(self.handshake_state(), d@);
                &&& r is Ok <==> (hs_read_ok(self.handshake_state(), d@) && hs_finished(s1))
                &&& r matches Ok(t) ==> t == transport_of(s1) && send_nonce(t) == 0
                &&& r matches Ok(t) ==> recv_nonce(t) == 0
                &&& r matches Ok(t) ==> (standard_handshake(self.handshake_state()) ==> can_seal(t)
                    && may_receive(t) && aes_gcm_transport(t))
                &&& r matches Err(f) ==> is_protocol_failure(f)
                &&& at_step(self.handshake_state(), 2) && !hs_is_initiator(self.handshake_state())
                    ==> (r is Ok <==> hs_read_ok(self.handshake_state(), d@))
            },
    {
        let mut state = self.state;
        read_step(&mut state, last)?;
        match into_transport(state) {
            Ok(t) => Ok(t),
            Err(e) => Err(protocol_failure(&e)),
        }
    }
}

// ---------------------------------------------------------------------------
// Transport session.
// ---------------------------------------------------------------------------

/// Encrypts with the transport state; shared by both session kinds. A
/// message whose sealed size fits 65535 bytes is sealed exactly where the
/// state may seal; the ciphertext is the named sealing and the state
/// advances, while a refusal leaves the state as it was.
pub(crate) fn seal(transport: &mut snow::TransportState, plaintext: &[u8]) -> (r: Result<
    Vec<u8>,
    NoiseError,
>)
    requires
        plaintext@.len() + TAG_LEN <= usize::MAX,
    ensures
        r is Ok <==> (plaintext@.len() + TAG_LEN <= MAX_MESSAGE_LEN && can_seal(*old(transport))),
        r matches Ok(c) ==> c@ == sealed(*old(transport), plaintext@) && c@.len() == plaintext@.len()
            + TAG_LEN && *final(transport) == after_seal(*old(transport)),
        r is Ok ==> sent_one(*final(transport), *old(transport)),
        r matches Ok(c) ==> (aes_gcm_transport(*old(transport)) ==> c@ == aes_gcm_seal(
            send_key(*old(transport)),
            send_nonce(*old(transport)),
            plaintext@,
        ) && sealed_by(*old(transport), plaintext@, c@)),
        r matches Err(e) ==> (e matches NoiseError::EncryptionError(m) && is_snow_error_text(m))
            && *final(transport) == *old(transport),
{
    let mut ciphertext: Vec<u8> = vec![0u8; plaintext.len() + TAG_LEN];
    match transport_write(transport, plaintext, &mut ciphertext) {
        Ok(n) => {
            ciphertext.truncate(n);
            Ok(ciphertext)
        },
        Err(e) => {
            let m = e.to_string();
            Err(NoiseError::EncryptionError(m))
        },
    }
}

/// Decrypts with the transport state; shared by both session kinds. Input
/// of 16 to 65535 bytes is opened exactly where the state opens it; the
/// plaintext is the named opening and the state advances, while a refusal
/// leaves the state as it was.
pub(crate) fn open(transport: &mut snow::TransportState, ciphertext: &[u8]) -> (r: Result<
    Vec<u8>,
    NoiseError,
>)
    ensures
        r is Ok <==> (TAG_LEN <= ciphertext@.len() <= MAX_MESSAGE_LEN && opens(
            *old(transport),
            ciphertext@,
        )),
        r matches Ok(p) ==> p@ == opened(*old(transport), ciphertext@) && p@.len() + TAG_LEN
            == ciphertext@.len() && *final(transport) == after_open(*old(transport)),
        r is Ok ==> received_one(*final(transport), *old(transport)),
        aes_gcm_transport(*old(transport)) ==> (r is Ok <==> key_opens(*old(transport), ciphertext@)),
        r matches Ok(p) ==> (aes_gcm_transport(*old(transport)) ==> aes_gcm_open(
            recv_key(*old(transport)),
            recv_nonce(*old(transport)),
            ciphertext@,
        ) == Some(p@)),
        r matches Err(e) ==> (e matches NoiseError::DecryptionError(m) && is_snow_error_text(m))
            && *final(transport) == *old(transport),
{
    let mut plaintext: Vec<u8> = vec![0u8; ciphertext.len()];
    match transport_read(transport, ciphertext, &mut plaintext) {
        Ok(n) => {
            plaintext.truncate(n);
            Ok(plaintext)
        },
        Err(e) => {
            let m = e.to_string();
            Err(NoiseError::DecryptionError(m))
        },
    }
}

/// An established Noise transport session.
pub struct NoiseSession {
    transport: snow::TransportState,
}

impl NoiseSession {
    /// The transport state this session seals and opens with.
    pub closed spec fn transport_state(&self) -> snow::TransportState {
        self.transport
    }

    /// Wraps a transport state.
    pub fn new(transport: snow::TransportState) -> (r: Self)
        ensures
            r.transport_state() == transport,
    {
        NoiseSession { transport }
    }

    /// Encrypts one message. A plaintext whose sealed size (its length plus
    /// the 16-byte tag) fits 65535 bytes is encrypted exactly where the
    /// transport may seal (its sending nonce is not exhausted); the
    /// ciphertext is the sealing of the plaintext under the current state,
    /// which then advances. A refusal leaves the session as it was.
    pub fn encrypt(&mut self, plaintext: &[u8]) -> (r: Result<Vec<u8>, NoiseError>)
        requires
            plaintext@.len() + TAG_LEN <= usize::MAX,
        ensures
            r is Ok <==> (plaintext@.len() + TAG_LEN <= MAX_MESSAGE_LEN && can_seal(
                old(self).transport_state(),
            )),
            r matches Ok(c) ==> c@ == sealed(old(self).transport_state(), plaintext@) && c@.len()
                == plaintext@.len() + TAG_LEN && final(self).transport_state() == after_seal(
                old(self).transport_state(),
            ),
            r is Ok ==> sent_one(final(self).transport_state(), old(self).transport_state()),
            r matches Ok(c) ==> (aes_gcm_transport(old(self).transport_state()) ==> sealed_by(
                old(self).transport_state(),
                plaintext@,
                c@,
            )),
            r matches Err(e) ==> (e matches NoiseError::EncryptionError(m) && is_snow_error_text(m))
                && final(self).transport_state() == old(self).transport_state(),
    {
        seal(&mut self.transport, plaintext)
    }

    /// Decrypts one message. Input of 16 to 65535 bytes is decrypted exactly
    /// where the transport opens it (the tag verifies under the current
    /// receiving key); the plaintext is the opening of the input, which is
    /// the input's length less the tag, and the state advances. A refusal
    /// leaves the session as it was.
    pub fn decrypt(&mut self, ciphertext: &[u8]) -> (r: Result<Vec<u8>, NoiseError>)
        ensures
            r is Ok <==> (TAG_LEN <= ciphertext@.len() <= MAX_MESSAGE_LEN && opens(
                old(self).transport_state(),
                ciphertext@,
            )),
            r matches Ok(p) ==> p@ == opened(old(self).transport_state(), ciphertext@) && p@.len()
                + TAG_LEN == ciphertext@.len() && final(self).transport_state() == after_open(
                old(self).transport_state(),
            ),
            r is Ok ==> received_one(final(self).transport_state(), old(self).transport_state()),
            aes_gcm_transport(old(self).transport_state()) ==> (r is Ok <==> key_opens(
                old(self).transport_state(),
                ciphertext@,
            )),
            r matches Ok(p) ==> (aes_gcm_transport(old(self).transport_state()) ==> aes_gcm_open(
                recv_key(old(self).transport_state()),
                recv_nonce(old(self).transport_state()),
                ciphertext@,
            ) == Some(p@)),
            r matches Err(e) ==> (e matches NoiseError::DecryptionError(m) && is_snow_error_text(m))
                && final(self).transport_state() == old(self).transport_state(),
    {
        open(&mut self.transport, ciphertext)
    }
}

} // verus!
