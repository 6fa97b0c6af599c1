//! The Noise XX handshake, over the outside `snow` crate.

use vstd::prelude::*;
use vstd::slice::slice_subrange;
use vstd::slice::slice_to_vec;
use snow::params::NoiseParams;
use snow::Builder;
use snow::HandshakeState;
use crate::encoding::base64_decode;
use crate::encoding::base64_encode;
use crate::encoding;
use crate::text;

verus! {

pub const NOISE_XX_PARAMS: &'static str = "Noise_XX_25519_ChaChaPoly_BLAKE2s";

/// `snow::Error`, opaque.
#[verifier::external_type_specification]
#[verifier::external_body]
pub struct ExSnowError(snow::Error);

/// `snow::params::NoiseParams`, opaque.
#[verifier::external_type_specification]
#[verifier::external_body]
pub struct ExNoiseParams(snow::params::NoiseParams);

/// `snow::Builder`, opaque.
#[verifier::external_type_specification]
#[verifier::external_body]
pub struct ExBuilder<'builder>(snow::Builder<'builder>);

/// `snow::HandshakeState`, opaque.
#[verifier::external_type_specification]
#[verifier::external_body]
pub struct ExHandshakeState(snow::HandshakeState);

/// What has been handed to a `snow::Builder`.
pub struct BuilderView {
    pub params: Seq<char>,
    pub private_key: Option<Seq<u8>>,
    pub prologue: Option<Seq<u8>>,
}

/// What the two ends of a handshake can know of one end.
#[verifier::ext_equal]
pub struct HandshakeView {
    /// The name of the Noise protocol.
    pub params: Seq<char>,
    pub initiator: bool,
    /// Whether no message has failed to be read so far.
    pub intact: bool,
    /// The prologue, followed by each message written or read so far.
    pub transcript: Seq<Seq<u8>>,
    /// The public key of the local static key.
    pub local_public: Seq<u8>,
    /// The static public key of the other end, once it is known.
    pub remote: Option<Seq<u8>>,
}

impl HandshakeView {
    /// How many messages have been written or read.
    pub open spec fn position(self) -> int {
        self.transcript.len() - 1
    }

    /// Whether the next message of the handshake is this end's to write.
    pub open spec fn can_write(self) -> bool {
        0 <= self.position() < 3 && self.initiator == (self.position() % 2 == 0)
    }

    /// Whether the next message of the handshake is this end's to read.
    pub open spec fn can_read(self) -> bool {
        0 <= self.position() < 3 && self.initiator == (self.position() % 2 == 1)
    }

    /// This end after `message` went over the wire.
    pub open spec fn pushed(self, message: Seq<u8>) -> HandshakeView {
        HandshakeView { transcript: self.transcript.push(message), ..self }
    }

    /// This end after it read `message`, in which the other end sent the
    /// static key `remote`.
    pub open spec fn pushed_with(self, message: Seq<u8>, remote: Option<Seq<u8>>) -> HandshakeView {
        HandshakeView { transcript: self.transcript.push(message), remote, ..self }
    }
}

/// The length of the handshake message at `position`, with no payload: an
/// ephemeral key; an ephemeral key, a sealed static key and a tag; a sealed
/// static key and a tag.
pub open spec fn message_len(position: int) -> nat {
    if position == 0 {
        32
    } else if position == 1 {
        96
    } else {
        64
    }
}

/// A private key as the key agreement takes it: padded with zeros to 32 bytes.
pub open spec fn padded_key(private_key: Seq<u8>) -> Seq<u8> {
    private_key + Seq::new((32 - private_key.len()) as nat, |i: int| 0u8)
}

/// One end of a handshake of which no message went over the wire yet.
pub open spec fn initial_view(initiator: bool, prologue: Seq<u8>, private_key: Seq<u8>) -> HandshakeView {
    HandshakeView {
        params: NOISE_XX_PARAMS@,
        initiator,
        intact: true,
        transcript: seq![prologue],
        local_public: x25519_public(padded_key(private_key)),
        remote: None,
    }
}

/// The name that a `snow::params::NoiseParams` was parsed from.
pub uninterp spec fn params_name(params: NoiseParams) -> Seq<char>;

/// What a `snow::Builder` has been handed.
pub uninterp spec fn builder_view(builder: Builder<'_>) -> BuilderView;

/// The state of a `snow::HandshakeState`, as far as both ends can know it.
pub uninterp spec fn handshake_view(state: HandshakeState) -> HandshakeView;

/// The X25519 public key of 32 bytes of private key.
pub uninterp spec fn x25519_public(private_key: Seq<u8>) -> Seq<u8>;

/// Whether an end whose static public key is `public`, and which wrote or read
/// all of `transcript`, may write `message` next.
pub uninterp spec fn handshake_message(transcript: Seq<Seq<u8>>, public: Seq<u8>, message: Seq<u8>) -> bool;

/// The static public key that `state` finds when it reads `message`, and `None`
/// where it cannot read it.
pub uninterp spec fn handshake_opens(state: HandshakeState, message: Seq<u8>) -> Option<Seq<u8>>;

/// `str::parse` into `snow::params::NoiseParams` keeps the name, and knows the
/// Noise XX protocol that this library speaks.
#[verifier::external_body]
fn parse_params(name: &str) -> (r: Result<NoiseParams, snow::Error>)
    ensures
        name@ == NOISE_XX_PARAMS@ ==> r is Ok,
        r matches Ok(params) ==> params_name(params) == name@,
{
    name.parse()
}

/// `snow::Builder::new` starts with the parameters and nothing else.
#[verifier::external_body]
fn new_builder<'builder>(params: NoiseParams) -> (r: Builder<'builder>)
    ensures
        builder_view(r) == (BuilderView { params: params_name(params), private_key: None, prologue: None }),
{
    Builder::new(params)
}

/// `snow::Builder::local_private_key` takes any bytes, once.
#[verifier::external_body]
fn set_private_key<'builder>(builder: Builder<'builder>, key: &'builder [u8]) -> (r: Result<Builder<'builder>, snow::Error>)
    ensures
        r is Ok <==> builder_view(builder).private_key is None,
        r matches Ok(b) ==> builder_view(b) == (BuilderView { private_key: Some(key@), ..builder_view(builder) }),
{
    builder.local_private_key(key)
}

/// `snow::Builder::prologue` takes any bytes, once.
#[verifier::external_body]
fn set_prologue<'builder>(builder: Builder<'builder>, prologue: &'builder [u8]) -> (r: Result<Builder<'builder>, snow::Error>)
    ensures
        r is Ok <==> builder_view(builder).prologue is None,
        r matches Ok(b) ==> builder_view(b) == (BuilderView { prologue: Some(prologue@), ..builder_view(builder) }),
{
    builder.prologue(prologue)
}

/// Whether `build_initiator` and `build_responder` can build: the protocol is
/// the one that this library speaks, and the key fits the 32 bytes that it is
/// copied to (a longer key panics).
pub open spec fn can_build(b: BuilderView) -> bool {
    &&& b.params == NOISE_XX_PARAMS@
    &&& b.private_key is Some
    &&& b.private_key->0.len() <= 32
    &&& b.prologue is Some
}

/// `snow::Builder::build_initiator` gives the end that writes first.
#[verifier::external_body]
fn build_initiator(builder: Builder<'_>) -> (r: Result<HandshakeState, snow::Error>)
    requires
        can_build(builder_view(builder)),
    ensures
        r is Ok,
        r matches Ok(state) ==> handshake_view(state) == initial_view(
            true,
            builder_view(builder).prologue->0,
            builder_view(builder).private_key->0,
        ),
{
    builder.build_initiator()
}

/// `snow::Builder::build_responder` gives the end that reads first.
#[verifier::external_body]
fn build_responder(builder: Builder<'_>) -> (r: Result<HandshakeState, snow::Error>)
    requires
        can_build(builder_view(builder)),
    ensures
        r is Ok,
        r matches Ok(state) ==> handshake_view(state) == initial_view(
            false,
            builder_view(builder).prologue->0,
            builder_view(builder).private_key->0,
        ),
{
    builder.build_responder()
}

/// `snow::Builder::generate_keypair` draws 32 random bytes and gives them with
/// their public key. It fails where the machine has no random bytes to give.
#[verifier::external_body]
fn generate_keypair(builder: &Builder<'_>) -> (r: Result<(Vec<u8>, Vec<u8>), snow::Error>)
    requires
        builder_view(*builder).params == NOISE_XX_PARAMS@,
    ensures
        r matches Ok(pair) ==> pair.0@.len() == 32,
        r matches Ok(pair) ==> pair.1@.len() == 32,
        r matches Ok(pair) ==> pair.1@ == x25519_public(pair.0@),
{
    let pair = builder.generate_keypair()?;
    Ok((pair.private, pair.public))
}

/// `snow::HandshakeState::write_message` writes the next message of the XX
/// pattern where it is this end's turn. The first two messages hold a fresh
/// random key, so writing them fails where the machine has no random bytes to
/// give. What it writes is what the other end can read.
pub assume_specification[ snow::HandshakeState::write_message ](
    state: &mut HandshakeState,
    payload: &[u8],
    message: &mut [u8],
) -> (r: Result<usize, snow::Error>)
    requires
        handshake_view(*old(state)).params == NOISE_XX_PARAMS@,
        payload@.len() == 0,
        old(message)@.len() >= 96,
    ensures
        final(message)@.len() == old(message)@.len(),
        r matches Ok(n) ==> n <= old(message)@.len(),
        r is Err ==> handshake_view(*final(state)) == handshake_view(*old(state)),
        r is Ok ==> handshake_view(*final(state)).params == handshake_view(*old(state)).params,
        handshake_view(*old(state)).intact && !handshake_view(*old(state)).can_write() ==> r is Err,
        handshake_view(*old(state)).intact && handshake_view(*old(state)).can_write()
            && handshake_view(*old(state)).position() == 2 ==> r is Ok,
        handshake_view(*old(state)).intact ==> (r matches Ok(n) ==> {
            &&& n == message_len(handshake_view(*old(state)).position())
            &&& handshake_view(*final(state)) == handshake_view(*old(state)).pushed(final(message)@.take(n as int))
            &&& handshake_message(
                handshake_view(*old(state)).transcript,
                handshake_view(*old(state)).local_public,
                final(message)@.take(n as int),
            )
        }),
;

/// `snow::HandshakeState::read_message` reads the next message of the XX
/// pattern where it is this end's turn. It reads what the other end wrote on
/// the same transcript, and finds the static key of the other end in the
/// second and third message. Nothing is stated of the transcript after a
/// message that could not be read: the keys of `snow` are then out of step.
pub assume_specification[ snow::HandshakeState::read_message ](
    state: &mut HandshakeState,
    message: &[u8],
    payload: &mut [u8],
) -> (r: Result<usize, snow::Error>)
    requires
        handshake_view(*old(state)).params == NOISE_XX_PARAMS@,
        old(payload)@.len() == 0,
    ensures
        handshake_view(*final(state)).params == handshake_view(*old(state)).params,
        handshake_view(*old(state)).intact && !handshake_view(*old(state)).can_read() ==> r is Err,
        handshake_view(*old(state)).intact && handshake_view(*old(state)).can_read()
            && handshake_view(*old(state)).position() == 0 ==> {
            &&& r is Ok <==> message@.len() == message_len(0)
            &&& r is Ok ==> handshake_view(*final(state)) == handshake_view(*old(state)).pushed(message@)
        },
        handshake_view(*old(state)).intact && handshake_view(*old(state)).can_read()
            && handshake_view(*old(state)).position() > 0 ==> {
            &&& r is Ok <==> handshake_opens(*old(state), message@) is Some
            &&& r is Ok ==> message@.len() == message_len(handshake_view(*old(state)).position())
            &&& r is Ok ==> handshake_view(*final(state)) == handshake_view(*old(state)).pushed_with(
                message@,
                handshake_opens(*old(state), message@),
            )
            &&& forall|public: Seq<u8>| #[trigger]
                handshake_message(handshake_view(*old(state)).transcript, public, message@)
                    ==> r is Ok && handshake_view(*final(state)).remote == Some(public)
        },
;

/// `snow::HandshakeState::get_remote_static` gives the static public key of the
/// other end, 32 bytes long, once it is known.
pub assume_specification[ snow::HandshakeState::get_remote_static ](state: &HandshakeState) -> (r: Option<&[u8]>)
    requires
        handshake_view(*state).params == NOISE_XX_PARAMS@,
    ensures
        r is Some <==> handshake_view(*state).remote is Some,
        r matches Some(key) ==> handshake_view(*state).remote == Some(key@),
        r matches Some(key) ==> key@.len() == 32,
;

/// What can go wrong with a handshake.
#[derive(Debug, Clone, Copy, PartialEq, Eq, Structural)]
pub enum NoiseError {
    /// The private key has fewer than 4 characters.
    KeyTooShort,
    /// The private key is not the base64 text of any bytes.
    InvalidBase64,
    /// The protocol name was refused.
    Params,
    /// The private key was refused.
    InvalidKey,
    /// The prologue was refused.
    InvalidPrologue,
    /// The handshake state could not be built.
    Build,
    /// The message of the other end could not be read.
    Read,
    /// The next message could not be written.
    Write,
    /// The public key of the other end is not known yet.
    NoRemoteKey,
    /// No key pair could be drawn.
    Generate,
}

/// Whether the key agreement can hold `private_key`: it is no base64 text, or
/// that of at most 32 bytes.
pub open spec fn key_fits(private_key: Seq<char>) -> bool {
    forall|bytes: Seq<u8>| #[trigger] encoding::base64_text(bytes) == private_key ==> bytes.len() <= 32
}

/// What `NoiseHandshake::new_initiator` and `NoiseHandshake::new_responder`
/// make of a private key: the error that they give, if any.
pub open spec fn key_error(private_key: Seq<char>) -> Option<NoiseError> {
    if vstd::utf8::encode_utf8(private_key).len() < 4 {
        Some(NoiseError::KeyTooShort)
    } else if !exists|bytes: Seq<u8>| #[trigger] encoding::base64_text(bytes) == private_key {
        Some(NoiseError::InvalidBase64)
    } else {
        None
    }
}

/// The bytes of a base64 private key.
pub open spec fn key_bytes(private_key: Seq<char>) -> Seq<u8> {
    choose|bytes: Seq<u8>| #[trigger] encoding::base64_text(bytes) == private_key
}

/// The base64 public key of a base64 private key.
pub open spec fn public_key_of(private_key: Seq<char>) -> Seq<char> {
    encoding::base64_text(x25519_public(padded_key(key_bytes(private_key))))
}

/// A fresh end of a handshake, with `private_key` in base64.
pub open spec fn fresh_view(initiator: bool, private_key: Seq<char>, prologue: Seq<u8>) -> HandshakeView {
    initial_view(initiator, prologue, key_bytes(private_key))
}

/// Whether the key agreement can hold `private_key`. A key of more than 32
/// bytes must not be handed to `NoiseHandshake`.
pub fn private_key_fits(private_key: &str) -> (r: bool)
    ensures
        r == key_fits(private_key@),
{
    match base64_decode(private_key) {
        Ok(bytes) => {
            proof {
                assert forall|other: Seq<u8>| #[trigger] encoding::base64_text(other) == private_key@ implies other == bytes@ by {
                    encoding::law_base64_injective(other, bytes@);
                }
            }
            bytes.len() <= 32
        },
        Err(_) => true,
    }
}

/// The bytes of a base64 private key.
fn decoded_key(private_key: &str) -> (r: Result<Vec<u8>, NoiseError>)
    ensures
        match key_error(private_key@) {
            Some(e) => r == Err::<Vec<u8>, NoiseError>(e),
            None => r matches Ok(key) && key@ == key_bytes(private_key@) && encoding::base64_text(key@)
                == private_key@,
        },
{
    if private_key.as_bytes().len() < 4 {
        return Err(NoiseError::KeyTooShort);
    }
    match base64_decode(private_key) {
        Ok(key) => {
            proof {
                encoding::law_base64_injective(key@, key_bytes(private_key@));
            }
            Ok(key)
        },
        Err(_) => Err(NoiseError::InvalidBase64),
    }
}

/// A builder of the protocol that this library speaks.
fn xx_builder<'builder>(private_key: &'builder [u8], prologue: &'builder [u8]) -> (r: Result<
    Builder<'builder>,
    NoiseError,
>)
    ensures
        r matches Ok(builder) && builder_view(builder) == (BuilderView {
            params: NOISE_XX_PARAMS@,
            private_key: Some(private_key@),
            prologue: Some(prologue@),
        }),
{
    let params: NoiseParams = match parse_params(NOISE_XX_PARAMS) {
        Ok(params) => params,
        Err(_) => return Err(NoiseError::Params),
    };
    let builder = match set_private_key(new_builder(params), private_key) {
        Ok(builder) => builder,
        Err(_) => return Err(NoiseError::InvalidKey),
    };
    match set_prologue(builder, prologue) {
        Ok(builder) => Ok(builder),
        Err(_) => Err(NoiseError::InvalidPrologue),
    }
}

/// One end of a Noise XX handshake.
pub struct NoiseHandshake(HandshakeState);

impl View for NoiseHandshake {
    type V = HandshakeView;

    closed spec fn view(&self) -> HandshakeView {
        handshake_view(self.0)
    }
}

impl NoiseHandshake {
    /// The static public key that this end finds when it reads `message` as
    /// the second or third message, and `None` where it cannot read it.
    pub closed spec fn opens(&self, message: Seq<u8>) -> Option<Seq<u8>> {
        handshake_opens(self.0, message)
    }

    /// Speaks the protocol that this library is about.
    pub open spec fn wf(&self) -> bool {
        self@.params == NOISE_XX_PARAMS@
    }

    /// Starts the end that writes the first message.
    /// Takes the base64 text of the private key.
    pub fn new_initiator(private_key: &str, prologue: &[u8]) -> (r: Result<NoiseHandshake, NoiseError>)
        requires
            key_fits(private_key@),
        ensures
            r matches Err(e) ==> key_error(private_key@) == Some(e),
            r matches Ok(h) ==> key_error(private_key@) is None,
            r matches Ok(h) ==> h.wf() && h@ == fresh_view(true, private_key@, prologue@),
    {
        let key: Vec<u8> = match decoded_key(private_key) {
            Ok(key) => key,
            Err(e) => return Err(e),
        };
        NoiseHandshake::initiator_with(key.as_slice(), prologue)
    }

    /// Starts the end that writes the first message.
    /// Takes the bytes of the private key.
    pub fn initiator_with(private_key: &[u8], prologue: &[u8]) -> (r: Result<NoiseHandshake, NoiseError>)
        requires
            private_key@.len() <= 32,
        ensures
            r matches Ok(h) && h.wf() && h@ == initial_view(true, prologue@, private_key@),
    {
        let builder: Builder<'_> = match xx_builder(private_key, prologue) {
            Ok(builder) => builder,
            Err(e) => return Err(e),
        };
        match build_initiator(builder) {
            Ok(state) => Ok(NoiseHandshake(state)),
            Err(_) => Err(NoiseError::Build),
        }
    }

    /// Starts the end that reads the first message.
    /// Takes the base64 text of the private key.
    pub fn new_responder(private_key: &str, prologue: &[u8]) -> (r: Result<NoiseHandshake, NoiseError>)
        requires
            key_fits(private_key@),
        ensures
            r matches Err(e) ==> key_error(private_key@) == Some(e),
            r matches Ok(h) ==> key_error(private_key@) is None,
            r matches Ok(h) ==> h.wf() && h@ == fresh_view(false, private_key@, prologue@),
    {
        let key: Vec<u8> = match decoded_key(private_key) {
            Ok(key) => key,
            Err(e) => return Err(e),
        };
        NoiseHandshake::responder_with(key.as_slice(), prologue)
    }

    /// Starts the end that reads the first message.
    /// Takes the bytes of the private key.
    pub fn responder_with(private_key: &[u8], prologue: &[u8]) -> (r: Result<NoiseHandshake, NoiseError>)
        requires
            private_key@.len() <= 32,
        ensures
            r matches Ok(h) && h.wf() && h@ == initial_view(false, prologue@, private_key@),
    {
        let builder: Builder<'_> = match xx_builder(private_key, prologue) {
            Ok(builder) => builder,
            Err(e) => return Err(e),
        };
        match build_responder(builder) {
            Ok(state) => Ok(NoiseHandshake(state)),
            Err(_) => Err(NoiseError::Build),
        }
    }

    /// Reads a message from the other end of the handshake.
    pub fn read_message(&mut self, message: &[u8]) -> (r: Result<(), NoiseError>)
        requires
            old(self).wf(),
        ensures
            final(self).wf(),
            r matches Err(e) ==> e == NoiseError::Read,
            old(self)@.intact ==> read_result(*old(self), message@, *final(self), r is Ok),
    {
        let mut payload: Vec<u8> = Vec::new();
        match self.0.read_message(message, payload.as_mut_slice()) {
            Ok(_) => Ok(()),
            Err(_) => Err(NoiseError::Read),
        }
    }

    /// Produces the next message, to be read at the other end.
    pub fn next_message(&mut self) -> (r: Result<Vec<u8>, NoiseError>)
        requires
            old(self).wf(),
        ensures
            final(self).wf(),
            r matches Err(e) ==> e == NoiseError::Write && final(self)@ == old(self)@,
            old(self)@.intact && !old(self)@.can_write() ==> r is Err,
            old(self)@.intact && old(self)@.can_write() && old(self)@.position() == 2 ==> r is Ok,
            old(self)@.intact ==> (r matches Ok(message) ==> written(old(self)@, message@, final(self)@)),
    {
        let mut buf: [u8; 1024] = [0u8; 1024];
        let payload: [u8; 0] = [];
        match self.0.write_message(&payload, &mut buf) {
            Ok(written) => {
                let message: Vec<u8> = slice_to_vec(slice_subrange(&buf, 0, written));
                assert(message@ =~= buf@.take(written as int));
                Ok(message)
            },
            Err(_) => Err(NoiseError::Write),
        }
    }

    /// The base64 public key of the other end. It is known after the second
    /// message was read by the initiator, or the third by the responder.
    pub fn remote_public_key(&self) -> (r: Result<String, NoiseError>)
        requires
            self.wf(),
        ensures
            match self@.remote {
                Some(key) => r matches Ok(text) && text@ == encoding::base64_text(key),
                None => r == Err::<String, NoiseError>(NoiseError::NoRemoteKey),
            },
            r matches Ok(text) ==> is_base64_key(text@),
    {
        match self.0.get_remote_static() {
            Some(key) => {
                proof {
                    encoding::lemma_base64_len(key@);
                }
                Ok(base64_encode(key))
            },
            None => Err(NoiseError::NoRemoteKey),
        }
    }
}

/// What it means that the end `before` became `after` by writing `message`.
pub open spec fn written(before: HandshakeView, message: Seq<u8>, after: HandshakeView) -> bool {
    &&& before.can_write()
    &&& message.len() == message_len(before.position())
    &&& after == before.pushed(message)
    &&& handshake_message(before.transcript, before.local_public, message)
}

/// What it means that the end `before` became `after` by reading `message`,
/// with or without success.
pub open spec fn read_result(before: NoiseHandshake, message: Seq<u8>, after: NoiseHandshake, ok: bool) -> bool {
    &&& !before@.can_read() ==> !ok
    &&& before@.can_read() && before@.position() == 0 ==> {
        &&& ok <==> message.len() == message_len(0)
        &&& ok ==> after@ == before@.pushed(message)
    }
    &&& before@.can_read() && before@.position() > 0 ==> {
        &&& ok <==> before.opens(message) is Some
        &&& ok ==> message.len() == message_len(before@.position())
        &&& ok ==> after@ == before@.pushed_with(message, before.opens(message))
        &&& forall|public: Seq<u8>| #[trigger]
            handshake_message(before@.transcript, public, message) ==> ok && after@.remote == Some(public)
    }
}

/// Two ends that start from the same prologue, and that hand each other every
/// message unchanged, read every message, end with the same transcript, and
/// each end with the static public key of the other.
pub proof fn law_handshake_completes(
    prologue: Seq<u8>,
    initiator_key: Seq<u8>,
    responder_key: Seq<u8>,
    i: Seq<NoiseHandshake>,
    r: Seq<NoiseHandshake>,
    m: Seq<Seq<u8>>,
    ok: Seq<bool>,
)
    requires
        i.len() == 4 && r.len() == 4 && m.len() == 3 && ok.len() == 3,
        i[0]@ == initial_view(true, prologue, initiator_key),
        r[0]@ == initial_view(false, prologue, responder_key),
        written(i[0]@, m[0], i[1]@) && read_result(r[0], m[0], r[1], ok[0]),
        ok[0] ==> written(r[1]@, m[1], r[2]@) && read_result(i[1], m[1], i[2], ok[1]),
        ok[0] && ok[1] ==> written(i[2]@, m[2], i[3]@) && read_result(r[2], m[2], r[3], ok[2]),
    ensures
        ok[0] && ok[1] && ok[2],
        i[3]@.transcript == r[3]@.transcript,
        i[3]@.remote == Some(x25519_public(padded_key(responder_key))),
        r[3]@.remote == Some(x25519_public(padded_key(initiator_key))),
{
}

/// Whether `ends` is one end of a handshake, from its start with `prologue` on,
/// which wrote or read each of `messages`.
pub open spec fn is_end_of(ends: Seq<NoiseHandshake>, prologue: Seq<u8>, messages: Seq<Seq<u8>>) -> bool {
    &&& ends.len() == messages.len() + 1
    &&& exists|initiator: bool, key: Seq<u8>| ends[0]@ == #[trigger] initial_view(initiator, prologue, key)
    &&& forall|k: int| 0 <= k < messages.len() ==> written(ends[k]@, #[trigger] messages[k], ends[k + 1]@) || read_result(
        ends[k],
        messages[k],
        ends[k + 1],
        true,
    )
}

/// A transcript tells the prologue that its end started from: two ends whose
/// transcripts are equal, at whatever point of the handshake, started from the
/// same prologue and saw the same messages. Ends that started from different
/// prologues never come to have equal transcripts.
pub proof fn law_transcript_tells_the_prologue(
    a: Seq<NoiseHandshake>,
    a_prologue: Seq<u8>,
    a_messages: Seq<Seq<u8>>,
    b: Seq<NoiseHandshake>,
    b_prologue: Seq<u8>,
    b_messages: Seq<Seq<u8>>,
)
    requires
        is_end_of(a, a_prologue, a_messages),
        is_end_of(b, b_prologue, b_messages),
    ensures
        a.last()@.transcript == b.last()@.transcript <==> a_prologue == b_prologue && a_messages == b_messages,
{
    lemma_transcript(a, a_prologue, a_messages, a_messages.len() as int);
    lemma_transcript(b, b_prologue, b_messages, b_messages.len() as int);
    assert(a_messages.take(a_messages.len() as int) =~= a_messages);
    assert(b_messages.take(b_messages.len() as int) =~= b_messages);
    let left = seq![a_prologue] + a_messages;
    let right = seq![b_prologue] + b_messages;
    if left == right {
        assert(left[0] == right[0]);
        assert(a_messages =~= left.skip(1));
        assert(b_messages =~= right.skip(1));
    }
}

/// The transcript of an end after the first `n` messages.
proof fn lemma_transcript(ends: Seq<NoiseHandshake>, prologue: Seq<u8>, messages: Seq<Seq<u8>>, n: int)
    requires
        is_end_of(ends, prologue, messages),
        0 <= n <= messages.len(),
    ensures
        ends[n]@.transcript == seq![prologue] + messages.take(n),
    decreases n,
{
    if n > 0 {
        lemma_transcript(ends, prologue, messages, n - 1);
        let message = messages[n - 1];
        assert(written(ends[n - 1]@, message, ends[n]@) || read_result(ends[n - 1], message, ends[n], true));
        assert(ends[n]@.transcript == ends[n - 1]@.transcript.push(message));
        assert(messages.take(n) =~= messages.take(n - 1).push(message));
    }
    assert(ends[n]@.transcript =~= seq![prologue] + messages.take(n));
}

/// Whether `key` is the base64 text of 32 bytes, which has 44 characters.
pub open spec fn is_base64_key(key: Seq<char>) -> bool {
    &&& key.len() == 44
    &&& exists|bytes: Seq<u8>| bytes.len() == 32 && #[trigger] encoding::base64_text(bytes) == key
}

/// A base64 private key and its base64 public key.
pub struct Base64KeyPair {
    pub private_key: String,
    pub public_key: String,
}

impl Base64KeyPair {
    /// The base64 texts of a private key and its public key.
    pub fn from_bytes(private_key: &[u8], public_key: &[u8]) -> (r: Base64KeyPair)
        requires
            private_key@.len() < 0x4000_0000,
            public_key@.len() < 0x4000_0000,
        ensures
            r.private_key@ == encoding::base64_text(private_key@),
            r.public_key@ == encoding::base64_text(public_key@),
    {
        Base64KeyPair { private_key: base64_encode(private_key), public_key: base64_encode(public_key) }
    }

    /// Draws a fresh key pair. Fails only where the machine has no random
    /// bytes to give.
    pub fn generate() -> (r: Result<Base64KeyPair, NoiseError>)
        ensures
            r matches Err(e) ==> e == NoiseError::Generate,
            r matches Ok(pair) ==> pair.public_key@ == public_key_of(pair.private_key@),
            r matches Ok(pair) ==> key_error(pair.private_key@) is None,
            r matches Ok(pair) ==> key_fits(pair.private_key@),
            r matches Ok(pair) ==> key_bytes(pair.private_key@).len() == 32,
            r matches Ok(pair) ==> is_base64_key(pair.private_key@) && is_base64_key(pair.public_key@),
    {
        let params: NoiseParams = match parse_params(NOISE_XX_PARAMS) {
            Ok(params) => params,
            Err(_) => return Err(NoiseError::Params),
        };
        let builder = new_builder(params);
        match generate_keypair(&builder) {
            Ok((private, public)) => {
                let pair: Base64KeyPair = Base64KeyPair::from_bytes(private.as_slice(), public.as_slice());
                proof {
                    let text = pair.private_key@;
                    assert(encoding::base64_text(private@) == text);
                    assert forall|other: Seq<u8>| #[trigger] encoding::base64_text(other) == text implies other == private@ by {
                        encoding::law_base64_injective(other, private@);
                    }
                    assert(padded_key(private@) =~= private@);
                    encoding::lemma_base64_len(private@);
                    encoding::lemma_base64_len(public@);
                    text::lemma_utf8_len(text);
                }
                Ok(pair)
            },
            Err(_) => Err(NoiseError::Generate),
        }
    }
}

/// What can go wrong when a public key is computed.
#[derive(Debug, Clone, Copy, PartialEq, Eq, Structural)]
pub enum ComputeKeyError {
    /// The client handshake could not be created.
    Client(NoiseError),
    /// The server handshake could not be created.
    Server(NoiseError),
    /// The client could not write the first message.
    WriteMessage1,
    /// The server could not read the first message.
    ReadMessage1,
    /// The server could not write the second message.
    WriteMessage2,
    /// The client could not read the second message.
    ReadMessage2,
    /// The client found no public key.
    PublicKey(NoiseError),
}

/// Completes as much of a handshake as it takes to produce the base64 public
/// key of a base64 private key. Where the key can be read, it fails only where
/// the machine has no random bytes to give for the handshake messages.
pub fn compute_public_key(private_key: &str) -> (r: Result<String, ComputeKeyError>)
    requires
        key_fits(private_key@),
    ensures
        r matches Ok(public_key) ==> key_error(private_key@) is None,
        r matches Ok(public_key) ==> public_key@ == public_key_of(private_key@),
        r matches Ok(public_key) ==> is_base64_key(public_key@),
        r matches Err(e) ==> match e {
            ComputeKeyError::Server(cause) => key_error(private_key@) == Some(cause),
            ComputeKeyError::WriteMessage1 => true,
            ComputeKeyError::WriteMessage2 => key_error(private_key@) is None,
            _ => false,
        },
        key_error(private_key@) is Some ==> r == Err::<String, ComputeKeyError>(
            ComputeKeyError::Server(key_error(private_key@)->0),
        ),
{
    let prologue: [u8; 0] = [];
    // The private key of the client does not matter.
    let client_key = "0000";
    proof {
        lemma_client_key();
    }
    let mut client: NoiseHandshake = match NoiseHandshake::new_initiator(client_key, &prologue) {
        Ok(client) => client,
        Err(e) => return Err(ComputeKeyError::Client(e)),
    };
    // The server holds the key in question: its public key is the first that
    // becomes known.
    let mut server: NoiseHandshake = match NoiseHandshake::new_responder(private_key, &prologue) {
        Ok(server) => server,
        Err(e) => return Err(ComputeKeyError::Server(e)),
    };
    let message_1: Vec<u8> = match client.next_message() {
        Ok(message) => message,
        Err(_) => return Err(ComputeKeyError::WriteMessage1),
    };
    match server.read_message(message_1.as_slice()) {
        Ok(()) => {},
        Err(_) => return Err(ComputeKeyError::ReadMessage1),
    }
    let message_2: Vec<u8> = match server.next_message() {
        Ok(message) => message,
        Err(_) => return Err(ComputeKeyError::WriteMessage2),
    };
    match client.read_message(message_2.as_slice()) {
        Ok(()) => {},
        Err(_) => return Err(ComputeKeyError::ReadMessage2),
    }
    match client.remote_public_key() {
        Ok(public_key) => Ok(public_key),
        Err(e) => Err(ComputeKeyError::PublicKey(e)),
    }
}

/// The key of the client in `compute_public_key` is the base64 text of three
/// bytes.
proof fn lemma_client_key()
    ensures
        key_fits("0000"@),
        key_error("0000"@) is None,
{
    reveal_strlit("0000");
    let text = "0000"@;
    let bytes = seq![0xd3u8, 0x4du8, 0x34u8];
    assert(bytes.skip(3).len() == 0);
    assert(encoding::base64_text(bytes.skip(3)) =~= Seq::<char>::empty());
    assert(encoding::base64_text(bytes) =~= text);
    text::lemma_utf8_len(text);
    assert forall|other: Seq<u8>| #[trigger] encoding::base64_text(other) == text implies other.len() <= 32 by {
        encoding::law_base64_injective(other, bytes);
    }
}

/// Every private key of 1 to 32 bytes can be used, as its base64 text, and stands
/// for those bytes: its public key is that of the bytes, padded with zeros at
/// their end. A text of less than four bytes is too short, and one that is no
/// base64 text is refused.
pub proof fn law_keys_that_can_be_used(key: Seq<u8>, text: Seq<char>)
    ensures
        1 <= key.len() ==> key_error(encoding::base64_text(key)) is None,
        key_bytes(encoding::base64_text(key)) == key,
        key_fits(encoding::base64_text(key)) <==> key.len() <= 32,
        key.len() == 32 ==> public_key_of(encoding::base64_text(key)) == encoding::base64_text(x25519_public(key)),
        public_key_of(encoding::base64_text(key)) == encoding::base64_text(x25519_public(padded_key(key))),
        vstd::utf8::encode_utf8(text).len() < 4 <==> key_error(text) == Some(NoiseError::KeyTooShort),
        vstd::utf8::encode_utf8(text).len() >= 4 && (forall|bytes: Seq<u8>| #[trigger]
            encoding::base64_text(bytes) != text) <==> key_error(text) == Some(NoiseError::InvalidBase64),
        (forall|bytes: Seq<u8>| #[trigger] encoding::base64_text(bytes) != text) ==> key_fits(text),
{
    let encoded = encoding::base64_text(key);
    assert forall|other: Seq<u8>| #[trigger] encoding::base64_text(other) == encoded implies other == key by {
        encoding::law_base64_injective(other, key);
    }
    assert(encoding::base64_text(key_bytes(encoded)) == encoded);
    encoding::lemma_base64_len(key);
    text::lemma_utf8_len(encoded);
    if key.len() == 32 {
        assert(padded_key(key) =~= key);
    }
}

/// A padded key has 32 bytes: those of the key, then zeros.
pub proof fn law_keys_are_padded_with_zeros(key: Seq<u8>, i: int)
    requires
        key.len() <= 32,
    ensures
        padded_key(key).len() == 32,
        0 <= i < key.len() ==> padded_key(key)[i] == key[i],
        key.len() <= i < 32 ==> padded_key(key)[i] == 0,
{
}

/// A fresh end of a handshake has its own key, knows no other, and has seen
/// nothing but the prologue; the initiator writes first, and the ends take turns.
pub proof fn law_ends_take_turns(initiator: bool, prologue: Seq<u8>, key: Seq<u8>, message: Seq<u8>)
    ensures
        initial_view(initiator, prologue, key).transcript == seq![prologue],
        initial_view(initiator, prologue, key).local_public == x25519_public(padded_key(key)),
        initial_view(initiator, prologue, key).remote is None,
        initial_view(initiator, prologue, key).initiator == initiator,
        initial_view(initiator, prologue, key).can_write() <==> initiator,
        initial_view(initiator, prologue, key).can_read() <==> !initiator,
        initial_view(initiator, prologue, key).pushed(message).can_write() <==> !initiator,
        initial_view(initiator, prologue, key).pushed(message).can_read() <==> initiator,
        fresh_view(initiator, encoding::base64_text(key), prologue) == initial_view(initiator, prologue, key),
{
    law_keys_that_can_be_used(key, Seq::empty());
}

/// The keys that are handed out are the base64 texts of 32 bytes, and they have
/// 44 characters.
pub proof fn law_base64_keys(key: Seq<u8>, text: Seq<char>)
    ensures
        is_base64_key(encoding::base64_text(key)) <==> key.len() == 32,
        is_base64_key(text) ==> text.len() == 44,
{
    encoding::lemma_base64_len(key);
    let encoded = encoding::base64_text(key);
    if is_base64_key(encoded) {
        let bytes = choose|bytes: Seq<u8>| bytes.len() == 32 && #[trigger] encoding::base64_text(bytes) == encoded;
        encoding::law_base64_injective(bytes, key);
    }
}

/// An end reads only where it is its turn. It reads every first message of 32
/// bytes, and of the later ones those that it can open, in which it finds the
/// key of the other end; a message that it read is the next of its transcript.
pub proof fn law_what_an_end_reads(before: NoiseHandshake, message: Seq<u8>, after: NoiseHandshake, ok: bool)
    requires
        read_result(before, message, after, ok),
    ensures
        ok ==> before@.can_read(),
        ok ==> after@.transcript == before@.transcript.push(message),
        before@.can_read() && before@.position() == 0 ==> (ok <==> message.len() == 32),
        before@.can_read() && before@.position() > 0 ==> (ok <==> before.opens(message) is Some),
        ok && before@.position() > 0 ==> after@.remote == before.opens(message),
        ok && before@.position() == 0 ==> after@.remote == before@.remote,
        ok ==> after@.local_public == before@.local_public && after@.initiator == before@.initiator,
{
}

/// An end writes only where it is its turn, a message of 32, of 96 or of 64 bytes
/// by its place; it is the next of its transcript, and one that an end with its
/// key may write.
pub proof fn law_what_an_end_writes(before: HandshakeView, message: Seq<u8>, after: HandshakeView)
    requires
        written(before, message, after),
    ensures
        before.can_write(),
        message.len() == (if before.position() == 0 {
            32nat
        } else if before.position() == 1 {
            96
        } else {
            64
        }),
        after.transcript == before.transcript.push(message),
        handshake_message(before.transcript, before.local_public, message),
        after.local_public == before.local_public && after.remote == before.remote && after.initiator
            == before.initiator,
{
}

} // verus!
