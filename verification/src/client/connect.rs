//! What a watching client asks the relay for when it connects: the
//! relay's address, read as a URI, and a fresh random id it names itself by.
use vstd::prelude::*;
use tokio_tungstenite::tungstenite::http::uri::InvalidUri;
use tokio_tungstenite::tungstenite::http::Uri;

verus! {

/// The `http` crate's URI type; opaque here.
#[verifier::external_type_specification]
#[verifier::external_body]
pub struct ExUri(Uri);

/// The `http` crate's error for text that is not a URI; opaque here.
#[verifier::external_type_specification]
#[verifier::external_body]
pub struct ExInvalidUri(InvalidUri);

/// The URI that `str::parse::<http::Uri>` reads from `addr`, or `None`
/// where it rejects `addr`.
pub uninterp spec fn parsed_uri(addr: Seq<char>) -> Option<Uri>;

/// Calls `str::parse::<http::Uri>` (the `FromStr` impl of `http::Uri`).
/// Trusted: the result is `Ok` exactly where `parsed_uri` names a URI, and
/// is that URI. The contents of the error are not described.
#[verifier::external_body]
fn parse_uri(addr: &str) -> (r: Result<Uri, InvalidUri>)
    ensures
        match r {
            Ok(u) => parsed_uri(addr@) == Some(u),
            Err(_) => parsed_uri(addr@) is None,
        },
{
    addr.parse::<Uri>()
}

/// The layout of a random (version 4, RFC 4122 variant) UUID made from 16
/// random bytes: the high nibble of byte 6 becomes 4 and the two high bits of
/// byte 8 become `10`; every other bit is kept.
pub open spec fn v4_layout(random: Seq<u8>) -> Seq<u8> {
    random.update(6, (random[6] & 0x0f) | 0x40).update(8, (random[8] & 0x3f) | 0x80)
}

/// Whether 16 bytes are a random (version 4, RFC 4122 variant) UUID.
pub open spec fn is_v4(id: Seq<u8>) -> bool {
    &&& id.len() == 16
    &&& id[6] >> 4 == 4
    &&& id[8] >> 6 == 2
}

/// The `j`-th hexadecimal digit of a UUID's bytes, most significant first.
pub open spec fn nibble(id: Seq<u8>, j: int) -> nat {
    if j % 2 == 0 {
        (id[j / 2] / 16) as nat
    } else {
        (id[j / 2] % 16) as nat
    }
}

/// The lower-case character of a hexadecimal digit.
pub open spec fn hex_char(d: nat) -> char {
    if d < 10 {
        (48 + d) as char
    } else {
        (87 + d) as char
    }
}

/// The lower-case hyphenated text of a UUID: 32 hexadecimal digits in
/// groups of 8, 4, 4, 4 and 12, separated by `-`.
pub open spec fn hyphenated(id: Seq<u8>) -> Seq<char> {
    Seq::new(
        36,
        |k: int|
            if k == 8 || k == 13 || k == 18 || k == 23 {
                '-'
            } else {
                hex_char(
                    nibble(
                        id,
                        k - (if k < 8 {
                            0int
                        } else if k < 13 {
                            1int
                        } else if k < 18 {
                            2int
                        } else if k < 23 {
                            3int
                        } else {
                            4int
                        }),
                    ),
                )
            },
    )
}

/// The text of a UUID is 36 characters: dashes at positions 8, 13, 18 and
/// 23 and lower-case hexadecimal digits elsewhere; for a version 4 UUID
/// the digit at 14 is `4` and the one at 19 is `8`, `9`, `a` or `b`.
pub proof fn lemma_hyphenated_shape(id: Seq<u8>)
    requires
        id.len() == 16,
    ensures
        hyphenated(id).len() == 36,
        forall|k: int|
            0 <= k < 36 ==> (#[trigger] hyphenated(id)[k] == '-' <==> (k == 8 || k == 13 || k
                == 18 || k == 23)),
        forall|k: int|
            0 <= k < 36 && hyphenated(id)[k] != '-' ==> ('0' <= #[trigger] hyphenated(id)[k]
                <= '9' || 'a' <= hyphenated(id)[k] <= 'f'),
        is_v4(id) ==> hyphenated(id)[14] == '4',
        is_v4(id) ==> (hyphenated(id)[19] == '8' || hyphenated(id)[19] == '9' || hyphenated(
            id,
        )[19] == 'a' || hyphenated(id)[19] == 'b'),
{
    assert forall|k: int| 0 <= k < 36 && hyphenated(id)[k] != '-' implies ('0'
        <= #[trigger] hyphenated(id)[k] <= '9' || 'a' <= hyphenated(id)[k] <= 'f') by {
        let j = k - (if k < 8 {
            0int
        } else if k < 13 {
            1int
        } else if k < 18 {
            2int
        } else if k < 23 {
            3int
        } else {
            4int
        });
        assert(0 <= j < 32);
        assert(nibble(id, j) < 16);
    }
    if is_v4(id) {
        let b6 = id[6];
        let b8 = id[8];
        assert(b6 >> 4 == 4 ==> b6 / 16 == 4) by (bit_vector);
        assert(b8 >> 6 == 2 ==> 8 <= b8 / 16 <= 11) by (bit_vector);
        assert(nibble(id, 12) == 4);
        assert(8 <= nibble(id, 16) <= 11);
    }
}

/// Whether `text` is the hyphenated text of a random (version 4) UUID.
pub open spec fn is_v4_text(text: Seq<char>) -> bool {
    exists|id: Seq<u8>| is_v4(id) && text == hyphenated(id)
}

/// `getrandom`'s error for a random source that failed; opaque here.
#[verifier::external_type_specification]
#[verifier::external_body]
pub struct ExRandomError(getrandom::Error);

/// Calls `getrandom::fill` on 16 bytes. Trusted: nothing is claimed of the
/// bytes, which are random, nor of when the system's source fails; the call
/// reports failure as an error instead of panicking.
#[verifier::external_body]
fn random_bytes() -> (r: Result<[u8; 16], getrandom::Error>) {
    let mut bytes = [0u8; 16];
    getrandom::fill(&mut bytes)?;
    Ok(bytes)
}

/// Calls `uuid::Builder::from_random_bytes` and formats the UUID with its
/// `Display` impl. Trusted: the text is the lower-case hyphenated form of
/// the bytes with the version and variant bits set, as uuid's builder
/// (`with_variant`, `with_version`) and `format_hyphenated` do.
#[verifier::external_body]
fn v4_text(random: [u8; 16]) -> (text: String)
    ensures
        text@ == hyphenated(v4_layout(random@)),
{
    uuid::Builder::from_random_bytes(random).into_uuid().to_string()
}

/// Every 16 random bytes, laid out as a version 4 UUID, are a version 4
/// UUID: the version nibble is 4 and the variant bits are `10`, whatever
/// the random bytes were.
pub proof fn lemma_v4_layout_is_v4(random: Seq<u8>)
    requires
        random.len() == 16,
    ensures
        is_v4(v4_layout(random)),
        forall|i: int| 0 <= i < 16 && i != 6 && i != 8 ==> #[trigger] v4_layout(random)[i] == random[i],
{
    let b6 = random[6];
    let b8 = random[8];
    assert(((b6 & 0x0f) | 0x40) >> 4 == 4u8) by (bit_vector);
    assert(((b8 & 0x3f) | 0x80) >> 6 == 2u8) by (bit_vector);
}

/// The id drawn from 16 random bytes: the text of the version 4 UUID they
/// make.
fn client_id_from(random: [u8; 16]) -> (id: String)
    ensures
        id@ == hyphenated(v4_layout(random@)),
        is_v4_text(id@),
{
    let text = v4_text(random);
    proof {
        lemma_v4_layout_is_v4(random@);
    }
    text
}

/// Draws a fresh random id for a client, as the text of a version 4 UUID;
/// `None` where the system's random source fails.
pub fn new_client_id() -> (id: Option<String>)
    ensures
        id matches Some(text) ==> is_v4_text(text@),
{
    match random_bytes() {
        Ok(random) => Some(client_id_from(random)),
        Err(_) => None,
    }
}

/// What a client's connection to the relay is made from.
#[derive(Debug)]
pub struct RelayRequest {
    /// The relay's address.
    pub uri: Uri,
    /// The id the client names itself by, sent in the client-id header.
    pub client_id: String,
}

/// Why no connection to the relay can be tried.
#[derive(Debug)]
pub enum RelayError {
    /// The relay's address is not a URI.
    InvalidAddress(InvalidUri),
    /// No random id could be drawn: the system's random source failed.
    NoRandomness,
}

/// Makes the request for the relay at `uri` from what the random source
/// gave: `drawn` bytes make the client id; where the source failed
/// (`None`), no request can be made.
pub fn client_request(uri: Uri, drawn: Option<[u8; 16]>) -> (r: Result<RelayRequest, RelayError>)
    ensures
        r is Ok <==> drawn is Some,
        r matches Ok(req) ==> req.uri == uri && req.client_id@ == hyphenated(
            v4_layout(drawn.unwrap()@),
        ) && is_v4_text(req.client_id@),
        r matches Err(e) ==> e is NoRandomness,
{
    match drawn {
        Some(random) => Ok(RelayRequest { uri, client_id: client_id_from(random) }),
        None => Err(RelayError::NoRandomness),
    }
}

/// Reads the relay's address as a URI and draws a fresh random id for the
/// client. An address that is not a URI is refused before any id is
/// drawn or any connection is tried; any address that is one is used, and
/// the request then fails only where the random source does.
pub fn relay_request(addr: &str) -> (r: Result<RelayRequest, RelayError>)
    ensures
        r matches Err(RelayError::InvalidAddress(_)) <==> parsed_uri(addr@) is None,
        r matches Ok(req) ==> parsed_uri(addr@) == Some(req.uri) && is_v4_text(
            req.client_id@,
        ),
{
    let uri = match parse_uri(addr) {
        Ok(uri) => uri,
        Err(e) => return Err(RelayError::InvalidAddress(e)),
    };
    let drawn = match random_bytes() {
        Ok(random) => Some(random),
        Err(_) => None,
    };
    client_request(uri, drawn)
}

} // verus!
