//! The R2 side of a hike: where its objects live, the configuration that
//! signs map URLs, and AWS Signature Version 4 query signing of a map `GET`.
use vstd::prelude::*;
use vstd::utf8::{encode_utf8, encode_utf8_decode_utf8};
use crate::strings::{decimal, hex_lower, hex_upper_byte, hex_upper_digit, push_decimal, push_hex_upper_byte};
use crate::time::{Instant, MAX_SECS, plus_secs, utc_formatting, utc_strftime, valid_instant};
use sha2::Digest;
use hmac::{Hmac, Mac};

verus! {

/// R2 key of the location list, written by the admin worker.
pub const LOCATIONS_KEY: &'static str = "resources/hike-locations.json";

/// How long a presigned map URL stays good, in seconds.
pub const PRESIGN_TTL_SECS: u64 = 3600;

/// What the signer needs to mint map URLs.
pub struct R2Config {
    pub account_id: String,
    pub bucket: String,
    pub access_key_id: String,
    pub secret_access_key: String,
    pub presign_ttl_secs: u64,
}

// ---------------------------------------------------------------------------
// Percent-encoding
// ---------------------------------------------------------------------------

/// The bytes SigV4 leaves unencoded: `A-Z a-z 0-9 - _ . ~`.
pub open spec fn unreserved(b: u8) -> bool {
    ||| 65 <= b <= 90
    ||| 97 <= b <= 122
    ||| 48 <= b <= 57
    ||| b == 45
    ||| b == 95
    ||| b == 46
    ||| b == 126
}

/// One byte, percent-encoded: an unreserved byte stands for itself, so does
/// `/` when slashes are kept, and every other byte becomes `%XX`.
pub open spec fn encode_byte(b: u8, encode_slash: bool) -> Seq<char> {
    if unreserved(b) {
        seq![b as char]
    } else if b == 47 && !encode_slash {
        seq!['/']
    } else {
        seq!['%'] + hex_upper_byte(b)
    }
}

/// A byte string, percent-encoded byte by byte.
pub open spec fn uri_encoded(bytes: Seq<u8>, encode_slash: bool) -> Seq<char>
    decreases bytes.len(),
{
    if bytes.len() == 0 {
        Seq::empty()
    } else {
        uri_encoded(bytes.drop_last(), encode_slash) + encode_byte(bytes.last(), encode_slash)
    }
}

/// Encoding distributes over concatenation.
pub proof fn lemma_uri_encoded_concat(a: Seq<u8>, b: Seq<u8>, encode_slash: bool)
    ensures
        uri_encoded(a + b, encode_slash) == uri_encoded(a, encode_slash) + uri_encoded(b, encode_slash),
    decreases b.len(),
{
    if b.len() == 0 {
        assert(a + b =~= a);
        assert(uri_encoded(b, encode_slash) =~= Seq::<char>::empty());
        assert(uri_encoded(a, encode_slash) + uri_encoded(b, encode_slash) =~= uri_encoded(a, encode_slash));
    } else {
        lemma_uri_encoded_concat(a, b.drop_last(), encode_slash);
        assert((a + b).drop_last() =~= a + b.drop_last());
        assert((a + b).last() == b.last());
        assert(uri_encoded(a + b, encode_slash) =~= uri_encoded(a, encode_slash) + uri_encoded(b, encode_slash));
    }
}

/// Without a `/` in it, a byte string encodes the same whether or not slashes
/// are kept.
pub proof fn lemma_uri_encoded_without_slash(s: Seq<u8>)
    requires
        forall|i: int| 0 <= i < s.len() ==> s[i] != 47,
    ensures
        uri_encoded(s, true) == uri_encoded(s, false),
    decreases s.len(),
{
    if s.len() > 0 {
        lemma_uri_encoded_without_slash(s.drop_last());
    }
}

/// Appends the encoding of `bytes[from..to]`.
fn push_uri_encoded(out: &mut String, bytes: &[u8], from: usize, to: usize, encode_slash: bool)
    requires
        from <= to <= bytes@.len(),
    ensures
        final(out)@ == old(out)@ + uri_encoded(bytes@.subrange(from as int, to as int), encode_slash),
{
    let mut i: usize = from;
    while i < to
        invariant
            from <= i <= to <= bytes@.len(),
            out@ == old(out)@ + uri_encoded(bytes@.subrange(from as int, i as int), encode_slash),
        decreases to - i,
    {
        let b: u8 = bytes[i];
        let ghost before = out@;
        if (b >= 65 && b <= 90) || (b >= 97 && b <= 122) || (b >= 48 && b <= 57) || b == 45
            || b == 95 || b == 46 || b == 126 {
            out.push(b as char);
        } else if b == 47 && !encode_slash {
            out.push('/');
        } else {
            out.push('%');
            push_hex_upper_byte(out, b);
        }
        assert(bytes@.subrange(from as int, (i + 1) as int).drop_last() =~= bytes@.subrange(
            from as int,
            i as int,
        ));
        assert(out@ =~= before + encode_byte(b, encode_slash));
        i = i + 1;
    }
}

/// Percent-encodes per AWS SigV4 rules: unreserved bytes pass through, `/`
/// passes through when `encode_slash` is false, every other byte of the UTF-8
/// text becomes `%XX` in upper-case hexadecimal.
pub fn uri_encode(input: &str, encode_slash: bool) -> (out: String)
    ensures
        out@ == uri_encoded(encode_utf8(input@), encode_slash),
{
    let bytes: &[u8] = input.as_bytes();
    let mut out: String = String::new();
    push_uri_encoded(&mut out, bytes, 0, bytes.len(), encode_slash);
    assert(bytes@.subrange(0, bytes@.len() as int) =~= bytes@);
    out
}

/// Encodes each `/`-separated segment of an object key and joins the encoded
/// segments with `/`: the separators survive and everything else in a segment
/// is encoded, which is the key's encoding with slashes kept.
pub fn uri_path_encode(object_key: &str) -> (out: String)
    ensures
        out@ == uri_encoded(encode_utf8(object_key@), false),
{
    let bytes: &[u8] = object_key.as_bytes();
    let n: usize = bytes.len();
    let mut out: String = String::new();
    let mut start: usize = 0;
    let mut i: usize = 0;
    while i < n
        invariant
            n == bytes@.len(),
            start <= i <= n,
            out@ == uri_encoded(bytes@.subrange(0, start as int), false),
            forall|j: int| start <= j < i ==> bytes@[j] != 47,
        decreases n - i,
    {
        if bytes[i] == 47 {
            let ghost seg = bytes@.subrange(start as int, i as int);
            push_uri_encoded(&mut out, bytes, start, i, true);
            out.push('/');
            proof {
                lemma_uri_encoded_without_slash(seg);
                let whole = bytes@.subrange(0, (i + 1) as int);
                assert(whole =~= bytes@.subrange(0, start as int) + (seg + seq![47u8]));
                lemma_uri_encoded_concat(bytes@.subrange(0, start as int), seg + seq![47u8], false);
                lemma_uri_encoded_concat(seg, seq![47u8], false);
                let slash = seq![47u8];
                assert(slash.drop_last() =~= Seq::<u8>::empty());
                assert(slash.last() == 47u8);
                assert(uri_encoded(Seq::<u8>::empty(), false) =~= Seq::<char>::empty());
                assert(encode_byte(47u8, false) =~= seq!['/']);
                assert(uri_encoded(slash, false) =~= seq!['/']);
            }
            start = i + 1;
        }
        i = i + 1;
    }
    let ghost seg = bytes@.subrange(start as int, n as int);
    push_uri_encoded(&mut out, bytes, start, n, true);
    proof {
        lemma_uri_encoded_without_slash(seg);
        assert(bytes@ =~= bytes@.subrange(0, start as int) + seg);
        lemma_uri_encoded_concat(bytes@.subrange(0, start as int), seg, false);
    }
    out
}


// ---------------------------------------------------------------------------
// Hashing
// ---------------------------------------------------------------------------

/// The SHA-256 digest `sha2` computes for a byte string.
pub uninterp spec fn sha256_digest(data: Seq<u8>) -> Seq<u8>;

/// The HMAC-SHA256 tag `hmac` computes for a key and a message.
pub uninterp spec fn hmac_sha256_tag(key: Seq<u8>, data: Seq<u8>) -> Seq<u8>;

/// SHA-256 of `data` with `sha2::Sha256::digest`. The digest is named by
/// `sha256_digest`; beyond its value, which is not stated, it is 32 bytes
/// long, as the output size of `Sha256` fixes.
#[verifier::external_body]
fn sha256(data: &[u8]) -> (digest: Vec<u8>)
    ensures
        digest@ == sha256_digest(data@),
        digest@.len() == 32,
{
    sha2::Sha256::digest(data).to_vec()
}

/// HMAC-SHA256 of `data` under `key` with `hmac::Hmac<sha2::Sha256>`, which
/// accepts a key of any length. The tag is named by `hmac_sha256_tag`;
/// beyond its value, which is not stated, it is 32 bytes long, the output
/// size of the underlying `Sha256`.
#[verifier::external_body]
fn hmac_sha256(key: &[u8], data: &[u8]) -> (tag: Vec<u8>)
    ensures
        tag@ == hmac_sha256_tag(key@, data@),
        tag@.len() == 32,
{
    let mut mac = <Hmac<sha2::Sha256> as Mac>::new_from_slice(key).expect("HMAC accepts any key length");
    mac.update(data);
    mac.finalize().into_bytes().to_vec()
}

/// `hex::encode`: two lower-case hexadecimal digits per byte, in order.
#[verifier::external_body]
fn hex_encode(data: &[u8]) -> (text: String)
    ensures
        text@ == hex_lower(data@),
{
    hex::encode(data)
}

// ---------------------------------------------------------------------------
// Signature Version 4
// ---------------------------------------------------------------------------

/// The key SigV4 derives from the secret for one day, region and service.
pub open spec fn signing_key(
    secret: Seq<char>,
    date_stamp: Seq<char>,
    region: Seq<char>,
    service: Seq<char>,
) -> Seq<u8> {
    let k_date = hmac_sha256_tag(encode_utf8("AWS4"@ + secret), encode_utf8(date_stamp));
    let k_region = hmac_sha256_tag(k_date, encode_utf8(region));
    let k_service = hmac_sha256_tag(k_region, encode_utf8(service));
    hmac_sha256_tag(k_service, encode_utf8("aws4_request"@))
}

/// Derives the SigV4 signing key: the secret, prefixed with `AWS4`, keys an
/// HMAC of the date stamp, whose tag keys one of the region, then the service,
/// then `aws4_request`.
fn derive_signing_key(secret: &str, date_stamp: &str, region: &str, service: &str) -> (key: Vec<u8>)
    ensures
        key@ == signing_key(secret@, date_stamp@, region@, service@),
{
    let mut prefixed: String = String::new();
    prefixed.push_str("AWS4");
    prefixed.push_str(secret);
    let k_date: Vec<u8> = hmac_sha256(prefixed.as_str().as_bytes(), date_stamp.as_bytes());
    let k_region: Vec<u8> = hmac_sha256(k_date.as_slice(), region.as_bytes());
    let k_service: Vec<u8> = hmac_sha256(k_region.as_slice(), service.as_bytes());
    hmac_sha256(k_service.as_slice(), "aws4_request".as_bytes())
}

/// `X-Amz-Date`: the signing instant as `YYYYMMDDTHHMMSSZ`.
pub open spec fn amz_date(now: Instant) -> Seq<char> {
    utc_formatting(now.secs, now.nanos, "%Y%m%dT%H%M%SZ"@)
}

/// The date stamp of the credential scope: the signing day as `YYYYMMDD`.
pub open spec fn date_stamp(now: Instant) -> Seq<char> {
    utc_formatting(now.secs, now.nanos, "%Y%m%d"@)
}

/// The R2 endpoint host of an account.
pub open spec fn r2_host(account_id: Seq<char>) -> Seq<char> {
    account_id + ".r2.cloudflarestorage.com"@
}

/// `{date}/auto/s3/aws4_request`: region `auto`, service `s3`.
pub open spec fn credential_scope(now: Instant) -> Seq<char> {
    date_stamp(now) + "/auto/s3/aws4_request"@
}

/// The path-style canonical URI: the bucket, then the encoded object key.
pub open spec fn canonical_uri(bucket: Seq<char>, object_key: Seq<char>) -> Seq<char> {
    "/"@ + bucket + "/"@ + uri_encoded(encode_utf8(object_key), false)
}

/// The canonical query string: the five signing parameters, sorted by name,
/// with the credential encoded and the lifetime in decimal.
pub open spec fn canonical_query(now: Instant, access_key_id: Seq<char>, expires_in_secs: nat) -> Seq<char> {
    "X-Amz-Algorithm=AWS4-HMAC-SHA256&X-Amz-Credential="@
        + uri_encoded(encode_utf8(access_key_id + "/"@ + credential_scope(now)), true)
        + "&X-Amz-Date="@ + amz_date(now)
        + "&X-Amz-Expires="@ + decimal(expires_in_secs)
        + "&X-Amz-SignedHeaders=host"@
}

/// The canonical request of an unsigned-payload `GET` signing only `host`.
pub open spec fn canonical_request(uri: Seq<char>, query: Seq<char>, host: Seq<char>) -> Seq<char> {
    "GET\n"@ + uri + "\n"@ + query + "\n"@ + "host:"@ + host + "\n"@ + "\n"@ + "host"@ + "\n"@
        + "UNSIGNED-PAYLOAD"@
}

/// The string to sign: algorithm, timestamp, scope and the hex SHA-256 of the
/// canonical request.
pub open spec fn string_to_sign(now: Instant, request: Seq<char>) -> Seq<char> {
    "AWS4-HMAC-SHA256\n"@ + amz_date(now) + "\n"@ + credential_scope(now) + "\n"@
        + hex_lower(sha256_digest(encode_utf8(request)))
}

/// The presigned URL for a `GET` of `object_key` in `bucket`, signed at `now`
/// with the given credentials and lifetime.
pub open spec fn presigned_url(
    now: Instant,
    account_id: Seq<char>,
    bucket: Seq<char>,
    object_key: Seq<char>,
    access_key_id: Seq<char>,
    secret_access_key: Seq<char>,
    expires_in_secs: nat,
) -> Seq<char> {
    let host = r2_host(account_id);
    let uri = canonical_uri(bucket, object_key);
    let query = canonical_query(now, access_key_id, expires_in_secs);
    "https://"@ + host + uri + "?"@ + query + "&X-Amz-Signature="@ + url_signature(
        now,
        account_id,
        bucket,
        object_key,
        access_key_id,
        secret_access_key,
        expires_in_secs,
    )
}

/// The `X-Amz-Signature` of a presigned URL: the lower-case hex of the
/// HMAC-SHA256, under the day's signing key, of the string to sign.
#[verifier::opaque]
pub open spec fn url_signature(
    now: Instant,
    account_id: Seq<char>,
    bucket: Seq<char>,
    object_key: Seq<char>,
    access_key_id: Seq<char>,
    secret_access_key: Seq<char>,
    expires_in_secs: nat,
) -> Seq<char> {
    let host = r2_host(account_id);
    let uri = canonical_uri(bucket, object_key);
    let query = canonical_query(now, access_key_id, expires_in_secs);
    let to_sign = string_to_sign(now, canonical_request(uri, query, host));
    let key = signing_key(secret_access_key, date_stamp(now), "auto"@, "s3"@);
    hex_lower(hmac_sha256_tag(key, encode_utf8(to_sign)))
}

/// Hex doubles the length.
pub proof fn lemma_hex_lower_len(data: Seq<u8>)
    ensures
        hex_lower(data).len() == 2 * data.len(),
    decreases data.len(),
{
    if data.len() > 0 {
        lemma_hex_lower_len(data.drop_last());
    }
}

/// Builds an R2 (S3-compatible) presigned GET URL by AWS SigV4 query signing:
/// region `auto`, service `s3`, `host` as the only signed header, an unsigned
/// payload, and the bucket in the path. A pure function of `now` and the
/// credentials.
pub fn presign_get_url(
    now: Instant,
    account_id: &str,
    bucket: &str,
    object_key: &str,
    access_key_id: &str,
    secret_access_key: &str,
    expires_in_secs: u64,
) -> (url: String)
    requires
        valid_instant(now),
    ensures
        url@ == presigned_url(
            now,
            account_id@,
            bucket@,
            object_key@,
            access_key_id@,
            secret_access_key@,
            expires_in_secs as nat,
        ),
        url_signature(
            now,
            account_id@,
            bucket@,
            object_key@,
            access_key_id@,
            secret_access_key@,
            expires_in_secs as nat,
        ).len() == 64,
{
    let amz_date: String = utc_strftime(now, "%Y%m%dT%H%M%SZ");
    let date_stamp: String = utc_strftime(now, "%Y%m%d");

    let mut host: String = String::new();
    host.push_str(account_id);
    host.push_str(".r2.cloudflarestorage.com");

    let mut credential_scope: String = String::new();
    credential_scope.push_str(date_stamp.as_str());
    credential_scope.push_str("/auto/s3/aws4_request");

    let mut credential_raw: String = String::new();
    credential_raw.push_str(access_key_id);
    credential_raw.push_str("/");
    credential_raw.push_str(credential_scope.as_str());
    let credential: String = uri_encode(credential_raw.as_str(), true);

    let mut canonical_uri: String = String::new();
    canonical_uri.push_str("/");
    canonical_uri.push_str(bucket);
    canonical_uri.push_str("/");
    let encoded_key: String = uri_path_encode(object_key);
    canonical_uri.push_str(encoded_key.as_str());

    // The parameters are listed in the order sorting them by name gives.
    let mut query: String = String::new();
    query.push_str("X-Amz-Algorithm=AWS4-HMAC-SHA256&X-Amz-Credential=");
    query.push_str(credential.as_str());
    query.push_str("&X-Amz-Date=");
    query.push_str(amz_date.as_str());
    query.push_str("&X-Amz-Expires=");
    push_decimal(&mut query, expires_in_secs);
    query.push_str("&X-Amz-SignedHeaders=host");

    let mut request: String = String::new();
    request.push_str("GET\n");
    request.push_str(canonical_uri.as_str());
    request.push_str("\n");
    request.push_str(query.as_str());
    request.push_str("\n");
    request.push_str("host:");
    request.push_str(host.as_str());
    request.push_str("\n");
    request.push_str("\n");
    request.push_str("host");
    request.push_str("\n");
    request.push_str("UNSIGNED-PAYLOAD");

    let request_digest: Vec<u8> = sha256(request.as_str().as_bytes());
    let hashed_request: String = hex_encode(request_digest.as_slice());

    let mut to_sign: String = String::new();
    to_sign.push_str("AWS4-HMAC-SHA256\n");
    to_sign.push_str(amz_date.as_str());
    to_sign.push_str("\n");
    to_sign.push_str(credential_scope.as_str());
    to_sign.push_str("\n");
    to_sign.push_str(hashed_request.as_str());

    let key: Vec<u8> = derive_signing_key(secret_access_key, date_stamp.as_str(), "auto", "s3");
    let tag: Vec<u8> = hmac_sha256(key.as_slice(), to_sign.as_str().as_bytes());
    let signature: String = hex_encode(tag.as_slice());

    let mut url: String = String::new();
    url.push_str("https://");
    url.push_str(host.as_str());
    url.push_str(canonical_uri.as_str());
    url.push_str("?");
    url.push_str(query.as_str());
    url.push_str("&X-Amz-Signature=");
    url.push_str(signature.as_str());

    proof {
        assert(host@ =~= r2_host(account_id@));
        assert(canonical_uri@ =~= crate::r2::canonical_uri(bucket@, object_key@));
        assert(query@ =~= canonical_query(now, access_key_id@, expires_in_secs as nat));
        assert(request@ =~= canonical_request(canonical_uri@, query@, host@));
        assert(to_sign@ =~= string_to_sign(now, request@));
        lemma_hex_lower_len(tag@);
        reveal(url_signature);
    }
    url
}

/// The expiry reported beside a presigned URL: the signing instant plus the
/// configured lifetime.
pub open spec fn map_expiry(now: Instant, config: &R2Config) -> Instant {
    plus_secs(now, config.presign_ttl_secs as int)
}

/// Signs a URL for the map object `map_key` (already known to exist) at `now`,
/// returning it with its expiry.
pub fn sign_map_url(config: &R2Config, map_key: &str, now: Instant) -> (signed: (String, Instant))
    requires
        valid_instant(now),
        now.nanos < 1_000_000_000,
        now.secs + config.presign_ttl_secs <= MAX_SECS,
    ensures
        signed.0@ == presigned_url(
            now,
            config.account_id@,
            config.bucket@,
            map_key@,
            config.access_key_id@,
            config.secret_access_key@,
            config.presign_ttl_secs as nat,
        ),
        signed.1 == map_expiry(now, config),
        valid_instant(signed.1),
{
    let url: String = presign_get_url(
        now,
        config.account_id.as_str(),
        config.bucket.as_str(),
        map_key,
        config.access_key_id.as_str(),
        config.secret_access_key.as_str(),
        config.presign_ttl_secs,
    );
    let expires: Instant = Instant { secs: now.secs + config.presign_ttl_secs as i64, nanos: now.nanos };
    (url, expires)
}

// ---------------------------------------------------------------------------
// Laws
// ---------------------------------------------------------------------------

/// The encoding of a byte string with one byte in front of another.
proof fn lemma_uri_encoded_cons(x: u8, rest: Seq<u8>, encode_slash: bool)
    ensures
        uri_encoded(seq![x] + rest, encode_slash) == encode_byte(x, encode_slash) + uri_encoded(
            rest,
            encode_slash,
        ),
{
    lemma_uri_encoded_concat(seq![x], rest, encode_slash);
    assert(seq![x].drop_last() =~= Seq::<u8>::empty());
    assert(uri_encoded(Seq::<u8>::empty(), encode_slash) =~= Seq::<char>::empty());
    assert(uri_encoded(seq![x], encode_slash) =~= encode_byte(x, encode_slash));
}

/// An upper-case hexadecimal digit determines its value.
proof fn lemma_hex_upper_digit_injective(d1: int, d2: int)
    requires
        0 <= d1 < 16,
        0 <= d2 < 16,
        hex_upper_digit(d1) == hex_upper_digit(d2),
    ensures
        d1 == d2,
{
}

/// The shape of one encoded byte: a single character that is not `%`, or `%`
/// and two digits; never `?`.
proof fn lemma_encode_byte_shape(x: u8, encode_slash: bool)
    ensures
        encode_byte(x, encode_slash).len() == 1 || encode_byte(x, encode_slash).len() == 3,
        (encode_byte(x, encode_slash)[0] == '%') <==> (encode_byte(x, encode_slash).len() == 3),
        forall|i: int| 0 <= i < encode_byte(x, encode_slash).len() ==> encode_byte(x, encode_slash)[i] != '?',
{
}

/// No encoding holds a `?`.
proof fn lemma_uri_encoded_has_no_question_mark(bytes: Seq<u8>, encode_slash: bool)
    ensures
        forall|i: int| 0 <= i < uri_encoded(bytes, encode_slash).len() ==> uri_encoded(bytes, encode_slash)[i] != '?',
    decreases bytes.len(),
{
    if bytes.len() > 0 {
        lemma_uri_encoded_has_no_question_mark(bytes.drop_last(), encode_slash);
        lemma_encode_byte_shape(bytes.last(), encode_slash);
        let front = uri_encoded(bytes.drop_last(), encode_slash);
        let back = encode_byte(bytes.last(), encode_slash);
        assert(uri_encoded(bytes, encode_slash) == front + back);
        assert forall|i: int| 0 <= i < (front + back).len() implies (front + back)[i] != '?' by {
            if i >= front.len() {
                assert((front + back)[i] == back[i - front.len()]);
            }
        }
    }
}

/// Percent-encoding loses nothing: two byte strings with the same encoding
/// are the same byte string.
pub proof fn lemma_uri_encoded_injective(a: Seq<u8>, b: Seq<u8>, encode_slash: bool)
    requires
        uri_encoded(a, encode_slash) == uri_encoded(b, encode_slash),
    ensures
        a == b,
    decreases a.len(),
{
    if a.len() == 0 || b.len() == 0 {
        if a.len() > 0 {
            assert(a =~= seq![a[0]] + a.drop_first());
            lemma_uri_encoded_cons(a[0], a.drop_first(), encode_slash);
            lemma_encode_byte_shape(a[0], encode_slash);
            assert(uri_encoded(b, encode_slash) =~= Seq::<char>::empty());
        } else if b.len() > 0 {
            assert(b =~= seq![b[0]] + b.drop_first());
            lemma_uri_encoded_cons(b[0], b.drop_first(), encode_slash);
            lemma_encode_byte_shape(b[0], encode_slash);
            assert(uri_encoded(a, encode_slash) =~= Seq::<char>::empty());
        } else {
            assert(a =~= b);
        }
    } else {
        let (x, y) = (a[0], b[0]);
        assert(a =~= seq![x] + a.drop_first());
        assert(b =~= seq![y] + b.drop_first());
        lemma_uri_encoded_cons(x, a.drop_first(), encode_slash);
        lemma_uri_encoded_cons(y, b.drop_first(), encode_slash);
        lemma_encode_byte_shape(x, encode_slash);
        lemma_encode_byte_shape(y, encode_slash);
        let ex = encode_byte(x, encode_slash);
        let ey = encode_byte(y, encode_slash);
        let whole = uri_encoded(a, encode_slash);
        assert(whole[0] == ex[0]);
        assert(whole[0] == ey[0]);
        if ex[0] == '%' {
            assert(whole[1] == ex[1] && whole[1] == ey[1]);
            assert(whole[2] == ex[2] && whole[2] == ey[2]);
            lemma_hex_upper_digit_injective(x as int / 16, y as int / 16);
            lemma_hex_upper_digit_injective(x as int % 16, y as int % 16);
            assert(x == y);
        } else {
            assert(x == y);
        }
        let n = ex.len() as int;
        assert(uri_encoded(a.drop_first(), encode_slash) =~= whole.subrange(n, whole.len() as int));
        assert(uri_encoded(b.drop_first(), encode_slash) =~= whole.subrange(n, whole.len() as int));
        lemma_uri_encoded_injective(a.drop_first(), b.drop_first(), encode_slash);
    }
}

/// A presigned URL names its object: with every other input the same, two
/// different object keys never sign to the same URL.
pub proof fn lemma_presigned_url_names_its_key(
    now: Instant,
    account_id: Seq<char>,
    bucket: Seq<char>,
    key1: Seq<char>,
    key2: Seq<char>,
    access_key_id: Seq<char>,
    secret_access_key: Seq<char>,
    expires_in_secs: nat,
)
    requires
        key1 != key2,
    ensures
        presigned_url(now, account_id, bucket, key1, access_key_id, secret_access_key, expires_in_secs)
            != presigned_url(now, account_id, bucket, key2, access_key_id, secret_access_key, expires_in_secs),
{
    let u1 = presigned_url(now, account_id, bucket, key1, access_key_id, secret_access_key, expires_in_secs);
    let u2 = presigned_url(now, account_id, bucket, key2, access_key_id, secret_access_key, expires_in_secs);
    if u1 == u2 {
        reveal_strlit("?");
        let prefix = "https://"@ + r2_host(account_id) + "/"@ + bucket + "/"@;
        let e1 = uri_encoded(encode_utf8(key1), false);
        let e2 = uri_encoded(encode_utf8(key2), false);
        let p: int = prefix.len() as int;
        let n1: int = e1.len() as int;
        let n2: int = e2.len() as int;
        let rest1 = u1.subrange(p + n1, u1.len() as int);
        let rest2 = u2.subrange(p + n2, u2.len() as int);
        assert(u1 =~= prefix + e1 + rest1);
        assert(u2 =~= prefix + e2 + rest2);
        assert(rest1[0] == '?');
        assert(rest2[0] == '?');
        lemma_uri_encoded_has_no_question_mark(encode_utf8(key1), false);
        lemma_uri_encoded_has_no_question_mark(encode_utf8(key2), false);
        if n1 < n2 {
            assert(u1[p + n1] == '?');
            assert(u2[p + n1] == e2[n1]);
        } else if n2 < n1 {
            assert(u2[p + n2] == '?');
            assert(u1[p + n2] == e1[n2]);
        } else {
            assert(e1 =~= u1.subrange(p, p + n1));
            assert(e2 =~= u2.subrange(p, p + n2));
            lemma_uri_encoded_injective(encode_utf8(key1), encode_utf8(key2), false);
            encode_utf8_decode_utf8(key1);
            encode_utf8_decode_utf8(key2);
        }
    }
}

/// Signing is a function of its inputs: the same instant, credentials, bucket,
/// key and lifetime always give the same URL.
pub proof fn lemma_presigned_url_deterministic(
    now1: Instant,
    now2: Instant,
    account_id: Seq<char>,
    bucket: Seq<char>,
    object_key: Seq<char>,
    access_key_id: Seq<char>,
    secret_access_key: Seq<char>,
    expires_in_secs: nat,
)
    requires
        now1 == now2,
    ensures
        presigned_url(now1, account_id, bucket, object_key, access_key_id, secret_access_key, expires_in_secs)
            == presigned_url(now2, account_id, bucket, object_key, access_key_id, secret_access_key, expires_in_secs),
{
}

/// A presigned URL is signed over the path it carries: the signature is the
/// HMAC-SHA256, under the day's signing key, of a string to sign whose
/// canonical request has as its URI exactly the URL's path, the bucket and
/// the per-segment percent-encoded object key, and as its query exactly the
/// URL's query.
pub proof fn lemma_signature_covers_the_url_path(
    now: Instant,
    account_id: Seq<char>,
    bucket: Seq<char>,
    object_key: Seq<char>,
    access_key_id: Seq<char>,
    secret_access_key: Seq<char>,
    expires_in_secs: nat,
)
    ensures
        ({
            let host = account_id + ".r2.cloudflarestorage.com"@;
            let path = "/"@ + bucket + "/"@ + uri_encoded(encode_utf8(object_key), false);
            let query = canonical_query(now, access_key_id, expires_in_secs);
            let request = "GET\n"@ + path + "\n"@ + query + "\n"@ + "host:"@ + host + "\n"@ + "\n"@ + "host"@ + "\n"@
                + "UNSIGNED-PAYLOAD"@;
            let to_sign = "AWS4-HMAC-SHA256\n"@ + amz_date(now) + "\n"@ + date_stamp(now) + "/auto/s3/aws4_request"@
                + "\n"@ + hex_lower(sha256_digest(encode_utf8(request)));
            let key = signing_key(secret_access_key, date_stamp(now), "auto"@, "s3"@);
            presigned_url(now, account_id, bucket, object_key, access_key_id, secret_access_key, expires_in_secs)
                == "https://"@ + host + path + "?"@ + query + "&X-Amz-Signature="@ + hex_lower(
                hmac_sha256_tag(key, encode_utf8(to_sign)),
            )
        }),
{
    reveal(url_signature);
    let host = account_id + ".r2.cloudflarestorage.com"@;
    let path = "/"@ + bucket + "/"@ + uri_encoded(encode_utf8(object_key), false);
    let query = canonical_query(now, access_key_id, expires_in_secs);
    let request = "GET\n"@ + path + "\n"@ + query + "\n"@ + "host:"@ + host + "\n"@ + "\n"@ + "host"@ + "\n"@
        + "UNSIGNED-PAYLOAD"@;
    let to_sign = "AWS4-HMAC-SHA256\n"@ + amz_date(now) + "\n"@ + date_stamp(now) + "/auto/s3/aws4_request"@ + "\n"@
        + hex_lower(sha256_digest(encode_utf8(request)));
    assert(canonical_uri(bucket, object_key) =~= path);
    assert(canonical_request(canonical_uri(bucket, object_key), query, r2_host(account_id)) =~= request);
    assert(string_to_sign(now, request) =~= to_sign);
    assert(presigned_url(now, account_id, bucket, object_key, access_key_id, secret_access_key, expires_in_secs)
        =~= "https://"@ + host + path + "?"@ + query + "&X-Amz-Signature="@ + hex_lower(
        hmac_sha256_tag(signing_key(secret_access_key, date_stamp(now), "auto"@, "s3"@), encode_utf8(to_sign)),
    ));
}

} // verus!
