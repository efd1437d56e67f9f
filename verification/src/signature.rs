//! The request signature: `$1$` followed by the SHA-1 digest, in lower-case
//! hexadecimal, of six fields joined by `+`.

use vstd::prelude::*;
use vstd::string::*;
use vstd::utf8::*;

use crate::error::{OvhError, OvhErrorView};
use crate::text::lemma_utf8_length;

verus! {

/// The number of bytes from which on a text cannot be digested: the digest
/// counts its input in bits, in 64 of them.
pub const DIGEST_INPUT_LIMIT: u64 = 0x2000_0000_0000_0000;

/// The six texts that a signature is computed from.
pub struct SignedFields {
    pub application_secret: Seq<char>,
    pub consumer_key: Seq<char>,
    pub method: Seq<char>,
    pub url: Seq<char>,
    pub body: Seq<char>,
    pub timestamp: Seq<char>,
}

impl SignedFields {
    /// The text that is digested: the fields in their order, a `+` between
    /// each two.
    pub open spec fn message(self) -> Seq<char> {
        self.application_secret + "+"@ + self.consumer_key + "+"@ + self.method + "+"@ + self.url
            + "+"@ + self.body + "+"@ + self.timestamp
    }

    /// Whether the message is short enough to be digested.
    pub open spec fn signable(self) -> bool {
        encode_utf8(self.message()).len() < DIGEST_INPUT_LIMIT
    }

    /// The signature of the fields.
    pub open spec fn signature(self) -> Seq<char> {
        tagged(sha1_hex(self.message()))
    }

    /// In how many of the six fields two values differ.
    pub open spec fn distance(self, other: SignedFields) -> nat {
        let d1: nat = if self.application_secret != other.application_secret {
            1
        } else {
            0
        };
        let d2: nat = if self.consumer_key != other.consumer_key {
            1
        } else {
            0
        };
        let d3: nat = if self.method != other.method {
            1
        } else {
            0
        };
        let d4: nat = if self.url != other.url {
            1
        } else {
            0
        };
        let d5: nat = if self.body != other.body {
            1
        } else {
            0
        };
        let d6: nat = if self.timestamp != other.timestamp {
            1
        } else {
            0
        };
        d1 + d2 + d3 + d4 + d5 + d6
    }
}

/// The SHA-1 digest of a text's UTF-8 bytes, as 40 lower-case hexadecimal
/// digits: what the `sha1` crate computes.
pub uninterp spec fn sha1_hex(message: Seq<char>) -> Seq<char>;

/// Whether a character is a hexadecimal digit in lower case.
pub open spec fn is_lower_hex(c: char) -> bool {
    ('0' <= c <= '9') || ('a' <= c <= 'f')
}

/// Whether a text has the shape of a digest: 40 hexadecimal digits in
/// lower case.
pub open spec fn is_hex_digest(digest: Seq<char>) -> bool {
    &&& digest.len() == 40
    &&& forall|i: int| 0 <= i < 40 ==> is_lower_hex(#[trigger] digest[i])
}

/// Whether a text has the shape of a signature: 43 characters, the tag
/// `$1$` and then a digest.
pub open spec fn is_signature(signature: Seq<char>) -> bool {
    &&& signature.len() == 43
    &&& signature[0] == '$'
    &&& signature[1] == '1'
    &&& signature[2] == '$'
    &&& forall|i: int| 3 <= i < 43 ==> is_lower_hex(#[trigger] signature[i])
}

/// A digest with the tag of the signature scheme in front.
pub open spec fn tagged(digest: Seq<char>) -> Seq<char> {
    "$1$"@ + digest
}

/// Digests a text with the `sha1` crate: `Sha1::from` on the text, then
/// `hexdigest` on the hasher. Trusted: that the digest is a function of the
/// text alone, and that it is printed as five words of eight hexadecimal
/// digits in lower case. The bound keeps the hasher's count of input bits
/// within 64 bits.
#[verifier::external_body]
fn sha1_hexdigest(message: &str) -> (hex: String)
    requires
        message.spec_bytes().len() < DIGEST_INPUT_LIMIT,
    ensures
        hex@ == sha1_hex(message@),
        is_hex_digest(hex@),
{
    sha1::Sha1::from(message).hexdigest()
}

/// Puts the scheme's tag in front of a digest. What has the shape of a
/// digest becomes what has the shape of a signature.
pub fn tag_digest(digest: &str) -> (signature: String)
    ensures
        signature@ == tagged(digest@),
        is_hex_digest(digest@) ==> is_signature(signature@),
{
    proof {
        if is_hex_digest(digest@) {
            lemma_tagged_shape(digest@);
        }
    }
    let mut signature = String::from_str("$1$");
    signature.append(digest);
    signature
}

/// Joins the six fields into the text that is digested.
pub fn signing_message(
    application_secret: &str,
    consumer_key: &str,
    method: &str,
    url: &str,
    body: &str,
    timestamp: &str,
) -> (message: String)
    ensures
        message@ == (SignedFields {
            application_secret: application_secret@,
            consumer_key: consumer_key@,
            method: method@,
            url: url@,
            body: body@,
            timestamp: timestamp@,
        }).message(),
{
    let mut message = String::from_str(application_secret);
    message.append("+");
    message.append(consumer_key);
    message.append("+");
    message.append(method);
    message.append("+");
    message.append(url);
    message.append("+");
    message.append(body);
    message.append("+");
    message.append(timestamp);
    message
}

/// Signs a request: the tag `$1$`, then the digest of the joined fields,
/// 43 characters in all.
///
/// Fails with `OutOfRange`, and only then, when the joined fields are too
/// long to be digested.
pub fn signature(
    application_secret: &str,
    consumer_key: &str,
    method: &str,
    url: &str,
    body: &str,
    timestamp: &str,
) -> (r: Result<String, OvhError>)
    ensures
        ({
            let fields = SignedFields {
                application_secret: application_secret@,
                consumer_key: consumer_key@,
                method: method@,
                url: url@,
                body: body@,
                timestamp: timestamp@,
            };
            match r {
                Ok(signature) => {
                    &&& fields.signable()
                    &&& signature@ == fields.signature()
                    &&& is_signature(signature@)
                },
                Err(e) => !fields.signable() && e@ == OvhErrorView::OutOfRange,
            }
        }),
{
    let message = signing_message(
        application_secret,
        consumer_key,
        method,
        url,
        body,
        timestamp,
    );
    let length: usize = message.as_str().as_bytes().len();
    if length as u64 >= DIGEST_INPUT_LIMIT {
        return Err(OvhError::OutOfRange);
    }
    let digest = sha1_hexdigest(message.as_str());
    Ok(tag_digest(digest.as_str()))
}

/// A digest with the tag in front has the shape of a signature.
pub proof fn lemma_tagged_shape(digest: Seq<char>)
    requires
        is_hex_digest(digest),
    ensures
        is_signature(tagged(digest)),
{
    reveal_strlit("$1$");
    let signature = tagged(digest);
    assert(signature.len() == 43);
    assert forall|i: int| 3 <= i < 43 implies is_lower_hex(#[trigger] signature[i]) by {
        assert(signature[i] == digest[i - 3]);
    }
}

/// Fields can be signed whenever the text that is digested has fewer
/// characters than a quarter of the digest's limit in bytes.
pub proof fn lemma_short_message_signable(fields: SignedFields)
    requires
        4 * fields.message().len() < DIGEST_INPUT_LIMIT,
    ensures
        fields.signable(),
{
    lemma_utf8_length(fields.message());
}

/// A text changes when a part of it changes and what stands before and
/// after that part stays.
proof fn lemma_middle_decides(before: Seq<char>, x: Seq<char>, y: Seq<char>, after: Seq<char>)
    requires
        before + x + after == before + y + after,
    ensures
        x == y,
{
    let left = before + x + after;
    let right = before + y + after;
    assert(left.len() == before.len() + x.len() + after.len());
    assert(right.len() == before.len() + y.len() + after.len());
    assert forall|i: int| 0 <= i < x.len() implies x[i] == y[i] by {
        assert(left[before.len() + i] == x[i]);
        assert(right[before.len() + i] == y[i]);
    }
    assert(x =~= y);
}

/// Determinism: fields that are equal one by one have the same signature.
pub proof fn lemma_signature_deterministic(a: SignedFields, b: SignedFields)
    requires
        a.application_secret == b.application_secret,
        a.consumer_key == b.consumer_key,
        a.method == b.method,
        a.url == b.url,
        a.body == b.body,
        a.timestamp == b.timestamp,
    ensures
        a.message() == b.message(),
        a.signature() == b.signature(),
{
}

/// Changing exactly one of the six fields changes the text that is digested.
pub proof fn lemma_one_field_changes_message(a: SignedFields, b: SignedFields)
    requires
        a.distance(b) == 1,
    ensures
        a.message() != b.message(),
{
    let plus = "+"@;
    let ma = a.message();
    let mb = b.message();
    if ma == mb {
        if a.application_secret != b.application_secret {
            let after = plus + a.consumer_key + plus + a.method + plus + a.url + plus + a.body
                + plus + a.timestamp;
            let none = Seq::<char>::empty();
            assert(ma =~= none + a.application_secret + after);
            assert(mb =~= none + b.application_secret + after);
            lemma_middle_decides(none, a.application_secret, b.application_secret, after);
        } else if a.consumer_key != b.consumer_key {
            let before = a.application_secret + plus;
            let after = plus + a.method + plus + a.url + plus + a.body + plus + a.timestamp;
            assert(ma =~= before + a.consumer_key + after);
            assert(mb =~= before + b.consumer_key + after);
            lemma_middle_decides(before, a.consumer_key, b.consumer_key, after);
        } else if a.method != b.method {
            let before = a.application_secret + plus + a.consumer_key + plus;
            let after = plus + a.url + plus + a.body + plus + a.timestamp;
            assert(ma =~= before + a.method + after);
            assert(mb =~= before + b.method + after);
            lemma_middle_decides(before, a.method, b.method, after);
        } else if a.url != b.url {
            let before = a.application_secret + plus + a.consumer_key + plus + a.method + plus;
            let after = plus + a.body + plus + a.timestamp;
            assert(ma =~= before + a.url + after);
            assert(mb =~= before + b.url + after);
            lemma_middle_decides(before, a.url, b.url, after);
        } else if a.body != b.body {
            let before = a.application_secret + plus + a.consumer_key + plus + a.method + plus
                + a.url + plus;
            let after = plus + a.timestamp;
            assert(ma =~= before + a.body + after);
            assert(mb =~= before + b.body + after);
            lemma_middle_decides(before, a.body, b.body, after);
        } else {
            let before = a.application_secret + plus + a.consumer_key + plus + a.method + plus
                + a.url + plus + a.body + plus;
            let none = Seq::<char>::empty();
            assert(ma =~= before + a.timestamp + none);
            assert(mb =~= before + b.timestamp + none);
            lemma_middle_decides(before, a.timestamp, b.timestamp, none);
        }
    }
}

/// Two signatures are equal exactly when the digests under them are.
pub proof fn lemma_signature_follows_digest(a: SignedFields, b: SignedFields)
    ensures
        a.signature() == b.signature() <==> sha1_hex(a.message()) == sha1_hex(b.message()),
{
    let none = Seq::<char>::empty();
    let da = sha1_hex(a.message());
    let db = sha1_hex(b.message());
    if a.signature() == b.signature() {
        assert(a.signature() =~= "$1$"@ + da + none);
        assert(b.signature() =~= "$1$"@ + db + none);
        lemma_middle_decides("$1$"@, da, db, none);
    }
}

} // verus!
