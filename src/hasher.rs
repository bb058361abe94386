use vstd::prelude::*;
use rand::Rng;
use sha2::Digest;

verus! {

/// Number of characters in a freshly generated salt.
pub const SALT_LEN: usize = 16;

/// The SHA-256 digest of the UTF-8 encoding of `text`.
pub uninterp spec fn sha256_of_text(text: Seq<char>) -> Seq<u8>;

/// Relies on sha2's `Digest::digest` for `Sha256`: the 32-byte digest of the
/// text's UTF-8 bytes, which depends on the text alone.
#[verifier::external_body]
fn sha256_text(text: &str) -> (r: Vec<u8>)
    ensures
        r@ == sha256_of_text(text@),
        r@.len() == 32,
{
    sha2::Sha256::digest(text.as_bytes()).to_vec()
}

pub open spec fn is_alphanumeric_ascii(c: char) -> bool {
    ('0' <= c && c <= '9') || ('a' <= c && c <= 'z') || ('A' <= c && c <= 'Z')
}

/// Relies on rand's `Alphanumeric` distribution, sampled from `thread_rng`:
/// `len` characters, each drawn from `A-Z`, `a-z` and `0-9`.
#[verifier::external_body]
fn random_alphanumeric(len: usize) -> (r: String)
    ensures
        r@.len() == len,
        forall|i: int| 0 <= i < r@.len() ==> is_alphanumeric_ascii(#[trigger] r@[i]),
{
    rand::thread_rng().sample_iter(&rand::distributions::Alphanumeric).take(len).map(char::from).collect()
}

/// Upper-case hex digit of a value below 16.
pub open spec fn hex_digit(d: u8) -> char
    recommends
        d < 16,
{
    if d < 10 {
        ((d + 48) as u8) as char
    } else {
        ((d + 55) as u8) as char
    }
}

/// Two upper-case hex digits per byte, high half first.
pub open spec fn hex_upper(b: Seq<u8>) -> Seq<char> {
    Seq::new(
        (2 * b.len()) as nat,
        |i: int|
            if i % 2 == 0 {
                hex_digit(b[i / 2] / 16)
            } else {
                hex_digit(b[i / 2] % 16)
            },
    )
}

/// The stored form of a password under a salt: the hex digest of
/// `password ∥ salt`.
pub open spec fn password_digest(password: Seq<char>, salt: Seq<char>) -> Seq<char> {
    hex_upper(sha256_of_text(password + salt))
}

fn hex_digit_str(d: u8) -> (r: &'static str)
    requires
        d < 16,
    ensures
        r@ == seq![hex_digit(d)],
{
    proof {
        reveal_strlit("0");
        reveal_strlit("1");
        reveal_strlit("2");
        reveal_strlit("3");
        reveal_strlit("4");
        reveal_strlit("5");
        reveal_strlit("6");
        reveal_strlit("7");
        reveal_strlit("8");
        reveal_strlit("9");
        reveal_strlit("A");
        reveal_strlit("B");
        reveal_strlit("C");
        reveal_strlit("D");
        reveal_strlit("E");
        reveal_strlit("F");
    }
    match d {
        0 => "0",
        1 => "1",
        2 => "2",
        3 => "3",
        4 => "4",
        5 => "5",
        6 => "6",
        7 => "7",
        8 => "8",
        9 => "9",
        10 => "A",
        11 => "B",
        12 => "C",
        13 => "D",
        14 => "E",
        _ => "F",
    }
}

/// Renders bytes as upper-case hex, two digits per byte.
pub fn to_hex_upper(b: &Vec<u8>) -> (r: String)
    requires
        b@.len() <= usize::MAX / 2,
    ensures
        r@ == hex_upper(b@),
{
    let mut r = String::new();
    let mut i: usize = 0;
    while i < b.len()
        invariant
            i <= b@.len(),
            r@ == hex_upper(b@.subrange(0, i as int)),
        decreases b@.len() - i,
    {
        let byte = b[i];
        r.append(hex_digit_str(byte / 16));
        r.append(hex_digit_str(byte % 16));
        proof {
            assert(hex_upper(b@.subrange(0, i + 1)) =~= hex_upper(b@.subrange(0, i as int)) + seq![
                hex_digit(byte / 16),
                hex_digit(byte % 16),
            ]);
        }
        i = i + 1;
    }
    assert(b@.subrange(0, b@.len() as int) =~= b@);
    r
}

/// Returns a fresh random alphanumeric salt of `SALT_LEN` characters.
pub fn generate_salt() -> (r: String)
    ensures
        r@.len() == SALT_LEN,
        forall|i: int| 0 <= i < r@.len() ==> is_alphanumeric_ascii(#[trigger] r@[i]),
{
    random_alphanumeric(SALT_LEN)
}

/// Hashes `password ∥ salt` with SHA-256 and renders it as upper-case hex.
pub fn hash_password(password: &str, salt: &str) -> (r: String)
    ensures
        r@ == password_digest(password@, salt@),
        r@.len() == 64,
{
    let mut text = String::from_str(password);
    text.append(salt);
    let digest = sha256_text(text.as_str());
    to_hex_upper(&digest)
}

/// Whether `candidate` hashes, under `salt`, to the stored digest.
pub open spec fn password_matches(candidate: Seq<char>, stored_hash: Seq<char>, salt: Seq<char>) -> bool {
    password_digest(candidate, salt) == stored_hash
}

/// Checks a candidate password against a stored digest and salt.
pub fn verify_password(candidate: &str, stored_hash: &str, stored_salt: &str) -> (r: bool)
    ensures
        r == password_matches(candidate@, stored_hash@, stored_salt@),
{
    let h = hash_password(candidate, stored_salt);
    let stored = String::from_str(stored_hash);
    h == stored
}

/// A password always verifies against its own digest under the same salt.
pub proof fn lemma_hash_then_verify(password: Seq<char>, salt: Seq<char>)
    ensures
        password_matches(password, password_digest(password, salt), salt),
{
}

/// Under one salt, two different passwords are digested from different
/// texts; that their digests then differ is the collision resistance of
/// SHA-256, which is assumed and not proved here.
pub proof fn lemma_distinct_passwords_distinct_texts(p1: Seq<char>, p2: Seq<char>, salt: Seq<char>)
    requires
        p1 != p2,
    ensures
        p1 + salt != p2 + salt,
{
    if p1 + salt == p2 + salt {
        if p1.len() == p2.len() {
            assert forall|i: int| 0 <= i < p1.len() implies p1[i] == p2[i] by {
                assert((p1 + salt)[i] == (p2 + salt)[i]);
            }
            assert(p1 =~= p2);
        } else {
            assert((p1 + salt).len() == (p2 + salt).len());
        }
    }
}

} // verus!
