use vstd::prelude::*;

verus! {

/// Number of nested shard directories between the root and a record.
pub const DIRECTORY_TREE_HEIGHT: usize = 3;

/// Number of hexadecimal digits that name one shard directory.
pub const SINGLE_DIRECTORY_LENGTH: usize = 4;

/// The 16 bytes of the MD5 digest of the UTF-8 encoding of `s`.
pub uninterp spec fn md5_of(s: Seq<char>) -> Seq<u8>;

/// Relies on md5::compute: the digest of the key's bytes, 16 bytes long.
#[verifier::external_body]
fn md5_digest(key: &str) -> (r: Vec<u8>)
    ensures
        r@ == md5_of(key@),
        r@.len() == 16,
{
    md5::compute(key).0.to_vec()
}

/// Relies on String::push: the character is appended at the end.
#[verifier::external_body]
pub(crate) fn push_char(s: &mut String, c: char)
    ensures
        final(s)@ == old(s)@.push(c),
{
    s.push(c)
}

/// The lower-case hexadecimal digit of `n`, for `n < 16`.
pub open spec fn hex_digit(n: u8) -> char {
    if n < 10 {
        (('0' as u8) + n) as char
    } else {
        (('a' as u8) + (n - 10)) as char
    }
}

/// Lower-case hexadecimal text of a byte string, two digits per byte, high
/// nibble first.
pub open spec fn hex_of(b: Seq<u8>) -> Seq<char>
    decreases b.len(),
{
    if b.len() == 0 {
        Seq::empty()
    } else {
        hex_of(b.drop_last()) + seq![hex_digit(b.last() / 16), hex_digit(b.last() % 16)]
    }
}

/// The digest of a key as lower-case hexadecimal text.
pub open spec fn digest_hex(key: Seq<char>) -> Seq<char> {
    hex_of(md5_of(key))
}

/// The name of the shard directory at depth `i` (counting from zero).
pub open spec fn segment(key: Seq<char>, i: int) -> Seq<char> {
    digest_hex(key).subrange(
        SINGLE_DIRECTORY_LENGTH * i,
        SINGLE_DIRECTORY_LENGTH * i + SINGLE_DIRECTORY_LENGTH,
    )
}

/// `base` extended by the relative component `c`: a `/` goes between them
/// unless `base` is empty or already ends with one.
pub open spec fn join(base: Seq<char>, c: Seq<char>) -> Seq<char> {
    if base.len() == 0 || base.last() == '/' {
        base + c
    } else {
        base + seq!['/'] + c
    }
}

/// The directory of `key` after descending `n` shard levels below `root`.
pub open spec fn shard_prefix(root: Seq<char>, key: Seq<char>, n: nat) -> Seq<char>
    decreases n,
{
    if n == 0 {
        root
    } else {
        join(shard_prefix(root, key, (n - 1) as nat), segment(key, n - 1))
    }
}

/// The directory that holds the record of `key` in the store at `root`.
pub open spec fn key_dir(root: Seq<char>, key: Seq<char>) -> Seq<char> {
    shard_prefix(root, key, DIRECTORY_TREE_HEIGHT as nat)
}

/// The file that holds the record of `key` in the store at `root`.
pub open spec fn key_file(root: Seq<char>, key: Seq<char>) -> Seq<char> {
    join(key_dir(root, key), key)
}

proof fn lemma_hex_len(b: Seq<u8>)
    ensures
        hex_of(b).len() == 2 * b.len(),
    decreases b.len(),
{
    if b.len() > 0 {
        lemma_hex_len(b.drop_last());
    }
}

fn hex_char(n: u8) -> (c: char)
    requires
        n < 16,
    ensures
        c == hex_digit(n),
{
    if n < 10 {
        (48u8 + n) as char
    } else {
        (97u8 + (n - 10)) as char
    }
}

/// Lower-case hexadecimal text of `b`.
pub fn to_hex(b: &Vec<u8>) -> (r: String)
    ensures
        r@ == hex_of(b@),
{
    let mut r = String::new();
    let mut i: usize = 0;
    while i < b.len()
        invariant
            i <= b@.len(),
            r@ == hex_of(b@.subrange(0, i as int)),
        decreases b@.len() - i,
    {
        let x = b[i];
        push_char(&mut r, hex_char(x / 16));
        push_char(&mut r, hex_char(x % 16));
        assert(b@.subrange(0, i + 1).drop_last() =~= b@.subrange(0, i as int));
        i = i + 1;
    }
    assert(b@.subrange(0, b@.len() as int) =~= b@);
    r
}

/// Extends `base` by the relative component `c`, as [`join`] describes.
pub fn join_path(base: &str, c: &str) -> (r: String)
    ensures
        r@ == join(base@, c@),
{
    let mut r = base.to_owned();
    let n = base.unicode_len();
    if n == 0 || base.get_char(n - 1) == '/' {
        r.append(c);
    } else {
        proof {
            reveal_strlit("/");
        }
        r.append("/");
        r.append(c);
        assert(r@ =~= base@ + seq!['/'] + c@);
    }
    r
}

/// The directory that holds the record of `key` in the store at `root`.
/// The path depends on `root` and `key` alone.
pub fn key_path(root: &str, key: &str) -> (r: String)
    ensures
        r@ == key_dir(root@, key@),
{
    let digest = md5_digest(key);
    let hex = to_hex(&digest);
    proof {
        lemma_hex_len(digest@);
    }
    let mut p = root.to_owned();
    let mut i: usize = 0;
    while i < DIRECTORY_TREE_HEIGHT
        invariant
            i <= DIRECTORY_TREE_HEIGHT,
            hex@ == digest_hex(key@),
            hex@.len() == 32,
            p@ == shard_prefix(root@, key@, i as nat),
        decreases DIRECTORY_TREE_HEIGHT - i,
    {
        let start = SINGLE_DIRECTORY_LENGTH * i;
        let seg = hex.as_str().substring_char(start, start + SINGLE_DIRECTORY_LENGTH);
        p = join_path(p.as_str(), seg);
        i = i + 1;
    }
    p
}

} // verus!
