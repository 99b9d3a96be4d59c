//! Type tags: the keyed hash that turns the identity of a concrete
//! enumeration into the non-zero tag of its erased identifiers.
//!
//! The hash itself is SipHash-2-4 as `lccc_siphash` computes it. This module
//! fixes what is fed to it, byte for byte, and what is done with the digests.

use vstd::prelude::*;
use vstd::slice::slice_subrange;
use vstd::utf8::encode_utf8;
use lccc_siphash::SipHasher;

verus! {

/// `lccc_siphash::SipHasher`, whose state Verus does not look into.
#[verifier::external_type_specification]
#[verifier::external_body]
pub struct ExSipHasher<const C: usize, const D: usize>(SipHasher<C, D>);

/// One thing that was done to a hasher since it was made.
pub enum HashEvent {
    /// Bytes were written to it.
    Write(Seq<u8>),
    /// A word was mixed straight into its state.
    Mix(u64),
}

/// The two keys that a hasher was made with.
pub uninterp spec fn hasher_keys(h: SipHasher<2, 4>) -> (u64, u64);

/// Everything that a hasher was fed since it was made, in order.
pub uninterp spec fn hasher_fed(h: SipHasher<2, 4>) -> Seq<HashEvent>;

/// The digest of a hasher that was made with the keys `k0` and `k1` and then
/// fed `fed`, on the target that the library is built for.
pub uninterp spec fn sip24(k0: u64, k1: u64, fed: Seq<HashEvent>) -> u64;

/// The number of bytes written in `fed`.
pub open spec fn fed_len(fed: Seq<HashEvent>) -> nat
    decreases fed.len(),
{
    if fed.len() == 0 {
        0
    } else {
        fed_len(fed.drop_last()) + match fed.last() {
            HashEvent::Write(bytes) => bytes.len(),
            HashEvent::Mix(_) => 0,
        }
    }
}

/// Calls `SipHasher::<2, 4>::new_with_keys`: the hasher it returns has the
/// given keys and was fed nothing.
#[verifier::external_body]
fn hasher_new(k0: u64, k1: u64) -> (h: SipHasher<2, 4>)
    ensures
        hasher_keys(h) == (k0, k1),
        hasher_fed(h) == Seq::<HashEvent>::empty(),
{
    SipHasher::<2, 4>::new_with_keys(k0, k1)
}

/// Calls `Hasher::write` of `SipHasher<2, 4>`, which takes the bytes into the
/// hasher's state and keeps its keys.
///
/// The hasher counts the bytes it was given in a `usize`; the count may not
/// overflow.
#[verifier::external_body]
fn hasher_write(h: &mut SipHasher<2, 4>, bytes: &[u8])
    requires
        fed_len(hasher_fed(*old(h))) + bytes@.len() <= usize::MAX,
    ensures
        hasher_keys(*final(h)) == hasher_keys(*old(h)),
        hasher_fed(*final(h)) == hasher_fed(*old(h)).push(HashEvent::Write(bytes@)),
{
    core::hash::Hasher::write(h, bytes)
}

/// Calls `SipHasher::<2, 4>::update`, which mixes one word into the hasher's
/// state and keeps its keys.
#[verifier::external_body]
fn hasher_update(h: &mut SipHasher<2, 4>, word: u64)
    ensures
        hasher_keys(*final(h)) == hasher_keys(*old(h)),
        hasher_fed(*final(h)) == hasher_fed(*old(h)).push(HashEvent::Mix(word)),
{
    h.update(word)
}

/// Calls `Hasher::finish` of `SipHasher<2, 4>`, which leaves the hasher as it
/// is and returns the digest of what it was fed, under its keys.
#[verifier::external_body]
fn hasher_finish(h: &SipHasher<2, 4>) -> (digest: u64)
    ensures
        digest == sip24(hasher_keys(*h).0, hasher_keys(*h).1, hasher_fed(*h)),
{
    core::hash::Hasher::finish(h)
}

/// The two keys under which the tags of one build are minted.
#[derive(Copy, Clone, Debug, PartialEq, Eq, Structural)]
pub struct BuildSeed {
    pub k0: u64,
    pub k1: u64,
}

/// The first key of the hasher that derives a build's seed.
pub const SEED_KEY0: u64 = 11717105939243852261;

/// The second key of the hasher that derives a build's seed.
pub const SEED_KEY1: u64 = 11816760824499105823;

/// The seed that comes of feeding the seed hasher `head`, for the first key,
/// and then `tail`, for the second.
pub open spec fn seed_spec(head: Seq<u8>, tail: Seq<u8>) -> BuildSeed {
    BuildSeed {
        k0: sip24(SEED_KEY0, SEED_KEY1, seq![HashEvent::Write(head)]),
        k1: sip24(SEED_KEY0, SEED_KEY1, seq![HashEvent::Write(head), HashEvent::Write(tail)]),
    }
}

/// Derives a build's seed from `bytes`, of which the first `mid` go into
/// both keys and the rest into the second key only.
pub fn derive_seed(bytes: &[u8], mid: usize) -> (seed: BuildSeed)
    requires
        mid <= bytes@.len(),
    ensures
        seed == seed_spec(
            bytes@.subrange(0, mid as int),
            bytes@.subrange(mid as int, bytes@.len() as int),
        ),
{
    let len: usize = bytes.len();
    let head = slice_subrange(bytes, 0, mid);
    let tail = slice_subrange(bytes, mid, len);
    let mut h = hasher_new(SEED_KEY0, SEED_KEY1);
    assert(fed_len(hasher_fed(h)) == 0);
    hasher_write(&mut h, head);
    assert(hasher_fed(h) =~= seq![HashEvent::Write(head@)]);
    let k0: u64 = hasher_finish(&h);
    assert(fed_len(hasher_fed(h)) == head@.len()) by {
        assert(hasher_fed(h).drop_last() =~= Seq::<HashEvent>::empty());
        reveal_with_fuel(fed_len, 2);
    }
    hasher_write(&mut h, tail);
    assert(hasher_fed(h) =~= seq![HashEvent::Write(head@), HashEvent::Write(tail@)]);
    let k1: u64 = hasher_finish(&h);
    BuildSeed { k0, k1 }
}

/// The eight bytes of a word, lowest first.
pub open spec fn word_bytes(x: u64) -> Seq<u8> {
    Seq::new(8, |i: int| word_byte(x, i))
}

/// Byte `i` of a word, counted from the lowest.
pub open spec fn word_byte(x: u64, i: int) -> u8 {
    ((x >> ((8 * i) as u64)) & 0xff) as u8
}

/// `bytes`, followed by as few zero bytes as make the length a multiple of
/// eight.
pub open spec fn padded(bytes: Seq<u8>) -> Seq<u8> {
    bytes + Seq::new(((8 - bytes.len() % 8) % 8) as nat, |i: int| 0u8)
}

/// The encoding of a byte string: its length as a word, then its bytes,
/// padded to whole words.
#[verifier::opaque]
pub open spec fn text_bytes(bytes: Seq<u8>) -> Seq<u8> {
    word_bytes(bytes.len() as u64) + padded(bytes)
}

/// Appends the encoding of a word to `out`.
pub fn put_word(out: &mut Vec<u8>, x: u64)
    ensures
        final(out)@ == old(out)@ + word_bytes(x),
{
    let mut i: u64 = 0;
    while i < 8
        invariant
            i <= 8,
            out@ == old(out)@ + word_bytes(x).subrange(0, i as int),
        decreases 8 - i,
    {
        let shifted: u64 = (x >> (8 * i)) & 0xff;
        assert(shifted < 256) by (bit_vector)
            requires
                shifted == (x >> (8 * i)) & 0xff,
        ;
        out.push(shifted as u8);
        assert(out@ =~= old(out)@ + word_bytes(x).subrange(0, i + 1));
        i = i + 1;
    }
    assert(word_bytes(x).subrange(0, 8) =~= word_bytes(x));
}

/// Appends the encoding of a byte string to `out`.
pub fn put_text(out: &mut Vec<u8>, bytes: &[u8])
    ensures
        final(out)@ == old(out)@ + text_bytes(bytes@),
{
    reveal(text_bytes);
    let len: usize = bytes.len();
    put_word(out, len as u64);
    let mut i: usize = 0;
    while i < len
        invariant
            i <= len,
            len == bytes@.len(),
            out@ == old(out)@ + word_bytes(len as u64) + bytes@.subrange(0, i as int),
        decreases len - i,
    {
        out.push(bytes[i]);
        assert(out@ =~= old(out)@ + word_bytes(len as u64) + bytes@.subrange(0, i + 1));
        i = i + 1;
    }
    assert(bytes@.subrange(0, len as int) =~= bytes@);
    let pad: usize = (8 - len % 8) % 8;
    let mut k: usize = 0;
    while k < pad
        invariant
            k <= pad,
            out@ == old(out)@ + word_bytes(len as u64) + bytes@ + Seq::new(k as nat, |i: int| 0u8),
        decreases pad - k,
    {
        out.push(0u8);
        assert(out@ =~= old(out)@ + word_bytes(len as u64) + bytes@ + Seq::new(
            (k + 1) as nat,
            |i: int| 0u8,
        ));
        k = k + 1;
    }
    assert(out@ =~= old(out)@ + text_bytes(bytes@));
}

/// The encoding of a string: that of its bytes in UTF-8.
pub open spec fn str_bytes(s: Seq<char>) -> Seq<u8> {
    text_bytes(encode_utf8(s))
}

/// Appends the encoding of a string to `out`.
pub fn put_str(out: &mut Vec<u8>, s: &str)
    ensures
        final(out)@ == old(out)@ + str_bytes(s@),
{
    put_text(out, s.as_bytes());
}

/// The word that is mixed in when a digest comes out as zero.
pub const REMIX_WORD: u64 = 0x6a09e667f3bcc908;

/// How often a zero digest is remixed before minting gives up.
pub const REMIX_LIMIT: u64 = 64;

/// What a hasher was fed after `bytes` were written and the remix word was
/// mixed in `n` times.
pub open spec fn remixed(bytes: Seq<u8>, n: nat) -> Seq<HashEvent> {
    seq![HashEvent::Write(bytes)] + Seq::new(n, |i: int| HashEvent::Mix(REMIX_WORD))
}

/// The first digest that is not zero among those after `n`, `n + 1`, …,
/// `REMIX_LIMIT` remixes.
pub open spec fn first_nonzero_from(k0: u64, k1: u64, bytes: Seq<u8>, n: nat) -> Option<u64>
    decreases REMIX_LIMIT + 1 - n,
{
    if n > REMIX_LIMIT {
        None
    } else if sip24(k0, k1, remixed(bytes, n)) != 0 {
        Some(sip24(k0, k1, remixed(bytes, n)))
    } else {
        first_nonzero_from(k0, k1, bytes, n + 1)
    }
}

/// The tag minted under the keys `k0` and `k1` for an identity that is
/// encoded as `bytes`: the digest of the bytes, or, as long as that is zero,
/// of the bytes and one more remix word.
pub open spec fn tag_spec(k0: u64, k1: u64, bytes: Seq<u8>) -> Option<u64> {
    first_nonzero_from(k0, k1, bytes, 0)
}

/// Whether a digest can serve as a tag. Zero is kept for "no type".
pub fn is_tag(digest: u64) -> (ok: bool)
    ensures
        ok == (digest != 0),
{
    digest != 0
}

/// Mints the tag for an identity encoded as `bytes`, under the keys `k0` and
/// `k1`.
///
/// The result depends on nothing but the arguments. It is `None` only if the
/// digest is zero after every one of the `REMIX_LIMIT` remixes.
pub fn mint_tag(k0: u64, k1: u64, bytes: &[u8]) -> (tag: Option<u64>)
    ensures
        tag == tag_spec(k0, k1, bytes@),
        tag matches Some(t) ==> t != 0,
{
    let mut h = hasher_new(k0, k1);
    assert(fed_len(hasher_fed(h)) == 0 && bytes@.len() == bytes.len());
    hasher_write(&mut h, bytes);
    let mut digest: u64 = hasher_finish(&h);
    let mut n: u64 = 0;
    assert(hasher_fed(h) =~= remixed(bytes@, 0));
    while !is_tag(digest) && n < REMIX_LIMIT
        invariant
            n <= REMIX_LIMIT,
            hasher_keys(h) == (k0, k1),
            hasher_fed(h) == remixed(bytes@, n as nat),
            digest == sip24(k0, k1, remixed(bytes@, n as nat)),
            tag_spec(k0, k1, bytes@) == first_nonzero_from(k0, k1, bytes@, n as nat),
        decreases REMIX_LIMIT - n,
    {
        hasher_update(&mut h, REMIX_WORD);
        assert(hasher_fed(h) =~= remixed(bytes@, (n + 1) as nat));
        digest = hasher_finish(&h);
        n = n + 1;
    }
    if is_tag(digest) {
        Some(digest)
    } else {
        assert(first_nonzero_from(k0, k1, bytes@, (n + 1) as nat) == None::<u64>);
        None
    }
}

/// Whether two byte strings are the same.
pub fn bytes_eq(a: &[u8], b: &[u8]) -> (same: bool)
    ensures
        same == (a@ == b@),
{
    if a.len() != b.len() {
        return false;
    }
    let mut i: usize = 0;
    while i < a.len()
        invariant
            i <= a.len(),
            a@.len() == b@.len(),
            forall|j: int| 0 <= j < i ==> a@[j] == b@[j],
        decreases a.len() - i,
    {
        if a[i] != b[i] {
            return false;
        }
        i = i + 1;
    }
    assert(a@ =~= b@);
    true
}

/// Why a registry did not take an identity.
#[derive(Copy, Clone, Debug, PartialEq, Eq, Structural)]
pub enum RegistryError {
    /// Every digest of the identity came out as zero.
    NoTag,
    /// The identity at this position in the registry, which is another one,
    /// has the tag that this identity would get.
    Collision(usize),
}

/// The identities that were given a tag in one build, each with its tag.
///
/// The tags are minted under the seed of the build. An identity whose tag
/// another identity already has is not taken, so that the tags of a
/// registry tell its identities apart.
#[derive(Debug)]
pub struct TagRegistry {
    seed: BuildSeed,
    identities: Vec<Vec<u8>>,
    tags: Vec<u64>,
}

impl TagRegistry {
    /// The seed that the tags are minted under.
    pub closed spec fn seed(&self) -> BuildSeed {
        self.seed
    }

    /// How many identities the registry holds.
    pub closed spec fn count(&self) -> nat {
        self.identities@.len()
    }

    /// The identity at a position.
    pub closed spec fn identity(&self, i: int) -> Seq<u8> {
        self.identities@[i]@
    }

    /// The tag of the identity at a position.
    pub closed spec fn tag(&self, i: int) -> u64 {
        self.tags@[i]
    }

    /// Whether the registry holds the identity with the tag.
    pub open spec fn holds(&self, identity: Seq<u8>, tag: u64) -> bool {
        exists|i: int|
            0 <= i < self.count() && #[trigger] self.identity(i) == identity && self.tag(i) == tag
    }

    /// What holds of every registry: each identity has the tag that is
    /// minted for it, which is not zero, and no two identities have the same
    /// tag.
    pub closed spec fn wf(&self) -> bool {
        &&& self.identities@.len() == self.tags@.len()
        &&& forall|i: int|
            0 <= i < self.tags@.len() ==> tag_spec(
                self.seed.k0,
                self.seed.k1,
                #[trigger] self.identities@[i]@,
            ) == Some(self.tags@[i]) && self.tags@[i] != 0
        &&& forall|i: int, j: int|
            0 <= i < j < self.tags@.len() ==> self.tags@[i] != self.tags@[j]
    }

    /// A registry that holds nothing yet.
    pub fn new(seed: BuildSeed) -> (r: Self)
        ensures
            r.wf(),
            r.seed() == seed,
            r.count() == 0,
    {
        TagRegistry { seed, identities: Vec::new(), tags: Vec::new() }
    }

    /// How many identities the registry holds.
    pub fn len(&self) -> (n: usize)
        ensures
            n == self.count(),
    {
        self.identities.len()
    }

    /// The seed that the tags are minted under.
    pub fn build_seed(&self) -> (seed: BuildSeed)
        ensures
            seed == self.seed(),
    {
        self.seed
    }

    /// Whether another identity that the registry holds has the tag.
    pub open spec fn taken_by_another(&self, identity: Seq<u8>, tag: u64) -> bool {
        exists|i: int|
            0 <= i < self.count() && #[trigger] self.identity(i) != identity && self.tag(i) == tag
    }

    /// Mints the tag of an identity and takes the identity in. An identity
    /// that is there already gets the tag that it has. An identity whose tag
    /// another one has is not taken.
    pub fn register(&mut self, identity: Vec<u8>) -> (r: Result<u64, RegistryError>)
        requires
            old(self).wf(),
        ensures
            final(self).wf(),
            final(self).seed() == old(self).seed(),
            forall|i: int|
                0 <= i < old(self).count() ==> final(self).identity(i) == old(self).identity(i)
                    && final(self).tag(i) == old(self).tag(i),
            match r {
                Ok(tag) => tag != 0 && tag_spec(old(self).seed().k0, old(self).seed().k1, identity@)
                    == Some(tag) && final(self).holds(identity@, tag) && final(self).count() == (
                if old(self).holds(identity@, tag) {
                    old(self).count()
                } else {
                    old(self).count() + 1
                }),
                Err(RegistryError::NoTag) => tag_spec(
                    old(self).seed().k0,
                    old(self).seed().k1,
                    identity@,
                ) is None && final(self).count() == old(self).count(),
                Err(RegistryError::Collision(at)) => at < old(self).count() && old(self).identity(
                    at as int,
                ) != identity@ && tag_spec(old(self).seed().k0, old(self).seed().k1, identity@)
                    == Some(old(self).tag(at as int)) && final(self).count() == old(self).count(),
            },
    {
        let tag: u64 = match mint_tag(self.seed.k0, self.seed.k1, identity.as_slice()) {
            Some(tag) => tag,
            None => {
                return Err(RegistryError::NoTag);
            },
        };
        let mut i: usize = 0;
        while i < self.tags.len()
            invariant
                i <= self.tags.len(),
                self.wf(),
                *self == *old(self),
                tag != 0,
                tag_spec(self.seed.k0, self.seed.k1, identity@) == Some(tag),
                forall|j: int| 0 <= j < i ==> self.tags@[j] != tag,
            decreases self.tags.len() - i,
        {
            if self.tags[i] == tag {
                if bytes_eq(self.identities[i].as_slice(), identity.as_slice()) {
                    assert(self.identity(i as int) == identity@);
                    return Ok(tag);
                } else {
                    assert(self.identity(i as int) == self.identities@[i as int]@);
                    assert(self.tag(i as int) == tag);
                    return Err(RegistryError::Collision(i));
                }
            }
            i = i + 1;
        }
        assert(!old(self).holds(identity@, tag));
        self.identities.push(identity);
        self.tags.push(tag);
        assert(self.identity(self.count() - 1) == identity@);
        Ok(tag)
    }

    /// The tag that the registry holds for an identity, if it holds the
    /// identity.
    pub fn lookup(&self, identity: &[u8]) -> (tag: Option<u64>)
        requires
            self.wf(),
        ensures
            match tag {
                Some(t) => self.holds(identity@, t),
                None => forall|i: int| 0 <= i < self.count() ==> self.identity(i) != identity@,
            },
    {
        let mut i: usize = 0;
        while i < self.identities.len()
            invariant
                i <= self.identities.len(),
                self.wf(),
                forall|j: int| 0 <= j < i ==> self.identities@[j]@ != identity@,
            decreases self.identities.len() - i,
        {
            if bytes_eq(self.identities[i].as_slice(), identity) {
                assert(self.identity(i as int) == identity@);
                return Some(self.tags[i]);
            }
            i = i + 1;
        }
        None
    }
}

/// Two different identities that one registry holds have different tags,
/// and an identity that it holds twice has the same tag both times.
pub proof fn lemma_registered_tags_differ(registry: TagRegistry, i: int, j: int)
    requires
        registry.wf(),
        0 <= i < registry.count(),
        0 <= j < registry.count(),
    ensures
        registry.identity(i) != registry.identity(j) ==> registry.tag(i) != registry.tag(j),
        registry.identity(i) == registry.identity(j) ==> registry.tag(i) == registry.tag(j),
        registry.tag(i) != 0,
{
    assert(registry.identity(i) == registry.identities@[i]@);
    if i < j {
        assert(registry.tags@[i] != registry.tags@[j]);
    } else if j < i {
        assert(registry.tags@[j] != registry.tags@[i]);
    }
}

/// Two different identities that one registry holds have different tags.
pub proof fn lemma_held_tags_differ(
    registry: TagRegistry,
    identity1: Seq<u8>,
    tag1: u64,
    identity2: Seq<u8>,
    tag2: u64,
)
    requires
        registry.wf(),
        registry.holds(identity1, tag1),
        registry.holds(identity2, tag2),
        identity1 != identity2,
    ensures
        tag1 != tag2,
{
    let i = choose|i: int|
        0 <= i < registry.count() && #[trigger] registry.identity(i) == identity1 && registry.tag(i)
            == tag1;
    let j = choose|j: int|
        0 <= j < registry.count() && #[trigger] registry.identity(j) == identity2 && registry.tag(j)
            == tag2;
    lemma_registered_tags_differ(registry, i, j);
}

/// Minting depends on nothing but the seed and the identity: the same seed
/// and the same identity give the same tag, whenever and wherever it is
/// minted.
pub proof fn lemma_tag_stable(seed1: BuildSeed, bytes1: Seq<u8>, seed2: BuildSeed, bytes2: Seq<u8>)
    requires
        seed1 == seed2,
        bytes1 == bytes2,
    ensures
        tag_spec(seed1.k0, seed1.k1, bytes1) == tag_spec(seed2.k0, seed2.k1, bytes2),
{
}

} // verus!
