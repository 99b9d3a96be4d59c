//! Deriving the erasure of a concrete enumeration from its definition.
//!
//! The definition comes as a sequence of tokens. This module finds in it what
//! the type is called and which variants it has, and mints its type tag.

use vstd::prelude::*;
use crate::derive::helpers::{
    hash_token_stream,
    lemma_next_ident,
    next_ident,
    path,
    path_spec,
    stream_bytes,
    PathToken,
};
use crate::tag::{
    derive_seed,
    mint_tag,
    put_str,
    seed_spec,
    str_bytes,
    tag_spec,
    BuildSeed,
    RegistryError,
    TagRegistry,
};
use crate::text::str_eq;

pub mod helpers;

verus! {

/// How a group of tokens is bracketed.
#[derive(Copy, Clone, Debug, PartialEq, Eq, Structural)]
pub enum Delimiter {
    /// `( ... )`
    Parenthesis,
    /// `{ ... }`
    Brace,
    /// `[ ... ]`
    Bracket,
    /// No brackets are written.
    Invisible,
}

/// Whether a punctuation character is joined with the one after it.
#[derive(Copy, Clone, Debug, PartialEq, Eq, Structural)]
pub enum Spacing {
    /// Another punctuation character follows at once.
    Joint,
    /// Something else follows.
    Alone,
}

/// One token, or a bracketed group of them.
#[derive(Debug, PartialEq, Eq)]
pub enum TokenTree {
    Group(Delimiter, Vec<TokenTree>),
    Ident(String),
    Punct(char, Spacing),
    Literal(String),
}

/// What a build is known by: the seed of its tags is derived from these.
#[derive(Clone, Debug, PartialEq, Eq)]
pub struct BuildMetadata {
    /// The version of the package that mints the tags.
    pub version: String,
    /// The name of that package.
    pub name: String,
    /// The version of the toolchain.
    pub toolchain: String,
    /// The target that is built for.
    pub target: String,
}

/// The bytes that go into both keys of a build's seed.
pub open spec fn seed_head(meta: BuildMetadata) -> Seq<u8> {
    str_bytes(meta.version@) + str_bytes(meta.name@) + str_bytes(meta.toolchain@)
}

/// Derives the seed of a build's tags: the first key from the package's
/// version and name and the toolchain, the second from these and the target.
pub fn seed_token_generator(meta: &BuildMetadata) -> (seed: BuildSeed)
    ensures
        seed == seed_spec(seed_head(*meta), str_bytes(meta.target@)),
{
    let mut bytes: Vec<u8> = Vec::new();
    put_str(&mut bytes, meta.version.as_str());
    put_str(&mut bytes, meta.name.as_str());
    put_str(&mut bytes, meta.toolchain.as_str());
    let mid: usize = bytes.len();
    put_str(&mut bytes, meta.target.as_str());
    proof {
        assert(bytes@.subrange(0, mid as int) =~= seed_head(*meta));
        assert(bytes@.subrange(mid as int, bytes@.len() as int) =~= str_bytes(meta.target@));
    }
    derive_seed(bytes.as_slice(), mid)
}

/// Why a definition could not be derived from.
#[derive(Copy, Clone, Debug, PartialEq, Eq, Structural)]
pub enum DeriveError {
    /// The tokens end where one more is needed.
    MissingToken,
    /// A `#` is not followed by a group.
    MissingAttributeGroup,
    /// The tokens end where `enum` or `struct` should stand.
    MissingKeyword,
    /// The item is neither an `enum` nor a `struct`.
    NotEnumOrStruct,
    /// The keyword is not followed by a name.
    MissingName,
    /// The name of an `enum` is not followed by a body in braces.
    MissingBody,
    /// Every digest of the type's identity came out as zero.
    NoTag,
    /// The token that a message is reported at is not followed by a comma.
    MissingComma,
    /// Another type of the build has the tag that is minted for this one.
    Collision,
}

/// Whether a token is the punctuation character `c`.
pub open spec fn is_punct(tt: TokenTree, c: char) -> bool {
    tt matches TokenTree::Punct(p, _) && p == c
}

/// Whether a token is the identifier `word`.
pub open spec fn is_ident(tt: TokenTree, word: Seq<char>) -> bool {
    tt matches TokenTree::Ident(s) && s@ == word
}

/// The position behind the attributes that start at `i`: an attribute is a
/// `#` and the group that follows it.
pub open spec fn after_attributes(ts: Seq<TokenTree>, i: int) -> Result<int, DeriveError>
    decreases ts.len() - i,
{
    if 0 <= i < ts.len() && is_punct(ts[i], '#') {
        if i + 1 >= ts.len() {
            Err(DeriveError::MissingToken)
        } else if !(ts[i + 1] is Group) {
            Err(DeriveError::MissingAttributeGroup)
        } else {
            after_attributes(ts, i + 2)
        }
    } else {
        Ok(i)
    }
}

/// The position behind the visibility that may stand at `i`: `pub`, with or
/// without a group that restricts it.
pub open spec fn after_visibility(ts: Seq<TokenTree>, i: int) -> Result<int, DeriveError> {
    if i < 0 || i >= ts.len() {
        Err(DeriveError::MissingToken)
    } else if is_ident(ts[i], "pub"@) {
        if i + 1 >= ts.len() {
            Err(DeriveError::MissingToken)
        } else if ts[i + 1] is Group {
            Ok(i + 2)
        } else {
            Ok(i + 1)
        }
    } else {
        Ok(i)
    }
}

/// Whether the keyword at `i` is `enum` (and not `struct`).
pub open spec fn keyword_at(ts: Seq<TokenTree>, i: int) -> Result<bool, DeriveError> {
    if i < 0 || i >= ts.len() {
        Err(DeriveError::MissingKeyword)
    } else if is_ident(ts[i], "enum"@) {
        Ok(true)
    } else if is_ident(ts[i], "struct"@) {
        Ok(false)
    } else {
        Err(DeriveError::NotEnumOrStruct)
    }
}

/// Where the parts of a definition stand among its tokens.
pub struct ItemShape {
    /// Whether it defines an `enum`.
    pub is_enum: bool,
    /// The position of the keyword; the name follows it, and the body of an
    /// `enum` follows the name.
    pub keyword_at: int,
}

/// Finds the parts of a definition: attributes first, then the visibility,
/// the keyword, the name and, for an `enum`, the body in braces.
pub open spec fn item_shape(ts: Seq<TokenTree>) -> Result<ItemShape, DeriveError> {
    match after_attributes(ts, 0) {
        Err(e) => Err(e),
        Ok(i) => match after_visibility(ts, i) {
            Err(e) => Err(e),
            Ok(k) => match keyword_at(ts, k) {
                Err(e) => Err(e),
                Ok(is_enum) => if k + 1 >= ts.len() || !(ts[k + 1] is Ident) {
                    Err(DeriveError::MissingName)
                } else if is_enum && (k + 2 >= ts.len() || !(ts[k + 2] matches TokenTree::Group(
                    Delimiter::Brace,
                    _,
                ))) {
                    Err(DeriveError::MissingBody)
                } else {
                    Ok(ItemShape { is_enum, keyword_at: k })
                },
            },
        },
    }
}

/// The names of the identifiers among `ts`, in order.
pub open spec fn ident_names(ts: Seq<TokenTree>) -> Seq<Seq<char>>
    decreases ts.len(),
{
    if ts.len() == 0 {
        Seq::<Seq<char>>::empty()
    } else {
        match ts.last() {
            TokenTree::Ident(s) => ident_names(ts.drop_last()).push(s@),
            _ => ident_names(ts.drop_last()),
        }
    }
}

/// What was derived from a definition.
#[derive(Debug, PartialEq, Eq)]
pub struct Derived<'a> {
    /// Whether the type is an `enum`.
    pub is_enum: bool,
    /// The name of the type.
    pub name: String,
    /// The type tag, which is not zero.
    pub tag: u64,
    /// The variants of an `enum`, in the order of their payloads: the first
    /// has the payload 0.
    pub variants: Vec<String>,
    /// The path of the identifier kind that the type is erased into.
    pub ty: Vec<PathToken<'a>>,
    /// The bytes that the tag was minted from: they are the identity of the
    /// type within a build.
    pub identity: Vec<u8>,
}

/// A [`Derived`] as plain values.
pub struct DerivedView<'a> {
    pub is_enum: bool,
    pub name: Seq<char>,
    pub tag: u64,
    pub variants: Seq<Seq<char>>,
    pub ty: Seq<PathToken<'a>>,
    pub identity: Seq<u8>,
}

impl<'a> View for Derived<'a> {
    type V = DerivedView<'a>;

    open spec fn view(&self) -> DerivedView<'a> {
        DerivedView {
            is_enum: self.is_enum,
            name: self.name@,
            tag: self.tag,
            variants: self.variants@.map_values(|s: String| s@),
            ty: self.ty@,
            identity: self.identity@,
        }
    }
}

impl<'a> Derived<'a> {
    /// The payloads that stand for the variants, in the order of the
    /// variants: each variant has its position as its payload.
    pub fn payloads(&self) -> (p: Vec<u64>)
        ensures
            p@.len() == self.variants@.len(),
            forall|i: int| 0 <= i < p@.len() ==> p@[i] == i,
    {
        let mut p: Vec<u64> = Vec::new();
        let mut i: usize = 0;
        while i < self.variants.len()
            invariant
                i <= self.variants.len(),
                p@.len() == i,
                forall|j: int| 0 <= j < i ==> p@[j] == j,
            decreases self.variants.len() - i,
        {
            p.push(i as u64);
            i = i + 1;
        }
        p
    }

    /// The position of the variant that a payload stands for; a payload that
    /// is no position of a variant stands for none.
    pub fn variant_of(&self, payload: u64) -> (v: Option<usize>)
        ensures
            v == if payload < self.variants@.len() {
                Some(payload as usize)
            } else {
                None
            },
    {
        if payload < self.variants.len() as u64 {
            Some(payload as usize)
        } else {
            None
        }
    }
}

/// The bytes that a type's tag is minted from: the identifier kind, the
/// package, the module, the type's name and, for an `enum`, its body.
pub open spec fn identity_bytes(
    tr: Seq<char>,
    pkg: Seq<char>,
    module: Seq<char>,
    ts: Seq<TokenTree>,
    shape: ItemShape,
) -> Seq<u8> {
    let head = str_bytes(tr) + str_bytes(pkg) + str_bytes(module) + str_bytes(
        ts[shape.keyword_at + 1]->Ident_0@,
    );
    if shape.is_enum {
        head + stream_bytes(ts[shape.keyword_at + 2]->Group_1)
    } else {
        head
    }
}

/// The segments of the path of the identifier kind `tr`, which lies in the
/// module `loc` of this library.
pub open spec fn kind_path<'a>(loc: Seq<&'a str>, tr: &'a str) -> Seq<&'a str> {
    seq!["cmli"] + loc + seq![tr]
}

/// What deriving gives for the definition `item`.
pub open spec fn derive_spec<'a>(
    item: Seq<TokenTree>,
    loc: Seq<&'a str>,
    tr: &'a str,
    pkg: Seq<char>,
    module: Seq<char>,
    seed: BuildSeed,
) -> Result<DerivedView<'a>, DeriveError> {
    match item_shape(item) {
        Err(e) => Err(e),
        Ok(shape) => match tag_spec(
            seed.k0,
            seed.k1,
            identity_bytes(tr@, pkg, module, item, shape),
        ) {
            None => Err(DeriveError::NoTag),
            Some(tag) => Ok(
                DerivedView {
                    is_enum: shape.is_enum,
                    name: item[shape.keyword_at + 1]->Ident_0@,
                    tag,
                    variants: if shape.is_enum {
                        ident_names(item[shape.keyword_at + 2]->Group_1@)
                    } else {
                        Seq::<Seq<char>>::empty()
                    },
                    ty: path_spec(kind_path(loc, tr)),
                    identity: identity_bytes(tr@, pkg, module, item, shape),
                },
            ),
        },
    }
}

fn token_is_punct(tt: &TokenTree, c: char) -> (b: bool)
    ensures
        b == is_punct(*tt, c),
{
    match tt {
        TokenTree::Punct(p, _) => *p == c,
        _ => false,
    }
}

fn token_is_ident(tt: &TokenTree, word: &str) -> (b: bool)
    ensures
        b == is_ident(*tt, word@),
{
    match tt {
        TokenTree::Ident(s) => str_eq(s.as_str(), word),
        _ => false,
    }
}

fn token_is_group(tt: &TokenTree) -> (b: bool)
    ensures
        b == (*tt is Group),
{
    match tt {
        TokenTree::Group(_, _) => true,
        _ => false,
    }
}

fn skip_attributes(ts: &Vec<TokenTree>) -> (r: Result<usize, DeriveError>)
    ensures
        match r {
            Ok(i) => after_attributes(ts@, 0) == Ok::<int, DeriveError>(i as int) && i <= ts.len(),
            Err(e) => after_attributes(ts@, 0) == Err::<int, DeriveError>(e),
        },
{
    let mut i: usize = 0;
    while i < ts.len() && token_is_punct(&ts[i], '#')
        invariant
            i <= ts.len(),
            after_attributes(ts@, 0) == after_attributes(ts@, i as int),
        decreases ts.len() - i,
    {
        if i + 1 >= ts.len() {
            return Err(DeriveError::MissingToken);
        }
        if !token_is_group(&ts[i + 1]) {
            return Err(DeriveError::MissingAttributeGroup);
        }
        i = i + 2;
    }
    Ok(i)
}

fn skip_visibility(ts: &Vec<TokenTree>, i: usize) -> (r: Result<usize, DeriveError>)
    requires
        i <= ts.len(),
    ensures
        match r {
            Ok(k) => after_visibility(ts@, i as int) == Ok::<int, DeriveError>(k as int) && k
                <= ts.len(),
            Err(e) => after_visibility(ts@, i as int) == Err::<int, DeriveError>(e),
        },
{
    if i >= ts.len() {
        Err(DeriveError::MissingToken)
    } else if token_is_ident(&ts[i], "pub") {
        if i + 1 >= ts.len() {
            Err(DeriveError::MissingToken)
        } else if token_is_group(&ts[i + 1]) {
            Ok(i + 2)
        } else {
            Ok(i + 1)
        }
    } else {
        Ok(i)
    }
}

fn read_keyword(ts: &Vec<TokenTree>, k: usize) -> (r: Result<bool, DeriveError>)
    ensures
        r == keyword_at(ts@, k as int),
{
    if k >= ts.len() {
        Err(DeriveError::MissingKeyword)
    } else if token_is_ident(&ts[k], "enum") {
        Ok(true)
    } else if token_is_ident(&ts[k], "struct") {
        Ok(false)
    } else {
        Err(DeriveError::NotEnumOrStruct)
    }
}

/// Collects the names of the identifiers among `ts`, in order.
pub fn variant_names(ts: &Vec<TokenTree>) -> (names: Vec<String>)
    ensures
        names@.map_values(|s: String| s@) == ident_names(ts@),
{
    let mut names: Vec<String> = Vec::new();
    let mut pos: usize = 0;
    loop
        invariant
            pos <= ts.len(),
            names@.map_values(|s: String| s@) == ident_names(ts@.subrange(0, pos as int)),
        ensures
            names@.map_values(|s: String| s@) == ident_names(ts@),
        decreases ts.len() - pos,
    {
        proof {
            lemma_next_ident(ts@, pos as nat);
        }
        match next_ident(ts, pos) {
            Some(i) => {
                proof {
                    lemma_ident_names_skip(ts@, pos as nat, i as nat);
                }
                match &ts[i] {
                    TokenTree::Ident(s) => {
                        let ghost before = names@.map_values(|s: String| s@);
                        names.push(s.clone());
                        assert(ts@.subrange(0, i + 1).drop_last() =~= ts@.subrange(0, i as int));
                        assert(names@.map_values(|s: String| s@) =~= before.push(s@));
                    },
                    _ => {},
                }
                pos = i + 1;
            },
            None => {
                proof {
                    lemma_ident_names_skip(ts@, pos as nat, ts@.len());
                    assert(ts@.subrange(0, ts@.len() as int) =~= ts@);
                }
                break ;
            },
        }
    }
    names
}

/// Tokens that are no identifiers add no names.
pub proof fn lemma_ident_names_skip(ts: Seq<TokenTree>, from: nat, to: nat)
    requires
        from <= to <= ts.len(),
        forall|j: int| from <= j < to ==> !(ts[j] is Ident),
    ensures
        ident_names(ts.subrange(0, to as int)) == ident_names(ts.subrange(0, from as int)),
    decreases to - from,
{
    if from < to {
        lemma_ident_names_skip(ts, from, (to - 1) as nat);
        assert(ts.subrange(0, to as int).drop_last() =~= ts.subrange(0, to - 1));
    }
}

/// Whether `shape` says where the parts of the definition `ts` stand.
pub open spec fn shape_of(ts: Seq<TokenTree>, shape: ItemShape) -> bool {
    &&& item_shape(ts) == Ok::<ItemShape, DeriveError>(shape)
    &&& 0 <= shape.keyword_at
    &&& shape.keyword_at + 1 < ts.len()
    &&& ts[shape.keyword_at + 1] is Ident
    &&& shape.is_enum ==> shape.keyword_at + 2 < ts.len() && ts[shape.keyword_at + 2] is Group
}

fn find_item(item: &Vec<TokenTree>) -> (r: Result<(bool, usize), DeriveError>)
    ensures
        match r {
            Ok((is_enum, k)) => shape_of(item@, (ItemShape { is_enum, keyword_at: k as int })),
            Err(e) => item_shape(item@) == Err::<ItemShape, DeriveError>(e),
        },
{
    let i: usize = match skip_attributes(item) {
        Ok(i) => i,
        Err(e) => {
            return Err(e);
        },
    };
    let k: usize = match skip_visibility(item, i) {
        Ok(k) => k,
        Err(e) => {
            return Err(e);
        },
    };
    let is_enum: bool = match read_keyword(item, k) {
        Ok(b) => b,
        Err(e) => {
            return Err(e);
        },
    };
    if k + 1 >= item.len() {
        return Err(DeriveError::MissingName);
    }
    match &item[k + 1] {
        TokenTree::Ident(_) => {},
        _ => {
            return Err(DeriveError::MissingName);
        },
    }
    if is_enum {
        if k + 2 >= item.len() {
            return Err(DeriveError::MissingBody);
        }
        match &item[k + 2] {
            TokenTree::Group(Delimiter::Brace, _) => {},
            _ => {
                return Err(DeriveError::MissingBody);
            },
        }
    }
    Ok((is_enum, k))
}

fn encode_head(tr: &str, pkg: &str, module: &str, name: &str) -> (bytes: Vec<u8>)
    ensures
        bytes@ == str_bytes(tr@) + str_bytes(pkg@) + str_bytes(module@) + str_bytes(name@),
{
    let mut bytes: Vec<u8> = Vec::new();
    put_str(&mut bytes, tr);
    put_str(&mut bytes, pkg);
    put_str(&mut bytes, module);
    put_str(&mut bytes, name);
    bytes
}

fn encode_identity(
    tr: &str,
    pkg: &str,
    module: &str,
    item: &Vec<TokenTree>,
    is_enum: bool,
    k: usize,
) -> (bytes: Vec<u8>)
    requires
        k + 1 < item@.len(),
        item@[k + 1] is Ident,
        is_enum ==> k + 2 < item@.len() && item@[k + 2] is Group,
    ensures
        bytes@ == identity_bytes(
            tr@,
            pkg@,
            module@,
            item@,
            (ItemShape { is_enum, keyword_at: k as int }),
        ),
{
    assert(item@.len() == item.len());
    let mut bytes: Vec<u8> = match &item[k + 1] {
        TokenTree::Ident(name) => encode_head(tr, pkg, module, name.as_str()),
        _ => Vec::new(),
    };
    if is_enum {
        match &item[k + 2] {
            TokenTree::Group(_, inner) => {
                hash_token_stream(inner, &mut bytes);
            },
            _ => {},
        }
    }
    bytes
}

fn kind_segments<'a>(loc: &Vec<&'a str>, tr: &'a str) -> (segments: Vec<&'a str>)
    ensures
        segments@ == kind_path(loc@, tr),
{
    let mut segments: Vec<&'a str> = Vec::new();
    segments.push("cmli");
    let mut j: usize = 0;
    while j < loc.len()
        invariant
            j <= loc.len(),
            segments@ == seq!["cmli"] + loc@.subrange(0, j as int),
        decreases loc.len() - j,
    {
        segments.push(loc[j]);
        assert(segments@ =~= seq!["cmli"] + loc@.subrange(0, j + 1));
        j = j + 1;
    }
    segments.push(tr);
    assert(segments@ =~= kind_path(loc@, tr));
    segments
}

/// Derives the erasure of the type that `item` defines into the identifier
/// kind `tr`, which lies in the module `loc` of this library.
///
/// `pkg` and `module` say where the type is defined, and `seed` is the seed
/// of the build. The type's tag is minted from all of these, the type's name
/// and, for an `enum`, its body. The variants of an `enum` are the
/// identifiers of its body.
pub fn derive_impl<'a>(
    item: &Vec<TokenTree>,
    loc: &Vec<&'a str>,
    tr: &'a str,
    pkg: &str,
    module: &str,
    seed: BuildSeed,
) -> (r: Result<Derived<'a>, DeriveError>)
    ensures
        match r {
            Ok(d) => derive_spec(item@, loc@, tr, pkg@, module@, seed) == Ok::<
                DerivedView<'a>,
                DeriveError,
            >(d@) && d.tag != 0,
            Err(e) => derive_spec(item@, loc@, tr, pkg@, module@, seed) == Err::<
                DerivedView<'a>,
                DeriveError,
            >(e),
        },
{
    let (is_enum, k) = match find_item(item) {
        Ok(found) => found,
        Err(e) => {
            return Err(e);
        },
    };
    assert(item@.len() == item.len());
    let bytes = encode_identity(tr, pkg, module, item, is_enum, k);
    let tag: u64 = match mint_tag(seed.k0, seed.k1, bytes.as_slice()) {
        Some(tag) => tag,
        None => {
            return Err(DeriveError::NoTag);
        },
    };
    let name: String = match &item[k + 1] {
        TokenTree::Ident(s) => s.clone(),
        _ => String::new(),
    };
    let variants: Vec<String> = if is_enum {
        match &item[k + 2] {
            TokenTree::Group(_, inner) => variant_names(inner),
            _ => Vec::new(),
        }
    } else {
        Vec::new()
    };
    let segments = kind_segments(loc, tr);
    let ty = path(&segments);
    let d = Derived { is_enum, name, tag, variants, ty, identity: bytes };
    assert(d@.variants =~= if is_enum {
        ident_names(item@[k + 2]->Group_1@)
    } else {
        Seq::<Seq<char>>::empty()
    });
    Ok(d)
}

proof fn lemma_attribute_errors(ts: Seq<TokenTree>, i: int)
    ensures
        after_attributes(ts, i) matches Err(e) ==> e is MissingToken || e is MissingAttributeGroup,
    decreases ts.len() - i,
{
    if 0 <= i < ts.len() && is_punct(ts[i], '#') && i + 1 < ts.len() && ts[i + 1] is Group {
        lemma_attribute_errors(ts, i + 2);
    }
}

/// Deriving by itself never fails for a collision: only a registry knows of
/// other types.
pub proof fn lemma_derive_knows_no_collision<'a>(
    item: Seq<TokenTree>,
    loc: Seq<&'a str>,
    tr: &'a str,
    pkg: Seq<char>,
    module: Seq<char>,
    seed: BuildSeed,
)
    ensures
        derive_spec(item, loc, tr, pkg, module, seed) matches Err(e) ==> !(e is Collision),
{
    lemma_attribute_errors(item, 0);
}

fn copy_of(bytes: &Vec<u8>) -> (copy: Vec<u8>)
    ensures
        copy@ == bytes@,
{
    let mut copy: Vec<u8> = Vec::new();
    let mut i: usize = 0;
    while i < bytes.len()
        invariant
            i <= bytes.len(),
            copy@ == bytes@.subrange(0, i as int),
        decreases bytes.len() - i,
    {
        copy.push(bytes[i]);
        assert(copy@ =~= bytes@.subrange(0, i + 1));
        i = i + 1;
    }
    assert(bytes@.subrange(0, i as int) =~= bytes@);
    copy
}

/// Derives the erasure of the type that `item` defines, under the seed of
/// the registry, and takes the type into the registry. A type for which
/// another type of the registry has the tag already is turned away, so that
/// the tags of the types that were derived into one registry tell them
/// apart.
pub fn derive_and_register<'a>(
    registry: &mut TagRegistry,
    item: &Vec<TokenTree>,
    loc: &Vec<&'a str>,
    tr: &'a str,
    pkg: &str,
    module: &str,
) -> (r: Result<Derived<'a>, DeriveError>)
    requires
        old(registry).wf(),
    ensures
        final(registry).wf(),
        final(registry).seed() == old(registry).seed(),
        forall|i: int|
            0 <= i < old(registry).count() ==> final(registry).identity(i) == old(
                registry,
            ).identity(i) && final(registry).tag(i) == old(registry).tag(i),
        match r {
            Ok(d) => derive_spec(item@, loc@, tr, pkg@, module@, old(registry).seed()) == Ok::<
                DerivedView<'a>,
                DeriveError,
            >(d@) && d.tag != 0 && final(registry).holds(d@.identity, d.tag),
            Err(DeriveError::Collision) => final(registry).count() == old(registry).count()
                && match derive_spec(item@, loc@, tr, pkg@, module@, old(registry).seed()) {
                Ok(d) => old(registry).taken_by_another(d.identity, d.tag),
                Err(_) => false,
            },
            Err(e) => final(registry).count() == old(registry).count() && derive_spec(
                item@,
                loc@,
                tr,
                pkg@,
                module@,
                old(registry).seed(),
            ) == Err::<DerivedView<'a>, DeriveError>(e),
        },
{
    let seed = registry.build_seed();
    proof {
        lemma_derive_knows_no_collision(item@, loc@, tr, pkg@, module@, seed);
    }
    let d = match derive_impl(item, loc, tr, pkg, module, seed) {
        Ok(d) => d,
        Err(e) => {
            return Err(e);
        },
    };
    match registry.register(copy_of(&d.identity)) {
        Ok(_) => Ok(d),
        Err(RegistryError::Collision(at)) => {
            assert(old(registry).identity(at as int) != d@.identity);
            Err(DeriveError::Collision)
        },
        Err(RegistryError::NoTag) => Err(DeriveError::NoTag),
    }
}

/// Where the message of a reported error starts among `ts`: the first token
/// says where to report, a comma follows it, and the rest is the message.
pub open spec fn message_start(ts: Seq<TokenTree>) -> Result<usize, DeriveError> {
    if ts.len() == 0 {
        Err(DeriveError::MissingToken)
    } else if ts.len() == 1 {
        Ok(1usize)
    } else if is_punct(ts[1], ',') {
        Ok(2usize)
    } else {
        Err(DeriveError::MissingComma)
    }
}

/// Splits the arguments of an error that is to be reported at a given token:
/// the token to report at is the first, and the message starts at the
/// position returned.
pub fn compile_error_with_span(ts: &Vec<TokenTree>) -> (r: Result<usize, DeriveError>)
    ensures
        r == message_start(ts@),
{
    if ts.len() == 0 {
        Err(DeriveError::MissingToken)
    } else if ts.len() == 1 {
        Ok(1)
    } else if token_is_punct(&ts[1], ',') {
        Ok(2)
    } else {
        Err(DeriveError::MissingComma)
    }
}

} // verus!
