use cmli::derive::helpers::{
    hash_token_stream, hash_token_tree, lit_u64, next_ident, path, punct, Path, PathToken, Punct,
};
use cmli::derive::{
    compile_error_with_span, derive_and_register, derive_impl, variant_names, DeriveError, Delimiter,
    Spacing, TokenTree,
};
use cmli::tag::{mint_tag, BuildSeed, TagRegistry};

fn ident(s: &str) -> TokenTree {
    TokenTree::Ident(String::from(s))
}

fn comma() -> TokenTree {
    TokenTree::Punct(',', Spacing::Alone)
}

fn hash() -> TokenTree {
    TokenTree::Punct('#', Spacing::Alone)
}

fn group(d: Delimiter, ts: Vec<TokenTree>) -> TokenTree {
    TokenTree::Group(d, ts)
}

fn seed() -> BuildSeed {
    BuildSeed { k0: 16989004037946691807, k1: 16468340489961299903 }
}

fn mode_enum() -> Vec<TokenTree> {
    vec![
        hash(),
        group(Delimiter::Bracket, vec![ident("derive"), group(Delimiter::Parenthesis, vec![ident("Copy")])]),
        ident("pub"),
        ident("enum"),
        ident("Mode"),
        group(Delimiter::Brace, vec![ident("Real"), comma(), ident("Long"), comma()]),
    ]
}

fn derive(item: &Vec<TokenTree>) -> Result<cmli::derive::Derived<'static>, DeriveError> {
    derive_impl(item, &vec!["mach"], "MachineMode", "cmli", "cmli::archs::x86", seed())
}

#[test]
fn derives_an_enum() {
    let d = derive(&mode_enum()).unwrap();
    assert!(d.is_enum);
    assert_eq!(d.name, "Mode");
    assert_eq!(d.variants, vec![String::from("Real"), String::from("Long")]);
    assert_eq!(d.tag, 7167026146705720618);
    assert_eq!(
        d.ty,
        vec![
            PathToken::Ident("cmli"),
            PathToken::Punct(Punct { ch: ':', spacing: Spacing::Joint }),
            PathToken::Punct(Punct { ch: ':', spacing: Spacing::Alone }),
            PathToken::Ident("mach"),
            PathToken::Punct(Punct { ch: ':', spacing: Spacing::Joint }),
            PathToken::Punct(Punct { ch: ':', spacing: Spacing::Alone }),
            PathToken::Ident("MachineMode"),
        ]
    );
}

#[test]
fn derives_a_struct() {
    let item = vec![ident("struct"), ident("Reg"), group(Delimiter::Parenthesis, vec![ident("u64")])];
    let d = derive_impl(&item, &vec!["instr"], "RegisterId", "cmli", "cmli::instr", seed()).unwrap();
    assert!(!d.is_enum);
    assert_eq!(d.name, "Reg");
    assert!(d.variants.is_empty());
    assert_eq!(d.tag, 9080246139437343640);
}

#[test]
fn deriving_twice_mints_the_same_tag() {
    let a = derive(&mode_enum()).unwrap();
    let b = derive(&mode_enum()).unwrap();
    assert_eq!(a.tag, b.tag);
}

#[test]
fn tags_tell_enums_apart() {
    let mut tags = Vec::new();
    for n in 0..64u32 {
        let mut body = Vec::new();
        for v in 0..=(n % 5) {
            body.push(TokenTree::Ident(format!("V{}", v)));
            body.push(comma());
        }
        let item = vec![
            ident("enum"),
            TokenTree::Ident(format!("Synthetic{}", n / 5)),
            group(Delimiter::Brace, body),
        ];
        let d = derive(&item).unwrap();
        assert_ne!(d.tag, 0);
        assert!(!tags.contains(&d.tag));
        tags.push(d.tag);
    }
}

#[test]
fn tag_depends_on_the_kind_and_the_place() {
    let item = mode_enum();
    let base = derive(&item).unwrap().tag;
    let kind = derive_impl(&item, &vec!["mach"], "Register", "cmli", "cmli::archs::x86", seed());
    let pkg = derive_impl(&item, &vec!["mach"], "MachineMode", "other", "cmli::archs::x86", seed());
    let module = derive_impl(&item, &vec!["mach"], "MachineMode", "cmli", "cmli::mach", seed());
    let other_seed =
        derive_impl(&item, &vec!["mach"], "MachineMode", "cmli", "cmli::archs::x86", BuildSeed { k0: 1, k1: 2 });
    assert_ne!(kind.unwrap().tag, base);
    assert_ne!(pkg.unwrap().tag, base);
    assert_ne!(module.unwrap().tag, base);
    assert_ne!(other_seed.unwrap().tag, base);
}

#[test]
fn tag_depends_on_explicit_discriminants() {
    let plain = vec![ident("enum"), ident("E"), group(Delimiter::Brace, vec![ident("A"), comma()])];
    let numbered = vec![
        ident("enum"),
        ident("E"),
        group(
            Delimiter::Brace,
            vec![
                ident("A"),
                TokenTree::Punct('=', Spacing::Alone),
                TokenTree::Literal(String::from("5")),
                comma(),
            ],
        ),
    ];
    let a = derive(&plain).unwrap();
    let b = derive(&numbered).unwrap();
    assert_eq!(a.variants, b.variants);
    assert_ne!(a.tag, b.tag);
}

#[test]
fn restricted_visibility_is_skipped() {
    let item = vec![
        ident("pub"),
        group(Delimiter::Parenthesis, vec![ident("crate")]),
        ident("enum"),
        ident("E"),
        group(Delimiter::Brace, vec![ident("A")]),
    ];
    let d = derive(&item).unwrap();
    assert_eq!(d.name, "E");
    assert_eq!(d.variants, vec![String::from("A")]);
}

#[test]
fn derive_errors() {
    assert_eq!(derive(&vec![]).unwrap_err(), DeriveError::MissingToken);
    assert_eq!(derive(&vec![hash()]).unwrap_err(), DeriveError::MissingToken);
    assert_eq!(derive(&vec![hash(), ident("x")]).unwrap_err(), DeriveError::MissingAttributeGroup);
    assert_eq!(derive(&vec![ident("pub")]).unwrap_err(), DeriveError::MissingToken);
    assert_eq!(
        derive(&vec![ident("pub"), group(Delimiter::Parenthesis, vec![])]).unwrap_err(),
        DeriveError::MissingKeyword
    );
    assert_eq!(derive(&vec![ident("union"), ident("U")]).unwrap_err(), DeriveError::NotEnumOrStruct);
    assert_eq!(derive(&vec![comma()]).unwrap_err(), DeriveError::NotEnumOrStruct);
    assert_eq!(derive(&vec![ident("enum")]).unwrap_err(), DeriveError::MissingName);
    assert_eq!(derive(&vec![ident("enum"), comma()]).unwrap_err(), DeriveError::MissingName);
    assert_eq!(derive(&vec![ident("enum"), ident("E")]).unwrap_err(), DeriveError::MissingBody);
    assert_eq!(
        derive(&vec![ident("enum"), ident("E"), group(Delimiter::Parenthesis, vec![])]).unwrap_err(),
        DeriveError::MissingBody
    );
    assert_eq!(derive(&vec![ident("enum"), ident("E"), ident("F")]).unwrap_err(), DeriveError::MissingBody);
}

#[test]
fn struct_needs_no_body() {
    let d = derive(&vec![ident("struct"), ident("S")]).unwrap();
    assert!(!d.is_enum);
    assert_eq!(d.name, "S");
}

#[test]
fn variants_are_the_identifiers_of_the_body() {
    let body = vec![
        hash(),
        group(Delimiter::Bracket, vec![ident("doc")]),
        ident("A"),
        group(Delimiter::Parenthesis, vec![ident("u8")]),
        comma(),
        ident("B"),
    ];
    assert_eq!(variant_names(&body), vec![String::from("A"), String::from("B")]);
    assert!(variant_names(&vec![]).is_empty());
    assert!(variant_names(&vec![comma(), comma()]).is_empty());
}

#[test]
fn next_ident_skips_other_tokens() {
    let ts = vec![comma(), ident("a"), comma(), ident("b")];
    assert_eq!(next_ident(&ts, 0), Some(1));
    assert_eq!(next_ident(&ts, 1), Some(1));
    assert_eq!(next_ident(&ts, 2), Some(3));
    assert_eq!(next_ident(&ts, 4), None);
    assert_eq!(next_ident(&ts, 9), None);
    assert_eq!(next_ident(&vec![comma()], 0), None);
}

#[test]
fn punct_joins_all_but_the_last() {
    assert_eq!(
        punct("::"),
        vec![Punct { ch: ':', spacing: Spacing::Joint }, Punct { ch: ':', spacing: Spacing::Alone }]
    );
    assert_eq!(punct(";"), vec![Punct { ch: ';', spacing: Spacing::Alone }]);
    assert_eq!(
        punct("..="),
        vec![
            Punct { ch: '.', spacing: Spacing::Joint },
            Punct { ch: '.', spacing: Spacing::Joint },
            Punct { ch: '=', spacing: Spacing::Alone }
        ]
    );
    assert!(punct("").is_empty());
}

#[test]
fn path_of_one_segment_has_no_separator() {
    assert_eq!(path(&vec!["cmli"]), vec![PathToken::Ident("cmli")]);
    assert!(path(&vec![]).is_empty());
}

#[test]
fn path_walks_items_and_separators() {
    let mut walk = Path::new(vec![1u8, 2, 3], vec![0u8, 0]);
    let mut out = Vec::new();
    while let Some(x) = walk.next() {
        out.push(x);
    }
    assert_eq!(out, vec![1, 0, 0, 2, 0, 0, 3]);
    assert_eq!(walk.next(), None);
    let mut single = Path::new(vec![7u8], vec![0u8]);
    assert_eq!(single.next(), Some(7));
    assert_eq!(single.next(), None);
    let mut empty = Path::new(Vec::<u8>::new(), vec![0u8]);
    assert_eq!(empty.next(), None);
    let mut bare = Path::new(vec![1u8, 2], Vec::new());
    assert_eq!(bare.next(), Some(1));
    assert_eq!(bare.next(), Some(2));
    assert_eq!(bare.next(), None);
}

#[test]
fn literal_of_a_number() {
    assert_eq!(lit_u64(0), TokenTree::Literal(String::from("0u64")));
    assert_eq!(lit_u64(1207), TokenTree::Literal(String::from("1207u64")));
    assert_eq!(lit_u64(u64::MAX), TokenTree::Literal(String::from("18446744073709551615u64")));
}

#[test]
fn tokens_as_bytes() {
    let mut out = Vec::new();
    hash_token_tree(&ident("ab"), &mut out);
    assert_eq!(out, vec![1, 0, 0, 0, 0, 0, 0, 0, 2, 0, 0, 0, 0, 0, 0, 0, 97, 98, 0, 0, 0, 0, 0, 0]);
    let mut out = Vec::new();
    hash_token_tree(&TokenTree::Literal(String::from("ab")), &mut out);
    assert_eq!(out, vec![3, 0, 0, 0, 0, 0, 0, 0, 2, 0, 0, 0, 0, 0, 0, 0, 97, 98, 0, 0, 0, 0, 0, 0]);
    let mut out = Vec::new();
    hash_token_tree(&TokenTree::Punct(':', Spacing::Joint), &mut out);
    assert_eq!(out, vec![2, 0, 0, 0, 0, 0, 0, 0, 58, 0, 0, 0, 0, 0, 0, 0, 0, 0, 0, 0, 0, 0, 0, 0]);
    let mut out = Vec::new();
    hash_token_tree(&TokenTree::Punct(':', Spacing::Alone), &mut out);
    assert_eq!(out, vec![2, 0, 0, 0, 0, 0, 0, 0, 58, 0, 0, 0, 0, 0, 0, 0, 1, 0, 0, 0, 0, 0, 0, 0]);
    let mut out = Vec::new();
    hash_token_tree(&group(Delimiter::Parenthesis, vec![TokenTree::Literal(String::from("1"))]), &mut out);
    assert_eq!(
        out,
        vec![
            0, 0, 0, 0, 0, 0, 0, 0, 0, 0, 0, 0, 0, 0, 0, 0, 3, 0, 0, 0, 0, 0, 0, 0, 1, 0, 0, 0, 0, 0, 0, 0,
            49, 0, 0, 0, 0, 0, 0, 0, 239, 190, 173, 222, 0, 0, 0, 0
        ]
    );
    let mut out = vec![1u8];
    hash_token_stream(&vec![], &mut out);
    assert_eq!(out, vec![1, 239, 190, 173, 222, 0, 0, 0, 0]);
}

#[test]
fn kinds_of_tokens_are_told_apart() {
    let mut as_ident = Vec::new();
    hash_token_tree(&ident("5"), &mut as_ident);
    let mut as_literal = Vec::new();
    hash_token_tree(&TokenTree::Literal(String::from("5")), &mut as_literal);
    assert_ne!(as_ident, as_literal);
    let item = |body| vec![ident("enum"), ident("E"), group(Delimiter::Brace, body)];
    let a = derive(&item(vec![ident("A")])).unwrap();
    let b = derive(&item(vec![TokenTree::Literal(String::from("A"))])).unwrap();
    assert_ne!(a.tag, b.tag);
}

#[test]
fn delimiters_are_told_apart() {
    let mut seen = Vec::new();
    for d in [Delimiter::Parenthesis, Delimiter::Brace, Delimiter::Bracket, Delimiter::Invisible] {
        let mut out = Vec::new();
        hash_token_tree(&group(d, vec![]), &mut out);
        assert!(!seen.contains(&out));
        seen.push(out);
    }
}

#[test]
fn error_arguments_are_split_at_the_comma() {
    assert_eq!(compile_error_with_span(&vec![]), Err(DeriveError::MissingToken));
    assert_eq!(compile_error_with_span(&vec![ident("x")]), Ok(1));
    assert_eq!(compile_error_with_span(&vec![ident("x"), comma()]), Ok(2));
    assert_eq!(
        compile_error_with_span(&vec![ident("x"), comma(), TokenTree::Literal(String::from("\"m\""))]),
        Ok(2)
    );
    assert_eq!(compile_error_with_span(&vec![ident("x"), ident("y")]), Err(DeriveError::MissingComma));
}

#[test]
fn identity_of_a_derived_type_is_handed_out() {
    let d = derive(&mode_enum()).unwrap();
    assert_eq!(d.identity.len() % 8, 0);
    assert_eq!(mint_tag(seed().k0, seed().k1, &d.identity), Some(d.tag));
    let s = derive_impl(
        &vec![ident("struct"), ident("Mode")],
        &vec!["mach"],
        "MachineMode",
        "cmli",
        "cmli::archs::x86",
        seed(),
    )
    .unwrap();
    assert_ne!(s.identity, d.identity);
    assert!(d.identity.starts_with(&s.identity));
}

#[test]
fn payloads_are_numbered_from_zero() {
    let d = derive(&mode_enum()).unwrap();
    assert_eq!(d.payloads(), vec![0, 1]);
    assert_eq!(d.variant_of(0), Some(0));
    assert_eq!(d.variant_of(1), Some(1));
    assert_eq!(d.variant_of(2), None);
    assert_eq!(d.variant_of(u64::MAX), None);
    let s = derive(&vec![ident("struct"), ident("S")]).unwrap();
    assert!(s.payloads().is_empty());
    assert_eq!(s.variant_of(0), None);
}

#[test]
fn types_derived_into_one_registry_have_tags_of_their_own() {
    let mut registry = TagRegistry::new(seed());
    let mut tags = Vec::new();
    for n in 0..40u32 {
        let item = vec![
            ident("enum"),
            TokenTree::Ident(format!("E{}", n)),
            group(Delimiter::Brace, vec![ident("A"), comma()]),
        ];
        let d = derive_and_register(&mut registry, &item, &vec!["mach"], "MachineMode", "cmli", "m").unwrap();
        assert_eq!(registry.lookup(&d.identity), Some(d.tag));
        assert!(!tags.contains(&d.tag));
        tags.push(d.tag);
    }
    assert_eq!(registry.len(), 40);
    let again = derive_and_register(
        &mut registry,
        &vec![ident("enum"), ident("E0"), group(Delimiter::Brace, vec![ident("A"), comma()])],
        &vec!["mach"],
        "MachineMode",
        "cmli",
        "m",
    )
    .unwrap();
    assert_eq!(again.tag, tags[0]);
    assert_eq!(registry.len(), 40);
    let same = derive_impl(&mode_enum(), &vec!["mach"], "MachineMode", "cmli", "cmli::archs::x86", seed());
    let held = derive_and_register(&mut registry, &mode_enum(), &vec!["mach"], "MachineMode", "cmli", "cmli::archs::x86");
    assert_eq!(same, held);
    let err = derive_and_register(&mut registry, &vec![ident("enum")], &vec![], "MachineMode", "cmli", "m");
    assert_eq!(err.unwrap_err(), DeriveError::MissingName);
    assert_eq!(registry.len(), 41);
}
