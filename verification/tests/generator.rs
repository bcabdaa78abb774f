use obce::definition::{generate, Method};
use obce::hash::{hash16, hash32};
use obce::identifier::{find_id, TraitAttrs};
use obce::lookup;
use obce::model::{
    Error, FnArg, InterfaceDecl, InterfaceItem, MetaArg, MethodAttr, MethodDecl, MethodSig, Param,
};
use obce::text::tuple_text;

fn sig(name: &str, args: Vec<FnArg>, output: Option<&str>) -> MethodSig {
    MethodSig {
        name: name.to_string(),
        args,
        output: output.map(|t| t.to_string()),
        where_preds: Vec::new(),
    }
}

fn method(attrs: Vec<MethodAttr>, sig: MethodSig) -> MethodDecl {
    MethodDecl {
        attrs,
        sig,
        has_default_body: false,
    }
}

fn iface(name: &str) -> InterfaceDecl {
    InterfaceDecl {
        name: name.to_string(),
        generics: String::new(),
        items: Vec::new(),
    }
}

fn typed(pat: &str, ty: &str) -> FnArg {
    FnArg::Typed(Param {
        pat: pat.to_string(),
        ty: ty.to_string(),
    })
}

/// The round-trip scenario: interface override 123, method `a(x: u32) -> u64`
/// without an override, method `b(self)` with override 456.
fn scenario() -> (Vec<MetaArg>, InterfaceDecl) {
    let attrs = vec![MetaArg::IdInt(123)];
    let decl = InterfaceDecl {
        name: "Interface".to_string(),
        generics: String::new(),
        items: vec![
            InterfaceItem::Method(method(
                Vec::new(),
                sig("a", vec![FnArg::Receiver, typed("x", "u32")], Some("u64")),
            )),
            InterfaceItem::Method(method(
                vec![MethodAttr::Obce(vec![MetaArg::IdInt(456)])],
                sig("b", vec![FnArg::Receiver], None),
            )),
        ],
    };
    (attrs, decl)
}

#[test]
fn hashing_is_deterministic() {
    assert_eq!(hash32("some_method"), hash32("some_method"));
    assert_eq!(hash16("ChainExtension"), hash16("ChainExtension"));
    let built = String::from("ChainExtension");
    assert_eq!(hash16(built.as_str()), hash16("ChainExtension"));
}

#[test]
fn hashes_of_distinct_names_differ() {
    assert_ne!(hash32("a"), hash32("b"));
    assert_ne!(hash32("first_method"), hash32("second_method"));
}

#[test]
fn interface_id_defaults_to_name_hash() {
    let t = TraitAttrs::new(&iface("ChainExtension"), &vec![MetaArg::Marker]).unwrap();
    assert_eq!(t.id, hash16("ChainExtension"));
}

#[test]
fn interface_id_integer_override() {
    let t = TraitAttrs::new(&iface("ChainExtension"), &vec![MetaArg::IdInt(123)]).unwrap();
    assert_eq!(t.id, 123);
}

#[test]
fn interface_id_string_override() {
    let t = TraitAttrs::new(
        &iface("ChainExtension"),
        &vec![MetaArg::IdStr("custom".to_string())],
    )
    .unwrap();
    assert_eq!(t.id, hash16("custom"));
}

#[test]
fn first_id_argument_wins() {
    let r = find_id(&vec![
        MetaArg::Marker,
        MetaArg::IdInt(7),
        MetaArg::IdInt(9),
    ]);
    assert_eq!(r, Ok(Some(7)));
}

#[test]
fn oversized_integer_override_is_rejected() {
    let r = TraitAttrs::new(&iface("ChainExtension"), &vec![MetaArg::IdInt(70_000)]);
    assert_eq!(r.err().unwrap(), Error::IdentifierOverflow);
}

#[test]
fn non_integer_non_string_override_is_rejected() {
    let r = TraitAttrs::new(&iface("ChainExtension"), &vec![MetaArg::IdOtherLit]);
    assert_eq!(r.err().unwrap(), Error::InvalidIdentifierLiteral);
}

#[test]
fn method_hash_is_name_derived_even_under_override() {
    let mut plain = method(Vec::new(), sig("m", vec![], None));
    let mut overridden = method(
        vec![MethodAttr::Obce(vec![MetaArg::IdInt(456)])],
        sig("m", vec![], None),
    );
    let d1 = Method::new(&mut plain).unwrap();
    let d2 = Method::new(&mut overridden).unwrap();
    assert_eq!(d1.hash, hash32("m"));
    assert_eq!(d2.hash, hash32("m"));
    assert_eq!(d1.id, hash16("m"));
    assert_eq!(d2.id, 456);
}

#[test]
fn method_new_strips_generator_attributes() {
    let mut decl = method(
        vec![
            MethodAttr::Other("inline".to_string()),
            MethodAttr::Obce(vec![MetaArg::IdInt(9)]),
            MethodAttr::Other("doc".to_string()),
        ],
        sig("m", vec![], None),
    );
    Method::new(&mut decl).unwrap();
    assert_eq!(decl.attrs.len(), 2);
    assert!(matches!(&decl.attrs[0], MethodAttr::Other(t) if t == "inline"));
    assert!(matches!(&decl.attrs[1], MethodAttr::Other(t) if t == "doc"));
}

#[test]
fn default_body_is_rejected() {
    let mut decl = MethodDecl {
        attrs: Vec::new(),
        sig: sig("m", vec![], None),
        has_default_body: true,
    };
    assert_eq!(Method::new(&mut decl).err().unwrap(), Error::UnsupportedDefaultBody);
}

#[test]
fn default_body_aborts_the_whole_emission() {
    let (attrs, mut decl) = scenario();
    decl.items.push(InterfaceItem::Method(MethodDecl {
        attrs: Vec::new(),
        sig: sig("c", vec![], None),
        has_default_body: true,
    }));
    let r = generate(&attrs, &decl);
    assert_eq!(r.err().unwrap(), Error::UnsupportedDefaultBody);
}

#[test]
fn non_method_item_is_rejected() {
    let (attrs, mut decl) = scenario();
    decl.items.insert(0, InterfaceItem::Other);
    let r = generate(&attrs, &decl);
    assert_eq!(r.err().unwrap(), Error::UnsupportedItemKind);
}

#[test]
fn tuple_text_edges() {
    assert_eq!(tuple_text(&vec![]), "()");
    assert_eq!(tuple_text(&vec!["u32".to_string()]), "(u32)");
    assert_eq!(
        tuple_text(&vec!["u32".to_string(), "u64".to_string()]),
        "(u32, u64)"
    );
}

#[test]
fn round_trip_scenario() {
    let (attrs, decl) = scenario();
    let em = generate(&attrs, &decl).unwrap();

    assert_eq!(em.extension.interface, "Interface");
    assert_eq!(em.extension.id, 123);

    assert_eq!(em.methods.len(), 2);
    assert_eq!(em.methods[0].id, hash16("a"));
    assert_eq!(em.methods[0].hash, hash32("a"));
    assert_eq!(em.methods[0].input, "(u32)");
    assert_eq!(em.methods[0].output, "u64");
    assert_eq!(em.methods[1].id, 456);
    assert_eq!(em.methods[1].hash, hash32("b"));
    assert_eq!(em.methods[1].input, "()");
    assert_eq!(em.methods[1].output, "()");

    // The host copy is the sanitized declaration: generator attributes gone,
    // methods still pure declarations.
    assert_eq!(em.host_copy.name, "Interface");
    assert_eq!(em.host_copy.methods.len(), 2);
    assert!(em.host_copy.methods[1].attrs.is_empty());
    assert!(!em.host_copy.methods[0].has_default_body);
    assert!(!em.host_copy.methods[1].has_default_body);

    // The remote copy gains the encode/decode bounds and call-building bodies.
    assert_eq!(em.remote_copy.methods.len(), 2);
    let a = &em.remote_copy.methods[0];
    assert_eq!(a.sig.where_preds.len(), 2);
    assert_eq!(a.sig.where_preds[0], "(u32): ::scale::Encode");
    assert_eq!(a.sig.where_preds[1], "u64: ::scale::Decode");
    assert_eq!(a.body.method_id, hash16("a"));
    assert_eq!(a.body.input, "(u32)");
    assert_eq!(a.body.output, "u64");
    assert_eq!(a.body.payload, "(x)");
    let b = &em.remote_copy.methods[1];
    assert_eq!(b.sig.where_preds[0], "(): ::scale::Encode");
    assert_eq!(b.sig.where_preds[1], "(): ::scale::Decode");
    assert_eq!(b.body.method_id, 456);
    assert_eq!(b.body.payload, "()");
}

#[test]
fn remote_copy_appends_bounds_to_existing_predicates() {
    let attrs = Vec::new();
    let mut s = sig("m", vec![typed("v", "T")], Some("T"));
    s.where_preds.push("T: Clone".to_string());
    let decl = InterfaceDecl {
        name: "Ext".to_string(),
        generics: "<T>".to_string(),
        items: vec![InterfaceItem::Method(method(Vec::new(), s))],
    };
    let em = generate(&attrs, &decl).unwrap();
    assert_eq!(em.host_copy.generics, "<T>");
    let preds = &em.remote_copy.methods[0].sig.where_preds;
    assert_eq!(preds.len(), 3);
    assert_eq!(preds[0], "T: Clone");
    assert_eq!(preds[1], "(T): ::scale::Encode");
    assert_eq!(preds[2], "T: ::scale::Decode");
}

#[test]
fn lookup_resolves_interface_and_methods() {
    let (attrs, decl) = scenario();
    let em = generate(&attrs, &decl).unwrap();

    let r = lookup::generate(&vec!["Interface".to_string()]).unwrap();
    assert_eq!(lookup::resolve(&em, &r), Some(123));

    let ra = lookup::generate(&vec!["Interface".to_string(), "a".to_string()]).unwrap();
    assert_eq!(lookup::resolve(&em, &ra), Some(hash16("a")));

    let rb = lookup::generate(&vec!["Interface".to_string(), "b".to_string()]).unwrap();
    assert_eq!(lookup::resolve(&em, &rb), Some(456));
}

#[test]
fn lookup_misses_are_none() {
    let (attrs, decl) = scenario();
    let em = generate(&attrs, &decl).unwrap();

    let other = lookup::generate(&vec!["Elsewhere".to_string()]).unwrap();
    assert_eq!(lookup::resolve(&em, &other), None);

    let unknown = lookup::generate(&vec!["Interface".to_string(), "nope".to_string()]).unwrap();
    assert_eq!(lookup::resolve(&em, &unknown), None);
}

#[test]
fn lookup_rejects_other_path_shapes() {
    let three = vec![
        "Interface".to_string(),
        "method".to_string(),
        "extra".to_string(),
    ];
    assert_eq!(
        lookup::generate(&three).err().unwrap(),
        Error::UnsupportedPathShape
    );
    assert_eq!(
        lookup::generate(&Vec::new()).err().unwrap(),
        Error::UnsupportedPathShape
    );
}

#[test]
fn error_messages_name_the_problem() {
    assert_eq!(
        Error::UnsupportedDefaultBody.message(),
        "default implementation is not supported in chain extensions"
    );
    assert_eq!(
        Error::UnsupportedItemKind.message(),
        "only methods are supported in trait definitions"
    );
}
