//! The dual definition emitter.
//!
//! One interface declaration is turned into: a descriptor binding the
//! interface to its identifier, one descriptor per method binding
//! `(interface, method hash)` to `(id, input type, output type)`, and two
//! build-configuration-gated copies of the declaration — the host-side copy
//! structurally unchanged but for the stripped generator attributes, and the
//! remote-call copy whose method bodies are call-building expressions and
//! whose signatures gain encode/decode bounds.
//!
//! Any method with a default body, any non-method item, and any unusable
//! identifier override abort the whole expansion: no partial output exists,
//! an error is the only result.

use vstd::prelude::*;
use vstd::string::StringExecFns;
use vstd::string::StrSliceExecFns;

use crate::hash::{hash16, hash16_spec, hash32, hash32_spec};
use crate::identifier::{find_id, find_id_spec, trait_id_spec, TraitAttrs};
use crate::model::{
    clone_attrs, clone_fn_args, clone_strings, seq_views, Error, FnArg, FnArgView, InterfaceDecl,
    InterfaceDeclView, InterfaceItem, InterfaceItemView, MetaArg, MetaArgView, MethodAttr,
    MethodAttrView, MethodDecl,
    MethodDeclView, MethodSig, MethodSigView,
};
use crate::text::{tuple_text, tuple_text_spec};

verus! {

/// The attributes of a method with the generator's own attributes removed.
pub open spec fn strip_obce(attrs: Seq<MethodAttrView>) -> Seq<MethodAttrView> {
    attrs.filter(|a: MethodAttrView| !(a is Obce))
}

/// The arguments of the first generator attribute on a method, if any.
pub open spec fn first_obce_args(attrs: Seq<MethodAttrView>) -> Option<Seq<MetaArgView>>
    decreases attrs.len(),
{
    if attrs.len() == 0 {
        None
    } else {
        match attrs[0] {
            MethodAttrView::Obce(args) => Some(args),
            MethodAttrView::Other(_) => first_obce_args(attrs.drop_first()),
        }
    }
}

/// The wire-level identifier of a method: the override carried by its first
/// generator attribute when one is given, else the 16-bit hash of its name.
pub open spec fn method_id_spec(m: MethodDeclView) -> Result<u16, Error> {
    match first_obce_args(m.attrs) {
        Some(args) => match find_id_spec(args) {
            Ok(Some(v)) => Ok(v),
            Ok(None) => Ok(hash16_spec(m.sig.name)),
            Err(e) => Err(e),
        },
        None => Ok(hash16_spec(m.sig.name)),
    }
}

/// The ordered types of a method's typed parameters; the receiver is skipped.
pub open spec fn input_types_spec(args: Seq<FnArgView>) -> Seq<Seq<char>>
    decreases args.len(),
{
    if args.len() == 0 {
        Seq::empty()
    } else {
        let tail = match args.last() {
            FnArgView::Typed(p) => seq![p.ty],
            FnArgView::Receiver => Seq::empty(),
        };
        input_types_spec(args.drop_last()) + tail
    }
}

/// The ordered binding patterns of a method's typed parameters.
pub open spec fn arg_names_spec(args: Seq<FnArgView>) -> Seq<Seq<char>>
    decreases args.len(),
{
    if args.len() == 0 {
        Seq::empty()
    } else {
        let tail = match args.last() {
            FnArgView::Typed(p) => seq![p.pat],
            FnArgView::Receiver => Seq::empty(),
        };
        arg_names_spec(args.drop_last()) + tail
    }
}

/// The captured output type: the declared return type, or the unit type when
/// the method declares none.
pub open spec fn output_type_spec(output: Option<Seq<char>>) -> Seq<char> {
    match output {
        Some(t) => t,
        None => "()"@,
    }
}

/// The descriptor data captured from one method declaration: its wire-level
/// identifier, its name hash (the type-level descriptor key), and the
/// canonical input tuple and output type texts.
pub struct Method {
    pub id: u16,
    pub hash: u32,
    pub input: String,
    pub output: String,
}

/// Ghost view of [`Method`].
pub struct MethodView {
    pub id: u16,
    pub hash: u32,
    pub input: Seq<char>,
    pub output: Seq<char>,
}

impl View for Method {
    type V = MethodView;

    open spec fn view(&self) -> MethodView {
        MethodView { id: self.id, hash: self.hash, input: self.input@, output: self.output@ }
    }
}

/// The descriptor [`Method::new`] must capture from a method declaration, or
/// the error that rejects the declaration. The default-body check comes
/// first; an identifier error is reported only for a body-less method.
pub open spec fn method_new_spec(m: MethodDeclView) -> Result<MethodView, Error> {
    if m.has_default_body {
        Err(Error::UnsupportedDefaultBody)
    } else {
        match method_id_spec(m) {
            Ok(id) => Ok(
                MethodView {
                    id,
                    hash: hash32_spec(m.sig.name),
                    input: tuple_text_spec(input_types_spec(m.sig.args)),
                    output: output_type_spec(m.sig.output),
                },
            ),
            Err(e) => Err(e),
        }
    }
}

/// The view of a descriptor-capture result.
pub open spec fn method_result_view(r: Result<Method, Error>) -> Result<MethodView, Error> {
    match r {
        Ok(m) => Ok(m@),
        Err(e) => Err(e),
    }
}

/// Appending an attribute extends the first-generator-attribute lookup at the
/// back: an earlier hit stays, otherwise the new attribute decides.
proof fn lemma_first_obce_push(attrs: Seq<MethodAttrView>, x: MethodAttrView)
    ensures
        first_obce_args(attrs.push(x)) == match first_obce_args(attrs) {
            Some(args) => Some(args),
            None => match x {
                MethodAttrView::Obce(args) => Some(args),
                MethodAttrView::Other(_) => None,
            },
        },
    decreases attrs.len(),
{
    let grown = attrs.push(x);
    if attrs.len() == 0 {
        assert(grown[0] == x);
    } else {
        assert(grown[0] == attrs[0]);
        assert(grown.drop_first() =~= attrs.drop_first().push(x));
        lemma_first_obce_push(attrs.drop_first(), x);
    }
}

impl Method {
    /// Captures the descriptor data of one method declaration and strips the
    /// generator's own attributes from it. A declaration carrying a default
    /// body is rejected untouched; on an identifier error the attributes are
    /// already stripped, but no descriptor is produced.
    pub fn new(method_item: &mut MethodDecl) -> (r: Result<Method, Error>)
        ensures
            method_result_view(r) == method_new_spec(old(method_item)@),
            old(method_item)@.has_default_body ==> final(method_item)@ == old(method_item)@,
            !old(method_item)@.has_default_body ==> {
                &&& final(method_item)@.attrs == strip_obce(old(method_item)@.attrs)
                &&& final(method_item)@.sig == old(method_item)@.sig
                &&& final(method_item)@.has_default_body == old(method_item)@.has_default_body
            },
    {
        if method_item.has_default_body {
            return Err(Error::UnsupportedDefaultBody);
        }
        let ghost m0 = method_item@;

        // Partition the attributes: the generator's own are stripped, and the
        // first of them supplies the identifier override, if any.
        let mut kept: Vec<MethodAttr> = Vec::new();
        let mut override_result: Result<Option<u16>, Error> = Ok(None);
        let mut seen_obce = false;
        let ghost mut obce_args: Seq<MetaArgView> = Seq::empty();
        let mut i: usize = 0;
        proof {
            assert(m0.attrs.take(0) =~= Seq::<MethodAttrView>::empty());
            reveal(Seq::filter);
        }
        while i < method_item.attrs.len()
            invariant
                i <= method_item@.attrs.len(),
                method_item@ == m0,
                !m0.has_default_body,
                seq_views(kept@) == strip_obce(m0.attrs.take(i as int)),
                seen_obce ==> first_obce_args(m0.attrs.take(i as int)) == Some(obce_args)
                    && override_result == find_id_spec(obce_args),
                !seen_obce ==> first_obce_args(m0.attrs.take(i as int)) is None
                    && override_result == Ok::<Option<u16>, Error>(None),
            decreases method_item@.attrs.len() - i,
        {
            proof {
                lemma_first_obce_push(m0.attrs.take(i as int), m0.attrs[i as int]);
                assert(m0.attrs.take(i as int).push(m0.attrs[i as int]) =~= m0.attrs.take(
                    i as int + 1,
                ));
                reveal(Seq::filter);
                assert(m0.attrs.take(i as int + 1).drop_last() =~= m0.attrs.take(i as int));
            }
            let attr = &method_item.attrs[i];
            match attr {
                MethodAttr::Obce(args) => {
                    if !seen_obce {
                        seen_obce = true;
                        override_result = find_id(args);
                        proof {
                            obce_args = seq_views(args@);
                        }
                    }
                },
                MethodAttr::Other(_) => {
                    kept.push(attr.clone());
                    proof {
                        assert(seq_views(kept@) =~= strip_obce(m0.attrs.take(i as int + 1)));
                    }
                },
            }
            i += 1;
        }
        proof {
            assert(m0.attrs.take(m0.attrs.len() as int) =~= m0.attrs);
        }
        method_item.attrs = kept;

        let id = match override_result {
            Ok(Some(v)) => v,
            Ok(None) => hash16(method_item.sig.name.as_str()),
            Err(e) => {
                return Err(e);
            },
        };
        let hash = hash32(method_item.sig.name.as_str());

        // Capture the ordered typed-parameter types; the receiver is skipped.
        let ghost argv = m0.sig.args;
        let mut tys: Vec<String> = Vec::new();
        let mut j: usize = 0;
        proof {
            assert(seq_views(tys@) =~= input_types_spec(argv.take(0)));
        }
        while j < method_item.sig.args.len()
            invariant
                j <= argv.len(),
                method_item@.sig == m0.sig,
                argv == m0.sig.args,
                seq_views(tys@) == input_types_spec(argv.take(j as int)),
            decreases argv.len() - j,
        {
            proof {
                assert(argv.take(j as int + 1).drop_last() =~= argv.take(j as int));
                assert(argv.take(j as int + 1).last() == argv[j as int]);
            }
            match &method_item.sig.args[j] {
                FnArg::Typed(p) => {
                    tys.push(p.ty.clone());
                    proof {
                        assert(seq_views(tys@) =~= input_types_spec(argv.take(j as int + 1)));
                    }
                },
                FnArg::Receiver => {
                    proof {
                        assert(input_types_spec(argv.take(j as int + 1)) =~= input_types_spec(
                            argv.take(j as int),
                        ));
                    }
                },
            }
            j += 1;
        }
        proof {
            assert(argv.take(argv.len() as int) =~= argv);
        }
        let input = tuple_text(&tys);
        let output = match &method_item.sig.output {
            Some(t) => t.clone(),
            None => String::from_str("()"),
        };
        Ok(Method { id, hash, input, output })
    }

    /// Builds the remote-call copy of a sanitized method declaration: the
    /// signature gains the encode bound on the input tuple and the decode
    /// bound on the output type, appended after any pre-existing `where`
    /// predicates, and the body becomes the call-building expression that
    /// forwards the argument bindings under this descriptor's identifier.
    pub fn fill_with_ink_data(&self, method_item: &MethodDecl) -> (r: RemoteMethod)
        ensures
            r@.attrs == method_item@.attrs,
            r@.sig.name == method_item@.sig.name,
            r@.sig.args == method_item@.sig.args,
            r@.sig.output == method_item@.sig.output,
            r@.sig.where_preds == method_item@.sig.where_preds.push(
                self@.input + ": ::scale::Encode"@,
            ).push(self@.output + ": ::scale::Decode"@),
            r@.body == (CallBodyView {
                method_id: self@.id,
                input: self@.input,
                output: self@.output,
                payload: tuple_text_spec(arg_names_spec(method_item@.sig.args)),
            }),
    {
        let mut where_preds = clone_strings(&method_item.sig.where_preds);
        let mut encode_bound = self.input.clone();
        encode_bound.append(": ::scale::Encode");
        let mut decode_bound = self.output.clone();
        decode_bound.append(": ::scale::Decode");
        let ghost preds0 = seq_views(where_preds@);
        where_preds.push(encode_bound);
        where_preds.push(decode_bound);
        proof {
            assert(seq_views(where_preds@) =~= preds0.push(self@.input + ": ::scale::Encode"@).push(
                self@.output + ": ::scale::Decode"@,
            ));
        }

        // The forwarded payload: the tuple of argument bindings, in order.
        let ghost argv = method_item@.sig.args;
        let mut names: Vec<String> = Vec::new();
        let mut j: usize = 0;
        proof {
            assert(seq_views(names@) =~= arg_names_spec(argv.take(0)));
        }
        while j < method_item.sig.args.len()
            invariant
                j <= argv.len(),
                argv == method_item@.sig.args,
                seq_views(names@) == arg_names_spec(argv.take(j as int)),
            decreases argv.len() - j,
        {
            proof {
                assert(argv.take(j as int + 1).drop_last() =~= argv.take(j as int));
                assert(argv.take(j as int + 1).last() == argv[j as int]);
            }
            match &method_item.sig.args[j] {
                FnArg::Typed(p) => {
                    names.push(p.pat.clone());
                    proof {
                        assert(seq_views(names@) =~= arg_names_spec(argv.take(j as int + 1)));
                    }
                },
                FnArg::Receiver => {
                    proof {
                        assert(arg_names_spec(argv.take(j as int + 1)) =~= arg_names_spec(
                            argv.take(j as int),
                        ));
                    }
                },
            }
            j += 1;
        }
        proof {
            assert(argv.take(argv.len() as int) =~= argv);
        }
        let payload = tuple_text(&names);

        RemoteMethod {
            attrs: clone_attrs(&method_item.attrs),
            sig: MethodSig {
                name: method_item.sig.name.clone(),
                args: clone_fn_args(&method_item.sig.args),
                output: match &method_item.sig.output {
                    Some(t) => Some(t.clone()),
                    None => None,
                },
                where_preds,
            },
            body: CallBody {
                method_id: self.id,
                input: self.input.clone(),
                output: self.output.clone(),
                payload,
            },
        }
    }
}

/// The synthesized body of a remote-call method: a call-building expression
/// carrying the method's identifier, binding the input tuple type and output
/// type explicitly, forwarding the payload tuple of argument bindings, and
/// ignoring remote-side error codes at this layer.
pub struct CallBody {
    pub method_id: u16,
    pub input: String,
    pub output: String,
    pub payload: String,
}

/// Ghost view of [`CallBody`].
pub struct CallBodyView {
    pub method_id: u16,
    pub input: Seq<char>,
    pub output: Seq<char>,
    pub payload: Seq<char>,
}

impl View for CallBody {
    type V = CallBodyView;

    open spec fn view(&self) -> CallBodyView {
        CallBodyView {
            method_id: self.method_id,
            input: self.input@,
            output: self.output@,
            payload: self.payload@,
        }
    }
}

/// A method of the remote-call copy: the sanitized declaration with the
/// appended serializability bounds, plus its synthesized body.
pub struct RemoteMethod {
    pub attrs: Vec<MethodAttr>,
    pub sig: MethodSig,
    pub body: CallBody,
}

/// Ghost view of [`RemoteMethod`].
pub struct RemoteMethodView {
    pub attrs: Seq<MethodAttrView>,
    pub sig: MethodSigView,
    pub body: CallBodyView,
}

impl View for RemoteMethod {
    type V = RemoteMethodView;

    open spec fn view(&self) -> RemoteMethodView {
        RemoteMethodView { attrs: seq_views(self.attrs@), sig: self.sig@, body: self.body@ }
    }
}

/// The descriptor declaration binding an interface to its identifier.
pub struct ExtensionDescriptor {
    pub interface: String,
    pub id: u16,
}

/// Ghost view of [`ExtensionDescriptor`].
pub struct ExtensionDescriptorView {
    pub interface: Seq<char>,
    pub id: u16,
}

impl View for ExtensionDescriptor {
    type V = ExtensionDescriptorView;

    open spec fn view(&self) -> ExtensionDescriptorView {
        ExtensionDescriptorView { interface: self.interface@, id: self.id }
    }
}

/// The descriptor declaration binding `(interface, method hash)` to the
/// method's identifier and captured input/output types.
pub struct MethodDescriptor {
    pub interface: String,
    pub hash: u32,
    pub id: u16,
    pub input: String,
    pub output: String,
}

/// Ghost view of [`MethodDescriptor`].
pub struct MethodDescriptorView {
    pub interface: Seq<char>,
    pub hash: u32,
    pub id: u16,
    pub input: Seq<char>,
    pub output: Seq<char>,
}

impl View for MethodDescriptor {
    type V = MethodDescriptorView;

    open spec fn view(&self) -> MethodDescriptorView {
        MethodDescriptorView {
            interface: self.interface@,
            hash: self.hash,
            id: self.id,
            input: self.input@,
            output: self.output@,
        }
    }
}

/// The host-side copy of the interface: the sanitized declaration, methods
/// left as pure declarations.
pub struct HostTrait {
    pub name: String,
    pub generics: String,
    pub methods: Vec<MethodDecl>,
}

/// Ghost view of [`HostTrait`].
pub struct HostTraitView {
    pub name: Seq<char>,
    pub generics: Seq<char>,
    pub methods: Seq<MethodDeclView>,
}

impl View for HostTrait {
    type V = HostTraitView;

    open spec fn view(&self) -> HostTraitView {
        HostTraitView {
            name: self.name@,
            generics: self.generics@,
            methods: seq_views(self.methods@),
        }
    }
}

/// The remote-call copy of the interface: every method carries a synthesized
/// call-building body.
pub struct RemoteTrait {
    pub name: String,
    pub generics: String,
    pub methods: Vec<RemoteMethod>,
}

/// Ghost view of [`RemoteTrait`].
pub struct RemoteTraitView {
    pub name: Seq<char>,
    pub generics: Seq<char>,
    pub methods: Seq<RemoteMethodView>,
}

impl View for RemoteTrait {
    type V = RemoteTraitView;

    open spec fn view(&self) -> RemoteTraitView {
        RemoteTraitView {
            name: self.name@,
            generics: self.generics@,
            methods: seq_views(self.methods@),
        }
    }
}

/// Everything one successful expansion emits: the interface descriptor, the
/// method descriptors in declaration order, and the two gated copies of the
/// interface.
pub struct Emission {
    pub extension: ExtensionDescriptor,
    pub methods: Vec<MethodDescriptor>,
    pub host_copy: HostTrait,
    pub remote_copy: RemoteTrait,
}

/// Ghost view of [`Emission`].
pub struct EmissionView {
    pub extension: ExtensionDescriptorView,
    pub methods: Seq<MethodDescriptorView>,
    pub host_copy: HostTraitView,
    pub remote_copy: RemoteTraitView,
}

impl View for Emission {
    type V = EmissionView;

    open spec fn view(&self) -> EmissionView {
        EmissionView {
            extension: self.extension@,
            methods: seq_views(self.methods@),
            host_copy: self.host_copy@,
            remote_copy: self.remote_copy@,
        }
    }
}

/// The error that rejects one method declaration, if any.
pub open spec fn method_err_spec(m: MethodDeclView) -> Option<Error> {
    match method_new_spec(m) {
        Ok(_) => None,
        Err(e) => Some(e),
    }
}

/// The error that rejects one interface item, if any.
pub open spec fn item_err_spec(it: InterfaceItemView) -> Option<Error> {
    match it {
        InterfaceItemView::Method(m) => method_err_spec(m),
        InterfaceItemView::Other => Some(Error::UnsupportedItemKind),
    }
}

/// The first item error in declaration order, if any.
pub open spec fn first_item_err(items: Seq<InterfaceItemView>) -> Option<Error>
    decreases items.len(),
{
    if items.len() == 0 {
        None
    } else {
        match item_err_spec(items[0]) {
            Some(e) => Some(e),
            None => first_item_err(items.drop_first()),
        }
    }
}

/// The error that aborts a whole expansion, if any: an interface-level
/// identifier error comes first, then the items' errors in order.
pub open spec fn generate_err_spec(
    name: Seq<char>,
    attrs: Seq<MetaArgView>,
    items: Seq<InterfaceItemView>,
) -> Option<Error> {
    match trait_id_spec(name, attrs) {
        Err(e) => Some(e),
        Ok(_) => first_item_err(items),
    }
}

/// When the first `i` items are error-free, the first item error is decided
/// by the items from `i` on.
pub proof fn lemma_first_item_err_skip(items: Seq<InterfaceItemView>, i: int)
    requires
        0 <= i <= items.len(),
        forall|k: int| 0 <= k < i ==> item_err_spec(items[k]) is None,
    ensures
        first_item_err(items) == first_item_err(items.skip(i)),
    decreases i,
{
    if i == 0 {
        assert(items.skip(0) =~= items);
    } else {
        let rest = items.drop_first();
        assert forall|k: int| 0 <= k < i - 1 implies item_err_spec(rest[k]) is None by {
            assert(rest[k] == items[k + 1]);
        }
        lemma_first_item_err_skip(rest, i - 1);
        assert(rest.skip(i - 1) =~= items.skip(i));
    }
}

/// How one emitted method relates to the declared item it came from: the
/// item is a method, the descriptor carries exactly the captured data, the
/// host copy is the sanitized declaration, and the remote copy adds the
/// bounds and the call-building body.
pub open spec fn emitted_item_matches(
    ifname: Seq<char>,
    it: InterfaceItemView,
    d: MethodDescriptorView,
    h: MethodDeclView,
    r: RemoteMethodView,
) -> bool {
    match it {
        InterfaceItemView::Method(m) => {
            &&& method_descriptor_matches(ifname, m, d)
            &&& host_method_matches(m, h)
            &&& remote_method_matches(m, d, r)
        },
        InterfaceItemView::Other => false,
    }
}

/// The descriptor of one method: keyed by the interface's name, carrying
/// exactly what [`method_new_spec`] captures.
pub open spec fn method_descriptor_matches(
    ifname: Seq<char>,
    m: MethodDeclView,
    d: MethodDescriptorView,
) -> bool {
    &&& d.interface == ifname
    &&& method_new_spec(m) == Ok::<MethodView, Error>(
        MethodView { id: d.id, hash: d.hash, input: d.input, output: d.output },
    )
}

/// The host-side copy of one method: the declaration unchanged but for the
/// stripped generator attributes, still a pure declaration.
pub open spec fn host_method_matches(m: MethodDeclView, h: MethodDeclView) -> bool {
    &&& h.attrs == strip_obce(m.attrs)
    &&& h.sig == m.sig
    &&& !h.has_default_body
}

/// The remote-call copy of one method: the sanitized signature with the
/// encode/decode bounds appended after the declared `where` predicates, and
/// the synthesized body under the descriptor's identifier.
pub open spec fn remote_method_matches(
    m: MethodDeclView,
    d: MethodDescriptorView,
    r: RemoteMethodView,
) -> bool {
    &&& r.attrs == strip_obce(m.attrs)
    &&& r.sig.name == m.sig.name
    &&& r.sig.args == m.sig.args
    &&& r.sig.output == m.sig.output
    &&& r.sig.where_preds == m.sig.where_preds.push(d.input + ": ::scale::Encode"@).push(
        d.output + ": ::scale::Decode"@,
    )
    &&& r.body == (CallBodyView {
        method_id: d.id,
        input: d.input,
        output: d.output,
        payload: tuple_text_spec(arg_names_spec(m.sig.args)),
    })
}

/// Everything a successful expansion guarantees: no item error, the interface
/// descriptor carries the derived interface identifier, and the descriptors
/// and both copies line up with the declared items, one to one, in order.
pub open spec fn emission_matches(
    attrs: Seq<MetaArgView>,
    decl: InterfaceDeclView,
    em: EmissionView,
) -> bool {
    let n = decl.items.len();
    &&& generate_err_spec(decl.name, attrs, decl.items) is None
    &&& em.extension.interface == decl.name
    &&& trait_id_spec(decl.name, attrs) == Ok::<u16, Error>(em.extension.id)
    &&& em.methods.len() == n
    &&& em.host_copy.name == decl.name
    &&& em.host_copy.generics == decl.generics
    &&& em.host_copy.methods.len() == n
    &&& em.remote_copy.name == decl.name
    &&& em.remote_copy.generics == decl.generics
    &&& em.remote_copy.methods.len() == n
    &&& forall|i: int|
        #![trigger em.methods[i]]
        0 <= i < n ==> emitted_item_matches(
            decl.name,
            decl.items[i],
            em.methods[i],
            em.host_copy.methods[i],
            em.remote_copy.methods[i],
        )
}

/// Expands one interface declaration into its emission: descriptors and the
/// two gated copies, or the first error in evaluation order — the interface
/// identifier first, then each item in declaration order. On an error nothing
/// is emitted.
pub fn generate(attrs: &Vec<MetaArg>, input: &InterfaceDecl) -> (r: Result<Emission, Error>)
    ensures
        match r {
            Ok(em) => emission_matches(seq_views(attrs@), input@, em@),
            Err(e) => generate_err_spec(input@.name, seq_views(attrs@), input@.items) == Some(e),
        },
{
    let ghost av = seq_views(attrs@);
    let ghost dv = input@;

    let trait_attrs = match TraitAttrs::new(input, attrs) {
        Ok(t) => t,
        Err(e) => {
            return Err(e);
        },
    };

    let mut descriptors: Vec<MethodDescriptor> = Vec::new();
    let mut host_methods: Vec<MethodDecl> = Vec::new();
    let mut remote_methods: Vec<RemoteMethod> = Vec::new();
    let mut i: usize = 0;
    while i < input.items.len()
        invariant
            i <= dv.items.len(),
            dv == input@,
            av == seq_views(attrs@),
            trait_id_spec(dv.name, av) == Ok::<u16, Error>(trait_attrs.id),
            descriptors@.len() == i,
            host_methods@.len() == i,
            remote_methods@.len() == i,
            forall|k: int| 0 <= k < i ==> item_err_spec(dv.items[k]) is None,
            forall|k: int|
                #![trigger descriptors@[k]]
                0 <= k < i ==> emitted_item_matches(
                    dv.name,
                    dv.items[k],
                    descriptors@[k]@,
                    host_methods@[k]@,
                    remote_methods@[k]@,
                ),
        decreases dv.items.len() - i,
    {
        proof {
            assert(dv.items[i as int] == input.items@[i as int]@);
        }
        match &input.items[i] {
            InterfaceItem::Other => {
                proof {
                    lemma_first_item_err_skip(dv.items, i as int);
                    assert(dv.items.skip(i as int)[0] == dv.items[i as int]);
                }
                return Err(Error::UnsupportedItemKind);
            },
            InterfaceItem::Method(m) => {
                let mut work = m.clone();
                let desc = match Method::new(&mut work) {
                    Ok(d) => d,
                    Err(e) => {
                        proof {
                            lemma_first_item_err_skip(dv.items, i as int);
                            assert(dv.items.skip(i as int)[0] == dv.items[i as int]);
                        }
                        return Err(e);
                    },
                };
                let remote = desc.fill_with_ink_data(&work);
                let descriptor = MethodDescriptor {
                    interface: input.name.clone(),
                    hash: desc.hash,
                    id: desc.id,
                    input: desc.input,
                    output: desc.output,
                };
                descriptors.push(descriptor);
                host_methods.push(work);
                remote_methods.push(remote);
            },
        }
        i += 1;
    }
    proof {
        lemma_first_item_err_skip(dv.items, dv.items.len() as int);
        assert(dv.items.skip(dv.items.len() as int) =~= Seq::<InterfaceItemView>::empty());
    }

    let em = Emission {
        extension: ExtensionDescriptor { interface: input.name.clone(), id: trait_attrs.id },
        methods: descriptors,
        host_copy: HostTrait {
            name: input.name.clone(),
            generics: input.generics.clone(),
            methods: host_methods,
        },
        remote_copy: RemoteTrait {
            name: input.name.clone(),
            generics: input.generics.clone(),
            methods: remote_methods,
        },
    };
    proof {
        assert forall|k: int| 0 <= k < dv.items.len() implies emitted_item_matches(
            dv.name,
            dv.items[k],
            em@.methods[k],
            em@.host_copy.methods[k],
            em@.remote_copy.methods[k],
        ) by {
            assert(em@.methods[k] == em.methods@[k]@);
        }
    }
    Ok(em)
}

/// Law: the descriptor hash of a captured method is derived from its name
/// alone — never from an override.
pub proof fn lemma_descriptor_hash_from_name(m: MethodDeclView)
    ensures
        method_new_spec(m) matches Ok(d) ==> d.hash == hash32_spec(m.sig.name),
{
}

/// Law: two method declarations of the same name carry the same descriptor
/// hash, whatever identifier overrides either of them declares; the override
/// moves the wire-level id only.
pub proof fn lemma_hash_ignores_override(m1: MethodDeclView, m2: MethodDeclView)
    requires
        m1.sig.name == m2.sig.name,
    ensures
        match (method_new_spec(m1), method_new_spec(m2)) {
            (Ok(d1), Ok(d2)) => d1.hash == d2.hash,
            _ => true,
        },
{
}

/// Law: a method declaration carrying a default body is rejected as such,
/// whatever else it declares — the body check precedes every other one.
pub proof fn lemma_default_body_rejected(m: MethodDeclView)
    requires
        m.has_default_body,
    ensures
        method_new_spec(m) == Err::<MethodView, Error>(Error::UnsupportedDefaultBody),
{
}

/// An erring item anywhere means some item error is reported.
proof fn lemma_item_err_somewhere(items: Seq<InterfaceItemView>, i: int)
    requires
        0 <= i < items.len(),
        item_err_spec(items[i]) is Some,
    ensures
        first_item_err(items) is Some,
    decreases i,
{
    if !(item_err_spec(items[0]) is Some) {
        assert(items.drop_first()[i - 1] == items[i]);
        lemma_item_err_somewhere(items.drop_first(), i - 1);
    }
}

/// Law: an interface with any defaulted method emits nothing — the whole
/// expansion fails, whichever of its errors is reported first.
pub proof fn lemma_default_body_aborts_emission(
    name: Seq<char>,
    attrs: Seq<MetaArgView>,
    items: Seq<InterfaceItemView>,
    i: int,
)
    requires
        0 <= i < items.len(),
        items[i] matches InterfaceItemView::Method(m) && m.has_default_body,
    ensures
        generate_err_spec(name, attrs, items) is Some,
{
    lemma_item_err_somewhere(items, i);
}

/// Law: when the interface identifier resolves and every earlier item is in
/// order, a defaulted method is exactly what the expansion reports.
pub proof fn lemma_first_default_body_error(
    name: Seq<char>,
    attrs: Seq<MetaArgView>,
    items: Seq<InterfaceItemView>,
    i: int,
)
    requires
        trait_id_spec(name, attrs) is Ok,
        0 <= i < items.len(),
        forall|k: int| 0 <= k < i ==> item_err_spec(items[k]) is None,
        items[i] matches InterfaceItemView::Method(m) && m.has_default_body,
    ensures
        generate_err_spec(name, attrs, items) == Some(Error::UnsupportedDefaultBody),
{
    lemma_first_item_err_skip(items, i);
    assert(items.skip(i)[0] == items[i]);
}

} // verus!
