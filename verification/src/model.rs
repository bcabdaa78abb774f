//! Data model of an interface declaration.
//!
//! The generator works on a structural picture of a trait-like declaration:
//! a name, opaque generic-parameter text, and a list of items, each either a
//! method declaration or something else (which is rejected). Types are carried
//! as their canonical source text; attribute arguments are carried as the
//! little vocabulary the generator understands (`id = <int>`, `id = <string>`,
//! any other literal, anything else).
//!
//! Every exec type has a ghost view (`...View`) over `Seq<char>`, and the
//! contracts of the generator are stated over those views.

use vstd::prelude::*;

verus! {

/// Failure of one generator expansion. Every error aborts the expansion
/// before any output is produced.
#[derive(Clone, Copy, Debug, PartialEq, Eq, Structural)]
pub enum Error {
    /// A method declaration in an interface carries a default body;
    /// interfaces must be pure declarations.
    UnsupportedDefaultBody,
    /// A non-method item appears where only methods are permitted.
    UnsupportedItemKind,
    /// An `id` override is neither an integer nor a string literal.
    InvalidIdentifierLiteral,
    /// An integer `id` override does not fit in 16 bits.
    IdentifierOverflow,
    /// The lookup generator received a path with other than one or two
    /// segments.
    UnsupportedPathShape,
}

impl Error {
    /// Diagnostic text attached to the offending declaration.
    pub fn message(&self) -> (m: &'static str) {
        match self {
            Error::UnsupportedDefaultBody => {
                "default implementation is not supported in chain extensions"
            },
            Error::UnsupportedItemKind => "only methods are supported in trait definitions",
            Error::InvalidIdentifierLiteral => "id should be integer or string",
            Error::IdentifierOverflow => "id does not fit into 16 bits",
            Error::UnsupportedPathShape => {
                "id lookup supports only two-segment paths (ChainExtension, ChainExtension::method)"
            },
        }
    }
}

/// One argument of a generator attribute: the recognized `id = <literal>`
/// forms, and `Marker` for any other argument, which is ignored.
pub enum MetaArg {
    /// `id = <integer literal>`.
    IdInt(u64),
    /// `id = <string literal>`.
    IdStr(String),
    /// `id = <some other literal>`: rejected.
    IdOtherLit,
    /// Any argument that does not assign `id`.
    Marker,
}

/// Ghost view of [`MetaArg`].
pub enum MetaArgView {
    IdInt(u64),
    IdStr(Seq<char>),
    IdOtherLit,
    Marker,
}

impl View for MetaArg {
    type V = MetaArgView;

    open spec fn view(&self) -> MetaArgView {
        match self {
            MetaArg::IdInt(v) => MetaArgView::IdInt(*v),
            MetaArg::IdStr(s) => MetaArgView::IdStr(s@),
            MetaArg::IdOtherLit => MetaArgView::IdOtherLit,
            MetaArg::Marker => MetaArgView::Marker,
        }
    }
}

impl Clone for MetaArg {
    fn clone(&self) -> (res: Self)
        ensures
            res@ == self@,
    {
        match self {
            MetaArg::IdInt(v) => MetaArg::IdInt(*v),
            MetaArg::IdStr(s) => MetaArg::IdStr(s.clone()),
            MetaArg::IdOtherLit => MetaArg::IdOtherLit,
            MetaArg::Marker => MetaArg::Marker,
        }
    }
}

/// An attribute on a method declaration: either one of this generator's own
/// (`Obce`, carrying its parsed arguments) or any other attribute, carried as
/// opaque text.
pub enum MethodAttr {
    Obce(Vec<MetaArg>),
    Other(String),
}

/// Ghost view of [`MethodAttr`].
pub enum MethodAttrView {
    Obce(Seq<MetaArgView>),
    Other(Seq<char>),
}

impl View for MethodAttr {
    type V = MethodAttrView;

    open spec fn view(&self) -> MethodAttrView {
        match self {
            MethodAttr::Obce(args) => MethodAttrView::Obce(seq_views(args@)),
            MethodAttr::Other(text) => MethodAttrView::Other(text@),
        }
    }
}

impl Clone for MethodAttr {
    fn clone(&self) -> (res: Self)
        ensures
            res@ == self@,
    {
        match self {
            MethodAttr::Obce(args) => MethodAttr::Obce(clone_meta_args(args)),
            MethodAttr::Other(text) => MethodAttr::Other(text.clone()),
        }
    }
}

/// One typed parameter of a method: a binding pattern and its type text.
pub struct Param {
    pub pat: String,
    pub ty: String,
}

/// Ghost view of [`Param`].
pub struct ParamView {
    pub pat: Seq<char>,
    pub ty: Seq<char>,
}

impl View for Param {
    type V = ParamView;

    open spec fn view(&self) -> ParamView {
        ParamView { pat: self.pat@, ty: self.ty@ }
    }
}

impl Clone for Param {
    fn clone(&self) -> (res: Self)
        ensures
            res@ == self@,
    {
        Param { pat: self.pat.clone(), ty: self.ty.clone() }
    }
}

/// One entry of a method's parameter list: the receiver (`self` in any of its
/// forms) or a typed parameter.
pub enum FnArg {
    Receiver,
    Typed(Param),
}

/// Ghost view of [`FnArg`].
pub enum FnArgView {
    Receiver,
    Typed(ParamView),
}

impl View for FnArg {
    type V = FnArgView;

    open spec fn view(&self) -> FnArgView {
        match self {
            FnArg::Receiver => FnArgView::Receiver,
            FnArg::Typed(p) => FnArgView::Typed(p@),
        }
    }
}

impl Clone for FnArg {
    fn clone(&self) -> (res: Self)
        ensures
            res@ == self@,
    {
        match self {
            FnArg::Receiver => FnArg::Receiver,
            FnArg::Typed(p) => FnArg::Typed(p.clone()),
        }
    }
}

/// A method's signature: its name, ordered parameter list, optional declared
/// return type, and the predicates of any pre-existing `where` clause, carried
/// as opaque text.
pub struct MethodSig {
    pub name: String,
    pub args: Vec<FnArg>,
    pub output: Option<String>,
    pub where_preds: Vec<String>,
}

/// Ghost view of [`MethodSig`].
pub struct MethodSigView {
    pub name: Seq<char>,
    pub args: Seq<FnArgView>,
    pub output: Option<Seq<char>>,
    pub where_preds: Seq<Seq<char>>,
}

impl View for MethodSig {
    type V = MethodSigView;

    open spec fn view(&self) -> MethodSigView {
        MethodSigView {
            name: self.name@,
            args: seq_views(self.args@),
            output: match self.output {
                Some(t) => Some(t@),
                None => None,
            },
            where_preds: seq_views(self.where_preds@),
        }
    }
}

/// A method declaration as it stands in the input interface: attributes, a
/// signature, and whether a default body is present (its content is
/// irrelevant — presence alone is rejected).
pub struct MethodDecl {
    pub attrs: Vec<MethodAttr>,
    pub sig: MethodSig,
    pub has_default_body: bool,
}

/// Ghost view of [`MethodDecl`].
pub struct MethodDeclView {
    pub attrs: Seq<MethodAttrView>,
    pub sig: MethodSigView,
    pub has_default_body: bool,
}

impl View for MethodDecl {
    type V = MethodDeclView;

    open spec fn view(&self) -> MethodDeclView {
        MethodDeclView {
            attrs: seq_views(self.attrs@),
            sig: self.sig@,
            has_default_body: self.has_default_body,
        }
    }
}

/// One item of an interface declaration. Only methods are meaningful; any
/// other item kind is rejected by the emitter.
pub enum InterfaceItem {
    Method(MethodDecl),
    Other,
}

/// Ghost view of [`InterfaceItem`].
pub enum InterfaceItemView {
    Method(MethodDeclView),
    Other,
}

impl View for InterfaceItem {
    type V = InterfaceItemView;

    open spec fn view(&self) -> InterfaceItemView {
        match self {
            InterfaceItem::Method(m) => InterfaceItemView::Method(m@),
            InterfaceItem::Other => InterfaceItemView::Other,
        }
    }
}

/// An interface declaration: a name, opaque generic-parameter text (empty when
/// the interface has none), and its items in declaration order.
pub struct InterfaceDecl {
    pub name: String,
    pub generics: String,
    pub items: Vec<InterfaceItem>,
}

/// Ghost view of [`InterfaceDecl`].
pub struct InterfaceDeclView {
    pub name: Seq<char>,
    pub generics: Seq<char>,
    pub items: Seq<InterfaceItemView>,
}

impl View for InterfaceDecl {
    type V = InterfaceDeclView;

    open spec fn view(&self) -> InterfaceDeclView {
        InterfaceDeclView {
            name: self.name@,
            generics: self.generics@,
            items: seq_views(self.items@),
        }
    }
}

/// The views of a sequence's elements, in order.
pub open spec fn seq_views<T: View>(s: Seq<T>) -> Seq<T::V> {
    s.map_values(|x: T| x@)
}

/// Duplicates an argument list, preserving its view.
pub fn clone_meta_args(v: &Vec<MetaArg>) -> (r: Vec<MetaArg>)
    ensures
        seq_views(r@) == seq_views(v@),
{
    let r = v.clone();
    proof {
        assert(seq_views(r@) =~= seq_views(v@)) by {
            assert forall|i: int| 0 <= i < r@.len() implies r@[i]@ == v@[i]@ by {
                assert(cloned(v@[i], r@[i]));
            }
        }
    }
    r
}

/// Duplicates an attribute list, preserving its view.
pub fn clone_attrs(v: &Vec<MethodAttr>) -> (r: Vec<MethodAttr>)
    ensures
        seq_views(r@) == seq_views(v@),
{
    let r = v.clone();
    proof {
        assert(seq_views(r@) =~= seq_views(v@)) by {
            assert forall|i: int| 0 <= i < r@.len() implies r@[i]@ == v@[i]@ by {
                assert(cloned(v@[i], r@[i]));
            }
        }
    }
    r
}

/// Duplicates a parameter list, preserving its view.
pub fn clone_fn_args(v: &Vec<FnArg>) -> (r: Vec<FnArg>)
    ensures
        seq_views(r@) == seq_views(v@),
{
    let r = v.clone();
    proof {
        assert(seq_views(r@) =~= seq_views(v@)) by {
            assert forall|i: int| 0 <= i < r@.len() implies r@[i]@ == v@[i]@ by {
                assert(cloned(v@[i], r@[i]));
            }
        }
    }
    r
}

/// Duplicates a list of text fragments, preserving its view.
pub fn clone_strings(v: &Vec<String>) -> (r: Vec<String>)
    ensures
        seq_views(r@) == seq_views(v@),
{
    let r = v.clone();
    proof {
        assert(seq_views(r@) =~= seq_views(v@)) by {
            assert forall|i: int| 0 <= i < r@.len() implies r@[i]@ == v@[i]@ by {
                assert(cloned(v@[i], r@[i]));
            }
        }
    }
    r
}

impl Clone for MethodSig {
    fn clone(&self) -> (res: Self)
        ensures
            res@ == self@,
    {
        MethodSig {
            name: self.name.clone(),
            args: clone_fn_args(&self.args),
            output: match &self.output {
                Some(t) => Some(t.clone()),
                None => None,
            },
            where_preds: clone_strings(&self.where_preds),
        }
    }
}

impl Clone for MethodDecl {
    fn clone(&self) -> (res: Self)
        ensures
            res@ == self@,
    {
        MethodDecl {
            attrs: clone_attrs(&self.attrs),
            sig: self.sig.clone(),
            has_default_body: self.has_default_body,
        }
    }
}

} // verus!
