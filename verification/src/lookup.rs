//! The identifier lookup generator.
//!
//! A dotted path with exactly one segment (`Interface`) refers to an
//! interface's identifier; one with exactly two (`Interface::method`) refers
//! to a method's, keyed by the 32-bit hash of the method's name, re-derived
//! here with the same hash the definition emitter used. Any other segment
//! count is rejected. Resolution against an emission models the downstream
//! build looking the referenced descriptor up.

use vstd::prelude::*;
use vstd::string::StrSliceExecFns;

use crate::definition::{
    emission_matches, emitted_item_matches, method_new_spec, Emission, EmissionView,
    MethodDescriptorView,
};
use crate::hash::{hash32, hash32_spec};
use crate::model::{seq_views, Error, InterfaceDeclView, InterfaceItemView, MetaArgView, MethodDeclView};

verus! {

/// A reference to a previously emitted identifier: an interface's, keyed by
/// the interface name, or a method's, keyed by the interface name and the
/// method's name hash.
pub enum IdRef {
    Extension(String),
    Method(String, u32),
}

/// Ghost view of [`IdRef`].
pub enum IdRefView {
    Extension(Seq<char>),
    Method(Seq<char>, u32),
}

impl View for IdRef {
    type V = IdRefView;

    open spec fn view(&self) -> IdRefView {
        match self {
            IdRef::Extension(name) => IdRefView::Extension(name@),
            IdRef::Method(name, hash) => IdRefView::Method(name@, *hash),
        }
    }
}

/// What a path must resolve to: one segment names an interface, two name a
/// method under its re-derived name hash, anything else is malformed.
pub open spec fn lookup_spec(path: Seq<Seq<char>>) -> Result<IdRefView, Error> {
    if path.len() == 1 {
        Ok(IdRefView::Extension(path[0]))
    } else if path.len() == 2 {
        Ok(IdRefView::Method(path[0], hash32_spec(path[1])))
    } else {
        Err(Error::UnsupportedPathShape)
    }
}

/// The view of a lookup result.
pub open spec fn lookup_result_view(r: Result<IdRef, Error>) -> Result<IdRefView, Error> {
    match r {
        Ok(idref) => Ok(idref@),
        Err(e) => Err(e),
    }
}

/// Resolves a dotted path, given as its segments in order, to an identifier
/// reference. Exactly one or exactly two segments are meaningful; any other
/// shape is rejected, so that an interface and a method can be told apart.
pub fn generate(path: &Vec<String>) -> (r: Result<IdRef, Error>)
    ensures
        lookup_result_view(r) == lookup_spec(seq_views(path@)),
{
    if path.len() == 1 {
        Ok(IdRef::Extension(path[0].clone()))
    } else if path.len() == 2 {
        Ok(IdRef::Method(path[0].clone(), hash32(path[1].as_str())))
    } else {
        Err(Error::UnsupportedPathShape)
    }
}

/// The first descriptor keyed by `(ifname, h)` decides a method reference.
pub open spec fn resolve_method_spec(
    ds: Seq<MethodDescriptorView>,
    ifname: Seq<char>,
    h: u32,
) -> Option<u16>
    decreases ds.len(),
{
    if ds.len() == 0 {
        None
    } else if ds[0].interface == ifname && ds[0].hash == h {
        Some(ds[0].id)
    } else {
        resolve_method_spec(ds.drop_first(), ifname, h)
    }
}

/// The identifier an emission binds to a reference, if any.
pub open spec fn resolve_spec(em: EmissionView, idref: IdRefView) -> Option<u16> {
    match idref {
        IdRefView::Extension(name) => if em.extension.interface == name {
            Some(em.extension.id)
        } else {
            None
        },
        IdRefView::Method(name, h) => resolve_method_spec(em.methods, name, h),
    }
}

/// Looks an identifier reference up among the descriptors of one emission:
/// the model of the downstream build resolving the reference the lookup
/// generator produced.
pub fn resolve(em: &Emission, idref: &IdRef) -> (r: Option<u16>)
    ensures
        r == resolve_spec(em@, idref@),
{
    match idref {
        IdRef::Extension(name) => {
            if *name == em.extension.interface {
                Some(em.extension.id)
            } else {
                None
            }
        },
        IdRef::Method(name, h) => {
            let ghost ds = em@.methods;
            proof {
                assert(ds.skip(0) =~= ds);
            }
            let mut i: usize = 0;
            while i < em.methods.len()
                invariant
                    i <= ds.len(),
                    ds == em@.methods,
                    idref@ == IdRefView::Method(name@, *h),
                    resolve_method_spec(ds, name@, *h) == resolve_method_spec(
                        ds.skip(i as int),
                        name@,
                        *h,
                    ),
                decreases ds.len() - i,
            {
                proof {
                    assert(ds.skip(i as int)[0] == em.methods@[i as int]@);
                }
                let d = &em.methods[i];
                if d.interface == *name && d.hash == *h {
                    proof {
                        assert(ds.skip(i as int).len() > 0);
                        assert(resolve_method_spec(ds.skip(i as int), name@, *h) == Some(d@.id));
                        assert(resolve_spec(em@, idref@) == resolve_method_spec(ds, name@, *h));
                    }
                    return Some(d.id);
                }
                proof {
                    assert(ds.skip(i as int).drop_first() =~= ds.skip(i as int + 1));
                }
                i += 1;
            }
            proof {
                assert(ds.skip(ds.len() as int) =~= Seq::<MethodDescriptorView>::empty());
            }
            None
        },
    }
}

/// The first descriptor that matches the key decides the scan.
proof fn lemma_resolve_scan(ds: Seq<MethodDescriptorView>, ifname: Seq<char>, h: u32, i: int)
    requires
        0 <= i < ds.len(),
        forall|j: int| 0 <= j < i ==> !(ds[j].interface == ifname && ds[j].hash == h),
        ds[i].interface == ifname && ds[i].hash == h,
    ensures
        resolve_method_spec(ds, ifname, h) == Some(ds[i].id),
    decreases i,
{
    if i > 0 {
        let rest = ds.drop_first();
        assert forall|j: int| 0 <= j < i - 1 implies !(rest[j].interface == ifname && rest[j].hash
            == h) by {
            assert(rest[j] == ds[j + 1]);
        }
        assert(rest[i - 1] == ds[i]);
        lemma_resolve_scan(rest, ifname, h, i - 1);
    }
}

/// Law: applied to a bare interface path, the lookup yields a reference that
/// resolves, against that interface's emission, to exactly the emitted
/// interface identifier — override or not, since resolution reads the
/// descriptor instead of re-deriving.
pub proof fn lemma_interface_lookup_consistent(
    attrs: Seq<MetaArgView>,
    decl: InterfaceDeclView,
    em: EmissionView,
)
    requires
        emission_matches(attrs, decl, em),
    ensures
        lookup_spec(seq![decl.name]) matches Ok(idref) && resolve_spec(em, idref) == Some(
            em.extension.id,
        ),
{
}

/// Law: applied to `Interface::method`, the lookup re-derives exactly the
/// name hash under which the emitter keyed that method's descriptor; as long
/// as no earlier method of the interface carries the same name hash, the
/// reference resolves to that method's emitted identifier — the explicit
/// override included.
pub proof fn lemma_method_lookup_consistent(
    attrs: Seq<MetaArgView>,
    decl: InterfaceDeclView,
    em: EmissionView,
    i: int,
    m: MethodDeclView,
)
    requires
        emission_matches(attrs, decl, em),
        0 <= i < decl.items.len(),
        decl.items[i] matches InterfaceItemView::Method(mm) && mm == m,
        forall|j: int| 0 <= j < i ==> #[trigger] em.methods[j].hash != hash32_spec(m.sig.name),
    ensures
        lookup_spec(seq![decl.name, m.sig.name]) matches Ok(idref) && resolve_spec(em, idref)
            == Some(em.methods[i].id),
        method_new_spec(m) matches Ok(d) && d.id == em.methods[i].id,
{
    assert(emitted_item_matches(
        decl.name,
        decl.items[i],
        em.methods[i],
        em.host_copy.methods[i],
        em.remote_copy.methods[i],
    ));
    lemma_resolve_scan(em.methods, decl.name, hash32_spec(m.sig.name), i);
}

} // verus!
