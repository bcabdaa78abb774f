//! Identifier derivation.
//!
//! An interface or method identifier is a `u16`: an explicit `id = <literal>`
//! override when one is given (an integer that must fit 16 bits, or a string
//! that is hashed), otherwise the 16-bit hash of the declared name.

use vstd::prelude::*;

use crate::hash::{hash16, hash16_spec};
use crate::model::{seq_views, Error, InterfaceDecl, MetaArg, MetaArgView};

verus! {

/// What one attribute argument contributes to identifier lookup: nothing for
/// a non-`id` argument, otherwise the identifier or the error it produces.
pub open spec fn meta_arg_id_spec(a: MetaArgView) -> Option<Result<u16, Error>> {
    match a {
        MetaArgView::IdInt(v) => Some(
            if v <= 0xffff {
                Ok(v as u16)
            } else {
                Err(Error::IdentifierOverflow)
            },
        ),
        MetaArgView::IdStr(s) => Some(Ok(hash16_spec(s))),
        MetaArgView::IdOtherLit => Some(Err(Error::InvalidIdentifierLiteral)),
        MetaArgView::Marker => None,
    }
}

/// The identifier override found in an argument list: the first `id = ...`
/// argument decides; none at all yields `Ok(None)`.
pub open spec fn find_id_spec(args: Seq<MetaArgView>) -> Result<Option<u16>, Error>
    decreases args.len(),
{
    if args.len() == 0 {
        Ok(None)
    } else {
        match meta_arg_id_spec(args[0]) {
            Some(Ok(v)) => Ok(Some(v)),
            Some(Err(e)) => Err(e),
            None => find_id_spec(args.drop_first()),
        }
    }
}

/// Finds the identifier override among attribute arguments, if any.
pub fn find_id(args: &Vec<MetaArg>) -> (r: Result<Option<u16>, Error>)
    ensures
        r == find_id_spec(seq_views(args@)),
{
    let ghost all = seq_views(args@);
    proof {
        assert(all.skip(0) =~= all);
    }
    let mut i: usize = 0;
    while i < args.len()
        invariant
            i <= args@.len(),
            all == seq_views(args@),
            find_id_spec(all) == find_id_spec(all.skip(i as int)),
        decreases args@.len() - i,
    {
        proof {
            assert(all.skip(i as int)[0] == args@[i as int]@);
        }
        match &args[i] {
            MetaArg::IdInt(v) => {
                return if *v <= 0xffff {
                    Ok(Some(*v as u16))
                } else {
                    Err(Error::IdentifierOverflow)
                };
            },
            MetaArg::IdStr(s) => {
                return Ok(Some(hash16(s.as_str())));
            },
            MetaArg::IdOtherLit => {
                return Err(Error::InvalidIdentifierLiteral);
            },
            MetaArg::Marker => {
                proof {
                    assert(all.skip(i as int).drop_first() =~= all.skip(i as int + 1));
                }
            },
        }
        i += 1;
    }
    proof {
        assert(all.skip(args@.len() as int) =~= Seq::<MetaArgView>::empty());
    }
    Ok(None)
}

/// The identifier of the whole interface: the override if present, else the
/// 16-bit hash of the interface's name.
pub open spec fn trait_id_spec(name: Seq<char>, attrs: Seq<MetaArgView>) -> Result<u16, Error> {
    match find_id_spec(attrs) {
        Ok(Some(v)) => Ok(v),
        Ok(None) => Ok(hash16_spec(name)),
        Err(e) => Err(e),
    }
}

/// The interface-level configuration extracted from a definition attribute.
pub struct TraitAttrs {
    pub id: u16,
}

impl TraitAttrs {
    /// The result [`TraitAttrs::new`] must return.
    pub open spec fn new_spec(name: Seq<char>, attrs: Seq<MetaArgView>) -> Result<TraitAttrs, Error> {
        match trait_id_spec(name, attrs) {
            Ok(v) => Ok(TraitAttrs { id: v }),
            Err(e) => Err(e),
        }
    }

    /// Derives the interface identifier from the interface's name and the
    /// arguments of the definition attribute.
    pub fn new(trait_item: &InterfaceDecl, attrs: &Vec<MetaArg>) -> (r: Result<TraitAttrs, Error>)
        ensures
            r == TraitAttrs::new_spec(trait_item@.name, seq_views(attrs@)),
    {
        match find_id(attrs) {
            Ok(Some(v)) => Ok(TraitAttrs { id: v }),
            Ok(None) => Ok(TraitAttrs { id: hash16(trait_item.name.as_str()) }),
            Err(e) => Err(e),
        }
    }
}

/// An argument list with no `id = ...` argument yields no override.
pub proof fn lemma_no_override_finds_none(args: Seq<MetaArgView>)
    requires
        forall|j: int| 0 <= j < args.len() ==> args[j] is Marker,
    ensures
        find_id_spec(args) == Ok::<Option<u16>, Error>(None),
    decreases args.len(),
{
    if args.len() > 0 {
        lemma_no_override_finds_none(args.drop_first());
    }
}

/// Law: for an interface whose attribute arguments carry no override, the
/// derived interface identifier is exactly the 16-bit hash of its name.
pub proof fn lemma_interface_id_defaults_to_name_hash(name: Seq<char>, attrs: Seq<MetaArgView>)
    requires
        forall|j: int| 0 <= j < attrs.len() ==> attrs[j] is Marker,
    ensures
        trait_id_spec(name, attrs) == Ok::<u16, Error>(hash16_spec(name)),
{
    lemma_no_override_finds_none(attrs);
}

} // verus!
