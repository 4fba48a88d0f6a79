//! Contains properties common to the objects of a scene.

use vstd::prelude::*;
use crate::connections::{long_at, text_at};
use crate::event::{PropertiesIter, Property};
use crate::text::{name_and_class, separate_name_class};

verus! {

/// What identifies an object: the three cells that every object node begins with.
#[derive(Debug, Clone, Copy)]
pub struct ObjectProperties<'a> {
    pub id: i64,
    pub name: &'a str,
    pub class: &'a str,
    pub subclass: &'a str,
}

/// What identifies an object, as a mathematical value.
pub ghost struct Identity {
    pub id: i64,
    pub name: Seq<char>,
    pub class: Seq<char>,
    pub subclass: Seq<char>,
}

impl<'a> View for ObjectProperties<'a> {
    type V = Identity;

    open spec fn view(&self) -> Identity {
        Identity { id: self.id, name: self.name@, class: self.class@, subclass: self.subclass@ }
    }
}

/// The identity that the cells of an object node give: a 64 bit integer, the
/// id; a text that holds name and class; a text, the subclass. `None` where
/// one of them is missing, of another type, or the second holds no separator.
pub open spec fn identity_of(cells: Seq<Property>) -> Option<Identity> {
    if long_at(cells, 0) is Some && text_at(cells, 1) is Some && name_and_class(text_at(cells, 1)->0) is Some
        && text_at(cells, 2) is Some {
        let (name, class) = name_and_class(text_at(cells, 1)->0)->0;
        Some(Identity { id: long_at(cells, 0)->0, name, class, subclass: text_at(cells, 2)->0 })
    } else {
        None
    }
}

/// Cells whose second cell holds no separator of name and class give no identity.
pub proof fn no_separator_no_identity(cells: Seq<Property>)
    requires
        text_at(cells, 1) is Some,
        name_and_class(text_at(cells, 1)->0) is None,
    ensures
        identity_of(cells) is None,
{
}

impl<'a> ObjectProperties<'a> {
    /// Reads the identity of an object from the cells of its node.
    pub fn from_node_properties(iter: PropertiesIter<'a>) -> (r: Option<Self>)
        ensures
            crate::utils::view_of(r) == identity_of(iter.remaining()),
    {
        let mut iter = iter;
        let ghost cells = iter.remaining();
        let id = match iter.next() {
            Some(p) => p.get_i64(),
            None => None,
        };
        proof {
            assert(cells.len() > 1 ==> iter.remaining()[0] == cells[1]);
        }
        let name_class = match iter.next() {
            Some(p) => match p.get_string() {
                Some(s) => separate_name_class(s),
                None => None,
            },
            None => None,
        };
        proof {
            assert(cells.len() > 2 ==> iter.remaining()[0] == cells[2]);
        }
        let subclass = match iter.next() {
            Some(p) => p.get_string(),
            None => None,
        };
        match (id, name_class, subclass) {
            (Some(id), Some((name, class)), Some(subclass)) => Some(
                ObjectProperties { id: id, name: name, class: class, subclass: subclass },
            ),
            _ => None,
        }
    }
}

} // verus!
