//! The closed set of semantic roles the parser understands, and the
//! pure lookup that assigns one to an element name.

use crate::text::str_eq;
use vstd::prelude::*;

verus! {

/// A recognized semantic role of an XML element.  Two roles come from
/// the Dublin Core namespace; the rest are namespace-less local names.
#[derive(Clone, Copy, PartialEq, Eq, Structural, Debug)]
pub enum Context {
    Item,
    Title,
    Link,
    DcDate,
    DcCreator,
    Description,
}

impl Context {
    /// The role's name, for diagnostics.
    pub fn label(&self) -> (r: &'static str)
        ensures
            r@ == spec_label(*self),
    {
        match self {
            Context::Item => "Item",
            Context::Title => "Title",
            Context::Link => "Link",
            Context::DcDate => "DcDate",
            Context::DcCreator => "DcCreator",
            Context::Description => "Description",
        }
    }
}

/// The name `Context::label` returns for each role.
pub open spec fn spec_label(c: Context) -> Seq<char> {
    match c {
        Context::Item => "Item"@,
        Context::Title => "Title"@,
        Context::Link => "Link"@,
        Context::DcDate => "DcDate"@,
        Context::DcCreator => "DcCreator"@,
        Context::Description => "Description"@,
    }
}

/// The Dublin Core namespace, the one namespace the resolver
/// distinguishes.
pub open spec fn dc_namespace() -> Seq<char> {
    "http://purl.org/dc/elements/1.1/"@
}

/// The role an element name resolves to: under the Dublin Core
/// namespace, `date` and `creator`; under any other (or no) namespace,
/// the local names `item`, `title`, `link` and `description`.  Every
/// other name carries no meaning for the model.
pub open spec fn spec_resolve(local: Seq<char>, namespace: Option<Seq<char>>) -> Option<Context> {
    if namespace == Some(dc_namespace()) {
        if local == "date"@ {
            Some(Context::DcDate)
        } else if local == "creator"@ {
            Some(Context::DcCreator)
        } else {
            None
        }
    } else {
        if local == "item"@ {
            Some(Context::Item)
        } else if local == "title"@ {
            Some(Context::Title)
        } else if local == "link"@ {
            Some(Context::Link)
        } else if local == "description"@ {
            Some(Context::Description)
        } else {
            None
        }
    }
}

/// Maps an element name, with its optional namespace, to the role it
/// stands for, or `None` where the element is unrecognized.
pub fn resolve_context(local: &str, namespace: Option<&str>) -> (r: Option<Context>)
    ensures
        r == spec_resolve(local@, namespace.deep_view()),
{
    let in_dc = match namespace {
        Some(ns) => str_eq(ns, "http://purl.org/dc/elements/1.1/"),
        None => false,
    };
    if in_dc {
        if str_eq(local, "date") {
            Some(Context::DcDate)
        } else if str_eq(local, "creator") {
            Some(Context::DcCreator)
        } else {
            None
        }
    } else {
        if str_eq(local, "item") {
            Some(Context::Item)
        } else if str_eq(local, "title") {
            Some(Context::Title)
        } else if str_eq(local, "link") {
            Some(Context::Link)
        } else if str_eq(local, "description") {
            Some(Context::Description)
        } else {
            None
        }
    }
}

} // verus!
