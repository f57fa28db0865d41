//! The XML writer for schema 1.3: the XML element of every shape of the
//! schema. The root declares the namespace of the schema and carries the
//! version and the serial number of the document as attributes; a component
//! carries its type, its media type and its reference as attributes; what
//! else a shape holds stands in child elements, in the order in which the
//! schema lists them. A part that is absent has no attribute and no
//! element.

pub mod component;
pub mod document;
pub mod licenses;
pub mod omission;
pub mod parts;
pub mod service;

use crate::specs::v1_3::{BomReference, Copyright, Cpe, MimeType};
use crate::text::{decimal, push_decimal};
use crate::xml::{
    bool_text, bool_to_string, lemma_name_of_element, make_text_element, make_text_elements,
    make_wrapper, optional_text_element, text_elements, wrapper, Element, ElementBuilder,
    ElementView,
};
use vstd::prelude::*;

verus! {

/// The empty elements of the given name that carry the given references in
/// the given attribute, one for one.
pub open spec fn reference_elements(
    name: Seq<char>,
    attribute: Seq<char>,
    references: Seq<Seq<char>>,
) -> Seq<ElementView> {
    Seq::new(
        references.len(),
        |i: int| ElementView::named(name).with_attribute(attribute, references[i]),
    )
}

/// The `copyright` elements for a sequence of copyright statements: each
/// holds its statements as `text` elements.
pub open spec fn copyright_elements(s: Seq<Seq<Seq<char>>>) -> Seq<ElementView> {
    Seq::new(s.len(), |i: int| wrapper("copyright"@, text_elements("text"@, s[i])))
}

/// Every `copyright` element made for a sequence of statements has that
/// name.
pub proof fn lemma_copyright_elements_names(s: Seq<Seq<Seq<char>>>)
    ensures
        forall|i: int| 0 <= i < s.len() ==> (#[trigger] copyright_elements(s)[i]).name
            == "copyright"@,
{
    lemma_name_of_element();
}

/// Makes the empty elements that carry the given references.
pub fn make_reference_elements(name: &str, attribute: &str, references: &Vec<String>) -> (r: Vec<
    Element,
>)
    ensures
        r.deep_view() == reference_elements(name@, attribute@, references.deep_view()),
{
    let mut out: Vec<Element> = Vec::new();
    let mut i: usize = 0;
    while i < references.len()
        invariant
            i <= references.len(),
            out.len() == i,
            forall|j: int|
                0 <= j < i ==> (#[trigger] out[j]).deep_view() == ElementView::named(
                    name@,
                ).with_attribute(attribute@, references[j]@),
        decreases references.len() - i,
    {
        out.push(
            ElementBuilder::new(name).with_attribute(attribute, references[i].clone()).build(),
        );
        i += 1;
    }
    proof {
        assert(out.deep_view() =~= reference_elements(
            name@,
            attribute@,
            references.deep_view(),
        ));
    }
    out
}

/// The decimal numeral of a number that may be absent.
pub fn optional_decimal(o: Option<u32>) -> (r: Option<String>)
    ensures
        r.deep_view() == (match o {
            Some(x) => Some(decimal(x as nat)),
            None => None,
        }),
{
    match o {
        Some(x) => {
            let mut text = String::new();
            push_decimal(&mut text, x as u64);
            proof {
                assert(text@ =~= decimal(x as nat));
            }
            Some(text)
        },
        None => None,
    }
}

/// The text of a truth value that may be absent.
pub fn optional_bool_text(o: Option<bool>) -> (r: Option<String>)
    ensures
        r.deep_view() == (match o {
            Some(x) => Some(bool_text(x)),
            None => None,
        }),
{
    match o {
        Some(x) => Some(bool_to_string(x)),
        None => None,
    }
}

/// The text element for a truth value that may be absent.
pub fn make_optional_bool_element(name: &str, o: Option<bool>) -> (r: Option<Element>)
    ensures
        r.deep_view() == optional_text_element(
            name@,
            match o {
                Some(x) => Some(bool_text(x)),
                None => None,
            },
        ),
{
    match o {
        Some(x) => Some(ElementBuilder::new(name).build_with_text(bool_to_string(x))),
        None => None,
    }
}

/// The text elements for a list of texts that may be absent.
pub fn make_optional_text_elements(name: &str, o: &Option<Vec<String>>) -> (r: Option<
    Vec<Element>,
>)
    ensures
        r.deep_view() == (match o.deep_view() {
            Some(x) => Some(text_elements(name@, x)),
            None => None,
        }),
{
    match o {
        Some(x) => Some(make_text_elements(name, x)),
        None => None,
    }
}

impl MimeType {
    /// A copy of the text of a media type that may be absent.
    pub fn opt_text(o: &Option<MimeType>) -> (r: Option<String>)
        ensures
            r.deep_view() == o.deep_view(),
    {
        match o {
            Some(x) => Some(x.0.clone()),
            None => None,
        }
    }
}

impl Cpe {
    /// The text element for a CPE name that may be absent.
    pub fn opt_to_xml_element(o: &Option<Cpe>, name: &str) -> (r: Option<Element>)
        ensures
            r.deep_view() == optional_text_element(name@, o.deep_view()),
    {
        match o {
            Some(x) => Some(make_text_element(name, x.0.as_str())),
            None => None,
        }
    }
}

impl BomReference {
    /// The empty elements that carry the references of a list that may be
    /// absent.
    pub fn opt_vec_to_xml_elements(
        o: &Option<Vec<BomReference>>,
        name: &str,
        attribute: &str,
    ) -> (r: Option<Vec<Element>>)
        ensures
            r.deep_view() == (match o.deep_view() {
                Some(x) => Some(reference_elements(name@, attribute@, x)),
                None => None,
            }),
    {
        match o {
            Some(v) => {
                let mut out: Vec<Element> = Vec::new();
                let mut i: usize = 0;
                while i < v.len()
                    invariant
                        i <= v.len(),
                        out.len() == i,
                        forall|j: int|
                            0 <= j < i ==> (#[trigger] out[j]).deep_view() == ElementView::named(
                                name@,
                            ).with_attribute(attribute@, v[j].0@),
                    decreases v.len() - i,
                {
                    out.push(
                        ElementBuilder::new(name).with_attribute(
                            attribute,
                            v[i].0.clone(),
                        ).build(),
                    );
                    i += 1;
                }
                proof {
                    assert(out.deep_view() =~= reference_elements(
                        name@,
                        attribute@,
                        v.deep_view(),
                    ));
                }
                Some(out)
            },
            None => None,
        }
    }
}

impl Copyright {
    /// The `copyright` elements for a list of them that may be absent.
    pub fn opt_vec_to_xml_elements(o: &Option<Vec<Copyright>>) -> (r: Option<Vec<Element>>)
        ensures
            r.deep_view() == (match o.deep_view() {
                Some(x) => Some(copyright_elements(x)),
                None => None,
            }),
    {
        match o {
            Some(v) => {
                let mut out: Vec<Element> = Vec::new();
                let mut i: usize = 0;
                while i < v.len()
                    invariant
                        i <= v.len(),
                        out.len() == i,
                        forall|j: int|
                            0 <= j < i ==> (#[trigger] out[j]).deep_view() == wrapper(
                                "copyright"@,
                                text_elements("text"@, v[j].deep_view()),
                            ),
                    decreases v.len() - i,
                {
                    out.push(make_wrapper("copyright", make_text_elements("text", &v[i].0)));
                    i += 1;
                }
                proof {
                    assert(out.deep_view() =~= copyright_elements(v.deep_view()));
                }
                Some(out)
            },
            None => None,
        }
    }
}

} // verus!
