//! The XML elements of licenses, license choices and the evidence that
//! holds them.

use crate::specs::v1_3::xml::copyright_elements;
use crate::specs::v1_3::{
    AttachedText, ComponentEvidence, ComponentEvidenceView, Copyright, License, LicenseChoice,
    LicenseChoiceView, LicenseIdentifier, LicenseIdentifierView, LicenseView,
};
use crate::xml::{
    make_optional_text_element, make_optional_wrapper, make_text_element, optional_text_element,
    optional_wrapper, text_element, Element, ElementBuilder, ElementView,
};
use vstd::prelude::*;

verus! {

impl LicenseView {
    /// The XML element of the given name that schema 1.3 writes for a
    /// license: its parts in the order of the schema, and nothing for a part
    /// that is absent.
    pub open spec fn xml(self, name: Seq<char>) -> ElementView {
        self.license_identifier.add_xml(ElementView::named(name))
            .with_optional_child(
                match self.text {
                    Some(x) => Some(x.xml("text"@)),
                    None => None,
                },
            )
            .with_optional_child(optional_text_element("url"@, self.url))
    }
}

impl License {
    /// Builds the XML element of the given name for this license.
    pub fn to_xml_element(&self, name: &str) -> (r: Element)
        ensures
            r.deep_view() == self.deep_view().xml(name@),
    {
        let element = ElementBuilder::new(name);
        let element = self.license_identifier.add_xml(element);
        let element = element.with_optional_child(
            AttachedText::opt_to_xml_element(&self.text, "text"),
        );
        let element = element.with_optional_child(make_optional_text_element("url", &self.url));
        element.build()
    }

    /// The XML element for one that may be absent.
    pub fn opt_to_xml_element(o: &Option<License>, name: &str) -> (r: Option<Element>)
        ensures
            r.deep_view() == (match o.deep_view() {
                Some(x) => Some(x.xml(name@)),
                None => None,
            }),
    {
        match o {
            Some(x) => Some(x.to_xml_element(name)),
            None => None,
        }
    }
}

impl ComponentEvidenceView {
    /// The XML element of the given name that schema 1.3 writes for a
    /// component evidence: its parts in the order of the schema, and nothing for a part
    /// that is absent.
    pub open spec fn xml(self, name: Seq<char>) -> ElementView {
        ElementView::named(name)
            .with_optional_child(
                optional_wrapper(
                    "licenses"@,
                    match self.licenses {
                        Some(x) => Some(LicenseChoiceView::seq_xml(x)),
                        None => None,
                    },
                ),
            )
            .with_optional_children(
                match self.copyright {
                    Some(x) => Some(copyright_elements(x)),
                    None => None,
                },
            )
    }
}

impl ComponentEvidence {
    /// Builds the XML element of the given name for this component evidence.
    pub fn to_xml_element(&self, name: &str) -> (r: Element)
        ensures
            r.deep_view() == self.deep_view().xml(name@),
    {
        let element = ElementBuilder::new(name);
        let element = element.with_optional_child(
            make_optional_wrapper("licenses", LicenseChoice::list_to_xml_elements(&self.licenses)),
        );
        let element = element.with_optional_children(
            Copyright::opt_vec_to_xml_elements(&self.copyright),
        );
        element.build()
    }

    /// The XML element for one that may be absent.
    pub fn opt_to_xml_element(o: &Option<ComponentEvidence>, name: &str) -> (r: Option<Element>)
        ensures
            r.deep_view() == (match o.deep_view() {
                Some(x) => Some(x.xml(name@)),
                None => None,
            }),
    {
        match o {
            Some(x) => Some(x.to_xml_element(name)),
            None => None,
        }
    }
}

impl LicenseIdentifierView {
    /// The element `e` and then the element that names a license: `id` for
    /// an SPDX identifier, `name` for free text. It stands among the parts
    /// of the license itself.
    pub open spec fn add_xml(self, e: ElementView) -> ElementView {
        match self {
            LicenseIdentifierView::SpdxId(id) => e.with_child(text_element("id"@, id)),
            LicenseIdentifierView::Name(name) => e.with_child(text_element("name"@, name)),
        }
    }
}

impl LicenseIdentifier {
    /// Adds the element that names the license.
    pub fn add_xml(&self, element: ElementBuilder) -> (r: ElementBuilder)
        ensures
            r@ == self.deep_view().add_xml(element@),
    {
        match self {
            LicenseIdentifier::SpdxId(id) => element.with_child(
                make_text_element("id", id.as_str()),
            ),
            LicenseIdentifier::Name(name) => element.with_child(
                make_text_element("name", name.as_str()),
            ),
        }
    }
}

impl LicenseChoiceView {
    /// The XML elements of one entry of a list of licenses: a `license`
    /// element, or an `expression` element, and nothing for an entry that
    /// holds neither.
    pub open spec fn xml_elements(self) -> Seq<ElementView> {
        match self {
            LicenseChoiceView::License(Some(license)) => seq![license.xml("license"@)],
            LicenseChoiceView::Expression(Some(expression)) => seq![
                text_element("expression"@, expression),
            ],
            _ => Seq::empty(),
        }
    }

    /// The XML elements of a sequence of entries, one entry after the other.
    pub open spec fn seq_xml(s: Seq<LicenseChoiceView>) -> Seq<ElementView>
        decreases s.len(),
    {
        if s.len() == 0 {
            Seq::empty()
        } else {
            LicenseChoiceView::seq_xml(s.drop_last()) + s.last().xml_elements()
        }
    }
}

impl LicenseChoice {
    /// The XML elements for a list of entries that may be absent.
    pub fn list_to_xml_elements(o: &Option<Vec<LicenseChoice>>) -> (r: Option<Vec<Element>>)
        ensures
            r.deep_view() == (match o.deep_view() {
                Some(x) => Some(LicenseChoiceView::seq_xml(x)),
                None => None,
            }),
    {
        match o {
            None => None,
            Some(v) => {
                let mut out: Vec<Element> = Vec::new();
                let mut i: usize = 0;
                proof {
                    assert(out.deep_view() =~= Seq::<ElementView>::empty());
                    assert(v.deep_view().take(0) =~= Seq::<LicenseChoiceView>::empty());
                }
                while i < v.len()
                    invariant
                        i <= v.len(),
                        out.deep_view() == LicenseChoiceView::seq_xml(v.deep_view().take(i as int)),
                    decreases v.len() - i,
                {
                    let ghost before = out.deep_view();
                    match &v[i] {
                        LicenseChoice::License(Some(license)) => {
                            out.push(license.to_xml_element("license"));
                        },
                        LicenseChoice::Expression(Some(expression)) => {
                            out.push(make_text_element("expression", expression.as_str()));
                        },
                        _ => {},
                    }
                    proof {
                        let upto = v.deep_view().take(i as int + 1);
                        assert(upto.drop_last() =~= v.deep_view().take(i as int));
                        assert(upto.last() == v[i as int].deep_view());
                        assert(out.deep_view() =~= before + v[i as int].deep_view().xml_elements());
                    }
                    i += 1;
                }
                proof {
                    assert(v.deep_view().take(v.len() as int) =~= v.deep_view());
                }
                Some(out)
            },
        }
    }
}

} // verus!
