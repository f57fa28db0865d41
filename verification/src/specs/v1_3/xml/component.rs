//! The XML elements of components and their pedigrees.

use crate::specs::v1_3::adapter::opt_string_clone;
use crate::specs::v1_3::xml::make_optional_bool_element;
use crate::specs::v1_3::{
    Commit, CommitView, Component, ComponentEvidence, ComponentView, Cpe, ExternalReference,
    ExternalReferenceView, HashView, LicenseChoice, LicenseChoiceView, MimeType,
    OrganizationalEntity, Patch, PatchView, Pedigree, PedigreeView, Properties, PropertyView,
    Swid,
};
use crate::xml::{
    bool_text, make_optional_text_element, make_optional_wrapper, make_text_element,
    optional_text_element, optional_wrapper, text_element, Element, ElementBuilder, ElementView,
};
use vstd::prelude::*;

verus! {

impl PedigreeView {
    /// The XML element of the given name that schema 1.3 writes for a
    /// pedigree: its parts in the order of the schema, and nothing for a part
    /// that is absent.
    pub open spec fn xml(self, name: Seq<char>) -> ElementView
        decreases self,
    {
        ElementView::named(name)
            .with_optional_child(
                optional_wrapper(
                    "ancestors"@,
                    match self.ancestors {
                        Some(x) => Some(ComponentView::seq_xml(x, "component"@)),
                        None => None,
                    },
                ),
            )
            .with_optional_child(
                optional_wrapper(
                    "descendants"@,
                    match self.descendants {
                        Some(x) => Some(ComponentView::seq_xml(x, "component"@)),
                        None => None,
                    },
                ),
            )
            .with_optional_child(
                optional_wrapper(
                    "variants"@,
                    match self.variants {
                        Some(x) => Some(ComponentView::seq_xml(x, "component"@)),
                        None => None,
                    },
                ),
            )
            .with_optional_child(
                optional_wrapper(
                    "commits"@,
                    match self.commits {
                        Some(x) => Some(CommitView::seq_xml(x, "commit"@)),
                        None => None,
                    },
                ),
            )
            .with_optional_child(
                optional_wrapper(
                    "patches"@,
                    match self.patches {
                        Some(x) => Some(PatchView::seq_xml(x, "patch"@)),
                        None => None,
                    },
                ),
            )
            .with_optional_child(optional_text_element("notes"@, self.notes))
    }
}

impl Pedigree {
    /// Builds the XML element of the given name for this pedigree.
    pub fn to_xml_element(&self, name: &str) -> (r: Element)
        ensures
            r.deep_view() == self.deep_view().xml(name@),
        decreases self,
    {
        let element = ElementBuilder::new(name);
        proof {
            assert(decreases_to!(self => self.ancestors));
            Component::lemma_opt_models(self.ancestors);
        }
        let element = element.with_optional_child(
            make_optional_wrapper(
                "ancestors",
                Component::opt_vec_to_xml_elements(&self.ancestors, "component"),
            ),
        );
        proof {
            assert(decreases_to!(self => self.descendants));
            Component::lemma_opt_models(self.descendants);
        }
        let element = element.with_optional_child(
            make_optional_wrapper(
                "descendants",
                Component::opt_vec_to_xml_elements(&self.descendants, "component"),
            ),
        );
        proof {
            assert(decreases_to!(self => self.variants));
            Component::lemma_opt_models(self.variants);
        }
        let element = element.with_optional_child(
            make_optional_wrapper(
                "variants",
                Component::opt_vec_to_xml_elements(&self.variants, "component"),
            ),
        );
        let element = element.with_optional_child(
            make_optional_wrapper(
                "commits",
                Commit::opt_vec_to_xml_elements(&self.commits, "commit"),
            ),
        );
        let element = element.with_optional_child(
            make_optional_wrapper(
                "patches",
                Patch::opt_vec_to_xml_elements(&self.patches, "patch"),
            ),
        );
        let element = element.with_optional_child(make_optional_text_element("notes", &self.notes));
        element.build()
    }

    /// The XML element for one that may be absent.
    pub fn opt_to_xml_element(o: &Option<Pedigree>, name: &str) -> (r: Option<Element>)
        ensures
            r.deep_view() == (match o.deep_view() {
                Some(x) => Some(x.xml(name@)),
                None => None,
            }),
        decreases o,
    {
        match o {
            Some(x) => {
                proof {
                    assert(decreases_to!(o => o->0));
                }
                Some(x.to_xml_element(name))
            },
            None => None,
        }
    }
}

impl ComponentView {
    /// The XML element of the given name that schema 1.3 writes for a
    /// component: its parts in the order of the schema, and nothing for a part
    /// that is absent.
    pub open spec fn xml(self, name: Seq<char>) -> ElementView
        decreases self,
    {
        ElementView::named(name)
            .with_attribute("type"@, self.component_type)
            .with_optional_attribute("mime-type"@, self.mime_type)
            .with_optional_attribute("bom-ref"@, self.bom_ref)
            .with_optional_child(
                match self.supplier {
                    Some(x) => Some(x.xml("supplier"@)),
                    None => None,
                },
            )
            .with_optional_child(optional_text_element("author"@, self.author))
            .with_optional_child(optional_text_element("publisher"@, self.publisher))
            .with_optional_child(optional_text_element("group"@, self.group))
            .with_child(text_element("name"@, self.name))
            .with_child(text_element("version"@, self.version))
            .with_optional_child(optional_text_element("description"@, self.description))
            .with_optional_child(optional_text_element("scope"@, self.scope))
            .with_optional_child(
                optional_wrapper(
                    "hashes"@,
                    match self.hashes {
                        Some(x) => Some(HashView::seq_xml(x, "hash"@)),
                        None => None,
                    },
                ),
            )
            .with_optional_child(
                optional_wrapper(
                    "licenses"@,
                    match self.licenses {
                        Some(x) => Some(LicenseChoiceView::seq_xml(x)),
                        None => None,
                    },
                ),
            )
            .with_optional_child(optional_text_element("copyright"@, self.copyright))
            .with_optional_child(optional_text_element("cpe"@, self.cpe))
            .with_optional_child(optional_text_element("purl"@, self.purl))
            .with_optional_child(
                match self.swid {
                    Some(x) => Some(x.xml("swid"@)),
                    None => None,
                },
            )
            .with_optional_child(
                optional_text_element(
                    "modified"@,
                    match self.modified {
                        Some(x) => Some(bool_text(x)),
                        None => None,
                    },
                ),
            )
            .with_optional_child(
                match self.pedigree {
                    Some(x) => Some(x.xml("pedigree"@)),
                    None => None,
                },
            )
            .with_optional_child(
                optional_wrapper(
                    "externalReferences"@,
                    match self.external_references {
                        Some(x) => Some(ExternalReferenceView::seq_xml(x, "reference"@)),
                        None => None,
                    },
                ),
            )
            .with_optional_child(
                optional_wrapper(
                    "properties"@,
                    match self.properties {
                        Some(x) => Some(PropertyView::seq_xml(x, "property"@)),
                        None => None,
                    },
                ),
            )
            .with_optional_child(
                optional_wrapper(
                    "components"@,
                    match self.components {
                        Some(x) => Some(ComponentView::seq_xml(x, "component"@)),
                        None => None,
                    },
                ),
            )
            .with_optional_child(
                match self.evidence {
                    Some(x) => Some(x.xml("evidence"@)),
                    None => None,
                },
            )
    }

    /// The XML elements of a sequence of them, one for one.
    pub open spec fn seq_xml(s: Seq<ComponentView>, name: Seq<char>) -> Seq<ElementView>
        decreases s,
    {
        Seq::new(
            s.len(),
            |i: int|
                if 0 <= i < s.len() {
                    s[i].xml(name)
                } else {
                    arbitrary()
                },
        )
    }
}

impl Component {
    /// Builds the XML element of the given name for this component.
    pub fn to_xml_element(&self, name: &str) -> (r: Element)
        ensures
            r.deep_view() == self.deep_view().xml(name@),
        decreases self,
    {
        let element = ElementBuilder::new(name);
        let ghost shape = self.deep_view();
        let ghost so_far = ElementView::named(name@);
        let element = element.with_attribute("type", self.component_type.clone());
        proof {
            assert(shape.component_type == self.component_type.deep_view());
            let next = so_far.with_attribute("type"@, shape.component_type);
            assert(element@ == next);
            so_far = next;
        }
        let element = element.with_optional_attribute(
            "mime-type",
            MimeType::opt_text(&self.mime_type),
        );
        proof {
            assert(shape.mime_type == self.mime_type.deep_view());
            let next = so_far.with_optional_attribute("mime-type"@, shape.mime_type);
            assert(element@ == next);
            so_far = next;
        }
        let element = element.with_optional_attribute("bom-ref", opt_string_clone(&self.bom_ref));
        proof {
            assert(shape.bom_ref == self.bom_ref.deep_view());
            let next = so_far.with_optional_attribute("bom-ref"@, shape.bom_ref);
            assert(element@ == next);
            so_far = next;
        }
        let element = element.with_optional_child(
            OrganizationalEntity::opt_to_xml_element(&self.supplier, "supplier"),
        );
        proof {
            assert(shape.supplier == self.supplier.deep_view());
            let next = so_far.with_optional_child(
                    match shape.supplier {
                        Some(x) => Some(x.xml("supplier"@)),
                        None => None,
                    },
                );
            assert(element@ == next);
            so_far = next;
        }
        let element = element.with_optional_child(
            make_optional_text_element("author", &self.author),
        );
        proof {
            assert(shape.author == self.author.deep_view());
            let next = so_far.with_optional_child(optional_text_element("author"@, shape.author));
            assert(element@ == next);
            so_far = next;
        }
        let element = element.with_optional_child(
            make_optional_text_element("publisher", &self.publisher),
        );
        proof {
            assert(shape.publisher == self.publisher.deep_view());
            let next = so_far.with_optional_child(
                optional_text_element("publisher"@, shape.publisher),
            );
            assert(element@ == next);
            so_far = next;
        }
        let element = element.with_optional_child(make_optional_text_element("group", &self.group));
        proof {
            assert(shape.group == self.group.deep_view());
            let next = so_far.with_optional_child(optional_text_element("group"@, shape.group));
            assert(element@ == next);
            so_far = next;
        }
        let element = element.with_child(make_text_element("name", self.name.as_str()));
        proof {
            assert(shape.name == self.name.deep_view());
            let next = so_far.with_child(text_element("name"@, shape.name));
            assert(element@ == next);
            so_far = next;
        }
        let element = element.with_child(make_text_element("version", self.version.as_str()));
        proof {
            assert(shape.version == self.version.deep_view());
            let next = so_far.with_child(text_element("version"@, shape.version));
            assert(element@ == next);
            so_far = next;
        }
        let element = element.with_optional_child(
            make_optional_text_element("description", &self.description),
        );
        proof {
            assert(shape.description == self.description.deep_view());
            let next = so_far.with_optional_child(
                optional_text_element("description"@, shape.description),
            );
            assert(element@ == next);
            so_far = next;
        }
        let element = element.with_optional_child(make_optional_text_element("scope", &self.scope));
        proof {
            assert(shape.scope == self.scope.deep_view());
            let next = so_far.with_optional_child(optional_text_element("scope"@, shape.scope));
            assert(element@ == next);
            so_far = next;
        }
        let element = element.with_optional_child(
            make_optional_wrapper(
                "hashes",
                crate::specs::v1_3::Hash::opt_vec_to_xml_elements(&self.hashes, "hash"),
            ),
        );
        proof {
            assert(shape.hashes == self.hashes.deep_view());
            let next = so_far.with_optional_child(
                    optional_wrapper(
                        "hashes"@,
                        match shape.hashes {
                            Some(x) => Some(HashView::seq_xml(x, "hash"@)),
                            None => None,
                        },
                    ),
                );
            assert(element@ == next);
            so_far = next;
        }
        let element = element.with_optional_child(
            make_optional_wrapper("licenses", LicenseChoice::list_to_xml_elements(&self.licenses)),
        );
        proof {
            assert(shape.licenses == self.licenses.deep_view());
            let next = so_far.with_optional_child(
                    optional_wrapper(
                        "licenses"@,
                        match shape.licenses {
                            Some(x) => Some(LicenseChoiceView::seq_xml(x)),
                            None => None,
                        },
                    ),
                );
            assert(element@ == next);
            so_far = next;
        }
        let element = element.with_optional_child(
            make_optional_text_element("copyright", &self.copyright),
        );
        proof {
            assert(shape.copyright == self.copyright.deep_view());
            let next = so_far.with_optional_child(
                optional_text_element("copyright"@, shape.copyright),
            );
            assert(element@ == next);
            so_far = next;
        }
        let element = element.with_optional_child(Cpe::opt_to_xml_element(&self.cpe, "cpe"));
        proof {
            assert(shape.cpe == self.cpe.deep_view());
            let next = so_far.with_optional_child(optional_text_element("cpe"@, shape.cpe));
            assert(element@ == next);
            so_far = next;
        }
        let element = element.with_optional_child(make_optional_text_element("purl", &self.purl));
        proof {
            assert(shape.purl == self.purl.deep_view());
            let next = so_far.with_optional_child(optional_text_element("purl"@, shape.purl));
            assert(element@ == next);
            so_far = next;
        }
        let element = element.with_optional_child(Swid::opt_to_xml_element(&self.swid, "swid"));
        proof {
            assert(shape.swid == self.swid.deep_view());
            let next = so_far.with_optional_child(
                    match shape.swid {
                        Some(x) => Some(x.xml("swid"@)),
                        None => None,
                    },
                );
            assert(element@ == next);
            so_far = next;
        }
        let element = element.with_optional_child(
            make_optional_bool_element("modified", self.modified),
        );
        proof {
            assert(shape.modified == self.modified.deep_view());
            let next = so_far.with_optional_child(
                    optional_text_element(
                        "modified"@,
                        match shape.modified {
                            Some(x) => Some(bool_text(x)),
                            None => None,
                        },
                    ),
                );
            assert(element@ == next);
            so_far = next;
        }
        proof {
            assert(decreases_to!(self => self.pedigree));
        }
        let element = element.with_optional_child(
            Pedigree::opt_to_xml_element(&self.pedigree, "pedigree"),
        );
        proof {
            let next = so_far.with_optional_child(
                    match shape.pedigree {
                        Some(x) => Some(x.xml("pedigree"@)),
                        None => None,
                    },
                );
            assert(element@ == next);
            so_far = next;
        }
        let element = element.with_optional_child(
            make_optional_wrapper(
                "externalReferences",
                ExternalReference::opt_vec_to_xml_elements(&self.external_references, "reference"),
            ),
        );
        proof {
            assert(shape.external_references == self.external_references.deep_view());
            let next = so_far.with_optional_child(
                    optional_wrapper(
                        "externalReferences"@,
                        match shape.external_references {
                            Some(x) => Some(ExternalReferenceView::seq_xml(x, "reference"@)),
                            None => None,
                        },
                    ),
                );
            assert(element@ == next);
            so_far = next;
        }
        let element = element.with_optional_child(
            make_optional_wrapper("properties", Properties::opt_to_xml_elements(&self.properties)),
        );
        proof {
            assert(shape.properties == self.properties.deep_view());
            let next = so_far.with_optional_child(
                    optional_wrapper(
                        "properties"@,
                        match shape.properties {
                            Some(x) => Some(PropertyView::seq_xml(x, "property"@)),
                            None => None,
                        },
                    ),
                );
            assert(element@ == next);
            so_far = next;
        }
        proof {
            assert(decreases_to!(self => self.components));
            Component::lemma_opt_models(self.components);
        }
        let element = element.with_optional_child(
            make_optional_wrapper(
                "components",
                Component::opt_vec_to_xml_elements(&self.components, "component"),
            ),
        );
        proof {
            let next = so_far.with_optional_child(
                    optional_wrapper(
                        "components"@,
                        match shape.components {
                            Some(x) => Some(ComponentView::seq_xml(x, "component"@)),
                            None => None,
                        },
                    ),
                );
            assert(element@ == next);
            so_far = next;
        }
        let element = element.with_optional_child(
            ComponentEvidence::opt_to_xml_element(&self.evidence, "evidence"),
        );
        proof {
            assert(shape.evidence == self.evidence.deep_view());
            let next = so_far.with_optional_child(
                    match shape.evidence {
                        Some(x) => Some(x.xml("evidence"@)),
                        None => None,
                    },
                );
            assert(element@ == next);
            so_far = next;
        }
        element.build()
    }

    /// The XML element for one that may be absent.
    pub fn opt_to_xml_element(o: &Option<Component>, name: &str) -> (r: Option<Element>)
        ensures
            r.deep_view() == (match o.deep_view() {
                Some(x) => Some(x.xml(name@)),
                None => None,
            }),
        decreases o,
    {
        match o {
            Some(x) => {
                proof {
                    assert(decreases_to!(o => o->0));
                }
                Some(x.to_xml_element(name))
            },
            None => None,
        }
    }

    /// The XML elements for a list of them.
    pub fn vec_to_xml_elements(v: &Vec<Component>, name: &str) -> (r: Vec<Element>)
        ensures
            r.deep_view() == ComponentView::seq_xml(v.deep_view(), name@),
        decreases v,
    {
        let mut out: Vec<Element> = Vec::new();
        let mut i: usize = 0;
        while i < v.len()
            invariant
                i <= v.len(),
                out.len() == i,
                forall|j: int|
                    0 <= j < i ==> (#[trigger] out[j]).deep_view() == v[j].deep_view().xml(name@),
            decreases v.len() - i,
        {
            proof {
                assert(decreases_to!(v => v@));
                assert(decreases_to!(v@ => v@[i as int]));
            }
            out.push(v[i].to_xml_element(name));
            i += 1;
        }
        proof {
            assert(out.deep_view() =~= ComponentView::seq_xml(v.deep_view(), name@));
        }
        out
    }

    /// The XML elements for a list of them that may be absent.
    pub fn opt_vec_to_xml_elements(o: &Option<Vec<Component>>, name: &str) -> (r: Option<
        Vec<Element>,
    >)
        ensures
            r.deep_view() == (match o.deep_view() {
                Some(x) => Some(ComponentView::seq_xml(x, name@)),
                None => None,
            }),
        decreases o,
    {
        match o {
            Some(x) => {
                proof {
                    assert(decreases_to!(o => o->0));
                }
                Some(Component::vec_to_xml_elements(x, name))
            },
            None => None,
        }
    }
}

} // verus!
