//! The JSON objects of components and their pedigrees.

use crate::json::{
    array, optional_bool, optional_string, string, Json, JsonValue, Members, ObjectBuilder,
};
use crate::specs::v1_3::{
    Commit, CommitView, Component, ComponentEvidence, ComponentView, Cpe, ExternalReference,
    ExternalReferenceView, HashView, LicenseChoice, LicenseChoiceView, MimeType,
    OrganizationalEntity, Patch, PatchView, Pedigree, PedigreeView, Properties, PropertyView,
    Swid,
};
use vstd::prelude::*;

verus! {

impl PedigreeView {
    /// The JSON object that schema 1.3 writes for a pedigree: its parts in the
    /// order of the schema, each under its key, and no member for a part that
    /// is absent.
    pub open spec fn json(self) -> Json
        decreases self,
    {
        Members::none()
            .with_optional(
                "ancestors"@,
                match self.ancestors {
                    Some(x) => Some(Json::Array(ComponentView::seq_json(x))),
                    None => None,
                },
            )
            .with_optional(
                "descendants"@,
                match self.descendants {
                    Some(x) => Some(Json::Array(ComponentView::seq_json(x))),
                    None => None,
                },
            )
            .with_optional(
                "variants"@,
                match self.variants {
                    Some(x) => Some(Json::Array(ComponentView::seq_json(x))),
                    None => None,
                },
            )
            .with_optional(
                "commits"@,
                match self.commits {
                    Some(x) => Some(Json::Array(CommitView::seq_json(x))),
                    None => None,
                },
            )
            .with_optional(
                "patches"@,
                match self.patches {
                    Some(x) => Some(Json::Array(PatchView::seq_json(x))),
                    None => None,
                },
            )
            .with_optional(
                "notes"@,
                match self.notes {
                    Some(x) => Some(Json::String(x)),
                    None => None,
                },
            )
            .object()
    }
}

impl Pedigree {
    /// Builds the JSON object for this pedigree.
    pub fn to_json_value(&self) -> (r: JsonValue)
        ensures
            r.deep_view() == self.deep_view().json(),
        decreases self,
    {
        let members = ObjectBuilder::new();
        proof {
            assert(decreases_to!(self => self.ancestors));
            Component::lemma_opt_models(self.ancestors);
        }
        let members = members.with_optional(
            "ancestors",
            Component::opt_vec_to_json_value(&self.ancestors),
        );
        proof {
            assert(decreases_to!(self => self.descendants));
            Component::lemma_opt_models(self.descendants);
        }
        let members = members.with_optional(
            "descendants",
            Component::opt_vec_to_json_value(&self.descendants),
        );
        proof {
            assert(decreases_to!(self => self.variants));
            Component::lemma_opt_models(self.variants);
        }
        let members = members.with_optional(
            "variants",
            Component::opt_vec_to_json_value(&self.variants),
        );
        let members = members.with_optional(
            "commits",
            Commit::opt_vec_to_json_value(&self.commits),
        );
        let members = members.with_optional("patches", Patch::opt_vec_to_json_value(&self.patches));
        let members = members.with_optional("notes", optional_string(&self.notes));
        members.build()
    }

    /// The JSON object for one that may be absent.
    pub fn opt_to_json_value(o: &Option<Pedigree>) -> (r: Option<JsonValue>)
        ensures
            r.deep_view() == (match o.deep_view() {
                Some(x) => Some(x.json()),
                None => None,
            }),
        decreases o,
    {
        match o {
            Some(x) => {
                proof {
                    assert(decreases_to!(o => o->0));
                }
                Some(x.to_json_value())
            },
            None => None,
        }
    }
}

impl ComponentView {
    /// The JSON object that schema 1.3 writes for a component: its parts in the
    /// order of the schema, each under its key, and no member for a part that
    /// is absent.
    pub open spec fn json(self) -> Json
        decreases self,
    {
        Members::none()
            .with("type"@, Json::String(self.component_type))
            .with_optional(
                "mime-type"@,
                match self.mime_type {
                    Some(x) => Some(Json::String(x)),
                    None => None,
                },
            )
            .with_optional(
                "bom-ref"@,
                match self.bom_ref {
                    Some(x) => Some(Json::String(x)),
                    None => None,
                },
            )
            .with_optional(
                "supplier"@,
                match self.supplier {
                    Some(x) => Some(x.json()),
                    None => None,
                },
            )
            .with_optional(
                "author"@,
                match self.author {
                    Some(x) => Some(Json::String(x)),
                    None => None,
                },
            )
            .with_optional(
                "publisher"@,
                match self.publisher {
                    Some(x) => Some(Json::String(x)),
                    None => None,
                },
            )
            .with_optional(
                "group"@,
                match self.group {
                    Some(x) => Some(Json::String(x)),
                    None => None,
                },
            )
            .with("name"@, Json::String(self.name))
            .with("version"@, Json::String(self.version))
            .with_optional(
                "description"@,
                match self.description {
                    Some(x) => Some(Json::String(x)),
                    None => None,
                },
            )
            .with_optional(
                "scope"@,
                match self.scope {
                    Some(x) => Some(Json::String(x)),
                    None => None,
                },
            )
            .with_optional(
                "hashes"@,
                match self.hashes {
                    Some(x) => Some(Json::Array(HashView::seq_json(x))),
                    None => None,
                },
            )
            .with_optional(
                "licenses"@,
                match self.licenses {
                    Some(x) => Some(Json::Array(LicenseChoiceView::seq_json(x))),
                    None => None,
                },
            )
            .with_optional(
                "copyright"@,
                match self.copyright {
                    Some(x) => Some(Json::String(x)),
                    None => None,
                },
            )
            .with_optional(
                "cpe"@,
                match self.cpe {
                    Some(x) => Some(Json::String(x)),
                    None => None,
                },
            )
            .with_optional(
                "purl"@,
                match self.purl {
                    Some(x) => Some(Json::String(x)),
                    None => None,
                },
            )
            .with_optional(
                "swid"@,
                match self.swid {
                    Some(x) => Some(x.json()),
                    None => None,
                },
            )
            .with_optional(
                "modified"@,
                match self.modified {
                    Some(x) => Some(Json::Bool(x)),
                    None => None,
                },
            )
            .with_optional(
                "pedigree"@,
                match self.pedigree {
                    Some(x) => Some(x.json()),
                    None => None,
                },
            )
            .with_optional(
                "externalReferences"@,
                match self.external_references {
                    Some(x) => Some(Json::Array(ExternalReferenceView::seq_json(x))),
                    None => None,
                },
            )
            .with_optional(
                "properties"@,
                match self.properties {
                    Some(x) => Some(Json::Array(PropertyView::seq_json(x))),
                    None => None,
                },
            )
            .with_optional(
                "components"@,
                match self.components {
                    Some(x) => Some(Json::Array(ComponentView::seq_json(x))),
                    None => None,
                },
            )
            .with_optional(
                "evidence"@,
                match self.evidence {
                    Some(x) => Some(x.json()),
                    None => None,
                },
            )
            .object()
    }

    /// The JSON objects of a sequence of them, one for one.
    pub open spec fn seq_json(s: Seq<ComponentView>) -> Seq<Json>
        decreases s,
    {
        Seq::new(
            s.len(),
            |i: int|
                if 0 <= i < s.len() {
                    s[i].json()
                } else {
                    arbitrary()
                },
        )
    }
}

impl Component {
    /// Builds the JSON object for this component.
    pub fn to_json_value(&self) -> (r: JsonValue)
        ensures
            r.deep_view() == self.deep_view().json(),
        decreases self,
    {
        let members = ObjectBuilder::new();
        let ghost shape = self.deep_view();
        let ghost so_far = Members::none();
        let members = members.with("type", string(self.component_type.as_str()));
        proof {
            assert(shape.component_type == self.component_type.deep_view());
            let next = so_far.with("type"@, Json::String(shape.component_type));
            assert(members@ == next);
            so_far = next;
        }
        let members = members.with_optional(
            "mime-type",
            MimeType::opt_to_json_value(&self.mime_type),
        );
        proof {
            assert(shape.mime_type == self.mime_type.deep_view());
            let next = so_far.with_optional(
                    "mime-type"@,
                    match shape.mime_type {
                        Some(x) => Some(Json::String(x)),
                        None => None,
                    },
                );
            assert(members@ == next);
            so_far = next;
        }
        let members = members.with_optional("bom-ref", optional_string(&self.bom_ref));
        proof {
            assert(shape.bom_ref == self.bom_ref.deep_view());
            let next = so_far.with_optional(
                    "bom-ref"@,
                    match shape.bom_ref {
                        Some(x) => Some(Json::String(x)),
                        None => None,
                    },
                );
            assert(members@ == next);
            so_far = next;
        }
        let members = members.with_optional(
            "supplier",
            OrganizationalEntity::opt_to_json_value(&self.supplier),
        );
        proof {
            assert(shape.supplier == self.supplier.deep_view());
            let next = so_far.with_optional(
                    "supplier"@,
                    match shape.supplier {
                        Some(x) => Some(x.json()),
                        None => None,
                    },
                );
            assert(members@ == next);
            so_far = next;
        }
        let members = members.with_optional("author", optional_string(&self.author));
        proof {
            assert(shape.author == self.author.deep_view());
            let next = so_far.with_optional(
                    "author"@,
                    match shape.author {
                        Some(x) => Some(Json::String(x)),
                        None => None,
                    },
                );
            assert(members@ == next);
            so_far = next;
        }
        let members = members.with_optional("publisher", optional_string(&self.publisher));
        proof {
            assert(shape.publisher == self.publisher.deep_view());
            let next = so_far.with_optional(
                    "publisher"@,
                    match shape.publisher {
                        Some(x) => Some(Json::String(x)),
                        None => None,
                    },
                );
            assert(members@ == next);
            so_far = next;
        }
        let members = members.with_optional("group", optional_string(&self.group));
        proof {
            assert(shape.group == self.group.deep_view());
            let next = so_far.with_optional(
                    "group"@,
                    match shape.group {
                        Some(x) => Some(Json::String(x)),
                        None => None,
                    },
                );
            assert(members@ == next);
            so_far = next;
        }
        let members = members.with("name", string(self.name.as_str()));
        proof {
            assert(shape.name == self.name.deep_view());
            let next = so_far.with("name"@, Json::String(shape.name));
            assert(members@ == next);
            so_far = next;
        }
        let members = members.with("version", string(self.version.as_str()));
        proof {
            assert(shape.version == self.version.deep_view());
            let next = so_far.with("version"@, Json::String(shape.version));
            assert(members@ == next);
            so_far = next;
        }
        let members = members.with_optional("description", optional_string(&self.description));
        proof {
            assert(shape.description == self.description.deep_view());
            let next = so_far.with_optional(
                    "description"@,
                    match shape.description {
                        Some(x) => Some(Json::String(x)),
                        None => None,
                    },
                );
            assert(members@ == next);
            so_far = next;
        }
        let members = members.with_optional("scope", optional_string(&self.scope));
        proof {
            assert(shape.scope == self.scope.deep_view());
            let next = so_far.with_optional(
                    "scope"@,
                    match shape.scope {
                        Some(x) => Some(Json::String(x)),
                        None => None,
                    },
                );
            assert(members@ == next);
            so_far = next;
        }
        let members = members.with_optional(
            "hashes",
            crate::specs::v1_3::Hash::opt_vec_to_json_value(&self.hashes),
        );
        proof {
            assert(shape.hashes == self.hashes.deep_view());
            let next = so_far.with_optional(
                    "hashes"@,
                    match shape.hashes {
                        Some(x) => Some(Json::Array(HashView::seq_json(x))),
                        None => None,
                    },
                );
            assert(members@ == next);
            so_far = next;
        }
        let members = members.with_optional(
            "licenses",
            LicenseChoice::list_to_json_value(&self.licenses),
        );
        proof {
            assert(shape.licenses == self.licenses.deep_view());
            let next = so_far.with_optional(
                    "licenses"@,
                    match shape.licenses {
                        Some(x) => Some(Json::Array(LicenseChoiceView::seq_json(x))),
                        None => None,
                    },
                );
            assert(members@ == next);
            so_far = next;
        }
        let members = members.with_optional("copyright", optional_string(&self.copyright));
        proof {
            assert(shape.copyright == self.copyright.deep_view());
            let next = so_far.with_optional(
                    "copyright"@,
                    match shape.copyright {
                        Some(x) => Some(Json::String(x)),
                        None => None,
                    },
                );
            assert(members@ == next);
            so_far = next;
        }
        let members = members.with_optional("cpe", Cpe::opt_to_json_value(&self.cpe));
        proof {
            assert(shape.cpe == self.cpe.deep_view());
            let next = so_far.with_optional(
                    "cpe"@,
                    match shape.cpe {
                        Some(x) => Some(Json::String(x)),
                        None => None,
                    },
                );
            assert(members@ == next);
            so_far = next;
        }
        let members = members.with_optional("purl", optional_string(&self.purl));
        proof {
            assert(shape.purl == self.purl.deep_view());
            let next = so_far.with_optional(
                    "purl"@,
                    match shape.purl {
                        Some(x) => Some(Json::String(x)),
                        None => None,
                    },
                );
            assert(members@ == next);
            so_far = next;
        }
        let members = members.with_optional("swid", Swid::opt_to_json_value(&self.swid));
        proof {
            assert(shape.swid == self.swid.deep_view());
            let next = so_far.with_optional(
                    "swid"@,
                    match shape.swid {
                        Some(x) => Some(x.json()),
                        None => None,
                    },
                );
            assert(members@ == next);
            so_far = next;
        }
        let members = members.with_optional("modified", optional_bool(self.modified));
        proof {
            assert(shape.modified == self.modified.deep_view());
            let next = so_far.with_optional(
                    "modified"@,
                    match shape.modified {
                        Some(x) => Some(Json::Bool(x)),
                        None => None,
                    },
                );
            assert(members@ == next);
            so_far = next;
        }
        proof {
            assert(decreases_to!(self => self.pedigree));
        }
        let members = members.with_optional(
            "pedigree",
            Pedigree::opt_to_json_value(&self.pedigree),
        );
        proof {
            let next = so_far.with_optional(
                    "pedigree"@,
                    match shape.pedigree {
                        Some(x) => Some(x.json()),
                        None => None,
                    },
                );
            assert(members@ == next);
            so_far = next;
        }
        let members = members.with_optional(
            "externalReferences",
            ExternalReference::opt_vec_to_json_value(&self.external_references),
        );
        proof {
            assert(shape.external_references == self.external_references.deep_view());
            let next = so_far.with_optional(
                    "externalReferences"@,
                    match shape.external_references {
                        Some(x) => Some(Json::Array(ExternalReferenceView::seq_json(x))),
                        None => None,
                    },
                );
            assert(members@ == next);
            so_far = next;
        }
        let members = members.with_optional(
            "properties",
            Properties::opt_to_json_value(&self.properties),
        );
        proof {
            assert(shape.properties == self.properties.deep_view());
            let next = so_far.with_optional(
                    "properties"@,
                    match shape.properties {
                        Some(x) => Some(Json::Array(PropertyView::seq_json(x))),
                        None => None,
                    },
                );
            assert(members@ == next);
            so_far = next;
        }
        proof {
            assert(decreases_to!(self => self.components));
            Component::lemma_opt_models(self.components);
        }
        let members = members.with_optional(
            "components",
            Component::opt_vec_to_json_value(&self.components),
        );
        proof {
            let next = so_far.with_optional(
                    "components"@,
                    match shape.components {
                        Some(x) => Some(Json::Array(ComponentView::seq_json(x))),
                        None => None,
                    },
                );
            assert(members@ == next);
            so_far = next;
        }
        let members = members.with_optional(
            "evidence",
            ComponentEvidence::opt_to_json_value(&self.evidence),
        );
        proof {
            assert(shape.evidence == self.evidence.deep_view());
            let next = so_far.with_optional(
                    "evidence"@,
                    match shape.evidence {
                        Some(x) => Some(x.json()),
                        None => None,
                    },
                );
            assert(members@ == next);
            so_far = next;
        }
        members.build()
    }

    /// The JSON object for one that may be absent.
    pub fn opt_to_json_value(o: &Option<Component>) -> (r: Option<JsonValue>)
        ensures
            r.deep_view() == (match o.deep_view() {
                Some(x) => Some(x.json()),
                None => None,
            }),
        decreases o,
    {
        match o {
            Some(x) => {
                proof {
                    assert(decreases_to!(o => o->0));
                }
                Some(x.to_json_value())
            },
            None => None,
        }
    }

    /// The JSON array for a list of them.
    pub fn vec_to_json_value(v: &Vec<Component>) -> (r: JsonValue)
        ensures
            r.deep_view() == Json::Array(ComponentView::seq_json(v.deep_view())),
        decreases v,
    {
        let mut items: Vec<JsonValue> = Vec::new();
        let mut i: usize = 0;
        while i < v.len()
            invariant
                i <= v.len(),
                items.len() == i,
                forall|j: int|
                    0 <= j < i ==> (#[trigger] items[j]).deep_view() == v[j].deep_view().json(),
            decreases v.len() - i,
        {
            proof {
                assert(decreases_to!(v => v@));
                assert(decreases_to!(v@ => v@[i as int]));
            }
            items.push(v[i].to_json_value());
            i += 1;
        }
        proof {
            assert(items.deep_view() =~= ComponentView::seq_json(v.deep_view()));
        }
        array(items)
    }

    /// The JSON array for a list of them that may be absent.
    pub fn opt_vec_to_json_value(o: &Option<Vec<Component>>) -> (r: Option<JsonValue>)
        ensures
            r.deep_view() == (match o.deep_view() {
                Some(x) => Some(Json::Array(ComponentView::seq_json(x))),
                None => None,
            }),
        decreases o,
    {
        match o {
            Some(x) => {
                proof {
                    assert(decreases_to!(o => o->0));
                }
                Some(Component::vec_to_json_value(x))
            },
            None => None,
        }
    }
}

} // verus!
