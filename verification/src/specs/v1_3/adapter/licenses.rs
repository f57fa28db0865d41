//! The adapter for licenses: how they are named, lists of license choices,
//! and the evidence that holds them.

use crate::external_models::normalized_string::NormalizedString;
use crate::external_models::spdx::SpdxIdentifier;
use crate::models;
use crate::specs::v1_3::adapter::{opt_string_to_uri, opt_uri_to_string};
use crate::specs::v1_3::{
    AttachedText, AttachedTextView, ComponentEvidence, ComponentEvidenceView, Copyright, License,
    LicenseChoice, LicenseChoiceView, LicenseIdentifier, LicenseIdentifierView, LicenseView,
};
use vstd::prelude::*;

verus! {

impl LicenseView {
    /// The shape that schema 1.3 gives to the license `c`.
    pub open spec fn from_canonical(c: models::LicenseView) -> LicenseView {
        LicenseView {
            license_identifier: LicenseIdentifierView::from_canonical(c.license_identifier),
            text: match c.text {
                Some(x) => Some(AttachedTextView::from_canonical(x)),
                None => None,
            },
            url: c.url,
        }
    }

    /// The license that this shape stands for.
    pub open spec fn to_canonical(self) -> models::LicenseView {
        models::LicenseView {
            license_identifier: self.license_identifier.to_canonical(),
            text: match self.text {
                Some(x) => Some(x.to_canonical()),
                None => None,
            },
            url: self.url,
        }
    }

    /// The shapes of a sequence of them, one for one.
    pub open spec fn seq_from_canonical(s: Seq<models::LicenseView>) -> Seq<LicenseView> {
        Seq::new(s.len(), |i: int| LicenseView::from_canonical(s[i]))
    }

    /// What a sequence of shapes stands for, one for one.
    pub open spec fn seq_to_canonical(s: Seq<LicenseView>) -> Seq<models::LicenseView> {
        Seq::new(s.len(), |i: int| s[i].to_canonical())
    }
}

impl License {
    /// Shapes a license as schema 1.3 writes it.
    pub fn from_canonical(c: &models::License) -> (r: License)
        ensures
            r.deep_view() == LicenseView::from_canonical(c.deep_view()),
    {
        let license_identifier = LicenseIdentifier::from_canonical(&c.license_identifier);
        let text = AttachedText::opt_from_canonical(&c.text);
        let url = opt_uri_to_string(&c.url);
        License { license_identifier, text, url }
    }

    /// Reads the shape back as a license. Text is taken as it is, without
    /// validating it again.
    pub fn to_canonical(&self) -> (r: models::License)
        ensures
            r.deep_view() == self.deep_view().to_canonical(),
    {
        let license_identifier = self.license_identifier.to_canonical();
        let text = AttachedText::opt_to_canonical(&self.text);
        let url = opt_string_to_uri(&self.url);
        models::License { license_identifier, text, url }
    }

    /// Shapes a list of them, one for one.
    pub fn vec_from_canonical(v: &Vec<models::License>) -> (r: Vec<License>)
        ensures
            r.deep_view() == LicenseView::seq_from_canonical(v.deep_view()),
    {
        let mut out: Vec<License> = Vec::new();
        let mut i: usize = 0;
        while i < v.len()
            invariant
                i <= v.len(),
                out.len() == i,
                forall|j: int|
                    0 <= j < i ==> (#[trigger] out[j]).deep_view() == LicenseView::from_canonical(
                        v[j].deep_view(),
                    ),
            decreases v.len() - i,
        {
            out.push(License::from_canonical(&v[i]));
            i += 1;
        }
        proof {
            assert(out.deep_view() =~= LicenseView::seq_from_canonical(v.deep_view()));
        }
        out
    }

    /// Reads a list of shapes back, one for one.
    pub fn vec_to_canonical(v: &Vec<License>) -> (r: Vec<models::License>)
        ensures
            r.deep_view() == LicenseView::seq_to_canonical(v.deep_view()),
    {
        let mut out: Vec<models::License> = Vec::new();
        let mut i: usize = 0;
        while i < v.len()
            invariant
                i <= v.len(),
                out.len() == i,
                forall|j: int|
                    0 <= j < i ==> (#[trigger] out[j]).deep_view()
                        == v[j].deep_view().to_canonical(),
            decreases v.len() - i,
        {
            out.push(v[i].to_canonical());
            i += 1;
        }
        proof {
            assert(out.deep_view() =~= LicenseView::seq_to_canonical(v.deep_view()));
        }
        out
    }
}

impl ComponentEvidenceView {
    /// The shape that schema 1.3 gives to the component evidence `c`.
    pub open spec fn from_canonical(c: models::ComponentEvidenceView) -> ComponentEvidenceView {
        ComponentEvidenceView {
            licenses: LicenseChoiceView::list_from_canonical(c.licenses),
            copyright: c.copyright,
        }
    }

    /// The component evidence that this shape stands for.
    pub open spec fn to_canonical(self) -> models::ComponentEvidenceView {
        models::ComponentEvidenceView {
            licenses: LicenseChoiceView::list_to_canonical(self.licenses),
            copyright: self.copyright,
        }
    }

    /// Schema 1.3 can carry `c` without loss: every list of licenses in it
    /// that stands under one choice holds exactly one license.
    pub open spec fn fits(c: models::ComponentEvidenceView) -> bool {
        &&& LicenseChoiceView::list_fits(c.licenses)
    }
}

impl ComponentEvidence {
    /// Shapes a component evidence as schema 1.3 writes it.
    pub fn from_canonical(c: &models::ComponentEvidence) -> (r: ComponentEvidence)
        ensures
            r.deep_view() == ComponentEvidenceView::from_canonical(c.deep_view()),
    {
        let licenses = LicenseChoice::list_from_canonical(&c.licenses);
        let copyright = Copyright::opt_vec_from_canonical(&c.copyright);
        ComponentEvidence { licenses, copyright }
    }

    /// Reads the shape back as a component evidence. Text is taken as it is, without
    /// validating it again.
    pub fn to_canonical(&self) -> (r: models::ComponentEvidence)
        ensures
            r.deep_view() == self.deep_view().to_canonical(),
    {
        let licenses = LicenseChoice::list_to_canonical(&self.licenses);
        let copyright = Copyright::opt_vec_to_canonical(&self.copyright);
        models::ComponentEvidence { licenses, copyright }
    }

    /// Shapes one that may be absent.
    pub fn opt_from_canonical(o: &Option<models::ComponentEvidence>) -> (r: Option<ComponentEvidence>)
        ensures
            r.deep_view() == (match o.deep_view() {
                Some(x) => Some(ComponentEvidenceView::from_canonical(x)),
                None => None,
            }),
    {
        match o {
            Some(x) => Some(ComponentEvidence::from_canonical(x)),
            None => None,
        }
    }

    /// Reads back one that may be absent.
    pub fn opt_to_canonical(o: &Option<ComponentEvidence>) -> (r: Option<models::ComponentEvidence>)
        ensures
            r.deep_view() == (match o.deep_view() {
                Some(x) => Some(x.to_canonical()),
                None => None,
            }),
    {
        match o {
            Some(x) => {
                Some(x.to_canonical())
            },
            None => None,
        }
    }
}

impl LicenseIdentifierView {
    /// The shape that schema 1.3 gives to the way a license is named.
    pub open spec fn from_canonical(c: models::LicenseIdentifierView) -> LicenseIdentifierView {
        match c {
            models::LicenseIdentifierView::SpdxId(id) => LicenseIdentifierView::SpdxId(id),
            models::LicenseIdentifierView::Name(name) => LicenseIdentifierView::Name(name),
        }
    }

    /// The way of naming a license that this shape stands for.
    pub open spec fn to_canonical(self) -> models::LicenseIdentifierView {
        match self {
            LicenseIdentifierView::SpdxId(id) => models::LicenseIdentifierView::SpdxId(id),
            LicenseIdentifierView::Name(name) => models::LicenseIdentifierView::Name(name),
        }
    }
}

impl LicenseIdentifier {
    /// Shapes the way a license is named as schema 1.3 writes it.
    pub fn from_canonical(c: &models::LicenseIdentifier) -> (r: LicenseIdentifier)
        ensures
            r.deep_view() == LicenseIdentifierView::from_canonical(c.deep_view()),
    {
        match c {
            models::LicenseIdentifier::SpdxId(id) => LicenseIdentifier::SpdxId(id.to_string()),
            models::LicenseIdentifier::Name(name) => LicenseIdentifier::Name(name.to_string()),
        }
    }

    /// Reads the shape back. The identifier is taken as it is, without
    /// validating it again.
    pub fn to_canonical(&self) -> (r: models::LicenseIdentifier)
        ensures
            r.deep_view() == self.deep_view().to_canonical(),
    {
        match self {
            LicenseIdentifier::SpdxId(id) => models::LicenseIdentifier::SpdxId(
                SpdxIdentifier::new_unchecked(id.clone()),
            ),
            LicenseIdentifier::Name(name) => models::LicenseIdentifier::Name(
                NormalizedString::new_unchecked(name.clone()),
            ),
        }
    }
}

impl LicenseChoiceView {
    /// The entries that one choice of the document model becomes: one entry
    /// for each license of a list of licenses, in their order, and one entry
    /// for an expression or for a choice without licenses.
    pub open spec fn entries(c: models::LicenseChoiceView) -> Seq<LicenseChoiceView> {
        match c {
            models::LicenseChoiceView::License(Some(licenses)) => Seq::new(
                licenses.len(),
                |i: int| LicenseChoiceView::License(Some(LicenseView::from_canonical(licenses[i]))),
            ),
            models::LicenseChoiceView::License(None) => seq![LicenseChoiceView::License(None)],
            models::LicenseChoiceView::Expression(expression) => seq![
                LicenseChoiceView::Expression(expression),
            ],
        }
    }

    /// The entries of a sequence of choices, one choice after the other.
    pub open spec fn seq_from_canonical(s: Seq<models::LicenseChoiceView>) -> Seq<
        LicenseChoiceView,
    >
        decreases s.len(),
    {
        if s.len() == 0 {
            Seq::empty()
        } else {
            LicenseChoiceView::seq_from_canonical(s.drop_last()) + LicenseChoiceView::entries(
                s.last(),
            )
        }
    }

    /// The shape that schema 1.3 gives to a list of license choices that may
    /// be absent.
    pub open spec fn list_from_canonical(o: Option<Seq<models::LicenseChoiceView>>) -> Option<
        Seq<LicenseChoiceView>,
    > {
        match o {
            Some(s) => Some(LicenseChoiceView::seq_from_canonical(s)),
            None => None,
        }
    }

    /// The choice that one entry stands for: a license stands for a list
    /// with that license alone.
    pub open spec fn to_canonical(self) -> models::LicenseChoiceView {
        match self {
            LicenseChoiceView::License(Some(license)) => models::LicenseChoiceView::License(
                Some(seq![license.to_canonical()]),
            ),
            LicenseChoiceView::License(None) => models::LicenseChoiceView::License(None),
            LicenseChoiceView::Expression(expression) => models::LicenseChoiceView::Expression(
                expression,
            ),
        }
    }

    /// What a sequence of entries stands for, one for one.
    pub open spec fn seq_to_canonical(s: Seq<LicenseChoiceView>) -> Seq<
        models::LicenseChoiceView,
    > {
        Seq::new(s.len(), |i: int| s[i].to_canonical())
    }

    /// What a list of entries that may be absent stands for.
    pub open spec fn list_to_canonical(o: Option<Seq<LicenseChoiceView>>) -> Option<
        Seq<models::LicenseChoiceView>,
    > {
        match o {
            Some(s) => Some(LicenseChoiceView::seq_to_canonical(s)),
            None => None,
        }
    }

    /// Schema 1.3 can carry the choice as one entry: a list of licenses
    /// holds exactly one.
    pub open spec fn fits(c: models::LicenseChoiceView) -> bool {
        c matches models::LicenseChoiceView::License(Some(licenses)) ==> licenses.len() == 1
    }

    /// Schema 1.3 can carry each choice of the list as one entry.
    pub open spec fn list_fits(o: Option<Seq<models::LicenseChoiceView>>) -> bool {
        o matches Some(s) ==> forall|i: int|
            0 <= i < s.len() ==> LicenseChoiceView::fits(#[trigger] s[i])
    }
}

impl LicenseChoice {
    /// The entries that one choice becomes.
    pub fn entries(c: &models::LicenseChoice) -> (r: Vec<LicenseChoice>)
        ensures
            r.deep_view() == LicenseChoiceView::entries(c.deep_view()),
    {
        let mut out: Vec<LicenseChoice> = Vec::new();
        match c {
            models::LicenseChoice::License(Some(licenses)) => {
                let mut i: usize = 0;
                while i < licenses.len()
                    invariant
                        i <= licenses.len(),
                        out.len() == i,
                        forall|j: int|
                            0 <= j < i ==> (#[trigger] out[j]).deep_view()
                                == LicenseChoiceView::License(
                                Some(LicenseView::from_canonical(licenses[j].deep_view())),
                            ),
                    decreases licenses.len() - i,
                {
                    out.push(LicenseChoice::License(Some(License::from_canonical(&licenses[i]))));
                    i += 1;
                }
            },
            models::LicenseChoice::License(None) => {
                out.push(LicenseChoice::License(None));
            },
            models::LicenseChoice::Expression(expression) => {
                let text = match expression {
                    Some(x) => Some(x.to_string()),
                    None => None,
                };
                out.push(LicenseChoice::Expression(text));
            },
        }
        proof {
            assert(out.deep_view() =~= LicenseChoiceView::entries(c.deep_view()));
        }
        out
    }

    /// Shapes a list of license choices as schema 1.3 writes it: the entries
    /// of each choice, one choice after the other.
    pub fn list_from_canonical(o: &Option<Vec<models::LicenseChoice>>) -> (r: Option<
        Vec<LicenseChoice>,
    >)
        ensures
            r.deep_view() == LicenseChoiceView::list_from_canonical(o.deep_view()),
    {
        match o {
            None => None,
            Some(v) => {
                let mut out: Vec<LicenseChoice> = Vec::new();
                let mut i: usize = 0;
                proof {
                    assert(out.deep_view() =~= Seq::<LicenseChoiceView>::empty());
                }
                while i < v.len()
                    invariant
                        i <= v.len(),
                        out.deep_view() == LicenseChoiceView::seq_from_canonical(
                            v.deep_view().take(i as int),
                        ),
                    decreases v.len() - i,
                {
                    let ghost before = out.deep_view();
                    let mut more = LicenseChoice::entries(&v[i]);
                    let ghost added = more.deep_view();
                    out.append(&mut more);
                    proof {
                        let upto = v.deep_view().take(i as int + 1);
                        assert(upto.drop_last() =~= v.deep_view().take(i as int));
                        assert(upto.last() == v[i as int].deep_view());
                        assert(out.deep_view() =~= before + added);
                    }
                    i += 1;
                }
                proof {
                    assert(v.deep_view().take(v.len() as int) =~= v.deep_view());
                }
                Some(out)
            },
        }
    }

    /// Reads one entry back.
    pub fn to_canonical(&self) -> (r: models::LicenseChoice)
        ensures
            r.deep_view() == self.deep_view().to_canonical(),
    {
        match self {
            LicenseChoice::License(Some(license)) => {
                let mut licenses: Vec<models::License> = Vec::new();
                licenses.push(license.to_canonical());
                proof {
                    assert(licenses.deep_view() =~= seq![license.deep_view().to_canonical()]);
                }
                models::LicenseChoice::License(Some(licenses))
            },
            LicenseChoice::License(None) => models::LicenseChoice::License(None),
            LicenseChoice::Expression(expression) => {
                let text = match expression {
                    Some(x) => Some(NormalizedString::new_unchecked(x.clone())),
                    None => None,
                };
                models::LicenseChoice::Expression(text)
            },
        }
    }

    /// Reads a list of entries back, one for one.
    pub fn list_to_canonical(o: &Option<Vec<LicenseChoice>>) -> (r: Option<
        Vec<models::LicenseChoice>,
    >)
        ensures
            r.deep_view() == LicenseChoiceView::list_to_canonical(o.deep_view()),
    {
        match o {
            None => None,
            Some(v) => {
                let mut out: Vec<models::LicenseChoice> = Vec::new();
                let mut i: usize = 0;
                while i < v.len()
                    invariant
                        i <= v.len(),
                        out.len() == i,
                        forall|j: int|
                            0 <= j < i ==> (#[trigger] out[j]).deep_view()
                                == v[j].deep_view().to_canonical(),
                    decreases v.len() - i,
                {
                    out.push(v[i].to_canonical());
                    i += 1;
                }
                proof {
                    assert(out.deep_view() =~= LicenseChoiceView::seq_to_canonical(v.deep_view()));
                }
                Some(out)
            },
        }
    }
}

} // verus!
