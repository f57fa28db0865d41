//! XML documents: a tree of elements, and the text that a tree is written
//! as.
//!
//! The text starts with the XML declaration. An element that holds text is
//! written on one line. An element that holds elements has each of them on
//! a line of its own, two spaces deeper, and an element that holds nothing
//! is a self-closing tag.

use crate::text::push_char;
use vstd::prelude::*;
use vstd::string::StringExecFns;

verus! {

/// An attribute: its name and its value.
#[derive(Debug, PartialEq)]
pub struct Attribute {
    pub name: String,
    pub value: String,
}

impl DeepView for Attribute {
    type V = (Seq<char>, Seq<char>);

    open spec fn deep_view(&self) -> (Seq<char>, Seq<char>) {
        (self.name@, self.value@)
    }
}

/// What stands between the tags of an element: text, or elements.
#[derive(Debug, PartialEq)]
pub enum Content {
    Text(String),
    Children(Vec<Element>),
}

/// An element: its name, its attributes in the order in which they are
/// written, and its content.
#[derive(Debug, PartialEq)]
pub struct Element {
    pub name: String,
    pub attributes: Vec<Attribute>,
    pub content: Content,
}

/// What a [`Content`] holds, as mathematical values.
pub enum ContentView {
    Text(Seq<char>),
    Children(Seq<ElementView>),
}

/// What an [`Element`] holds, as mathematical values.
pub struct ElementView {
    pub name: Seq<char>,
    pub attributes: Seq<(Seq<char>, Seq<char>)>,
    pub content: ContentView,
}

impl Element {
    /// The mathematical value of this element.
    pub open spec fn model(self) -> ElementView
        decreases self,
    {
        ElementView {
            name: self.name@,
            attributes: self.attributes.deep_view(),
            content: match self.content {
                Content::Text(text) => ContentView::Text(text@),
                Content::Children(children) => ContentView::Children(Element::models(children@)),
            },
        }
    }

    /// The mathematical values of a sequence of elements, one for one.
    pub open spec fn models(s: Seq<Element>) -> Seq<ElementView>
        decreases s,
    {
        Seq::new(
            s.len(),
            |i: int|
                if 0 <= i < s.len() {
                    s[i].model()
                } else {
                    arbitrary()
                },
        )
    }

    /// `models` agrees with the view that a vector of elements has.
    pub proof fn lemma_models(v: Vec<Element>)
        ensures
            Element::models(v@) == v.deep_view(),
    {
        assert(Element::models(v@) =~= v.deep_view());
    }
}

impl DeepView for Element {
    type V = ElementView;

    open spec fn deep_view(&self) -> ElementView {
        self.model()
    }
}

impl ElementView {
    /// The element of the given name that holds nothing.
    pub open spec fn named(name: Seq<char>) -> ElementView {
        ElementView {
            name,
            attributes: Seq::empty(),
            content: ContentView::Children(Seq::empty()),
        }
    }

    /// The elements that this element holds; none where it holds text.
    pub open spec fn children(self) -> Seq<ElementView> {
        match self.content {
            ContentView::Children(children) => children,
            ContentView::Text(_) => Seq::empty(),
        }
    }

    /// This element with one more attribute.
    #[verifier::opaque]
    pub open spec fn with_attribute(self, name: Seq<char>, value: Seq<char>) -> ElementView {
        ElementView { attributes: self.attributes.push((name, value)), ..self }
    }

    /// This element with one more attribute where there is a value: an
    /// absent value leaves no trace in the element.
    #[verifier::opaque]
    pub open spec fn with_optional_attribute(
        self,
        name: Seq<char>,
        value: Option<Seq<char>>,
    ) -> ElementView {
        match value {
            Some(v) => ElementView { attributes: self.attributes.push((name, v)), ..self },
            None => self,
        }
    }

    /// This element with the given elements after those it holds.
    #[verifier::opaque]
    pub open spec fn with_children(self, more: Seq<ElementView>) -> ElementView {
        ElementView { content: ContentView::Children(self.children() + more), ..self }
    }

    /// This element with one more element after those it holds.
    pub open spec fn with_child(self, child: ElementView) -> ElementView {
        self.with_children(seq![child])
    }

    /// This element with one more element where there is one: an absent
    /// part leaves no trace in the element.
    pub open spec fn with_optional_child(self, child: Option<ElementView>) -> ElementView {
        self.with_children(
            match child {
                Some(c) => seq![c],
                None => Seq::empty(),
            },
        )
    }

    /// This element with the given elements where they are there.
    pub open spec fn with_optional_children(self, more: Option<Seq<ElementView>>) -> ElementView {
        self.with_children(
            match more {
                Some(c) => c,
                None => Seq::empty(),
            },
        )
    }

    /// This element holding the given text.
    pub open spec fn with_text(self, text: Seq<char>) -> ElementView {
        ElementView { content: ContentView::Text(text), ..self }
    }
}

/// The element of the given name that holds the given text.
pub open spec fn text_element(name: Seq<char>, text: Seq<char>) -> ElementView {
    ElementView::named(name).with_text(text)
}

/// The elements of the given name that hold the given texts, one for one.
pub open spec fn text_elements(name: Seq<char>, texts: Seq<Seq<char>>) -> Seq<ElementView> {
    Seq::new(texts.len(), |i: int| text_element(name, texts[i]))
}

/// The text element for a text that may be absent.
pub open spec fn optional_text_element(name: Seq<char>, text: Option<Seq<char>>) -> Option<
    ElementView,
> {
    match text {
        Some(t) => Some(text_element(name, t)),
        None => None,
    }
}

/// The element of the given name that holds the given elements.
pub open spec fn wrapper(name: Seq<char>, children: Seq<ElementView>) -> ElementView {
    ElementView::named(name).with_children(children)
}

/// The wrapper for elements that may be absent: present but empty where the
/// list is empty, absent where the list is absent.
pub open spec fn optional_wrapper(name: Seq<char>, children: Option<Seq<ElementView>>) -> Option<
    ElementView,
> {
    match children {
        Some(c) => Some(wrapper(name, c)),
        None => None,
    }
}

/// How a truth value is written.
pub open spec fn bool_text(b: bool) -> Seq<char> {
    if b {
        "true"@
    } else {
        "false"@
    }
}

/// How one character of an attribute's value is written between the quotes:
/// the five characters of markup as entities, a line feed and a carriage
/// return as character references so that the attribute stays on one line,
/// and every other character as itself.
pub open spec fn escaped_attribute_char(c: char) -> Seq<char> {
    if c == '<' {
        "&lt;"@
    } else if c == '>' {
        "&gt;"@
    } else if c == '"' {
        "&quot;"@
    } else if c == '\'' {
        "&apos;"@
    } else if c == '&' {
        "&amp;"@
    } else if c == '\n' {
        "&#xA;"@
    } else if c == '\r' {
        "&#xD;"@
    } else {
        seq![c]
    }
}

/// The value of an attribute as it is written between the quotes.
pub open spec fn escaped_attribute(s: Seq<char>) -> Seq<char>
    decreases s.len(),
{
    if s.len() == 0 {
        Seq::empty()
    } else {
        escaped_attribute(s.drop_last()) + escaped_attribute_char(s.last())
    }
}

/// How one character of the text of an element is written: `<`, `>` and `&`
/// as entities, and every other character as itself.
pub open spec fn escaped_text_char(c: char) -> Seq<char> {
    if c == '<' {
        "&lt;"@
    } else if c == '>' {
        "&gt;"@
    } else if c == '&' {
        "&amp;"@
    } else {
        seq![c]
    }
}

/// The text of an element as it is written between the tags.
pub open spec fn escaped_text(s: Seq<char>) -> Seq<char>
    decreases s.len(),
{
    if s.len() == 0 {
        Seq::empty()
    } else {
        escaped_text(s.drop_last()) + escaped_text_char(s.last())
    }
}

/// The text of one attribute: a space, the name, and the escaped value
/// between double quotes.
pub open spec fn attribute_text(attribute: (Seq<char>, Seq<char>)) -> Seq<char> {
    " "@ + attribute.0 + "=\""@ + escaped_attribute(attribute.1) + "\""@
}

/// The text of a sequence of attributes, one after the other.
pub open spec fn attributes_text(attributes: Seq<(Seq<char>, Seq<char>)>) -> Seq<char>
    decreases attributes.len(),
{
    if attributes.len() == 0 {
        Seq::empty()
    } else {
        attributes_text(attributes.drop_last()) + attribute_text(attributes.last())
    }
}

/// The text of an element that starts on a line indented by `indent`.
pub open spec fn element_text(e: ElementView, indent: Seq<char>) -> Seq<char>
    decreases e,
{
    "<"@ + e.name + attributes_text(e.attributes) + match e.content {
        ContentView::Text(text) => ">"@ + escaped_text(text) + "</"@ + e.name + ">"@,
        ContentView::Children(children) => if children.len() == 0 {
            " />"@
        } else {
            ">"@ + children_text(children, indent + "  "@) + "\n"@ + indent + "</"@ + e.name
                + ">"@
        },
    }
}

/// The text of the elements that an element holds, each on a line of its
/// own, indented by `indent`.
pub open spec fn children_text(children: Seq<ElementView>, indent: Seq<char>) -> Seq<char>
    decreases children,
{
    if children.len() == 0 {
        Seq::empty()
    } else {
        children_text(children.drop_last(), indent) + "\n"@ + indent + element_text(
            children.last(),
            indent,
        )
    }
}

/// The text of a document whose root is `e`: the XML declaration, and the
/// root on the next line.
pub open spec fn document_text(e: ElementView) -> Seq<char> {
    "<?xml version=\"1.0\" encoding=\"UTF-8\"?>"@ + "\n"@ + element_text(e, Seq::empty())
}

/// Whether an element has an attribute with the given name.
pub open spec fn has_attribute(e: ElementView, name: Seq<char>) -> bool {
    exists|i: int| 0 <= i < e.attributes.len() && (#[trigger] e.attributes[i]).0 == name
}

/// Whether an element has an attribute with the given name and value.
pub open spec fn has_attribute_value(e: ElementView, name: Seq<char>, value: Seq<char>) -> bool {
    exists|i: int| 0 <= i < e.attributes.len() && #[trigger] e.attributes[i] == (name, value)
}

/// Whether an element holds an element with the given name.
pub open spec fn has_child(e: ElementView, name: Seq<char>) -> bool {
    exists|i: int| 0 <= i < e.children().len() && (#[trigger] e.children()[i]).name == name
}

/// Which attributes an element has, by the way it was built: none at first;
/// after an attribute was added, that one and those that were there; after
/// an optional attribute was added, those that were there, and that one
/// where there was a value. Adding elements changes no attribute.
pub proof fn lemma_attributes_of_element()
    ensures
        forall|n: Seq<char>, name: Seq<char>| !#[trigger] has_attribute(ElementView::named(n), name),
        forall|e: ElementView, k: Seq<char>, v: Seq<char>, name: Seq<char>| #[trigger]
            has_attribute(e.with_attribute(k, v), name) <==> name == k || has_attribute(e, name),
        forall|e: ElementView, k: Seq<char>, v: Option<Seq<char>>, name: Seq<char>| #[trigger]
            has_attribute(e.with_optional_attribute(k, v), name) <==> (v is Some && name == k)
                || has_attribute(e, name),
        forall|e: ElementView, more: Seq<ElementView>, name: Seq<char>| #[trigger]
            has_attribute(e.with_children(more), name) <==> has_attribute(e, name),
        forall|e: ElementView, text: Seq<char>, name: Seq<char>| #[trigger]
            has_attribute(e.with_text(text), name) <==> has_attribute(e, name),
{
    reveal(ElementView::with_attribute);
    reveal(ElementView::with_optional_attribute);
    reveal(ElementView::with_children);
    assert forall|e: ElementView, k: Seq<char>, v: Seq<char>, name: Seq<char>| #[trigger]
        has_attribute(e.with_attribute(k, v), name) <==> name == k || has_attribute(e, name) by {
        lemma_attributes_after_push(e, k, v, name);
    }
    assert forall|e: ElementView, k: Seq<char>, v: Option<Seq<char>>, name: Seq<char>| #[trigger]
        has_attribute(e.with_optional_attribute(k, v), name) <==> (v is Some && name == k)
            || has_attribute(e, name) by {
        if v is Some {
            lemma_attributes_after_push(e, k, v->0, name);
        }
    }
}

/// After an attribute is added an element has that one and those it had.
pub proof fn lemma_attributes_after_push(
    e: ElementView,
    k: Seq<char>,
    v: Seq<char>,
    name: Seq<char>,
)
    ensures
        has_attribute(ElementView { attributes: e.attributes.push((k, v)), ..e }, name) <==> name
            == k || has_attribute(e, name),
{
    let after = ElementView { attributes: e.attributes.push((k, v)), ..e };
    if name == k {
        assert(after.attributes[e.attributes.len() as int].0 == name);
    }
    if has_attribute(e, name) {
        let i = choose|i: int| 0 <= i < e.attributes.len() && e.attributes[i].0 == name;
        assert(after.attributes[i].0 == name);
    }
    if has_attribute(after, name) {
        let i = choose|i: int| 0 <= i < after.attributes.len() && after.attributes[i].0 == name;
        if i < e.attributes.len() {
            assert(e.attributes[i].0 == name);
        }
    }
}

/// Which elements an element holds, by the way it was built one element at
/// a time: none at first; after an element was added, that one and those
/// that were there; after an optional element was added, those that were
/// there, and that one where there was one. Adding attributes changes no
/// element, and an element that holds text holds no element.
pub proof fn lemma_children_of_element()
    ensures
        forall|n: Seq<char>, name: Seq<char>| !#[trigger] has_child(ElementView::named(n), name),
        forall|e: ElementView, c: ElementView, name: Seq<char>| #[trigger]
            has_child(e.with_child(c), name) <==> c.name == name || has_child(e, name),
        forall|e: ElementView, o: Option<ElementView>, name: Seq<char>| #[trigger]
            has_child(e.with_optional_child(o), name) <==> (o is Some && o->0.name == name)
                || has_child(e, name),
        forall|e: ElementView, k: Seq<char>, v: Seq<char>, name: Seq<char>| #[trigger]
            has_child(e.with_attribute(k, v), name) <==> has_child(e, name),
        forall|e: ElementView, k: Seq<char>, v: Option<Seq<char>>, name: Seq<char>| #[trigger]
            has_child(e.with_optional_attribute(k, v), name) <==> has_child(e, name),
        forall|e: ElementView, text: Seq<char>, name: Seq<char>| !#[trigger] has_child(
            e.with_text(text),
            name,
        ),
{
    reveal(ElementView::with_attribute);
    reveal(ElementView::with_optional_attribute);
    assert forall|e: ElementView, c: ElementView, name: Seq<char>| #[trigger]
        has_child(e.with_child(c), name) <==> c.name == name || has_child(e, name) by {
        lemma_children_after_append(e, seq![c], name);
        if c.name == name {
            assert(seq![c][0].name == name);
        }
    }
    assert forall|e: ElementView, o: Option<ElementView>, name: Seq<char>| #[trigger]
        has_child(e.with_optional_child(o), name) <==> (o is Some && o->0.name == name)
            || has_child(e, name) by {
        if o is Some {
            lemma_children_after_append(e, seq![o->0], name);
            if o->0.name == name {
                assert(seq![o->0][0].name == name);
            }
        } else {
            lemma_children_after_append(e, Seq::empty(), name);
        }
    }
}

/// Which elements an element holds after several were added at once: those
/// that were there and those that were added.
pub proof fn lemma_children_after_lists()
    ensures
        forall|e: ElementView, more: Seq<ElementView>, name: Seq<char>| #[trigger]
            has_child(e.with_children(more), name) <==> has_child(e, name) || (exists|i: int|
                0 <= i < more.len() && (#[trigger] more[i]).name == name),
        forall|e: ElementView, o: Option<Seq<ElementView>>, name: Seq<char>| #[trigger]
            has_child(e.with_optional_children(o), name) <==> (o is Some && exists|i: int|
                0 <= i < o->0.len() && (#[trigger] o->0[i]).name == name) || has_child(e, name),
{
    assert forall|e: ElementView, more: Seq<ElementView>, name: Seq<char>| #[trigger]
        has_child(e.with_children(more), name) <==> has_child(e, name) || (exists|i: int|
            0 <= i < more.len() && (#[trigger] more[i]).name == name) by {
        lemma_children_after_append(e, more, name);
    }
    assert forall|e: ElementView, o: Option<Seq<ElementView>>, name: Seq<char>| #[trigger]
        has_child(e.with_optional_children(o), name) <==> (o is Some && exists|i: int|
            0 <= i < o->0.len() && (#[trigger] o->0[i]).name == name) || has_child(e, name) by {
        if o is Some {
            lemma_children_after_append(e, o->0, name);
        } else {
            lemma_children_after_append(e, Seq::empty(), name);
        }
    }
}

/// After elements are added an element holds those it held and those that
/// were added.
pub proof fn lemma_children_after_append(e: ElementView, more: Seq<ElementView>, name: Seq<char>)
    ensures
        has_child(e.with_children(more), name) <==> has_child(e, name) || (exists|i: int|
            0 <= i < more.len() && (#[trigger] more[i]).name == name),
{
    reveal(ElementView::with_children);
    let before = e.children();
    let after = e.with_children(more).children();
    assert(after =~= before + more);
    if has_child(e, name) {
        let i = choose|i: int| 0 <= i < before.len() && (#[trigger] before[i]).name == name;
        assert(after[i].name == name);
    }
    if exists|i: int| 0 <= i < more.len() && (#[trigger] more[i]).name == name {
        let i = choose|i: int| 0 <= i < more.len() && (#[trigger] more[i]).name == name;
        assert(after[before.len() + i].name == name);
    }
    if has_child(e.with_children(more), name) {
        let i = choose|i: int| 0 <= i < after.len() && (#[trigger] after[i]).name == name;
        if i < before.len() {
            assert(before[i].name == name);
        } else {
            assert(more[i - before.len()].name == name);
        }
    }
}

/// Adding attributes or elements to an element does not change its name.
pub proof fn lemma_name_of_element()
    ensures
        forall|e: ElementView, k: Seq<char>, v: Seq<char>|
            (#[trigger] e.with_attribute(k, v)).name == e.name,
        forall|e: ElementView, k: Seq<char>, v: Option<Seq<char>>|
            (#[trigger] e.with_optional_attribute(k, v)).name == e.name,
        forall|e: ElementView, more: Seq<ElementView>|
            (#[trigger] e.with_children(more)).name == e.name,
{
    reveal(ElementView::with_attribute);
    reveal(ElementView::with_optional_attribute);
    reveal(ElementView::with_children);
}

/// All the text elements made for a list have the name they were made with.
pub proof fn lemma_text_elements_names(name: Seq<char>, texts: Seq<Seq<char>>)
    ensures
        forall|i: int| 0 <= i < texts.len() ==> (#[trigger] text_elements(name, texts)[i]).name == name,
{
}

/// Collects the parts of an element and makes the element of them.
pub struct ElementBuilder {
    name: String,
    attributes: Vec<Attribute>,
    children: Vec<Element>,
}

impl View for ElementBuilder {
    type V = ElementView;

    closed spec fn view(&self) -> ElementView {
        ElementView {
            name: self.name@,
            attributes: self.attributes.deep_view(),
            content: ContentView::Children(self.children.deep_view()),
        }
    }
}

impl ElementBuilder {
    /// Starts an element that holds nothing.
    pub fn new(name: &str) -> (r: ElementBuilder)
        ensures
            r@ == ElementView::named(name@),
    {
        let attributes: Vec<Attribute> = Vec::new();
        let children: Vec<Element> = Vec::new();
        proof {
            assert(attributes.deep_view() =~= Seq::<(Seq<char>, Seq<char>)>::empty());
            assert(children.deep_view() =~= Seq::<ElementView>::empty());
        }
        ElementBuilder { name: name.to_string(), attributes, children }
    }

    /// Adds an attribute after those that are there.
    pub fn with_attribute(self, name: &str, value: String) -> (r: ElementBuilder)
        ensures
            r@ == self@.with_attribute(name@, value@),
    {
        reveal(ElementView::with_attribute);
        let mut attributes = self.attributes;
        let ghost before = attributes.deep_view();
        attributes.push(Attribute { name: name.to_string(), value });
        proof {
            assert(attributes.deep_view() =~= before.push((name@, value@)));
        }
        ElementBuilder { name: self.name, attributes, children: self.children }
    }

    /// Adds an attribute where there is a value, and nothing where there is
    /// not.
    pub fn with_optional_attribute(self, name: &str, value: Option<String>) -> (r: ElementBuilder)
        ensures
            r@ == self@.with_optional_attribute(name@, value.deep_view()),
    {
        reveal(ElementView::with_attribute);
        reveal(ElementView::with_optional_attribute);
        match value {
            Some(v) => self.with_attribute(name, v),
            None => self,
        }
    }

    /// Adds elements after those that are there.
    pub fn with_children(self, more: Vec<Element>) -> (r: ElementBuilder)
        ensures
            r@ == self@.with_children(more.deep_view()),
    {
        reveal(ElementView::with_children);
        let mut children = self.children;
        let mut more = more;
        let ghost before = children.deep_view();
        let ghost added = more.deep_view();
        children.append(&mut more);
        proof {
            assert(children.deep_view() =~= before + added);
        }
        ElementBuilder { name: self.name, attributes: self.attributes, children }
    }

    /// Adds an element after those that are there.
    pub fn with_child(self, child: Element) -> (r: ElementBuilder)
        ensures
            r@ == self@.with_child(child.deep_view()),
    {
        let mut more: Vec<Element> = Vec::new();
        more.push(child);
        proof {
            assert(more.deep_view() =~= seq![child.deep_view()]);
        }
        self.with_children(more)
    }

    /// Adds an element where there is one, and nothing where there is not.
    pub fn with_optional_child(self, child: Option<Element>) -> (r: ElementBuilder)
        ensures
            r@ == self@.with_optional_child(child.deep_view()),
    {
        let mut more: Vec<Element> = Vec::new();
        proof {
            assert(more.deep_view() =~= Seq::<ElementView>::empty());
        }
        match child {
            Some(c) => {
                more.push(c);
                proof {
                    assert(more.deep_view() =~= seq![c.deep_view()]);
                }
            },
            None => {},
        }
        self.with_children(more)
    }

    /// Adds elements where they are there, and nothing where they are not.
    pub fn with_optional_children(self, more: Option<Vec<Element>>) -> (r: ElementBuilder)
        ensures
            r@ == self@.with_optional_children(more.deep_view()),
    {
        match more {
            Some(c) => self.with_children(c),
            None => {
                let none: Vec<Element> = Vec::new();
                proof {
                    assert(none.deep_view() =~= Seq::<ElementView>::empty());
                }
                self.with_children(none)
            },
        }
    }

    /// Makes the element, holding the elements that were added.
    pub fn build(self) -> (r: Element)
        ensures
            r.deep_view() == self@,
    {
        proof {
            Element::lemma_models(self.children);
        }
        Element {
            name: self.name,
            attributes: self.attributes,
            content: Content::Children(self.children),
        }
    }

    /// Makes the element, holding the given text in place of elements.
    pub fn build_with_text(self, text: String) -> (r: Element)
        ensures
            r.deep_view() == self@.with_text(text@),
    {
        Element { name: self.name, attributes: self.attributes, content: Content::Text(text) }
    }
}

/// Makes the element of the given name that holds a copy of the given text.
pub fn make_text_element(name: &str, text: &str) -> (r: Element)
    ensures
        r.deep_view() == text_element(name@, text@),
{
    ElementBuilder::new(name).build_with_text(text.to_string())
}

/// Makes the text element for a text that may be absent.
pub fn make_optional_text_element(name: &str, text: &Option<String>) -> (r: Option<Element>)
    ensures
        r.deep_view() == optional_text_element(name@, text.deep_view()),
{
    match text {
        Some(t) => Some(make_text_element(name, t.as_str())),
        None => None,
    }
}

/// Makes the elements of the given name that hold copies of the given texts.
pub fn make_text_elements(name: &str, texts: &Vec<String>) -> (r: Vec<Element>)
    ensures
        r.deep_view() == text_elements(name@, texts.deep_view()),
{
    let mut out: Vec<Element> = Vec::new();
    let mut i: usize = 0;
    while i < texts.len()
        invariant
            i <= texts.len(),
            out.len() == i,
            forall|j: int|
                0 <= j < i ==> (#[trigger] out[j]).deep_view() == text_element(name@, texts[j]@),
        decreases texts.len() - i,
    {
        out.push(make_text_element(name, texts[i].as_str()));
        i += 1;
    }
    proof {
        assert(out.deep_view() =~= text_elements(name@, texts.deep_view()));
    }
    out
}

/// Makes the element of the given name that holds the given elements.
pub fn make_wrapper(name: &str, children: Vec<Element>) -> (r: Element)
    ensures
        r.deep_view() == wrapper(name@, children.deep_view()),
{
    ElementBuilder::new(name).with_children(children).build()
}

/// Makes the wrapper for elements that may be absent.
pub fn make_optional_wrapper(name: &str, children: Option<Vec<Element>>) -> (r: Option<Element>)
    ensures
        r.deep_view() == optional_wrapper(name@, children.deep_view()),
{
    match children {
        Some(c) => Some(make_wrapper(name, c)),
        None => None,
    }
}

/// Writes a truth value.
pub fn bool_to_string(b: bool) -> (r: String)
    ensures
        r@ == bool_text(b),
{
    if b {
        "true".to_string()
    } else {
        "false".to_string()
    }
}

/// Appends one character of an attribute's value as it is written between
/// the quotes.
pub fn push_escaped_attribute_char(out: &mut String, c: char)
    ensures
        final(out)@ == old(out)@ + escaped_attribute_char(c),
{
    let ghost before = out@;
    if c == '<' {
        out.append("&lt;");
    } else if c == '>' {
        out.append("&gt;");
    } else if c == '"' {
        out.append("&quot;");
    } else if c == '\'' {
        out.append("&apos;");
    } else if c == '&' {
        out.append("&amp;");
    } else if c == '\n' {
        out.append("&#xA;");
    } else if c == '\r' {
        out.append("&#xD;");
    } else {
        push_char(out, c);
        proof {
            assert(out@ =~= before + seq![c]);
        }
    }
}

/// Appends one character of the text of an element as it is written between
/// the tags.
pub fn push_escaped_text_char(out: &mut String, c: char)
    ensures
        final(out)@ == old(out)@ + escaped_text_char(c),
{
    let ghost before = out@;
    if c == '<' {
        out.append("&lt;");
    } else if c == '>' {
        out.append("&gt;");
    } else if c == '&' {
        out.append("&amp;");
    } else {
        push_char(out, c);
        proof {
            assert(out@ =~= before + seq![c]);
        }
    }
}

/// Appends the text of an element as it is written between the tags.
pub fn push_escaped_text(out: &mut String, text: &str)
    ensures
        final(out)@ == old(out)@ + escaped_text(text@),
{
    let ghost start = out@;
    proof {
        assert(text@.take(0) =~= Seq::<char>::empty());
        assert(out@ =~= start + escaped_text(text@.take(0)));
    }
    for c in it: text.chars()
        invariant
            it.seq() == text@,
            out@ == start + escaped_text(text@.take(it.index())),
    {
        push_escaped_text_char(out, c);
        proof {
            let i = it.index();
            assert(text@.take(i + 1).drop_last() =~= text@.take(i));
            assert(text@.take(i + 1).last() == c);
            assert(out@ =~= start + escaped_text(text@.take(i + 1)));
        }
    }
    proof {
        assert(text@.take(text@.len() as int) =~= text@);
    }
}

/// Appends the text of one attribute.
pub fn push_attribute(out: &mut String, attribute: &Attribute)
    ensures
        final(out)@ == old(out)@ + attribute_text(attribute.deep_view()),
{
    let ghost start = out@;
    out.append(" ");
    out.append(attribute.name.as_str());
    out.append("=\"");
    let ghost head = out@;
    let value = attribute.value.as_str();
    proof {
        assert(value@.take(0) =~= Seq::<char>::empty());
        assert(out@ =~= head + escaped_attribute(value@.take(0)));
    }
    for c in it: value.chars()
        invariant
            it.seq() == value@,
            out@ == head + escaped_attribute(value@.take(it.index())),
    {
        push_escaped_attribute_char(out, c);
        proof {
            let i = it.index();
            assert(value@.take(i + 1).drop_last() =~= value@.take(i));
            assert(value@.take(i + 1).last() == c);
            assert(out@ =~= head + escaped_attribute(value@.take(i + 1)));
        }
    }
    out.append("\"");
    proof {
        assert(value@.take(value@.len() as int) =~= value@);
        assert(out@ =~= start + attribute_text(attribute.deep_view()));
    }
}

/// Appends the text of a sequence of attributes.
pub fn push_attributes(out: &mut String, attributes: &Vec<Attribute>)
    ensures
        final(out)@ == old(out)@ + attributes_text(attributes.deep_view()),
{
    let ghost start = out@;
    let ghost all = attributes.deep_view();
    let mut i: usize = 0;
    proof {
        assert(all.take(0) =~= Seq::<(Seq<char>, Seq<char>)>::empty());
        assert(out@ =~= start + attributes_text(all.take(0)));
    }
    while i < attributes.len()
        invariant
            i <= attributes.len(),
            all == attributes.deep_view(),
            out@ == start + attributes_text(all.take(i as int)),
        decreases attributes.len() - i,
    {
        push_attribute(out, &attributes[i]);
        proof {
            let upto = all.take(i as int + 1);
            assert(upto.drop_last() =~= all.take(i as int));
            assert(upto.last() == attributes[i as int].deep_view());
            assert(out@ =~= start + attributes_text(upto));
        }
        i += 1;
    }
    proof {
        assert(all.take(attributes.len() as int) =~= all);
    }
}

impl Element {
    /// Appends the text of the element, which starts on a line indented by
    /// `indent`.
    pub fn write(&self, out: &mut String, indent: &str)
        ensures
            final(out)@ == old(out)@ + element_text(self.deep_view(), indent@),
        decreases self,
    {
        let ghost start = out@;
        out.append("<");
        out.append(self.name.as_str());
        push_attributes(out, &self.attributes);
        let ghost opened = out@;
        match &self.content {
            Content::Text(text) => {
                out.append(">");
                push_escaped_text(out, text.as_str());
                out.append("</");
                out.append(self.name.as_str());
                out.append(">");
                proof {
                    assert(out@ =~= start + element_text(self.deep_view(), indent@));
                }
            },
            Content::Children(children) => {
                if children.len() == 0 {
                    out.append(" />");
                    proof {
                        assert(out@ =~= start + element_text(self.deep_view(), indent@));
                    }
                } else {
                    let mut deeper = indent.to_string();
                    deeper.append("  ");
                    out.append(">");
                    let ghost all = Element::models(children@);
                    let ghost head = out@;
                    let mut i: usize = 0;
                    proof {
                        assert(all.take(0) =~= Seq::<ElementView>::empty());
                        assert(out@ =~= head + children_text(all.take(0), deeper@));
                    }
                    while i < children.len()
                        invariant
                            i <= children.len(),
                            self.content == Content::Children(*children),
                            all == Element::models(children@),
                            deeper@ == indent@ + "  "@,
                            out@ == head + children_text(all.take(i as int), deeper@),
                        decreases children.len() - i,
                    {
                        out.append("\n");
                        out.append(deeper.as_str());
                        proof {
                            assert(decreases_to!(self => self.content));
                            assert(decreases_to!(self.content => self.content->Children_0));
                            assert(decreases_to!(self.content->Children_0 => self.content->Children_0@));
                            assert(decreases_to!(self.content->Children_0@ => self.content->Children_0@[i as int]));
                        }
                        children[i].write(out, deeper.as_str());
                        proof {
                            let upto = all.take(i as int + 1);
                            assert(upto.drop_last() =~= all.take(i as int));
                            assert(upto.last() == children[i as int].model());
                            assert(out@ =~= head + children_text(upto, deeper@));
                        }
                        i += 1;
                    }
                    out.append("\n");
                    out.append(indent);
                    out.append("</");
                    out.append(self.name.as_str());
                    out.append(">");
                    proof {
                        assert(all.take(children.len() as int) =~= all);
                        assert(out@ =~= start + element_text(self.deep_view(), indent@));
                    }
                }
            },
        }
    }

    /// The text of a document whose root is this element.
    pub fn to_document(&self) -> (r: String)
        ensures
            r@ == document_text(self.deep_view()),
    {
        let mut out = "<?xml version=\"1.0\" encoding=\"UTF-8\"?>".to_string();
        out.append("\n");
        self.write(&mut out, "");
        proof {
            reveal_strlit("");
            assert(""@ =~= Seq::<char>::empty());
        }
        out
    }
}

} // verus!
