//! An XML element tree as plain values, and the namespace-blind child lookups
//! that the feed readers navigate with.
use vstd::prelude::*;

verus! {

/// One attribute of an element: its namespace ("" when unqualified), local name and value.
pub struct XmlAttribute {
    pub namespace: String,
    pub name: String,
    pub value: String,
}

/// An element: local name, namespace, attributes, the concatenation of its
/// direct text nodes, and its child elements in document order.
pub struct XmlElement {
    pub name: String,
    pub namespace: String,
    pub attributes: Vec<XmlAttribute>,
    pub text: String,
    pub children: Vec<XmlElement>,
}

/// The mathematical value of an element tree.
pub struct XmlNode {
    pub name: Seq<char>,
    pub namespace: Seq<char>,
    pub attributes: Seq<(Seq<char>, Seq<char>, Seq<char>)>,
    pub text: Seq<char>,
    pub children: Seq<XmlNode>,
}

pub open spec fn attribute_triple(a: XmlAttribute) -> (Seq<char>, Seq<char>, Seq<char>) {
    (a.namespace@, a.name@, a.value@)
}

pub open spec fn node_of(e: XmlElement) -> XmlNode
    decreases e,
{
    XmlNode {
        name: e.name@,
        namespace: e.namespace@,
        attributes: e.attributes@.map_values(|a: XmlAttribute| attribute_triple(a)),
        text: e.text@,
        children: nodes_of(e.children@),
    }
}

pub open spec fn nodes_of(s: Seq<XmlElement>) -> Seq<XmlNode>
    decreases s,
{
    if s.len() == 0 {
        Seq::empty()
    } else {
        proof {
            assert(decreases_to!(s => s.subrange(0, s.len() - 1)));
        }
        nodes_of(s.subrange(0, s.len() - 1)).push(node_of(s[s.len() - 1]))
    }
}

pub proof fn lemma_nodes_of(s: Seq<XmlElement>)
    ensures
        nodes_of(s).len() == s.len(),
        forall|i: int| 0 <= i < s.len() ==> #[trigger] nodes_of(s)[i] == node_of(s[i]),
    decreases s.len(),
{
    if s.len() > 0 {
        lemma_nodes_of(s.subrange(0, s.len() - 1));
    }
}

impl View for XmlElement {
    type V = XmlNode;

    open spec fn view(&self) -> XmlNode {
        node_of(*self)
    }
}

/// The predicate "this element has local name `name`".
pub open spec fn has_name(name: Seq<char>) -> spec_fn(XmlElement) -> bool {
    |c: XmlElement| c.name@ == name
}

/// The first element of `s` whose local name is `name`, namespaces ignored.
pub open spec fn first_named(s: Seq<XmlElement>, name: Seq<char>) -> Option<XmlElement>
    decreases s.len(),
{
    if s.len() == 0 {
        None
    } else if s[0].name@ == name {
        Some(s[0])
    } else {
        first_named(s.drop_first(), name)
    }
}

/// All elements of `s` whose local name is `name`, in order.
pub open spec fn all_named(s: Seq<XmlElement>, name: Seq<char>) -> Seq<XmlElement> {
    s.filter(has_name(name))
}

/// The first element of `s` with local name `name` and namespace `ns`.
pub open spec fn first_named_in(s: Seq<XmlElement>, name: Seq<char>, ns: Seq<char>) -> Option<XmlElement>
    decreases s.len(),
{
    if s.len() == 0 {
        None
    } else if s[0].name@ == name && s[0].namespace@ == ns {
        Some(s[0])
    } else {
        first_named_in(s.drop_first(), name, ns)
    }
}

/// The value of the first unqualified attribute called `name`.
pub open spec fn attr_in(attrs: Seq<XmlAttribute>, name: Seq<char>) -> Option<Seq<char>>
    decreases attrs.len(),
{
    if attrs.len() == 0 {
        None
    } else if attrs[0].namespace@.len() == 0 && attrs[0].name@ == name {
        Some(attrs[0].value@)
    } else {
        attr_in(attrs.drop_first(), name)
    }
}

/// The first element of `s` whose `Type` attribute is `type_value`.
pub open spec fn first_of_type(s: Seq<XmlElement>, type_value: Seq<char>) -> Option<XmlElement>
    decreases s.len(),
{
    if s.len() == 0 {
        None
    } else if attr_in(s[0].attributes@, "Type"@) == Some(type_value) {
        Some(s[0])
    } else {
        first_of_type(s.drop_first(), type_value)
    }
}


proof fn lemma_first_named_is_head_of_all(s: Seq<XmlElement>, name: Seq<char>)
    ensures
        first_named(s, name) == (if all_named(s, name).len() > 0 {
            Some(all_named(s, name)[0])
        } else {
            None
        }),
    decreases s.len(),
{
    if s.len() > 0 {
        let t = s.drop_first();
        assert(s =~= seq![s[0]] + t);
        t.lemma_filter_prepend(s[0], has_name(name));
        lemma_first_named_is_head_of_all(t, name);
    } else {
        reveal_with_fuel(Seq::filter, 1);
    }
}

/// The single-child lookup agrees with the list lookup: `get_child_ignore_ns`
/// finds exactly the first of the children that `get_children_ignore_ns`
/// returns, and finds nothing exactly when that list is empty.
pub proof fn law_child_is_first_of_children(e: XmlElement, name: Seq<char>)
    ensures
        e.child_named(name) == (if e.children_named(name).len() > 0 {
            Some(e.children_named(name)[0])
        } else {
            None
        }),
{
    lemma_first_named_is_head_of_all(e.children@, name);
}

/// Every element that the list lookup returns is a child carrying that name,
/// and every child carrying that name is returned.
pub proof fn law_children_named_are_exactly_the_named_children(e: XmlElement, name: Seq<char>)
    ensures
        forall|k: int|
            0 <= k < e.children_named(name).len() ==> (#[trigger] e.children_named(name)[k]).name@
                == name && e.children@.contains(e.children_named(name)[k]),
        forall|i: int|
            0 <= i < e.children@.len() && (#[trigger] e.children@[i]).name@ == name
                ==> e.children_named(name).contains(e.children@[i]),
{
    broadcast use vstd::seq_lib::group_filter_ensures;
    assert forall|k: int| 0 <= k < e.children_named(name).len() implies
        (#[trigger] e.children_named(name)[k]).name@ == name && e.children@.contains(e.children_named(name)[k]) by {
        e.children@.lemma_filter_pred(has_name(name), k);
        lemma_filter_member(e.children@, has_name(name), k);
    }
    assert forall|i: int| 0 <= i < e.children@.len() && (#[trigger] e.children@[i]).name@ == name
        implies e.children_named(name).contains(e.children@[i]) by {
        e.children@.lemma_filter_contains(has_name(name), i);
    }
}

proof fn lemma_filter_member(s: Seq<XmlElement>, p: spec_fn(XmlElement) -> bool, k: int)
    requires
        0 <= k < s.filter(p).len(),
    ensures
        s.contains(s.filter(p)[k]),
    decreases s.len(),
{
    reveal_with_fuel(Seq::filter, 1);
    if s.len() > 0 {
        let sub = s.drop_last().filter(p);
        if k < sub.len() {
            lemma_filter_member(s.drop_last(), p, k);
            let j = choose|j: int| 0 <= j < s.drop_last().len() && s.drop_last()[j] == sub[k];
            assert(s[j] == s.filter(p)[k]);
        } else {
            assert(s[s.len() - 1] == s.filter(p)[k]);
        }
    }
}

/// Two element lists with the same values, element by element.
pub open spec fn same_views(s1: Seq<XmlElement>, s2: Seq<XmlElement>) -> bool {
    &&& s1.len() == s2.len()
    &&& forall|i: int| 0 <= i < s1.len() ==> (#[trigger] s1[i])@ == s2[i]@
}

/// An optional element's value.
pub open spec fn opt_node(o: Option<XmlElement>) -> Option<XmlNode> {
    match o {
        Some(e) => Some(e@),
        None => None,
    }
}

pub proof fn lemma_view_parts(a: XmlElement, b: XmlElement)
    requires
        a@ == b@,
    ensures
        a.name@ == b.name@,
        a.namespace@ == b.namespace@,
        a.text@ == b.text@,
        a.attributes@.map_values(|x: XmlAttribute| attribute_triple(x)) == b.attributes@.map_values(
            |x: XmlAttribute| attribute_triple(x),
        ),
        same_views(a.children@, b.children@),
{
    lemma_nodes_of(a.children@);
    lemma_nodes_of(b.children@);
    assert(nodes_of(a.children@) == nodes_of(b.children@));
    assert forall|i: int| 0 <= i < a.children@.len() implies (#[trigger] a.children@[i])@ == b.children@[i]@ by {
        assert(nodes_of(a.children@)[i] == nodes_of(b.children@)[i]);
    }
}

proof fn lemma_view_attr_in(s1: Seq<XmlAttribute>, s2: Seq<XmlAttribute>, name: Seq<char>)
    requires
        s1.map_values(|x: XmlAttribute| attribute_triple(x)) == s2.map_values(|x: XmlAttribute| attribute_triple(x)),
    ensures
        attr_in(s1, name) == attr_in(s2, name),
    decreases s1.len(),
{
    let m1 = s1.map_values(|x: XmlAttribute| attribute_triple(x));
    let m2 = s2.map_values(|x: XmlAttribute| attribute_triple(x));
    assert(m1.len() == s1.len() && m2.len() == s2.len());
    if s1.len() > 0 {
        assert(m1[0] == m2[0]);
        assert(s1.drop_first().map_values(|x: XmlAttribute| attribute_triple(x)) =~= m1.drop_first());
        assert(s2.drop_first().map_values(|x: XmlAttribute| attribute_triple(x)) =~= m2.drop_first());
        lemma_view_attr_in(s1.drop_first(), s2.drop_first(), name);
    }
}

proof fn lemma_view_first_named(s1: Seq<XmlElement>, s2: Seq<XmlElement>, name: Seq<char>)
    requires
        same_views(s1, s2),
    ensures
        opt_node(first_named(s1, name)) == opt_node(first_named(s2, name)),
    decreases s1.len(),
{
    if s1.len() > 0 {
        lemma_view_parts(s1[0], s2[0]);
        let t1 = s1.drop_first();
        let t2 = s2.drop_first();
        assert forall|i: int| 0 <= i < t1.len() implies (#[trigger] t1[i])@ == t2[i]@ by {
            assert(t1[i] == s1[i + 1] && t2[i] == s2[i + 1]);
        }
        lemma_view_first_named(t1, t2, name);
    }
}

proof fn lemma_view_all_named(s1: Seq<XmlElement>, s2: Seq<XmlElement>, name: Seq<char>)
    requires
        same_views(s1, s2),
    ensures
        same_views(all_named(s1, name), all_named(s2, name)),
    decreases s1.len(),
{
    reveal_with_fuel(Seq::filter, 1);
    if s1.len() > 0 {
        let t1 = s1.drop_last();
        let t2 = s2.drop_last();
        assert forall|i: int| 0 <= i < t1.len() implies (#[trigger] t1[i])@ == t2[i]@ by {
            assert(t1[i] == s1[i] && t2[i] == s2[i]);
        }
        lemma_view_all_named(t1, t2, name);
        lemma_view_parts(s1.last(), s2.last());
        let f1 = all_named(s1, name);
        let f2 = all_named(s2, name);
        let g1 = all_named(t1, name);
        let g2 = all_named(t2, name);
        if s1.last().name@ == name {
            assert(f1 == g1.push(s1.last()));
            assert(f2 == g2.push(s2.last()));
            assert forall|i: int| 0 <= i < f1.len() implies (#[trigger] f1[i])@ == f2[i]@ by {
                if i < g1.len() {
                    assert(f1[i] == g1[i] && f2[i] == g2[i]);
                }
            }
        } else {
            assert(f1 == g1 && f2 == g2);
        }
    } else {
        assert(s2.len() == 0);
    }
}

/// Element lists with the same values have, for each name and namespace,
/// first elements with the same value.
pub proof fn lemma_view_first_named_in(s1: Seq<XmlElement>, s2: Seq<XmlElement>, name: Seq<char>, ns: Seq<char>)
    requires
        same_views(s1, s2),
    ensures
        opt_node(first_named_in(s1, name, ns)) == opt_node(first_named_in(s2, name, ns)),
    decreases s1.len(),
{
    if s1.len() > 0 {
        lemma_view_parts(s1[0], s2[0]);
        let t1 = s1.drop_first();
        let t2 = s2.drop_first();
        assert forall|i: int| 0 <= i < t1.len() implies (#[trigger] t1[i])@ == t2[i]@ by {
            assert(t1[i] == s1[i + 1] && t2[i] == s2[i + 1]);
        }
        lemma_view_first_named_in(t1, t2, name, ns);
    }
}

/// Elements with the same value have the same name, namespace, text and
/// attribute values, and the same children by each name.
pub proof fn lemma_view_determines_lookups(a: XmlElement, b: XmlElement, name: Seq<char>)
    requires
        a@ == b@,
    ensures
        a.name@ == b.name@,
        a.namespace@ == b.namespace@,
        a.text@ == b.text@,
        a.attr_value(name) == b.attr_value(name),
        opt_node(a.child_named(name)) == opt_node(b.child_named(name)),
        same_views(a.children_named(name), b.children_named(name)),
{
    lemma_view_parts(a, b);
    lemma_view_attr_in(a.attributes@, b.attributes@, name);
    lemma_view_first_named(a.children@, b.children@, name);
    lemma_view_all_named(a.children@, b.children@, name);
}

/// Elements with the same value have the same child, child text,
/// attribute and children by each name.
pub proof fn lemma_view_child(a: XmlElement, b: XmlElement, name: Seq<char>)
    requires
        a@ == b@,
    ensures
        a.child_named(name) is Some <==> b.child_named(name) is Some,
        a.child_named(name) is Some ==> a.child_named(name).unwrap()@ == b.child_named(name).unwrap()@,
        child_text_of(a, name) == child_text_of(b, name),
        a.attr_value(name) == b.attr_value(name),
        same_views(a.children_named(name), b.children_named(name)),
{
    lemma_view_determines_lookups(a, b, name);
    if a.child_named(name) is Some {
        assert(opt_node(a.child_named(name)) == Some(a.child_named(name).unwrap()@));
    }
}

impl XmlElement {
    pub open spec fn child_named(self, name: Seq<char>) -> Option<XmlElement> {
        first_named(self.children@, name)
    }

    pub open spec fn children_named(self, name: Seq<char>) -> Seq<XmlElement> {
        all_named(self.children@, name)
    }

    pub open spec fn attr_value(self, name: Seq<char>) -> Option<Seq<char>> {
        attr_in(self.attributes@, name)
    }

    /// The first child element whose local name is `child_name`, whatever its namespace.
    pub fn get_child_ignore_ns(&self, child_name: &str) -> (r: Option<&XmlElement>)
        ensures
            match r {
                Some(c) => self.child_named(child_name@) == Some(*c),
                None => self.child_named(child_name@) is None,
            },
    {
        let n = self.children.len();
        let mut i: usize = 0;
        assert(self.children@.skip(0) =~= self.children@);
        while i < n
            invariant
                n == self.children@.len(),
                i <= n,
                first_named(self.children@, child_name@) == first_named(
                    self.children@.skip(i as int),
                    child_name@,
                ),
            decreases n - i,
        {
            let c = &self.children[i];
            assert(self.children@.skip(i as int)[0] == self.children@[i as int]);
            if str_equal(c.name.as_str(), child_name) {
                return Some(c);
            }
            assert(self.children@.skip(i as int).drop_first() =~= self.children@.skip(i + 1));
            i = i + 1;
        }
        assert(self.children@.skip(i as int).len() == 0);
        None
    }

    /// Every child element whose local name is `child_name`, in document order.
    pub fn get_children_ignore_ns(&self, child_name: &str) -> (r: Vec<&XmlElement>)
        ensures
            r@.len() == self.children_named(child_name@).len(),
            forall|k: int| 0 <= k < r@.len() ==> *r@[k] == #[trigger] self.children_named(child_name@)[k],
    {
        let n = self.children.len();
        let mut out: Vec<&XmlElement> = Vec::new();
        let mut i: usize = 0;
        let ghost pred = has_name(child_name@);
        while i < n
            invariant
                n == self.children@.len(),
                i <= n,
                pred == has_name(child_name@),
                out@.len() == self.children@.take(i as int).filter(pred).len(),
                forall|k: int| 0 <= k < out@.len() ==> *out@[k] == #[trigger] self.children@.take(i as int).filter(pred)[k],
            decreases n - i,
        {
            let c = &self.children[i];
            proof {
                reveal_with_fuel(Seq::filter, 1);
                assert(self.children@.take(i + 1).drop_last() =~= self.children@.take(i as int));
                assert(self.children@.take(i + 1).last() == self.children@[i as int]);
            }
            if str_equal(c.name.as_str(), child_name) {
                out.push(c);
            }
            i = i + 1;
        }
        assert(self.children@.take(n as int) =~= self.children@);
        out
    }

    /// The first child element with local name `child_name` in namespace `ns`.
    pub fn get_child(&self, child_name: &str, ns: &str) -> (r: Option<&XmlElement>)
        ensures
            match r {
                Some(c) => first_named_in(self.children@, child_name@, ns@) == Some(*c),
                None => first_named_in(self.children@, child_name@, ns@) is None,
            },
    {
        let n = self.children.len();
        let mut i: usize = 0;
        assert(self.children@.skip(0) =~= self.children@);
        while i < n
            invariant
                n == self.children@.len(),
                i <= n,
                first_named_in(self.children@, child_name@, ns@) == first_named_in(
                    self.children@.skip(i as int),
                    child_name@,
                    ns@,
                ),
            decreases n - i,
        {
            let c = &self.children[i];
            assert(self.children@.skip(i as int)[0] == self.children@[i as int]);
            if str_equal(c.name.as_str(), child_name) && str_equal(c.namespace.as_str(), ns) {
                return Some(c);
            }
            assert(self.children@.skip(i as int).drop_first() =~= self.children@.skip(i + 1));
            i = i + 1;
        }
        assert(self.children@.skip(i as int).len() == 0);
        None
    }

    /// The value of the unqualified attribute `name`, if the element has one.
    pub fn attr(&self, name: &str) -> (r: Option<&str>)
        ensures
            match r {
                Some(v) => self.attr_value(name@) == Some(v@),
                None => self.attr_value(name@) is None,
            },
    {
        let n = self.attributes.len();
        let mut i: usize = 0;
        assert(self.attributes@.skip(0) =~= self.attributes@);
        while i < n
            invariant
                n == self.attributes@.len(),
                i <= n,
                attr_in(self.attributes@, name@) == attr_in(self.attributes@.skip(i as int), name@),
            decreases n - i,
        {
            let a = &self.attributes[i];
            assert(self.attributes@.skip(i as int)[0] == self.attributes@[i as int]);
            if a.namespace.as_str().is_empty() && str_equal(a.name.as_str(), name) {
                return Some(a.value.as_str());
            }
            assert(self.attributes@.skip(i as int).drop_first() =~= self.attributes@.skip(i + 1));
            i = i + 1;
        }
        assert(self.attributes@.skip(i as int).len() == 0);
        None
    }

    /// The first child element whose `Type` attribute equals `type_value`.
    pub fn get_child_with_type(&self, type_value: &str) -> (r: Option<&XmlElement>)
        ensures
            match r {
                Some(c) => first_of_type(self.children@, type_value@) == Some(*c),
                None => first_of_type(self.children@, type_value@) is None,
            },
    {
        let n = self.children.len();
        let mut i: usize = 0;
        assert(self.children@.skip(0) =~= self.children@);
        while i < n
            invariant
                n == self.children@.len(),
                i <= n,
                first_of_type(self.children@, type_value@) == first_of_type(
                    self.children@.skip(i as int),
                    type_value@,
                ),
            decreases n - i,
        {
            let c = &self.children[i];
            assert(self.children@.skip(i as int)[0] == self.children@[i as int]);
            let t = c.attr("Type");
            let hit = match t {
                Some(v) => str_equal(v, type_value),
                None => false,
            };
            proof {
                reveal_strlit("Type");
            }
            if hit {
                return Some(c);
            }
            assert(self.children@.skip(i as int).drop_first() =~= self.children@.skip(i + 1));
            i = i + 1;
        }
        assert(self.children@.skip(i as int).len() == 0);
        None
    }

    /// The text of the element (its direct text nodes, concatenated), as an owned string.
    pub fn text(&self) -> (r: String)
        ensures
            r@ == self.text@,
    {
        self.text.clone()
    }
}


/// The characters of an optional string.
pub open spec fn opt_view(o: Option<String>) -> Option<Seq<char>> {
    match o {
        Some(s) => Some(s@),
        None => None,
    }
}

/// The text of the first child called `name`, if there is one.
pub open spec fn child_text_of(e: XmlElement, name: Seq<char>) -> Option<Seq<char>> {
    match e.child_named(name) {
        Some(c) => Some(c.text@),
        None => None,
    }
}

impl XmlElement {
    /// The value of the unqualified attribute `name`, as an owned string.
    pub fn attr_string(&self, name: &str) -> (r: Option<String>)
        ensures
            opt_view(r) == self.attr_value(name@),
    {
        match self.attr(name) {
            Some(v) => Some(v.to_owned()),
            None => None,
        }
    }

    /// The text of the first child called `name`, if there is one.
    pub fn child_text(&self, name: &str) -> (r: Option<String>)
        ensures
            opt_view(r) == child_text_of(*self, name@),
    {
        match self.get_child_ignore_ns(name) {
            Some(c) => Some(c.text()),
            None => None,
        }
    }
}

/// Whether two strings hold the same characters.
pub fn str_equal(a: &str, b: &str) -> (r: bool)
    ensures
        r == (a@ == b@),
{
    let a_owned = a.to_owned();
    let b_owned = b.to_owned();
    a_owned == b_owned
}

} // verus!
