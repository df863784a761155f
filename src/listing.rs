//! Decoding of one page of a container listing.
use vstd::prelude::*;
use crate::error::AzureError;
use vstd::string::StringSliceAdditionalSpecFns;
use vstd::utf8::encode_utf8;

verus! {

#[verifier::external_type_specification]
#[verifier::external_body]
pub struct ExElement(xml::Element);

#[verifier::external_type_specification]
#[verifier::external_body]
pub struct ExBuilderError(xml::BuilderError);

/// An XML element as plain values: its name, its character data (that of its
/// descendants included) and its child elements in document order.
#[derive(Debug)]
pub struct XmlNode {
    pub name: String,
    pub text: String,
    pub children: Vec<XmlNode>,
}

/// The tree that the XML parser builds from a document, or `None` where it
/// rejects the document.
pub uninterp spec fn parsed_tree(body: Seq<char>) -> Option<XmlNode>;

/// Relies on `xml::Element`'s public fields and on `xml::Element::content_str`:
/// the element's name, its character data, and its element children in order.
#[verifier::external_body]
fn tree_of(e: &xml::Element) -> (r: XmlNode) {
    let mut children = Vec::new();
    for c in &e.children {
        if let xml::Xml::ElementNode(child) = c {
            children.push(tree_of(child));
        }
    }
    XmlNode { name: e.name.clone(), text: e.content_str(), children }
}

/// Relies on `<xml::Element as FromStr>::from_str`: the result depends on the
/// document alone. Its CDATA scanner counts a run of `]` in a `u8`, so a run of
/// 256 or more is left out.
#[verifier::external_body]
fn parse_tree(body: &str) -> (r: Result<XmlNode, xml::BuilderError>)
    requires
        !long_bracket_run(body.spec_bytes()),
    ensures
        r is Ok <==> parsed_tree(body@) is Some,
        r matches Ok(t) ==> parsed_tree(body@) == Some(t),
{
    body.parse::<xml::Element>().map(|e| tree_of(&e))
}

pub const BRACKET: u8 = 0x5D;
pub const RUN_LIMIT: usize = 256;

/// The bytes from `j` on are a run of `RUN_LIMIT` closing brackets.
pub open spec fn bracket_window(b: Seq<u8>, j: int) -> bool {
    forall|k: int| j <= k < j + RUN_LIMIT ==> #[trigger] b[k] == BRACKET
}

/// Somewhere the text holds `RUN_LIMIT` closing brackets in a row.
pub open spec fn long_bracket_run(b: Seq<u8>) -> bool {
    exists|j: int| 0 <= j && j + RUN_LIMIT <= b.len() && #[trigger] bracket_window(b, j)
}

/// Whether `body` holds `RUN_LIMIT` closing brackets in a row.
pub fn has_long_bracket_run(body: &str) -> (r: bool)
    ensures
        r == long_bracket_run(body.spec_bytes()),
{
    let b = body.as_bytes();
    let ghost bs = body.spec_bytes();
    let mut run: usize = 0;
    let mut i: usize = 0;
    while i < b.len()
        invariant
            b@ == bs,
            bs == body.spec_bytes(),
            i <= bs.len(),
            run <= i,
            run < RUN_LIMIT,
            forall|k: int| i - run <= k < i ==> bs[k] == BRACKET,
            i - run > 0 ==> bs[i - run - 1] != BRACKET,
            forall|j: int| 0 <= j && j + RUN_LIMIT <= i ==> !bracket_window(bs, j),
        decreases bs.len() - i,
    {
        if b[i] == BRACKET {
            if run + 1 == RUN_LIMIT {
                assert forall|k: int| i + 1 - RUN_LIMIT <= k < i + 1 implies #[trigger] bs[k] == BRACKET by {
                    if k < i {
                        assert(i - run <= k);
                    }
                }
                assert(bracket_window(bs, i + 1 - RUN_LIMIT));
                assert(long_bracket_run(bs));
                assert(bs == body.spec_bytes());
                return true;
            }
            run = run + 1;
        } else {
            run = 0;
        }
        i = i + 1;
        assert forall|j: int| 0 <= j && j + RUN_LIMIT <= i implies !bracket_window(bs, j) by {
            if j + RUN_LIMIT == i {
                let k = i - run - 1;
                assert(bs[k] != BRACKET);
            }
        }
    }
    false
}

/// A failure of decoding, as a plain value.
pub enum DecodeFailure {
    XmlParse,
    PathNotFound(Seq<char>),
    MultipleNode(Seq<char>),
}

/// Whether `e` is the failure `d`.
pub open spec fn failure_is(e: AzureError, d: DecodeFailure) -> bool {
    match d {
        DecodeFailure::XmlParse => e is XmlParse,
        DecodeFailure::PathNotFound(n) => e matches AzureError::PathNotFound(m) && m@ == n,
        DecodeFailure::MultipleNode(n) => e matches AzureError::MultipleNode(m) && m@ == n,
    }
}

/// The nodes of `s` named `n`, in order.
pub open spec fn named(s: Seq<XmlNode>, n: Seq<char>) -> Seq<XmlNode>
    decreases s.len(),
{
    if s.len() == 0 {
        Seq::empty()
    } else if s.last().name@ == n {
        named(s.drop_last(), n).push(s.last())
    } else {
        named(s.drop_last(), n)
    }
}

/// The one node of `s`, which must hold exactly one.
pub open spec fn single(s: Seq<XmlNode>, n: Seq<char>) -> Result<XmlNode, DecodeFailure> {
    if s.len() == 0 {
        Err(DecodeFailure::PathNotFound(n))
    } else if s.len() > 1 {
        Err(DecodeFailure::MultipleNode(n))
    } else {
        Ok(s[0])
    }
}

/// The name of a `Container` node: the text of its one `Name` child.
pub open spec fn container_name(c: XmlNode) -> Result<Seq<char>, DecodeFailure> {
    match single(named(c.children@, NAME@), NAME@) {
        Ok(n) => Ok(n.text@),
        Err(d) => Err(d),
    }
}

/// The names of the `Container` nodes in order, or the first node's failure.
pub open spec fn container_names(cs: Seq<XmlNode>) -> Result<Seq<Seq<char>>, DecodeFailure>
    decreases cs.len(),
{
    if cs.len() == 0 {
        Ok(Seq::empty())
    } else {
        match container_names(cs.drop_last()) {
            Err(d) => Err(d),
            Ok(ns) => match container_name(cs.last()) {
                Err(d) => Err(d),
                Ok(x) => Ok(ns.push(x)),
            },
        }
    }
}

/// The raw marker: the text of the `NextMarker` node, which may occur at most once.
pub open spec fn raw_marker(root: XmlNode) -> Result<Option<Seq<char>>, DecodeFailure> {
    let ms = named(root.children@, NEXT_MARKER@);
    if ms.len() == 0 {
        Ok(None)
    } else if ms.len() > 1 {
        Err(DecodeFailure::MultipleNode(NEXT_MARKER@))
    } else {
        Ok(Some(ms[0].text@))
    }
}

/// The page that a listing tree holds: the container names and the marker.
pub open spec fn tree_page(root: XmlNode) -> Result<(Seq<Seq<char>>, Option<Seq<char>>), DecodeFailure> {
    match single(named(root.children@, CONTAINERS@), CONTAINERS@) {
        Err(d) => Err(d),
        Ok(cs) => match container_names(named(cs.children@, CONTAINER@)) {
            Err(d) => Err(d),
            Ok(names) => match raw_marker(root) {
                Err(d) => Err(d),
                Ok(m) => Ok((names, normalized_marker(m))),
            },
        },
    }
}

/// The page that a listing body holds.
pub open spec fn body_page(body: Seq<char>) -> Result<(Seq<Seq<char>>, Option<Seq<char>>), DecodeFailure> {
    if long_bracket_run(encode_utf8(body)) {
        Err(DecodeFailure::XmlParse)
    } else {
        match parsed_tree(body) {
            None => Err(DecodeFailure::XmlParse),
            Some(root) => tree_page(root),
        }
    }
}

/// A listing whose `NextMarker` node is empty holds the same page as one
/// without that node: same names in the same order, and no marker.
pub proof fn lemma_empty_marker_node(a: XmlNode, b: XmlNode)
    requires
        single(named(a.children@, CONTAINERS@), CONTAINERS@) == single(
            named(b.children@, CONTAINERS@),
            CONTAINERS@,
        ),
        raw_marker(a) == Ok::<Option<Seq<char>>, DecodeFailure>(Some(Seq::<char>::empty())),
        raw_marker(b) == Ok::<Option<Seq<char>>, DecodeFailure>(None),
    ensures
        tree_page(a) == tree_page(b),
        tree_page(a) matches Ok(p) ==> p.1 is None,
{
}

/// Whether a decoded page, or failure, is `p`.
pub open spec fn page_is(r: Result<IncompleteVector<Container>, AzureError>, p: Result<(Seq<Seq<char>>, Option<Seq<char>>), DecodeFailure>) -> bool {
    match p {
        Ok((names, m)) => r matches Ok(page) && page.names() == names && page.marker_view() == m,
        Err(d) => r matches Err(e) && failure_is(e, d),
    }
}

pub const NAME: &'static str = "Name";
pub const CONTAINERS: &'static str = "Containers";
pub const CONTAINER: &'static str = "Container";
pub const NEXT_MARKER: &'static str = "NextMarker";

/// The positions of the children of `node` named `name`, in order.
pub fn positions_named(node: &XmlNode, name: &str) -> (r: Vec<usize>)
    ensures
        r@.len() == named(node.children@, name@).len(),
        forall|k: int| 0 <= k < r@.len() ==> #[trigger] r@[k] < node.children@.len() && node.children@[r@[k] as int] == named(node.children@, name@)[k],
{
    let key = String::from_str(name);
    let ghost cs = node.children@;
    let mut r: Vec<usize> = Vec::new();
    let mut i: usize = 0;
    while i < node.children.len()
        invariant
            i <= cs.len(),
            cs == node.children@,
            key@ == name@,
            r@.len() == named(cs.subrange(0, i as int), name@).len(),
            forall|k: int| 0 <= k < r@.len() ==> #[trigger] r@[k] < i && cs[r@[k] as int] == named(cs.subrange(0, i as int), name@)[k],
        decreases cs.len() - i,
    {
        assert(cs.subrange(0, i + 1).drop_last() =~= cs.subrange(0, i as int));
        assert(cs.subrange(0, i + 1).last() == cs[i as int]);
        let ghost prev = named(cs.subrange(0, i as int), name@);
        let ghost old_r = r@;
        if node.children[i].name == key {
            r.push(i);
            assert(named(cs.subrange(0, i + 1), name@) == prev.push(cs[i as int]));
            assert forall|k: int| 0 <= k < r@.len() implies #[trigger] r@[k] < i + 1 && cs[r@[k] as int] == named(
                cs.subrange(0, i + 1),
                name@,
            )[k] by {
                if k < old_r.len() {
                    assert(r@[k] == old_r[k]);
                }
            }
        } else {
            assert(named(cs.subrange(0, i + 1), name@) == prev);
        }
        i = i + 1;
    }
    assert(cs.subrange(0, cs.len() as int) =~= cs);
    r
}

/// The position of the one child of `node` named `name`.
pub fn single_child(node: &XmlNode, name: &str) -> (r: Result<usize, AzureError>)
    ensures
        match single(named(node.children@, name@), name@) {
            Ok(c) => r matches Ok(i) && i < node.children@.len() && node.children@[i as int] == c,
            Err(d) => r matches Err(e) && failure_is(e, d),
        },
{
    let ps = positions_named(node, name);
    if ps.len() == 0 {
        Err(AzureError::PathNotFound(String::from_str(name)))
    } else if ps.len() > 1 {
        Err(AzureError::MultipleNode(String::from_str(name)))
    } else {
        Ok(ps[0])
    }
}

/// A container as listed by the service.
#[derive(Clone, Debug)]
pub struct Container {
    pub name: String,
}

/// One page of an enumeration: items in server order, and the marker to resume at.
#[derive(Clone, Debug)]
pub struct IncompleteVector<T> {
    pub next_marker: Option<String>,
    pub vector: Vec<T>,
}

impl<T> IncompleteVector<T> {
    pub open spec fn marker_view(&self) -> Option<Seq<char>> {
        match self.next_marker {
            Some(m) => Some(m@),
            None => None,
        }
    }

    pub fn new(next_marker: Option<String>, vector: Vec<T>) -> (r: IncompleteVector<T>)
        ensures
            r.next_marker == next_marker,
            r.vector@ == vector@,
    {
        IncompleteVector { next_marker, vector }
    }

    /// Whether the enumeration ends with this page.
    pub fn is_complete(&self) -> (r: bool)
        ensures
            r == (self.next_marker is None),
    {
        self.next_marker.is_none()
    }
}

impl IncompleteVector<Container> {
    /// The names of the listed containers, in order.
    pub open spec fn names(&self) -> Seq<Seq<char>> {
        self.vector@.map_values(|c: Container| c.name@)
    }
}

/// A marker as the next request may carry it: an empty one means "no next page".
pub open spec fn normalized_marker(raw: Option<Seq<char>>) -> Option<Seq<char>> {
    match raw {
        Some(m) => if m.len() == 0 {
            None
        } else {
            Some(m)
        },
        None => None,
    }
}

/// An empty marker field reads as an absent one; any other marker is kept.
pub proof fn lemma_marker_normalization(m: Seq<char>)
    ensures
        normalized_marker(Some(Seq::<char>::empty())) == normalized_marker(None),
        normalized_marker(None) is None,
        m.len() > 0 ==> normalized_marker(Some(m)) == Some(m),
{
}

/// Drops an empty marker; any other marker is kept unchanged.
pub fn normalize_marker(raw: Option<String>) -> (r: Option<String>)
    ensures
        match r {
            Some(m) => normalized_marker(
                match raw {
                    Some(s) => Some(s@),
                    None => None,
                },
            ) == Some(m@),
            None => normalized_marker(
                match raw {
                    Some(s) => Some(s@),
                    None => None,
                },
            ) is None,
        },
{
    match raw {
        Some(m) => if m.as_str().unicode_len() == 0 {
            None
        } else {
            Some(m)
        },
        None => None,
    }
}

/// Builds a page from decoded items and the raw marker field.
pub fn page_from_parts<T>(items: Vec<T>, raw_marker: Option<String>) -> (r: IncompleteVector<T>)
    ensures
        r.vector@ == items@,
        r.marker_view() == normalized_marker(
            match raw_marker {
                Some(s) => Some(s@),
                None => None,
            },
        ),
{
    let next_marker = normalize_marker(raw_marker);
    IncompleteVector { next_marker, vector: items }
}

proof fn lemma_names_fail(s: Seq<XmlNode>, i: int, n: int)
    requires
        0 <= i < n <= s.len(),
        container_names(s.subrange(0, i)) is Ok,
        container_name(s[i]) is Err,
    ensures
        container_names(s.subrange(0, n)) == Err::<Seq<Seq<char>>, DecodeFailure>(
            container_name(s[i])->Err_0,
        ),
    decreases n - i,
{
    assert(s.subrange(0, n).drop_last() =~= s.subrange(0, n - 1));
    assert(s.subrange(0, n).last() == s[n - 1]);
    if n - 1 > i {
        lemma_names_fail(s, i, n - 1);
    }
}

/// Reads one `Container` node: its `Name` child must occur exactly once.
pub fn container_from_node(c: &XmlNode) -> (r: Result<Container, AzureError>)
    ensures
        match container_name(*c) {
            Ok(n) => r matches Ok(x) && x.name@ == n,
            Err(d) => r matches Err(e) && failure_is(e, d),
        },
{
    let i = single_child(c, NAME)?;
    Ok(Container { name: c.children[i].text.clone() })
}

/// Reads the page held by a listing tree: the `Containers` node must occur
/// once and may hold any number of `Container` nodes, each read in order; a
/// `NextMarker` node may occur once, and an empty marker means none.
pub fn page_from_tree(root: &XmlNode) -> (r: Result<IncompleteVector<Container>, AzureError>)
    ensures
        page_is(r, tree_page(*root)),
{
    let ci = single_child(root, CONTAINERS)?;
    let cs = &root.children[ci];
    let ps = positions_named(cs, CONTAINER);
    let ghost nodes = named(cs.children@, CONTAINER@);
    assert(single(named(root.children@, CONTAINERS@), CONTAINERS@) == Ok::<XmlNode, DecodeFailure>(*cs));
    let mut items: Vec<Container> = Vec::new();
    let mut i: usize = 0;
    assert(nodes.subrange(0, 0) =~= Seq::<XmlNode>::empty());
    assert(items@.map_values(|c: Container| c.name@) =~= Seq::<Seq<char>>::empty());
    while i < ps.len()
        invariant
            i <= ps@.len(),
            single(named(root.children@, CONTAINERS@), CONTAINERS@) == Ok::<XmlNode, DecodeFailure>(*cs),
            nodes == named(cs.children@, CONTAINER@),
            ps@.len() == nodes.len(),
            forall|k: int| 0 <= k < ps@.len() ==> #[trigger] ps@[k] < cs.children@.len() && cs.children@[ps@[k] as int] == nodes[k],
            container_names(nodes.subrange(0, i as int)) == Ok::<Seq<Seq<char>>, DecodeFailure>(
                items@.map_values(|c: Container| c.name@),
            ),
        decreases ps@.len() - i,
    {
        assert(nodes.subrange(0, i + 1).drop_last() =~= nodes.subrange(0, i as int));
        assert(nodes.subrange(0, i + 1).last() == nodes[i as int]);
        let ghost node = nodes[i as int];
        assert(cs.children@[ps@[i as int] as int] == node);
        let c = match container_from_node(&cs.children[ps[i]]) {
            Ok(c) => c,
            Err(e) => {
                proof {
                    assert(container_name(node) is Err);
                    assert(failure_is(e, container_name(node)->Err_0));
                    lemma_names_fail(nodes, i as int, nodes.len() as int);
                    assert(nodes.subrange(0, nodes.len() as int) =~= nodes);
                }
                return Err(e);
            },
        };
        let ghost prev = items@.map_values(|c: Container| c.name@);
        items.push(c);
        assert(items@.map_values(|c: Container| c.name@) =~= prev.push(c.name@));
        i = i + 1;
    }
    assert(nodes.subrange(0, nodes.len() as int) =~= nodes);
    let mi = positions_named(root, NEXT_MARKER);
    let raw = if mi.len() == 0 {
        None
    } else if mi.len() > 1 {
        return Err(AzureError::MultipleNode(String::from_str(NEXT_MARKER)));
    } else {
        Some(root.children[mi[0]].text.clone())
    };
    Ok(page_from_parts(items, raw))
}

/// Decodes the body of a listing; a body that the parser rejects, or that it
/// cannot be handed, is an XML failure.
pub fn incomplete_vector_from_response(body: &str) -> (r: Result<IncompleteVector<Container>, AzureError>)
    ensures
        page_is(r, body_page(body@)),
{
    if has_long_bracket_run(body) {
        return Err(AzureError::XmlParse);
    }
    let root = match parse_tree(body) {
        Ok(root) => root,
        Err(_) => {
            return Err(AzureError::XmlParse);
        },
    };
    page_from_tree(&root)
}

} // verus!
