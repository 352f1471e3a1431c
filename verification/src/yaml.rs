//! YAML documents as trees, and their rendering to text by `serde_yaml`.
use vstd::prelude::*;

verus! {

/// A YAML document.
pub enum YamlNode {
    Null,
    Bool(bool),
    Int(u64),
    Str(String),
    List(Vec<YamlNode>),
    /// A mapping with string keys, in the order they are written.
    Mapping(Vec<(String, YamlNode)>),
}

/// A YAML document as plain values.
pub enum YamlTree {
    Null,
    Bool(bool),
    Int(nat),
    Str(Seq<char>),
    List(Seq<YamlTree>),
    Mapping(Seq<(Seq<char>, YamlTree)>),
}

pub open spec fn tree_of(n: YamlNode) -> YamlTree
    decreases n,
{
    match n {
        YamlNode::Null => YamlTree::Null,
        YamlNode::Bool(b) => YamlTree::Bool(b),
        YamlNode::Int(i) => YamlTree::Int(i as nat),
        YamlNode::Str(s) => YamlTree::Str(s@),
        YamlNode::List(v) => YamlTree::List(
            Seq::new(
                v.len() as nat,
                |i: int|
                    if 0 <= i < v.len() {
                        tree_of(v[i])
                    } else {
                        YamlTree::Null
                    },
            ),
        ),
        YamlNode::Mapping(v) => YamlTree::Mapping(
            Seq::new(
                v.len() as nat,
                |i: int|
                    if 0 <= i < v.len() {
                        (v[i].0@, tree_of(v[i].1))
                    } else {
                        (Seq::empty(), YamlTree::Null)
                    },
            ),
        ),
    }
}

impl View for YamlNode {
    type V = YamlTree;

    open spec fn view(&self) -> YamlTree {
        tree_of(*self)
    }
}

/// A list of strings.
pub open spec fn str_list(v: Seq<String>) -> YamlTree {
    YamlTree::List(v.map_values(|s: String| YamlTree::Str(s@)))
}

/// A mapping from strings to strings.
pub open spec fn str_map(v: Seq<(String, String)>) -> YamlTree {
    YamlTree::Mapping(v.map_values(|p: (String, String)| (p.0@, YamlTree::Str(p.1@))))
}

/// A mapping entry when the value is present.
pub open spec fn entry_if(key: Seq<char>, t: Option<YamlTree>) -> Seq<(Seq<char>, YamlTree)> {
    match t {
        Some(t) => seq![(key, t)],
        None => Seq::empty(),
    }
}

pub open spec fn opt_str(o: Option<String>) -> Option<YamlTree> {
    match o {
        Some(s) => Some(YamlTree::Str(s@)),
        None => None,
    }
}

pub open spec fn opt_str_list(o: Option<Vec<String>>) -> Option<YamlTree> {
    match o {
        Some(v) => Some(str_list(v@)),
        None => None,
    }
}

pub open spec fn opt_str_map(o: Option<Vec<(String, String)>>) -> Option<YamlTree> {
    match o {
        Some(v) => Some(str_map(v@)),
        None => None,
    }
}

pub open spec fn node_views(v: Seq<YamlNode>) -> Seq<YamlTree> {
    v.map_values(|n: YamlNode| n@)
}

pub open spec fn entry_views(v: Seq<(String, YamlNode)>) -> Seq<(Seq<char>, YamlTree)> {
    v.map_values(|p: (String, YamlNode)| (p.0@, p.1@))
}

/// A list node of the given items.
pub fn list_node(items: Vec<YamlNode>) -> (n: YamlNode)
    ensures
        n@ == YamlTree::List(node_views(items@)),
{
    let ghost v = items@;
    let n = YamlNode::List(items);
    assert(n@->List_0 =~= node_views(v));
    n
}

/// A mapping node of the given entries.
pub fn mapping_node(entries: Vec<(String, YamlNode)>) -> (n: YamlNode)
    ensures
        n@ == YamlTree::Mapping(entry_views(entries@)),
{
    let ghost v = entries@;
    let n = YamlNode::Mapping(entries);
    assert(n@->Mapping_0 =~= entry_views(v));
    n
}

/// A string node.
pub fn str_node(s: &str) -> (n: YamlNode)
    ensures
        n@ == YamlTree::Str(s@),
{
    YamlNode::Str(s.to_owned())
}

/// A list of strings.
pub fn str_list_node(v: &Vec<String>) -> (n: YamlNode)
    ensures
        n@ == str_list(v@),
{
    let mut items: Vec<YamlNode> = Vec::new();
    let mut i: usize = 0;
    while i < v.len()
        invariant
            0 <= i <= v@.len(),
            node_views(items@) =~= v@.take(i as int).map_values(|s: String| YamlTree::Str(s@)),
        decreases v@.len() - i,
    {
        let ghost before = items@;
        items.push(YamlNode::Str(v[i].clone()));
        assert(node_views(items@) =~= node_views(before).push(YamlTree::Str(v@[i as int]@)));
        assert(v@.take(i + 1).map_values(|s: String| YamlTree::Str(s@)) =~= v@.take(
            i as int,
        ).map_values(|s: String| YamlTree::Str(s@)).push(YamlTree::Str(v@[i as int]@)));
        i = i + 1;
    }
    assert(v@.take(v@.len() as int) =~= v@);
    list_node(items)
}

/// A mapping from strings to strings.
pub fn str_map_node(v: &Vec<(String, String)>) -> (n: YamlNode)
    ensures
        n@ == str_map(v@),
{
    let mut entries: Vec<(String, YamlNode)> = Vec::new();
    let mut i: usize = 0;
    while i < v.len()
        invariant
            0 <= i <= v@.len(),
            entry_views(entries@) =~= v@.take(i as int).map_values(
                |p: (String, String)| (p.0@, YamlTree::Str(p.1@)),
            ),
        decreases v@.len() - i,
    {
        let ghost before = entries@;
        entries.push((v[i].0.clone(), YamlNode::Str(v[i].1.clone())));
        assert(entry_views(entries@) =~= entry_views(before).push(
            (v@[i as int].0@, YamlTree::Str(v@[i as int].1@)),
        ));
        assert(v@.take(i + 1).map_values(|p: (String, String)| (p.0@, YamlTree::Str(p.1@)))
            =~= v@.take(i as int).map_values(
            |p: (String, String)| (p.0@, YamlTree::Str(p.1@)),
        ).push((v@[i as int].0@, YamlTree::Str(v@[i as int].1@))));
        i = i + 1;
    }
    assert(v@.take(v@.len() as int) =~= v@);
    mapping_node(entries)
}

/// Appends an entry to a mapping under construction.
pub fn push_entry(entries: &mut Vec<(String, YamlNode)>, key: &str, value: YamlNode)
    ensures
        entry_views(final(entries)@) == entry_views(old(entries)@).push((key@, value@)),
{
    let ghost v = value@;
    entries.push((key.to_owned(), value));
    assert(entry_views(entries@) =~= entry_views(old(entries)@).push((key@, v)));
}

/// Appends an entry to a mapping under construction when the value is present.
pub fn push_opt_str(entries: &mut Vec<(String, YamlNode)>, key: &str, value: &Option<String>)
    ensures
        entry_views(final(entries)@) == entry_views(old(entries)@) + entry_if(key@, opt_str(*value)),
{
    match value {
        Some(s) => {
            push_entry(entries, key, YamlNode::Str(s.clone()));
        },
        None => {},
    }
    assert(entry_views(entries@) =~= entry_views(old(entries)@) + entry_if(key@, opt_str(*value)));
}

/// Appends a list-of-strings entry when the value is present.
pub fn push_opt_str_list(entries: &mut Vec<(String, YamlNode)>, key: &str, value: &Option<Vec<String>>)
    ensures
        entry_views(final(entries)@) == entry_views(old(entries)@) + entry_if(
            key@,
            opt_str_list(*value),
        ),
{
    match value {
        Some(v) => {
            push_entry(entries, key, str_list_node(v));
        },
        None => {},
    }
    assert(entry_views(entries@) =~= entry_views(old(entries)@) + entry_if(
        key@,
        opt_str_list(*value),
    ));
}

/// Appends a string-mapping entry when the value is present.
pub fn push_opt_str_map(
    entries: &mut Vec<(String, YamlNode)>,
    key: &str,
    value: &Option<Vec<(String, String)>>,
)
    ensures
        entry_views(final(entries)@) == entry_views(old(entries)@) + entry_if(
            key@,
            opt_str_map(*value),
        ),
{
    match value {
        Some(v) => {
            push_entry(entries, key, str_map_node(v));
        },
        None => {},
    }
    assert(entry_views(entries@) =~= entry_views(old(entries)@) + entry_if(
        key@,
        opt_str_map(*value),
    ));
}

#[verifier::external_type_specification]
#[verifier::external_body]
pub struct ExYamlValue(serde_yaml::Value);

/// Builds the `serde_yaml::Value` of the same shape as a document: each node
/// becomes the value of the same kind, mappings keep their key order. It is
/// the first half of `render_yaml`, which states what the pair yields.
#[verifier::external_body]
fn yaml_value(n: &YamlNode) -> serde_yaml::Value {
    match n {
        YamlNode::Null => serde_yaml::Value::Null,
        YamlNode::Bool(b) => serde_yaml::Value::Bool(*b),
        YamlNode::Int(i) => serde_yaml::Value::Number((*i).into()),
        YamlNode::Str(s) => serde_yaml::Value::String(s.clone()),
        YamlNode::List(v) => serde_yaml::Value::Sequence(v.iter().map(yaml_value).collect()),
        YamlNode::Mapping(v) => serde_yaml::Value::Mapping(
            v.iter().map(|(k, x)| (serde_yaml::Value::String(k.clone()), yaml_value(x))).collect(),
        ),
    }
}

/// What `serde_yaml::to_string` makes of a document: its text, or the message
/// of the error it reports.
pub uninterp spec fn yaml_document(t: YamlTree) -> Result<Seq<char>, Seq<char>>;

pub open spec fn text_result_view(r: Result<String, String>) -> Result<Seq<char>, Seq<char>> {
    match r {
        Ok(s) => Ok(s@),
        Err(e) => Err(e@),
    }
}

/// Renders a document as YAML text with `serde_yaml::to_string`.
///
/// Trusted: the text (or the error's `Display` text) is what `serde_yaml`
/// produces for the value of this shape, and depends on the document alone.
#[verifier::external_body]
pub fn render_yaml(doc: &YamlNode) -> (r: Result<String, String>)
    ensures
        text_result_view(r) == yaml_document(doc@),
{
    serde_yaml::to_string(&yaml_value(doc)).map_err(|e| e.to_string())
}

} // verus!
