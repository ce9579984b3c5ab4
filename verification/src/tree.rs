use vstd::prelude::*;
use vstd::string::*;
use crate::text::{join_text, opt_text, same_text};

verus! {

/// A parsed document: what a JSON or TOML text holds, as far as this library
/// reads it.
#[derive(Debug)]
pub enum Node {
    Null,
    Bool(bool),
    Integer(i64),
    /// A scalar that no rule of this library reads: a number that is not a
    /// 64-bit integer, or a date-time.
    Other,
    Text(String),
    List(Vec<Node>),
    Table(Vec<Entry>),
}

/// One field of a table: its name and its value.
#[derive(Debug)]
pub struct Entry {
    pub key: String,
    pub value: Node,
}

/// The mathematical value of a `Node`.
pub enum NodeModel {
    Null,
    Bool(bool),
    Integer(int),
    Other,
    Text(Seq<char>),
    List(Seq<NodeModel>),
    Table(Seq<(Seq<char>, NodeModel)>),
}

/// The value of a node.
pub open spec fn node_model(node: Node) -> NodeModel
    decreases node, 0int,
{
    match node {
        Node::Null => NodeModel::Null,
        Node::Bool(b) => NodeModel::Bool(b),
        Node::Integer(i) => NodeModel::Integer(i as int),
        Node::Other => NodeModel::Other,
        Node::Text(s) => NodeModel::Text(s@),
        Node::List(items) => NodeModel::List(list_model(items@)),
        Node::Table(fields) => NodeModel::Table(table_model(fields@)),
    }
}

/// The values of a list's items, in order.
pub open spec fn list_model(items: Seq<Node>) -> Seq<NodeModel>
    decreases items, 1int,
{
    if items.len() == 0 {
        Seq::empty()
    } else {
        list_model(items.drop_last()).push(node_model(items.last()))
    }
}

/// The names and values of a table's fields, in order.
pub open spec fn table_model(fields: Seq<Entry>) -> Seq<(Seq<char>, NodeModel)>
    decreases fields, 1int,
{
    if fields.len() == 0 {
        Seq::empty()
    } else {
        table_model(fields.drop_last()).push((fields.last().key@, node_model(fields.last().value)))
    }
}

impl View for Node {
    type V = NodeModel;

    open spec fn view(&self) -> NodeModel {
        node_model(*self)
    }
}

/// `list_model` keeps the length and maps item by item.
pub proof fn lemma_list_model(items: Seq<Node>)
    ensures
        list_model(items).len() == items.len(),
        forall|i: int| 0 <= i < items.len() ==> #[trigger] list_model(items)[i] == node_model(items[i]),
    decreases items.len(),
{
    if items.len() > 0 {
        lemma_list_model(items.drop_last());
    }
}

/// `table_model` keeps the length and maps field by field.
pub proof fn lemma_table_model(fields: Seq<Entry>)
    ensures
        table_model(fields).len() == fields.len(),
        forall|i: int| 0 <= i < fields.len() ==> #[trigger] table_model(fields)[i] == (
            fields[i].key@,
            node_model(fields[i].value),
        ),
    decreases fields.len(),
{
    if fields.len() > 0 {
        lemma_table_model(fields.drop_last());
    }
}

/// The value stored under the first field named `key` at or after `start`.
pub open spec fn lookup_from(fields: Seq<(Seq<char>, NodeModel)>, key: Seq<char>, start: int) -> Option<NodeModel>
    decreases fields.len() - start,
{
    if start < 0 || start >= fields.len() {
        None
    } else if fields[start].0 == key {
        Some(fields[start].1)
    } else {
        lookup_from(fields, key, start + 1)
    }
}

/// The value stored under the first field named `key`, if `node` is a table
/// that has one.
pub open spec fn field(node: NodeModel, key: Seq<char>) -> Option<NodeModel> {
    match node {
        NodeModel::Table(fields) => lookup_from(fields, key, 0),
        _ => None,
    }
}

impl Node {
    /// The value under the first field named `key`.
    pub fn get(&self, key: &str) -> (r: Option<&Node>)
        ensures
            match r {
                Some(n) => field(self@, key@) == Some(n@),
                None => field(self@, key@) is None,
            },
    {
        match self {
            Node::Table(fields) => {
                proof {
                    lemma_table_model(fields@);
                }
                let mut i: usize = 0;
                while i < fields.len()
                    invariant
                        i <= fields.len(),
                        self@ == NodeModel::Table(table_model(fields@)),
                        table_model(fields@).len() == fields.len(),
                        forall|j: int| 0 <= j < fields.len() ==> #[trigger] table_model(fields@)[j] == (
                            fields[j].key@,
                            node_model(fields[j].value),
                        ),
                        field(self@, key@) == lookup_from(table_model(fields@), key@, i as int),
                    decreases fields.len() - i,
                {
                    if same_text(fields[i].key.as_str(), key) {
                        return Some(&fields[i].value);
                    }
                    i += 1;
                }
                None
            },
            _ => None,
        }
    }
}

/// The message for a field that is absent or holds a value of another kind.
pub open spec fn bad_field(key: Seq<char>) -> Seq<char> {
    "missing or invalid field: "@ + key
}

/// The text under `key`, which must be there.
pub open spec fn required_text(node: NodeModel, key: Seq<char>) -> Result<Seq<char>, Seq<char>> {
    match field(node, key) {
        Some(NodeModel::Text(s)) => Ok(s),
        _ => Err(bad_field(key)),
    }
}

/// The text under `key`; an absent field and a null both stand for none.
pub open spec fn optional_text(node: NodeModel, key: Seq<char>) -> Result<
    Option<Seq<char>>,
    Seq<char>,
> {
    match field(node, key) {
        None => Ok(None),
        Some(NodeModel::Null) => Ok(None),
        Some(NodeModel::Text(s)) => Ok(Some(s)),
        _ => Err(bad_field(key)),
    }
}

/// The truth value under `key`, which must be there.
pub open spec fn required_flag(node: NodeModel, key: Seq<char>) -> Result<bool, Seq<char>> {
    match field(node, key) {
        Some(NodeModel::Bool(b)) => Ok(b),
        _ => Err(bad_field(key)),
    }
}

/// Whether `i` fits a 32-bit signed integer.
pub open spec fn fits_i32(i: int) -> bool {
    -0x8000_0000 <= i <= 0x7fff_ffff
}

/// The 32-bit integer under `key`, which must be there.
pub open spec fn required_i32(node: NodeModel, key: Seq<char>) -> Result<int, Seq<char>> {
    match field(node, key) {
        Some(NodeModel::Integer(i)) if fits_i32(i) => Ok(i),
        _ => Err(bad_field(key)),
    }
}

/// The 32-bit integer under `key`; an absent field and a null both stand for
/// none.
pub open spec fn optional_i32(node: NodeModel, key: Seq<char>) -> Result<Option<int>, Seq<char>> {
    match field(node, key) {
        None => Ok(None),
        Some(NodeModel::Null) => Ok(None),
        Some(NodeModel::Integer(i)) if fits_i32(i) => Ok(Some(i)),
        _ => Err(bad_field(key)),
    }
}

/// The items of the list under `key`; an absent field stands for no items
/// where `lenient`.
pub open spec fn list_at(node: NodeModel, key: Seq<char>, lenient: bool) -> Result<
    Seq<NodeModel>,
    Seq<char>,
> {
    match field(node, key) {
        Some(NodeModel::List(items)) => Ok(items),
        None if lenient => Ok(Seq::empty()),
        _ => Err(bad_field(key)),
    }
}

/// What a text result says, over views.
pub open spec fn text_outcome(r: Result<String, String>) -> Result<Seq<char>, Seq<char>> {
    match r {
        Ok(s) => Ok(s@),
        Err(e) => Err(e@),
    }
}

/// What an optional-text result says, over views.
pub open spec fn optional_text_outcome(r: Result<Option<String>, String>) -> Result<
    Option<Seq<char>>,
    Seq<char>,
> {
    match r {
        Ok(Some(s)) => Ok(Some(s@)),
        Ok(None) => Ok(None),
        Err(e) => Err(e@),
    }
}

/// What a node result says, over views.
pub open spec fn node_outcome(r: Result<Node, String>) -> Result<NodeModel, Seq<char>> {
    match r {
        Ok(n) => Ok(n@),
        Err(e) => Err(e@),
    }
}

/// Builds the message for a field that cannot be read.
pub fn bad_field_message(key: &str) -> (r: String)
    ensures
        r@ == bad_field(key@),
{
    join_text("missing or invalid field: ", key)
}

impl Node {
    /// Reads the text under `key`.
    pub fn text(&self, key: &str) -> (r: Result<String, String>)
        ensures
            text_outcome(r) == required_text(self@, key@),
    {
        match self.get(key) {
            Some(Node::Text(s)) => Ok(s.clone()),
            _ => Err(bad_field_message(key)),
        }
    }

    /// Reads the text under `key`, if the field is there and not null.
    pub fn maybe_text(&self, key: &str) -> (r: Result<Option<String>, String>)
        ensures
            optional_text_outcome(r) == optional_text(self@, key@),
    {
        match self.get(key) {
            None => Ok(None),
            Some(Node::Null) => Ok(None),
            Some(Node::Text(s)) => Ok(Some(s.clone())),
            _ => Err(bad_field_message(key)),
        }
    }

    /// Reads the truth value under `key`.
    pub fn flag(&self, key: &str) -> (r: Result<bool, String>)
        ensures
            match r {
                Ok(b) => required_flag(self@, key@) == Ok::<bool, Seq<char>>(b),
                Err(e) => required_flag(self@, key@) == Err::<bool, Seq<char>>(e@),
            },
    {
        match self.get(key) {
            Some(Node::Bool(b)) => Ok(*b),
            _ => Err(bad_field_message(key)),
        }
    }

    /// Reads the 32-bit integer under `key`.
    pub fn int32(&self, key: &str) -> (r: Result<i32, String>)
        ensures
            match r {
                Ok(i) => required_i32(self@, key@) == Ok::<int, Seq<char>>(i as int),
                Err(e) => required_i32(self@, key@) == Err::<int, Seq<char>>(e@),
            },
    {
        match self.get(key) {
            Some(Node::Integer(i)) => {
                if -0x8000_0000 <= *i && *i <= 0x7fff_ffff {
                    Ok(*i as i32)
                } else {
                    Err(bad_field_message(key))
                }
            },
            _ => Err(bad_field_message(key)),
        }
    }

    /// Reads the 32-bit integer under `key`, if the field is there and not
    /// null.
    pub fn maybe_int32(&self, key: &str) -> (r: Result<Option<i32>, String>)
        ensures
            match r {
                Ok(Some(i)) => optional_i32(self@, key@) == Ok::<Option<int>, Seq<char>>(
                    Some(i as int),
                ),
                Ok(None) => optional_i32(self@, key@) == Ok::<Option<int>, Seq<char>>(None),
                Err(e) => optional_i32(self@, key@) == Err::<Option<int>, Seq<char>>(e@),
            },
    {
        match self.get(key) {
            None => Ok(None),
            Some(Node::Null) => Ok(None),
            Some(Node::Integer(i)) => {
                if -0x8000_0000 <= *i && *i <= 0x7fff_ffff {
                    Ok(Some(*i as i32))
                } else {
                    Err(bad_field_message(key))
                }
            },
            _ => Err(bad_field_message(key)),
        }
    }

    /// The items of the list under `key`.
    pub fn list(&self, key: &str, lenient: bool) -> (r: Result<&[Node], String>)
        ensures
            match r {
                Ok(items) => list_at(self@, key@, lenient) == Ok::<Seq<NodeModel>, Seq<char>>(
                    list_model(items@),
                ),
                Err(e) => list_at(self@, key@, lenient) == Err::<Seq<NodeModel>, Seq<char>>(e@),
            },
    {
        match self.get(key) {
            Some(Node::List(items)) => Ok(items.as_slice()),
            None => {
                if lenient {
                    let empty: &[Node] = &[];
                    Ok(empty)
                } else {
                    Err(bad_field_message(key))
                }
            },
            _ => Err(bad_field_message(key)),
        }
    }
}

/// A table under construction: fields are added at the end.
#[derive(Debug)]
pub struct Record {
    entries: Vec<Entry>,
}

impl Record {
    /// The names and values of the fields added so far.
    pub closed spec fn fields(&self) -> Seq<(Seq<char>, NodeModel)> {
        table_model(self.entries@)
    }

    /// A table without fields.
    pub fn new() -> (r: Record)
        ensures
            r.fields() == Seq::<(Seq<char>, NodeModel)>::empty(),
    {
        Record { entries: Vec::new() }
    }

    /// Adds a field at the end.
    pub fn with(self, key: &str, value: Node) -> (r: Record)
        ensures
            r.fields() == self.fields().push((key@, value@)),
    {
        let mut entries = self.entries;
        let ghost before = entries@;
        entries.push(Entry { key: String::from_str(key), value });
        assert(entries@.drop_last() =~= before);
        Record { entries }
    }

    /// Adds a field that holds a text.
    pub fn with_text(self, key: &str, value: &str) -> (r: Record)
        ensures
            r.fields() == self.fields().push((key@, NodeModel::Text(value@))),
    {
        self.with(key, Node::Text(String::from_str(value)))
    }

    /// Adds a field that holds a text, or null where there is none.
    pub fn with_optional_text(self, key: &str, value: &Option<String>) -> (r: Record)
        ensures
            r.fields() == self.fields().push((key@, optional_text_node(opt_text(*value)))),
    {
        match value {
            Some(v) => self.with(key, Node::Text(v.clone())),
            None => self.with(key, Node::Null),
        }
    }

    /// The finished table.
    pub fn finish(self) -> (r: Node)
        ensures
            r@ == NodeModel::Table(self.fields()),
    {
        Node::Table(self.entries)
    }
}

/// The node that holds an optional text: null where there is none.
pub open spec fn optional_text_node(value: Option<Seq<char>>) -> NodeModel {
    match value {
        Some(v) => NodeModel::Text(v),
        None => NodeModel::Null,
    }
}

/// A list under construction: items are added at the end.
#[derive(Debug)]
pub struct Listing {
    items: Vec<Node>,
}

impl Listing {
    /// The values of the items added so far.
    pub closed spec fn items(&self) -> Seq<NodeModel> {
        list_model(self.items@)
    }

    /// A list without items.
    pub fn new() -> (r: Listing)
        ensures
            r.items() == Seq::<NodeModel>::empty(),
    {
        Listing { items: Vec::new() }
    }

    /// Adds an item at the end.
    pub fn with(self, value: Node) -> (r: Listing)
        ensures
            r.items() == self.items().push(value@),
    {
        let mut items = self.items;
        let ghost before = items@;
        items.push(value);
        assert(items@.drop_last() =~= before);
        Listing { items }
    }

    /// The finished list.
    pub fn finish(self) -> (r: Node)
        ensures
            r@ == NodeModel::List(self.items()),
    {
        Node::List(self.items)
    }
}

} // verus!
