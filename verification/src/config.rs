use vstd::prelude::*;
use vstd::string::*;
use crate::error::{DeployError, DeployErrorModel};
use crate::text::{opt_text, same_text};
use crate::nesting::{nesting_bounded, too_deep, within_nesting};
use crate::toml_doc::{parse_toml, toml_parsed};
use crate::tree::{
    field, lemma_list_model, list_at, list_model, optional_i32, optional_text, required_text, Node,
    NodeModel,
};

verus! {

/// One backend that the service forwards to.
#[derive(Debug)]
pub struct BackendSpec {
    pub prompt: Option<String>,
    pub name: String,
    pub address: String,
    pub port: Option<i32>,
}

/// One item of a dictionary: its key, how its value is asked for, and the
/// value it has if none is submitted.
#[derive(Debug)]
pub struct DictionaryItemSpec {
    pub key: String,
    pub input_type: String,
    pub prompt: Option<String>,
    pub value: Option<String>,
}

/// One dictionary with its items, in declared order.
#[derive(Debug)]
pub struct DictionarySpec {
    pub name: String,
    pub items: Vec<DictionaryItemSpec>,
}

/// What a template declares that its service needs: backends and
/// dictionaries, each in declared order.
#[derive(Debug)]
pub struct DeployConfigSpec {
    pub backends: Vec<BackendSpec>,
    pub dictionaries: Vec<DictionarySpec>,
}

/// The part of a service manifest that this library reads.
#[derive(Debug)]
pub struct Manifest {
    pub setup: Option<DeployConfigSpec>,
}

/// One submitted form field.
#[derive(Debug)]
pub struct FormField {
    pub name: String,
    pub value: String,
}

/// The fields of a submitted form, in the order in which they came. Where a
/// name comes twice, the later field counts.
#[derive(Debug)]
pub struct ActionParams {
    pub fields: Vec<FormField>,
}

/// A deployment specification together with what the user submitted.
#[derive(Debug)]
pub struct DeployConfig {
    pub spec: DeployConfigSpec,
    pub params: ActionParams,
}

/// A `BackendSpec` over mathematical values.
pub struct BackendModel {
    pub prompt: Option<Seq<char>>,
    pub name: Seq<char>,
    pub address: Seq<char>,
    pub port: Option<int>,
}

/// A `DictionaryItemSpec` over sequences of characters.
pub struct ItemModel {
    pub key: Seq<char>,
    pub input_type: Seq<char>,
    pub prompt: Option<Seq<char>>,
    pub value: Option<Seq<char>>,
}

/// A `DictionarySpec` over mathematical values.
pub struct DictionaryModel {
    pub name: Seq<char>,
    pub items: Seq<ItemModel>,
}

/// A `DeployConfigSpec` over mathematical values.
pub struct SpecModel {
    pub backends: Seq<BackendModel>,
    pub dictionaries: Seq<DictionaryModel>,
}

/// An optional 32-bit integer as an optional mathematical integer.
pub open spec fn opt_int(i: Option<i32>) -> Option<int> {
    match i {
        Some(x) => Some(x as int),
        None => None,
    }
}

impl DeepView for BackendSpec {
    type V = BackendModel;

    open spec fn deep_view(&self) -> BackendModel {
        BackendModel {
            prompt: opt_text(self.prompt),
            name: self.name@,
            address: self.address@,
            port: opt_int(self.port),
        }
    }
}

impl View for BackendSpec {
    type V = BackendModel;

    open spec fn view(&self) -> BackendModel {
        self.deep_view()
    }
}

impl DeepView for DictionaryItemSpec {
    type V = ItemModel;

    open spec fn deep_view(&self) -> ItemModel {
        ItemModel {
            key: self.key@,
            input_type: self.input_type@,
            prompt: opt_text(self.prompt),
            value: opt_text(self.value),
        }
    }
}

impl View for DictionaryItemSpec {
    type V = ItemModel;

    open spec fn view(&self) -> ItemModel {
        self.deep_view()
    }
}

impl DeepView for DictionarySpec {
    type V = DictionaryModel;

    open spec fn deep_view(&self) -> DictionaryModel {
        DictionaryModel { name: self.name@, items: self.items.deep_view() }
    }
}

impl View for DictionarySpec {
    type V = DictionaryModel;

    open spec fn view(&self) -> DictionaryModel {
        self.deep_view()
    }
}

impl DeepView for DeployConfigSpec {
    type V = SpecModel;

    open spec fn deep_view(&self) -> SpecModel {
        SpecModel {
            backends: self.backends.deep_view(),
            dictionaries: self.dictionaries.deep_view(),
        }
    }
}

impl View for DeployConfigSpec {
    type V = SpecModel;

    open spec fn view(&self) -> SpecModel {
        self.deep_view()
    }
}

impl View for ActionParams {
    type V = Seq<(Seq<char>, Seq<char>)>;

    open spec fn view(&self) -> Seq<(Seq<char>, Seq<char>)> {
        Seq::new(self.fields@.len(), |i: int| (self.fields@[i].name@, self.fields@[i].value@))
    }
}

/// The specification that declares nothing.
pub open spec fn empty_spec() -> SpecModel {
    SpecModel { backends: Seq::empty(), dictionaries: Seq::empty() }
}

/// The backend that a table describes.
pub open spec fn backend_of(node: NodeModel) -> Result<BackendModel, Seq<char>> {
    match (
        optional_text(node, "prompt"@),
        required_text(node, "name"@),
        required_text(node, "address"@),
        optional_i32(node, "port"@),
    ) {
        (Ok(prompt), Ok(name), Ok(address), Ok(port)) => Ok(
            BackendModel { prompt, name, address, port },
        ),
        (Err(e), _, _, _) => Err(e),
        (_, Err(e), _, _) => Err(e),
        (_, _, Err(e), _) => Err(e),
        (_, _, _, Err(e)) => Err(e),
    }
}

/// The backends that a list of tables describes: the first table that does
/// not describe one decides the error.
pub open spec fn backends_of(items: Seq<NodeModel>) -> Result<Seq<BackendModel>, Seq<char>>
    decreases items.len(),
{
    if items.len() == 0 {
        Ok(Seq::empty())
    } else {
        match backends_of(items.drop_last()) {
            Err(e) => Err(e),
            Ok(before) => match backend_of(items.last()) {
                Ok(b) => Ok(before.push(b)),
                Err(e) => Err(e),
            },
        }
    }
}

/// The dictionary item that a table describes.
pub open spec fn item_of(node: NodeModel) -> Result<ItemModel, Seq<char>> {
    match (
        required_text(node, "key"@),
        required_text(node, "input_type"@),
        optional_text(node, "prompt"@),
        optional_text(node, "value"@),
    ) {
        (Ok(key), Ok(input_type), Ok(prompt), Ok(value)) => Ok(
            ItemModel { key, input_type, prompt, value },
        ),
        (Err(e), _, _, _) => Err(e),
        (_, Err(e), _, _) => Err(e),
        (_, _, Err(e), _) => Err(e),
        (_, _, _, Err(e)) => Err(e),
    }
}

/// The items that a list of tables describes.
pub open spec fn items_of(items: Seq<NodeModel>) -> Result<Seq<ItemModel>, Seq<char>>
    decreases items.len(),
{
    if items.len() == 0 {
        Ok(Seq::empty())
    } else {
        match items_of(items.drop_last()) {
            Err(e) => Err(e),
            Ok(before) => match item_of(items.last()) {
                Ok(b) => Ok(before.push(b)),
                Err(e) => Err(e),
            },
        }
    }
}

/// The dictionary that a table describes.
pub open spec fn dictionary_of(node: NodeModel) -> Result<DictionaryModel, Seq<char>> {
    match required_text(node, "name"@) {
        Err(e) => Err(e),
        Ok(name) => match list_at(node, "items"@, false) {
            Err(e) => Err(e),
            Ok(list) => match items_of(list) {
                Err(e) => Err(e),
                Ok(items) => Ok(DictionaryModel { name, items }),
            },
        },
    }
}

/// The dictionaries that a list of tables describes.
pub open spec fn dictionaries_of(items: Seq<NodeModel>) -> Result<Seq<DictionaryModel>, Seq<char>>
    decreases items.len(),
{
    if items.len() == 0 {
        Ok(Seq::empty())
    } else {
        match dictionaries_of(items.drop_last()) {
            Err(e) => Err(e),
            Ok(before) => match dictionary_of(items.last()) {
                Ok(b) => Ok(before.push(b)),
                Err(e) => Err(e),
            },
        }
    }
}

/// The specification that a `setup` table holds. A list that the table does
/// not have counts as empty.
pub open spec fn setup_of(node: NodeModel) -> Result<SpecModel, Seq<char>> {
    match list_at(node, "backends"@, true) {
        Err(e) => Err(e),
        Ok(backend_list) => match backends_of(backend_list) {
            Err(e) => Err(e),
            Ok(backends) => match list_at(node, "dictionaries"@, true) {
                Err(e) => Err(e),
                Ok(dictionary_list) => match dictionaries_of(dictionary_list) {
                    Err(e) => Err(e),
                    Ok(dictionaries) => Ok(SpecModel { backends, dictionaries }),
                },
            },
        }
    }
}

/// What a manifest document declares under `setup`: nothing where it has no
/// such field, else what the table there holds.
pub open spec fn manifest_of(doc: NodeModel) -> Result<Option<SpecModel>, Seq<char>> {
    match field(doc, "setup"@) {
        None => Ok(None),
        Some(NodeModel::Table(fields)) => match setup_of(NodeModel::Table(fields)) {
            Ok(spec) => Ok(Some(spec)),
            Err(e) => Err(e),
        },
        Some(_) => Err(crate::tree::bad_field("setup"@)),
    }
}

/// The specification that a manifest document declares: the empty one where
/// it has no `setup`.
pub open spec fn spec_of_document(doc: NodeModel) -> Result<SpecModel, DeployErrorModel> {
    match manifest_of(doc) {
        Ok(Some(spec)) => Ok(spec),
        Ok(None) => Ok(empty_spec()),
        Err(e) => Err(DeployErrorModel::SpecParse(e)),
    }
}

/// The specification that a manifest text declares. A text that is nested
/// beyond the bounds is refused unread.
pub open spec fn spec_of_toml(text: Seq<char>) -> Result<SpecModel, DeployErrorModel> {
    if !within_nesting(text) {
        Err(DeployErrorModel::SpecParse(too_deep()))
    } else {
        match toml_parsed(text) {
            Ok(doc) => spec_of_document(doc),
            Err(e) => Err(DeployErrorModel::SpecParse(e)),
        }
    }
}

/// What a result that holds a specification says, over views.
pub open spec fn spec_outcome(r: Result<DeployConfigSpec, DeployError>) -> Result<
    SpecModel,
    DeployErrorModel,
> {
    match r {
        Ok(s) => Ok(s@),
        Err(e) => Err(e@),
    }
}

impl BackendSpec {
    /// Reads a backend from a table.
    pub fn from_node(node: &Node) -> (r: Result<BackendSpec, String>)
        ensures
            match r {
                Ok(b) => backend_of(node@) == Ok::<BackendModel, Seq<char>>(b@),
                Err(e) => backend_of(node@) == Err::<BackendModel, Seq<char>>(e@),
            },
    {
        let prompt = match node.maybe_text("prompt") {
            Ok(v) => v,
            Err(e) => {
                return Err(e);
            },
        };
        let name = match node.text("name") {
            Ok(v) => v,
            Err(e) => {
                return Err(e);
            },
        };
        let address = match node.text("address") {
            Ok(v) => v,
            Err(e) => {
                return Err(e);
            },
        };
        let port = match node.maybe_int32("port") {
            Ok(v) => v,
            Err(e) => {
                return Err(e);
            },
        };
        Ok(BackendSpec { prompt, name, address, port })
    }

    /// A copy of the backend.
    pub fn duplicate(&self) -> (r: BackendSpec)
        ensures
            r@ == self@,
    {
        BackendSpec {
            prompt: self.prompt.clone(),
            name: self.name.clone(),
            address: self.address.clone(),
            port: self.port,
        }
    }
}

impl DictionaryItemSpec {
    /// Reads a dictionary item from a table.
    pub fn from_node(node: &Node) -> (r: Result<DictionaryItemSpec, String>)
        ensures
            match r {
                Ok(b) => item_of(node@) == Ok::<ItemModel, Seq<char>>(b@),
                Err(e) => item_of(node@) == Err::<ItemModel, Seq<char>>(e@),
            },
    {
        let key = match node.text("key") {
            Ok(v) => v,
            Err(e) => {
                return Err(e);
            },
        };
        let input_type = match node.text("input_type") {
            Ok(v) => v,
            Err(e) => {
                return Err(e);
            },
        };
        let prompt = match node.maybe_text("prompt") {
            Ok(v) => v,
            Err(e) => {
                return Err(e);
            },
        };
        let value = match node.maybe_text("value") {
            Ok(v) => v,
            Err(e) => {
                return Err(e);
            },
        };
        Ok(DictionaryItemSpec { key, input_type, prompt, value })
    }
}

/// Reads a list of backends.
pub fn read_backends(items: &[Node]) -> (r: Result<Vec<BackendSpec>, String>)
    ensures
        match r {
            Ok(v) => backends_of(list_model(items@)) == Ok::<Seq<BackendModel>, Seq<char>>(
                v.deep_view(),
            ),
            Err(e) => backends_of(list_model(items@)) == Err::<Seq<BackendModel>, Seq<char>>(e@),
        },
{
    let mut out: Vec<BackendSpec> = Vec::new();
    let mut i: usize = 0;
    proof {
        lemma_list_model(items@);
        assert(out.deep_view() =~= Seq::empty());
    }
    while i < items.len()
        invariant
            i <= items.len(),
            list_model(items@).len() == items.len(),
            forall|j: int| 0 <= j < items.len() ==> #[trigger] list_model(items@)[j] == items[j]@,
            backends_of(list_model(items@).take(i as int)) == Ok::<Seq<BackendModel>, Seq<char>>(
                out.deep_view(),
            ),
        decreases items.len() - i,
    {
        proof {
            let s = list_model(items@);
            assert(s.take(i + 1).drop_last() =~= s.take(i as int));
            lemma_backends_stop(s, i + 1);
        }
        let ghost before = out.deep_view();
        match BackendSpec::from_node(&items[i]) {
            Ok(b) => {
                out.push(b);
                assert(out.deep_view() =~= before.push(b@));
            },
            Err(e) => {
                return Err(e);
            },
        }
        i += 1;
    }
    assert(list_model(items@).take(items.len() as int) =~= list_model(items@));
    Ok(out)
}

/// Once a prefix of a list fails to give backends, the whole list fails in
/// the same way.
proof fn lemma_backends_stop(items: Seq<NodeModel>, n: int)
    requires
        0 <= n <= items.len(),
    ensures
        backends_of(items.take(n)) is Err ==> backends_of(items) == backends_of(items.take(n)),
    decreases items.len() - n,
{
    if n < items.len() {
        lemma_backends_stop(items, n + 1);
        assert(items.take(n + 1).drop_last() =~= items.take(n));
    } else {
        assert(items.take(n) =~= items);
    }
}

/// Once a prefix of a list fails to give items, the whole list fails in the
/// same way.
proof fn lemma_items_stop(items: Seq<NodeModel>, n: int)
    requires
        0 <= n <= items.len(),
    ensures
        items_of(items.take(n)) is Err ==> items_of(items) == items_of(items.take(n)),
    decreases items.len() - n,
{
    if n < items.len() {
        lemma_items_stop(items, n + 1);
        assert(items.take(n + 1).drop_last() =~= items.take(n));
    } else {
        assert(items.take(n) =~= items);
    }
}

/// Once a prefix of a list fails to give dictionaries, the whole list fails
/// in the same way.
proof fn lemma_dictionaries_stop(items: Seq<NodeModel>, n: int)
    requires
        0 <= n <= items.len(),
    ensures
        dictionaries_of(items.take(n)) is Err ==> dictionaries_of(items) == dictionaries_of(
            items.take(n),
        ),
    decreases items.len() - n,
{
    if n < items.len() {
        lemma_dictionaries_stop(items, n + 1);
        assert(items.take(n + 1).drop_last() =~= items.take(n));
    } else {
        assert(items.take(n) =~= items);
    }
}

/// Reads a list of dictionary items.
pub fn read_items(items: &[Node]) -> (r: Result<Vec<DictionaryItemSpec>, String>)
    ensures
        match r {
            Ok(v) => items_of(list_model(items@)) == Ok::<Seq<ItemModel>, Seq<char>>(
                v.deep_view(),
            ),
            Err(e) => items_of(list_model(items@)) == Err::<Seq<ItemModel>, Seq<char>>(e@),
        },
{
    let mut out: Vec<DictionaryItemSpec> = Vec::new();
    let mut i: usize = 0;
    proof {
        lemma_list_model(items@);
        assert(out.deep_view() =~= Seq::empty());
    }
    while i < items.len()
        invariant
            i <= items.len(),
            list_model(items@).len() == items.len(),
            forall|j: int| 0 <= j < items.len() ==> #[trigger] list_model(items@)[j] == items[j]@,
            items_of(list_model(items@).take(i as int)) == Ok::<Seq<ItemModel>, Seq<char>>(
                out.deep_view(),
            ),
        decreases items.len() - i,
    {
        proof {
            let s = list_model(items@);
            assert(s.take(i + 1).drop_last() =~= s.take(i as int));
            lemma_items_stop(s, i + 1);
        }
        let ghost before = out.deep_view();
        match DictionaryItemSpec::from_node(&items[i]) {
            Ok(b) => {
                out.push(b);
                assert(out.deep_view() =~= before.push(b@));
            },
            Err(e) => {
                return Err(e);
            },
        }
        i += 1;
    }
    assert(list_model(items@).take(items.len() as int) =~= list_model(items@));
    Ok(out)
}

impl DictionarySpec {
    /// Reads a dictionary from a table.
    pub fn from_node(node: &Node) -> (r: Result<DictionarySpec, String>)
        ensures
            match r {
                Ok(b) => dictionary_of(node@) == Ok::<DictionaryModel, Seq<char>>(b@),
                Err(e) => dictionary_of(node@) == Err::<DictionaryModel, Seq<char>>(e@),
            },
    {
        let name = match node.text("name") {
            Ok(v) => v,
            Err(e) => {
                return Err(e);
            },
        };
        let list = match node.list("items", false) {
            Ok(v) => v,
            Err(e) => {
                return Err(e);
            },
        };
        let items = match read_items(list) {
            Ok(v) => v,
            Err(e) => {
                return Err(e);
            },
        };
        Ok(DictionarySpec { name, items })
    }
}

/// Reads a list of dictionaries.
pub fn read_dictionaries(items: &[Node]) -> (r: Result<Vec<DictionarySpec>, String>)
    ensures
        match r {
            Ok(v) => dictionaries_of(list_model(items@)) == Ok::<Seq<DictionaryModel>, Seq<char>>(
                v.deep_view(),
            ),
            Err(e) => dictionaries_of(list_model(items@)) == Err::<
                Seq<DictionaryModel>,
                Seq<char>,
            >(e@),
        },
{
    let mut out: Vec<DictionarySpec> = Vec::new();
    let mut i: usize = 0;
    proof {
        lemma_list_model(items@);
        assert(out.deep_view() =~= Seq::empty());
    }
    while i < items.len()
        invariant
            i <= items.len(),
            list_model(items@).len() == items.len(),
            forall|j: int| 0 <= j < items.len() ==> #[trigger] list_model(items@)[j] == items[j]@,
            dictionaries_of(list_model(items@).take(i as int)) == Ok::<
                Seq<DictionaryModel>,
                Seq<char>,
            >(out.deep_view()),
        decreases items.len() - i,
    {
        proof {
            let s = list_model(items@);
            assert(s.take(i + 1).drop_last() =~= s.take(i as int));
            lemma_dictionaries_stop(s, i + 1);
        }
        let ghost before = out.deep_view();
        match DictionarySpec::from_node(&items[i]) {
            Ok(b) => {
                out.push(b);
                assert(out.deep_view() =~= before.push(b@));
            },
            Err(e) => {
                return Err(e);
            },
        }
        i += 1;
    }
    assert(list_model(items@).take(items.len() as int) =~= list_model(items@));
    Ok(out)
}

impl Manifest {
    /// Reads what a manifest document declares under `setup`.
    pub fn from_document(doc: &Node) -> (r: Result<Manifest, String>)
        ensures
            match r {
                Ok(m) => manifest_of(doc@) == Ok::<Option<SpecModel>, Seq<char>>(
                    m.setup.deep_view(),
                ),
                Err(e) => manifest_of(doc@) == Err::<Option<SpecModel>, Seq<char>>(e@),
            },
    {
        match doc.get("setup") {
            None => Ok(Manifest { setup: None }),
            Some(setup) => {
                match setup {
                    Node::Table(_) => {},
                    _ => {
                        return Err(crate::tree::bad_field_message("setup"));
                    },
                }
                let backend_list = match setup.list("backends", true) {
                    Ok(v) => v,
                    Err(e) => {
                        return Err(e);
                    },
                };
                let backends = match read_backends(backend_list) {
                    Ok(v) => v,
                    Err(e) => {
                        return Err(e);
                    },
                };
                let dictionary_list = match setup.list("dictionaries", true) {
                    Ok(v) => v,
                    Err(e) => {
                        return Err(e);
                    },
                };
                let dictionaries = match read_dictionaries(dictionary_list) {
                    Ok(v) => v,
                    Err(e) => {
                        return Err(e);
                    },
                };
                Ok(Manifest { setup: Some(DeployConfigSpec { backends, dictionaries }) })
            },
        }
    }
}

impl DeployConfigSpec {
    /// The specification that declares nothing.
    pub fn empty() -> (r: DeployConfigSpec)
        ensures
            r@ == empty_spec(),
    {
        let r = DeployConfigSpec { backends: Vec::new(), dictionaries: Vec::new() };
        assert(r@.backends =~= Seq::empty());
        assert(r@.dictionaries =~= Seq::empty());
        r
    }

    /// Reads the specification that a parsed manifest declares. A manifest
    /// without `setup` declares nothing, and so does an empty `setup`.
    pub fn from_document(doc: &Node) -> (r: Result<DeployConfigSpec, DeployError>)
        ensures
            spec_outcome(r) == spec_of_document(doc@),
    {
        match Manifest::from_document(doc) {
            Ok(manifest) => match manifest.setup {
                Some(spec) => Ok(spec),
                None => Ok(DeployConfigSpec::empty()),
            },
            Err(e) => Err(DeployError::SpecParse(e)),
        }
    }

    /// Reads the specification that a manifest text declares.
    pub fn from_toml(manifest: &str) -> (r: Result<DeployConfigSpec, DeployError>)
        ensures
            spec_outcome(r) == spec_of_toml(manifest@),
    {
        if !nesting_bounded(manifest) {
            return Err(
                DeployError::SpecParse(String::from_str("The manifest is nested too deeply")),
            );
        }
        match parse_toml(manifest) {
            Ok(doc) => DeployConfigSpec::from_document(&doc),
            Err(e) => Err(DeployError::SpecParse(e)),
        }
    }
}

/// The value submitted under `key`: that of the last field with this name.
pub open spec fn param_value(params: Seq<(Seq<char>, Seq<char>)>, key: Seq<char>) -> Option<
    Seq<char>,
>
    decreases params.len(),
{
    if params.len() == 0 {
        None
    } else if params.last().0 == key {
        Some(params.last().1)
    } else {
        param_value(params.drop_last(), key)
    }
}

/// The name of the form field that overrides the value of a dictionary item.
pub open spec fn override_key(dictionary: Seq<char>, key: Seq<char>) -> Seq<char> {
    "dict."@ + dictionary + "."@ + key
}

/// The value that an item is created with: the submitted one where there is
/// one, else the declared default, else the error that names the item's key.
pub open spec fn resolved_value(
    params: Seq<(Seq<char>, Seq<char>)>,
    dictionary: Seq<char>,
    item: ItemModel,
) -> Result<Seq<char>, DeployErrorModel> {
    match param_value(params, override_key(dictionary, item.key)) {
        Some(v) => Ok(v),
        None => match item.value {
            Some(d) => Ok(d),
            None => Err(DeployErrorModel::MissingValue(item.key)),
        },
    }
}

/// The key and value of each item of a dictionary, in declared order; the
/// first item without a value decides the error.
pub open spec fn resolved_pairs(
    params: Seq<(Seq<char>, Seq<char>)>,
    dictionary: Seq<char>,
    items: Seq<ItemModel>,
) -> Result<Seq<(Seq<char>, Seq<char>)>, DeployErrorModel>
    decreases items.len(),
{
    if items.len() == 0 {
        Ok(Seq::empty())
    } else {
        match resolved_pairs(params, dictionary, items.drop_last()) {
            Err(e) => Err(e),
            Ok(before) => match resolved_value(params, dictionary, items.last()) {
                Ok(v) => Ok(before.push((items.last().key, v))),
                Err(e) => Err(e),
            },
        }
    }
}

/// Once a prefix of the items fails to resolve, all of them fail in the same
/// way.
pub proof fn lemma_resolution_stops(
    params: Seq<(Seq<char>, Seq<char>)>,
    dictionary: Seq<char>,
    items: Seq<ItemModel>,
    n: int,
)
    requires
        0 <= n <= items.len(),
    ensures
        resolved_pairs(params, dictionary, items.take(n)) is Err ==> resolved_pairs(
            params,
            dictionary,
            items,
        ) == resolved_pairs(params, dictionary, items.take(n)),
    decreases items.len() - n,
{
    if n < items.len() {
        lemma_resolution_stops(params, dictionary, items, n + 1);
        assert(items.take(n + 1).drop_last() =~= items.take(n));
    } else {
        assert(items.take(n) =~= items);
    }
}

/// Builds the name of the form field that overrides a dictionary item.
pub fn override_name(dictionary: &str, key: &str) -> (r: String)
    ensures
        r@ == override_key(dictionary@, key@),
{
    let mut name = String::from_str("dict.");
    name.append(dictionary);
    name.append(".");
    name.append(key);
    name
}

impl ActionParams {
    /// No fields at all.
    pub fn none() -> (r: ActionParams)
        ensures
            r@ == Seq::<(Seq<char>, Seq<char>)>::empty(),
    {
        let r = ActionParams { fields: Vec::new() };
        assert(r@ =~= Seq::empty());
        r
    }

    /// A copy of the fields.
    pub fn duplicate(&self) -> (r: ActionParams)
        ensures
            r@ == self@,
    {
        let mut fields: Vec<FormField> = Vec::new();
        let mut i: usize = 0;
        while i < self.fields.len()
            invariant
                i <= self.fields.len(),
                fields@.len() == i,
                forall|j: int|
                    0 <= j < i ==> (#[trigger] fields@[j]).name@ == self.fields@[j].name@
                        && fields@[j].value@ == self.fields@[j].value@,
            decreases self.fields.len() - i,
        {
            fields.push(
                FormField { name: self.fields[i].name.clone(), value: self.fields[i].value.clone() },
            );
            i += 1;
        }
        let r = ActionParams { fields };
        assert(r@ =~= self@);
        r
    }

    /// The value submitted under `key`, if any: where the name comes more
    /// than once, that of the last field.
    pub fn get(&self, key: &str) -> (r: Option<&String>)
        ensures
            opt_text_ref(r) == param_value(self@, key@),
    {
        let mut i: usize = self.fields.len();
        assert(self@.take(i as int) =~= self@);
        while i > 0
            invariant
                i <= self.fields.len(),
                param_value(self@, key@) == param_value(self@.take(i as int), key@),
            decreases i,
        {
            i -= 1;
            assert(self@.take(i + 1).drop_last() =~= self@.take(i as int));
            if same_text(self.fields[i].name.as_str(), key) {
                return Some(&self.fields[i].value);
            }
        }
        None
    }
}

/// An optional borrowed text as an optional sequence of characters.
pub open spec fn opt_text_ref(s: Option<&String>) -> Option<Seq<char>> {
    match s {
        Some(t) => Some(t@),
        None => None,
    }
}

impl DictionaryItemSpec {
    /// The value that the item is created with in the dictionary named
    /// `dictionary`: the submitted one takes precedence over the declared
    /// default, and an item with neither is an error that names its key.
    pub fn resolve(&self, params: &ActionParams, dictionary: &str) -> (r: Result<
        String,
        DeployError,
    >)
        ensures
            match r {
                Ok(v) => resolved_value(params@, dictionary@, self@) == Ok::<
                    Seq<char>,
                    DeployErrorModel,
                >(v@),
                Err(e) => resolved_value(params@, dictionary@, self@) == Err::<
                    Seq<char>,
                    DeployErrorModel,
                >(e@),
            },
    {
        let name = override_name(dictionary, self.key.as_str());
        match params.get(name.as_str()) {
            Some(v) => Ok(v.clone()),
            None => match &self.value {
                Some(d) => Ok(d.clone()),
                None => Err(DeployError::MissingValue(self.key.clone())),
            },
        }
    }
}

/// An item with both a submitted value and a default is created with the
/// submitted one; with a default only, with the default; with neither, the
/// attempt fails with the error that names the item's key.
pub proof fn lemma_value_precedence(
    params: Seq<(Seq<char>, Seq<char>)>,
    dictionary: Seq<char>,
    item: ItemModel,
)
    ensures
        param_value(params, override_key(dictionary, item.key)) is Some ==> resolved_value(
            params,
            dictionary,
            item,
        ) == Ok::<Seq<char>, DeployErrorModel>(
            param_value(params, override_key(dictionary, item.key))->0,
        ),
        param_value(params, override_key(dictionary, item.key)) is None && item.value is Some
            ==> resolved_value(params, dictionary, item) == Ok::<Seq<char>, DeployErrorModel>(
            item.value->0,
        ),
        param_value(params, override_key(dictionary, item.key)) is None && item.value is None
            ==> resolved_value(params, dictionary, item) == Err::<Seq<char>, DeployErrorModel>(
            DeployErrorModel::MissingValue(item.key),
        ),
{
}

} // verus!
