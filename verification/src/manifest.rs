use vstd::prelude::*;
use crate::nesting::{nesting_bounded, too_deep, within_nesting};
use crate::text::opt_text;
use vstd::string::*;
use crate::error::{DeployError, DeployErrorModel};
use crate::tree::text_outcome;

verus! {

/// What `toml_edit` makes of a manifest text that is parsed as a `Document`
/// and written out again: the text it writes, or the parser's message.
pub uninterp spec fn manifest_rendered(text: Seq<char>) -> Result<Seq<char>, Seq<char>>;

/// What `toml_edit` makes of a manifest text that is parsed as a `Document`,
/// given the string `value` under the top-level key `key`, and written out
/// again: the text it writes, or the parser's message.
pub uninterp spec fn manifest_with(text: Seq<char>, key: Seq<char>, value: Seq<char>) -> Result<
    Seq<char>,
    Seq<char>,
>;

/// Whether a character can stand in a key that needs no quotes: a letter of
/// the Latin alphabet, a digit, a hyphen or an underscore.
pub open spec fn is_bare_key_char(c: char) -> bool {
    let n = c as u32;
    0x41 <= n <= 0x5a || 0x61 <= n <= 0x7a || 0x30 <= n <= 0x39 || c == '-' || c == '_'
}

/// Whether a text is a key that needs no quotes.
pub open spec fn bare_key(key: Seq<char>) -> bool {
    key.len() > 0 && forall|i: int| 0 <= i < key.len() ==> is_bare_key_char(#[trigger] key[i])
}

/// Whether a character can stand as it is between double quotes: no control
/// character, no quote of either kind, no backslash.
pub open spec fn is_plain_char(c: char) -> bool {
    c as u32 >= 0x20 && c as u32 != 0x7f && c != '"' && c != '\\' && c != '\''
}

/// Whether a text can be written as a string as it stands, between double
/// quotes.
pub open spec fn plain_value(value: Seq<char>) -> bool {
    forall|i: int| 0 <= i < value.len() ==> is_plain_char(#[trigger] value[i])
}

/// Parses the text as a `toml_edit::Document` and writes the document out
/// with its `Display`. The outcome depends on the text alone. Parser and
/// printer go one call deeper with every array and inline table that stands
/// in another and with every segment of a table header, and have no limit
/// of their own, so `requires` admits only texts within the bounds on
/// nesting.
#[verifier::external_body]
fn reprint(text: &str) -> (r: Result<String, String>)
    requires
        within_nesting(text@),
    ensures
        text_outcome(r) == manifest_rendered(text@),
{
    match text.parse::<toml_edit::Document>() {
        Ok(doc) => Ok(doc.to_string()),
        Err(e) => Err(e.to_string()),
    }
}

/// Parses the text as a `toml_edit::Document`, assigns
/// `toml_edit::value(value)` to the document's item under `key`, and writes
/// the document out. The outcome depends on the three texts alone; it is an
/// error exactly where the text does not parse, and then the same error as
/// without the assignment. The assignment panics on a key that `toml_edit`
/// cannot read as a key, and on a value that it can write in none of its
/// string forms; `requires` admits only keys that need no quotes and values
/// that can stand between double quotes as they are, and, as for `reprint`,
/// only texts within the bounds on nesting.
#[verifier::external_body]
fn reprint_with(text: &str, key: &str, value: &str) -> (r: Result<String, String>)
    requires
        within_nesting(text@),
        bare_key(key@),
        plain_value(value@),
    ensures
        text_outcome(r) == manifest_with(text@, key@, value@),
        r is Ok <==> manifest_rendered(text@) is Ok,
        r is Err ==> text_outcome(r) == manifest_rendered(text@),
{
    match text.parse::<toml_edit::Document>() {
        Ok(mut doc) => {
            doc[key] = toml_edit::value(value);
            Ok(doc.to_string())
        },
        Err(e) => Err(e.to_string()),
    }
}

/// The top-level key of the manifest that holds the id of the service.
pub open spec fn service_id_key() -> Seq<char> {
    "service_id"@
}

/// The message for a service id that cannot be written as it stands.
pub open spec fn unwritable_id() -> Seq<char> {
    "The service id holds a character that the manifest cannot carry"@
}

/// The key of the service id needs no quotes.
proof fn lemma_service_id_key()
    ensures
        bare_key(service_id_key()),
{
    reveal_strlit("service_id");
    let key = service_id_key();
    assert(key.len() == 10);
    assert forall|i: int| 0 <= i < key.len() implies is_bare_key_char(#[trigger] key[i]) by {}
}

/// Whether a text can be written as a string as it stands, between double
/// quotes.
pub fn is_plain_value(value: &str) -> (r: bool)
    ensures
        r == plain_value(value@),
{
    let chars = crate::text::chars_of(value);
    let mut i: usize = 0;
    while i < chars.len()
        invariant
            i <= chars.len(),
            chars@ == value@,
            forall|j: int| 0 <= j < i ==> is_plain_char(#[trigger] chars@[j]),
        decreases chars.len() - i,
    {
        let c = chars[i];
        if (c as u32) < 0x20 || (c as u32) == 0x7f || c == '"' || c == '\\' || c == '\'' {
            return false;
        }
        i += 1;
    }
    true
}

/// A service manifest that can be edited without losing what is not edited:
/// the text as it was read, and the service id to write into it, if one was
/// set.
#[derive(Debug)]
pub struct EditableManifest {
    pub source: String,
    pub service_id: Option<String>,
}

/// An `EditableManifest` over sequences of characters.
pub struct ManifestModel {
    pub source: Seq<char>,
    pub service_id: Option<Seq<char>>,
}

impl View for EditableManifest {
    type V = ManifestModel;

    open spec fn view(&self) -> ManifestModel {
        ManifestModel { source: self.source@, service_id: opt_text(self.service_id) }
    }
}

/// The manifest that a text gives: an error where the text is nested beyond
/// the bounds or is not a well-formed document.
pub open spec fn manifest_loaded(text: Seq<char>) -> Result<ManifestModel, DeployErrorModel> {
    if !within_nesting(text) {
        Err(DeployErrorModel::ManifestParse(too_deep()))
    } else {
        match manifest_rendered(text) {
            Ok(_) => Ok(ManifestModel { source: text, service_id: None }),
            Err(e) => Err(DeployErrorModel::ManifestParse(e)),
        }
    }
}

/// The text of a manifest: the document as read, with the service id under
/// the top-level key `service_id` where one was set. A source that is
/// nested beyond the bounds and an id that cannot be written as it stands
/// are errors.
pub open spec fn manifest_text(m: ManifestModel) -> Result<Seq<char>, DeployErrorModel> {
    if !within_nesting(m.source) {
        Err(DeployErrorModel::ManifestParse(too_deep()))
    } else {
        written_text(m)
    }
}

/// The text of a manifest whose source is within the bounds on nesting.
pub open spec fn written_text(m: ManifestModel) -> Result<Seq<char>, DeployErrorModel> {
    match m.service_id {
        Some(id) => if !plain_value(id) {
            Err(DeployErrorModel::ManifestParse(unwritable_id()))
        } else {
            match manifest_with(m.source, service_id_key(), id) {
                Ok(text) => Ok(text),
                Err(e) => Err(DeployErrorModel::ManifestParse(e)),
            }
        },
        None => match manifest_rendered(m.source) {
            Ok(text) => Ok(text),
            Err(e) => Err(DeployErrorModel::ManifestParse(e)),
        },
    }
}

/// What a result that holds a manifest says, over views.
pub open spec fn manifest_outcome(r: Result<EditableManifest, DeployError>) -> Result<
    ManifestModel,
    DeployErrorModel,
> {
    match r {
        Ok(m) => Ok(m@),
        Err(e) => Err(e@),
    }
}

/// What a result that holds a text says, over views.
pub open spec fn rendering_outcome(r: Result<String, DeployError>) -> Result<
    Seq<char>,
    DeployErrorModel,
> {
    match r {
        Ok(m) => Ok(m@),
        Err(e) => Err(e@),
    }
}

impl EditableManifest {
    /// Reads a manifest. A text that is not a well-formed document is
    /// refused with the parser's message.
    pub fn load(text: &str) -> (r: Result<EditableManifest, DeployError>)
        ensures
            manifest_outcome(r) == manifest_loaded(text@),
    {
        if !nesting_bounded(text) {
            return Err(
                DeployError::ManifestParse(String::from_str("The manifest is nested too deeply")),
            );
        }
        match reprint(text) {
            Ok(_) => Ok(EditableManifest { source: String::from_str(text), service_id: None }),
            Err(e) => Err(DeployError::ManifestParse(e)),
        }
    }

    /// Sets the service id that the manifest is written with. Nothing else
    /// of the manifest changes.
    pub fn set_service_id(&mut self, id: &str)
        ensures
            final(self)@ == (ManifestModel { service_id: Some(id@), ..old(self)@ }),
    {
        self.service_id = Some(String::from_str(id));
    }

    /// The text of the manifest; an error where the text that was read is
    /// not a well-formed document, or the service id cannot be written as it
    /// stands.
    pub fn render(&self) -> (r: Result<String, DeployError>)
        ensures
            rendering_outcome(r) == manifest_text(self@),
    {
        if !nesting_bounded(self.source.as_str()) {
            return Err(
                DeployError::ManifestParse(String::from_str("The manifest is nested too deeply")),
            );
        }
        match &self.service_id {
            Some(id) => {
                if !is_plain_value(id.as_str()) {
                    return Err(
                        DeployError::ManifestParse(
                            String::from_str(
                                "The service id holds a character that the manifest cannot carry",
                            ),
                        ),
                    );
                }
                proof {
                    lemma_service_id_key();
                }
                match reprint_with(self.source.as_str(), "service_id", id.as_str()) {
                    Ok(text) => Ok(text),
                    Err(e) => Err(DeployError::ManifestParse(e)),
                }
            },
            None => match reprint(self.source.as_str()) {
                Ok(text) => Ok(text),
                Err(e) => Err(DeployError::ManifestParse(e)),
            },
        }
    }
}

} // verus!
