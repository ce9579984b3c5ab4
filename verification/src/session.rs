use vstd::prelude::*;
use vstd::string::*;
use crate::encoding::{armor, armored, decodable_length, text_encodable, unarmor, unarmored};
use crate::github::GitHubNWO;
use crate::json::{json_exact, json_parsed, json_text, parse_json, render_json, text_precedes};
use crate::text::{
    after_first, before_first, opt_text, same_text, split_first, trim, trimmed,
};
use crate::tree::{
    field, lookup_from, optional_text, optional_text_node, Node, NodeModel, Record,
};

verus! {

/// The credentials that a user has for the two platforms. Either may be
/// absent.
#[derive(Debug)]
pub struct LoginState {
    pub fastly_token: Option<String>,
    pub github_token: Option<String>,
}

/// How far a deployment has come: the template that was chosen, the
/// repository that was generated from it, and the service that was created.
#[derive(Debug)]
pub struct DeploymentState {
    pub src: Option<GitHubNWO>,
    /// The template and the repository generated from it, as
    /// `template+repository`.
    pub dest: Option<String>,
    pub fastly_service_id: Option<String>,
    pub fastly_domain: Option<String>,
}

/// All that is remembered of a user between requests. The user's browser
/// holds it; the server keeps nothing.
#[derive(Debug)]
pub struct ApplicationState {
    pub login: LoginState,
    pub deploy: DeploymentState,
}

/// A `LoginState` over sequences of characters.
pub struct LoginModel {
    pub fastly_token: Option<Seq<char>>,
    pub github_token: Option<Seq<char>>,
}

/// A `DeploymentState` over sequences of characters.
pub struct ProgressModel {
    pub src: Option<Seq<char>>,
    pub dest: Option<Seq<char>>,
    pub fastly_service_id: Option<Seq<char>>,
    pub fastly_domain: Option<Seq<char>>,
}

/// An `ApplicationState` over sequences of characters.
pub struct StateModel {
    pub login: LoginModel,
    pub deploy: ProgressModel,
}

impl View for LoginState {
    type V = LoginModel;

    open spec fn view(&self) -> LoginModel {
        LoginModel {
            fastly_token: opt_text(self.fastly_token),
            github_token: opt_text(self.github_token),
        }
    }
}

impl View for DeploymentState {
    type V = ProgressModel;

    open spec fn view(&self) -> ProgressModel {
        ProgressModel {
            src: opt_text(self.src),
            dest: opt_text(self.dest),
            fastly_service_id: opt_text(self.fastly_service_id),
            fastly_domain: opt_text(self.fastly_domain),
        }
    }
}

impl View for ApplicationState {
    type V = StateModel;

    open spec fn view(&self) -> StateModel {
        StateModel { login: self.login@, deploy: self.deploy@ }
    }
}

/// Nobody is logged in.
pub open spec fn no_login() -> LoginModel {
    LoginModel { fastly_token: None, github_token: None }
}

/// No deployment is under way.
pub open spec fn no_progress() -> ProgressModel {
    ProgressModel { src: None, dest: None, fastly_service_id: None, fastly_domain: None }
}

/// The state of a user of whom nothing is known.
pub open spec fn empty_state() -> StateModel {
    StateModel { login: no_login(), deploy: no_progress() }
}

impl Default for LoginState {
    fn default() -> (r: LoginState)
        ensures
            r@ == no_login(),
    {
        LoginState { fastly_token: None, github_token: None }
    }
}

impl Default for DeploymentState {
    fn default() -> (r: DeploymentState)
        ensures
            r@ == no_progress(),
    {
        DeploymentState { src: None, dest: None, fastly_service_id: None, fastly_domain: None }
    }
}

impl Default for ApplicationState {
    fn default() -> (r: ApplicationState)
        ensures
            r@ == empty_state(),
    {
        ApplicationState { login: LoginState::default(), deploy: DeploymentState::default() }
    }
}

/// The JSON document of a login state.
pub open spec fn login_node(l: LoginModel) -> NodeModel {
    NodeModel::Table(
        Seq::empty().push(("fastly_token"@, optional_text_node(l.fastly_token))).push(
            ("github_token"@, optional_text_node(l.github_token)),
        ),
    )
}

/// The JSON document of a deployment state.
pub open spec fn progress_node(d: ProgressModel) -> NodeModel {
    NodeModel::Table(
        Seq::empty().push(("dest"@, optional_text_node(d.dest))).push(
            ("fastly_domain"@, optional_text_node(d.fastly_domain)),
        ).push(("fastly_service_id"@, optional_text_node(d.fastly_service_id))).push(
            ("src"@, optional_text_node(d.src)),
        ),
    )
}

/// The JSON document of a state.
pub open spec fn state_node(s: StateModel) -> NodeModel {
    NodeModel::Table(
        Seq::empty().push(("deploy"@, progress_node(s.deploy))).push(
            ("login"@, login_node(s.login)),
        ),
    )
}

/// The login state that a JSON document holds, if it holds one: a table
/// whose two fields, where they are there and not null, are texts.
pub open spec fn login_of(node: NodeModel) -> Option<LoginModel> {
    match (node, optional_text(node, "fastly_token"@), optional_text(node, "github_token"@)) {
        (NodeModel::Table(_), Ok(fastly_token), Ok(github_token)) => Some(
            LoginModel { fastly_token, github_token },
        ),
        _ => None,
    }
}

/// The deployment state that a JSON document holds, if it holds one.
pub open spec fn progress_of(node: NodeModel) -> Option<ProgressModel> {
    match (
        node,
        optional_text(node, "src"@),
        optional_text(node, "dest"@),
        optional_text(node, "fastly_service_id"@),
        optional_text(node, "fastly_domain"@),
    ) {
        (NodeModel::Table(_), Ok(src), Ok(dest), Ok(fastly_service_id), Ok(fastly_domain)) => Some(
            ProgressModel { src, dest, fastly_service_id, fastly_domain },
        ),
        _ => None,
    }
}

/// The state that a JSON document holds, if it holds one.
pub open spec fn state_of(node: NodeModel) -> Option<StateModel> {
    match (field(node, "login"@), field(node, "deploy"@)) {
        (Some(l), Some(d)) => match (login_of(l), progress_of(d)) {
            (Some(login), Some(deploy)) => Some(StateModel { login, deploy }),
            _ => None,
        },
        _ => None,
    }
}

/// The token that carries a state: the base64 of its JSON text.
pub open spec fn token_of_state(s: StateModel) -> Seq<char> {
    armored(json_text(state_node(s)))
}

/// The state that a token carries. A token that is not base64, does not
/// hold text, does not hold JSON, or does not hold a state carries the empty
/// state.
pub open spec fn state_of_token(token: Seq<char>) -> StateModel {
    if !decodable_length(token) {
        empty_state()
    } else {
        match unarmored(token) {
            None => empty_state(),
            Some(text) => match json_parsed(text) {
                Err(_) => empty_state(),
                Ok(node) => match state_of(node) {
                    Some(s) => s,
                    None => empty_state(),
                },
            },
        }
    }
}

/// Whether a token can stand as the value of a cookie: it holds no
/// semicolon and no whitespace.
pub open spec fn cookie_safe(token: Seq<char>) -> bool {
    forall|i: int|
        0 <= i < token.len() ==> (#[trigger] token[i]) != ';' && !crate::text::is_whitespace(
            token[i],
        )
}

/// Whether a token can stand as the value of a cookie.
pub fn is_cookie_safe(token: &str) -> (r: bool)
    ensures
        r == cookie_safe(token@),
{
    let chars = crate::text::chars_of(token);
    let mut i: usize = 0;
    while i < chars.len()
        invariant
            i <= chars.len(),
            chars@ == token@,
            forall|j: int|
                0 <= j < i ==> (#[trigger] chars@[j]) != ';' && !crate::text::is_whitespace(
                    chars@[j],
                ),
        decreases chars.len() - i,
    {
        let c = chars[i];
        if c == ';' || c.is_whitespace() {
            return false;
        }
        i += 1;
    }
    true
}

/// Whether a state can be carried in a token: its JSON text is short enough
/// for the encoder, the token is short enough for the decoder, and the
/// token can stand as the value of a cookie.
pub open spec fn state_encodable(s: StateModel) -> bool {
    text_encodable(json_text(state_node(s))) && decodable_length(token_of_state(s))
        && cookie_safe(token_of_state(s))
}

/// The field names of a state stand in increasing order in its document.
proof fn lemma_key_order()
    ensures
        text_precedes("deploy"@, "login"@),
        text_precedes("fastly_token"@, "github_token"@),
        text_precedes("dest"@, "fastly_domain"@),
        text_precedes("dest"@, "fastly_service_id"@),
        text_precedes("dest"@, "src"@),
        text_precedes("fastly_domain"@, "fastly_service_id"@),
        text_precedes("fastly_domain"@, "src"@),
        text_precedes("fastly_service_id"@, "src"@),
{
    reveal_strlit("deploy");
    reveal_strlit("login");
    reveal_strlit("fastly_token");
    reveal_strlit("github_token");
    reveal_strlit("dest");
    reveal_strlit("fastly_domain");
    reveal_strlit("fastly_service_id");
    reveal_strlit("src");
    assert("deploy"@.take(0) =~= "login"@.take(0));
    assert("fastly_token"@.take(0) =~= "github_token"@.take(0));
    assert("dest"@.take(0) =~= "fastly_domain"@.take(0));
    assert("dest"@.take(0) =~= "fastly_service_id"@.take(0));
    assert("dest"@.take(0) =~= "src"@.take(0));
    assert("fastly_domain"@.take(7) =~= "fastly_service_id"@.take(7));
    assert("fastly_domain"@.take(0) =~= "src"@.take(0));
    assert("fastly_service_id"@.take(0) =~= "src"@.take(0));
}

/// The field names of each table of a state differ from one another.
proof fn lemma_keys_differ()
    ensures
        "deploy"@ != "login"@,
        "fastly_token"@ != "github_token"@,
        "dest"@ != "fastly_domain"@,
        "dest"@ != "fastly_service_id"@,
        "dest"@ != "src"@,
        "fastly_domain"@ != "fastly_service_id"@,
        "fastly_domain"@ != "src"@,
        "fastly_service_id"@ != "src"@,
{
    reveal_strlit("deploy");
    reveal_strlit("login");
    reveal_strlit("fastly_token");
    reveal_strlit("github_token");
    reveal_strlit("dest");
    reveal_strlit("fastly_domain");
    reveal_strlit("fastly_service_id");
    reveal_strlit("src");
    assert("deploy"@[0] != "login"@[0]);
    assert("fastly_token"@[0] != "github_token"@[0]);
    assert("dest"@[0] != "fastly_domain"@[0]);
    assert("dest"@[0] != "fastly_service_id"@[0]);
    assert("dest"@[0] != "src"@[0]);
    assert("fastly_domain"@[7] != "fastly_service_id"@[7]);
    assert("fastly_domain"@[0] != "src"@[0]);
    assert("fastly_service_id"@[0] != "src"@[0]);
}

/// The document of a state survives being written as JSON and read back.
proof fn lemma_state_node_exact(s: StateModel)
    ensures
        json_exact(state_node(s), 64),
{
    lemma_key_order();
    let l = login_node(s.login);
    let d = progress_node(s.deploy);
    assert(json_exact(l, 63)) by {
        let fields = l->Table_0;
        assert forall|i: int| 0 <= i < fields.len() implies json_exact(
            (#[trigger] fields[i]).1,
            62,
        ) by {}
    }
    assert(json_exact(d, 63)) by {
        let fields = d->Table_0;
        assert forall|i: int| 0 <= i < fields.len() implies json_exact(
            (#[trigger] fields[i]).1,
            62,
        ) by {}
    }
    let fields = state_node(s)->Table_0;
    assert forall|i: int| 0 <= i < fields.len() implies json_exact((#[trigger] fields[i]).1, 63) by {}
}

/// The document of a state holds that state.
proof fn lemma_state_reads_back(s: StateModel)
    ensures
        state_of(state_node(s)) == Some(s),
{
    lemma_keys_differ();
    reveal_with_fuel(lookup_from, 5);
    let l = login_node(s.login);
    let d = progress_node(s.deploy);
    assert(optional_text(l, "fastly_token"@) == Ok::<Option<Seq<char>>, Seq<char>>(
        s.login.fastly_token,
    ));
    assert(optional_text(l, "github_token"@) == Ok::<Option<Seq<char>>, Seq<char>>(
        s.login.github_token,
    ));
    assert(optional_text(d, "src"@) == Ok::<Option<Seq<char>>, Seq<char>>(s.deploy.src));
    assert(optional_text(d, "dest"@) == Ok::<Option<Seq<char>>, Seq<char>>(s.deploy.dest));
    assert(optional_text(d, "fastly_service_id"@) == Ok::<Option<Seq<char>>, Seq<char>>(
        s.deploy.fastly_service_id,
    ));
    assert(optional_text(d, "fastly_domain"@) == Ok::<Option<Seq<char>>, Seq<char>>(
        s.deploy.fastly_domain,
    ));
}

impl LoginState {
    /// The JSON document of the login state.
    pub fn to_node(&self) -> (r: Node)
        ensures
            r@ == login_node(self@),
    {
        Record::new().with_optional_text("fastly_token", &self.fastly_token).with_optional_text(
            "github_token",
            &self.github_token,
        ).finish()
    }

    /// Reads a login state from a JSON document.
    pub fn from_node(node: &Node) -> (r: Option<LoginState>)
        ensures
            match r {
                Some(l) => login_of(node@) == Some(l@),
                None => login_of(node@) is None,
            },
    {
        match node {
            Node::Table(_) => {},
            _ => {
                return None;
            },
        }
        let fastly_token = match node.maybe_text("fastly_token") {
            Ok(v) => v,
            Err(_) => {
                return None;
            },
        };
        let github_token = match node.maybe_text("github_token") {
            Ok(v) => v,
            Err(_) => {
                return None;
            },
        };
        Some(LoginState { fastly_token, github_token })
    }
}

impl DeploymentState {
    /// The JSON document of the deployment state.
    pub fn to_node(&self) -> (r: Node)
        ensures
            r@ == progress_node(self@),
    {
        Record::new().with_optional_text("dest", &self.dest).with_optional_text(
            "fastly_domain",
            &self.fastly_domain,
        ).with_optional_text("fastly_service_id", &self.fastly_service_id).with_optional_text(
            "src",
            &self.src,
        ).finish()
    }

    /// Reads a deployment state from a JSON document.
    pub fn from_node(node: &Node) -> (r: Option<DeploymentState>)
        ensures
            match r {
                Some(l) => progress_of(node@) == Some(l@),
                None => progress_of(node@) is None,
            },
    {
        match node {
            Node::Table(_) => {},
            _ => {
                return None;
            },
        }
        let src = match node.maybe_text("src") {
            Ok(v) => v,
            Err(_) => {
                return None;
            },
        };
        let dest = match node.maybe_text("dest") {
            Ok(v) => v,
            Err(_) => {
                return None;
            },
        };
        let fastly_service_id = match node.maybe_text("fastly_service_id") {
            Ok(v) => v,
            Err(_) => {
                return None;
            },
        };
        let fastly_domain = match node.maybe_text("fastly_domain") {
            Ok(v) => v,
            Err(_) => {
                return None;
            },
        };
        Some(DeploymentState { src, dest, fastly_service_id, fastly_domain })
    }
}

impl ApplicationState {
    /// The JSON document of the state.
    pub fn to_node(&self) -> (r: Node)
        ensures
            r@ == state_node(self@),
    {
        Record::new().with("deploy", self.deploy.to_node()).with(
            "login",
            self.login.to_node(),
        ).finish()
    }

    /// Reads a state from a JSON document.
    pub fn from_node(node: &Node) -> (r: Option<ApplicationState>)
        ensures
            match r {
                Some(s) => state_of(node@) == Some(s@),
                None => state_of(node@) is None,
            },
    {
        let login = match node.get("login") {
            Some(l) => l,
            None => {
                return None;
            },
        };
        let deploy = match node.get("deploy") {
            Some(d) => d,
            None => {
                return None;
            },
        };
        let login = match LoginState::from_node(login) {
            Some(l) => l,
            None => {
                return None;
            },
        };
        let deploy = match DeploymentState::from_node(deploy) {
            Some(d) => d,
            None => {
                return None;
            },
        };
        Some(ApplicationState { login, deploy })
    }

    /// Writes the state as a token: the base64 of its JSON text. Decoding
    /// the token gives the state back, and the token holds no semicolon and
    /// no whitespace, so that a cookie carries it whole. There is no token
    /// only for a state that cannot be carried.
    pub fn encode(&self) -> (r: Option<String>)
        ensures
            match r {
                Some(token) => state_encodable(self@) && token@ == token_of_state(self@)
                    && state_of_token(token@) == self@ && cookie_safe(token@) && cookie_value(
                    state_cookie() + "="@ + token@,
                    state_cookie(),
                ) == Some(token@),
                None => !state_encodable(self@),
            },
    {
        let node = self.to_node();
        let text = render_json(&node);
        proof {
            lemma_state_node_exact(self@);
            lemma_state_reads_back(self@);
        }
        match armor(text.as_str()) {
            None => None,
            Some(token) => {
                if token.as_str().as_bytes().len() > usize::MAX - 7 {
                    None
                } else if !is_cookie_safe(token.as_str()) {
                    None
                } else {
                    proof {
                        lemma_cookie_carries_token(token@);
                    }
                    Some(token)
                }
            },
        }
    }

    /// Reads the state that a token carries. A token that is empty, cut
    /// short or otherwise not what `encode` writes gives the empty state,
    /// never an error.
    pub fn decode(token: &str) -> (r: ApplicationState)
        ensures
            r@ == state_of_token(token@),
    {
        let text = match unarmor(token) {
            Some(t) => t,
            None => {
                return ApplicationState::default();
            },
        };
        let node = match parse_json(text.as_str()) {
            Ok(n) => n,
            Err(_) => {
                return ApplicationState::default();
            },
        };
        match ApplicationState::from_node(&node) {
            Some(s) => s,
            None => ApplicationState::default(),
        }
    }

    /// The state of a request: that of its token, or the empty state where
    /// the request carries none.
    pub fn restore(token: Option<&str>) -> (r: ApplicationState)
        ensures
            r@ == match token {
                Some(t) => state_of_token(t@),
                None => empty_state(),
            },
    {
        match token {
            Some(t) => ApplicationState::decode(t),
            None => ApplicationState::default(),
        }
    }
}

/// The state that comes back when a browser returns the state cookie with
/// this token as its value.
pub open spec fn carried_back(token: Seq<char>) -> StateModel {
    match cookie_value(state_cookie() + "="@ + token, state_cookie()) {
        Some(value) => state_of_token(value),
        None => empty_state(),
    }
}

/// The name of the cookie that carries the state.
pub open spec fn state_cookie() -> Seq<char> {
    "__Secure-Deploy-Config"@
}

/// The header value that sets the state cookie to a token: for secure
/// transport only, out of reach of scripts, for every path.
pub open spec fn state_cookie_header(token: Seq<char>) -> Seq<char> {
    state_cookie() + "="@ + token + "; Secure; HttpOnly; Path=/;"@
}

/// Builds the header value that hands the state to the browser, or none for
/// a state that cannot be carried. The token in it survives the cookie and
/// decodes to the state.
pub fn update_state(state: &ApplicationState) -> (r: Option<String>)
    ensures
        match r {
            Some(header) => state_encodable(state@) && header@ == state_cookie_header(
                token_of_state(state@),
            ) && carried_back(token_of_state(state@)) == state@,
            None => !state_encodable(state@),
        },
{
    match state.encode() {
        None => None,
        Some(token) => {
            let mut header = String::from_str("__Secure-Deploy-Config");
            header.append("=");
            header.append(token.as_str());
            header.append("; Secure; HttpOnly; Path=/;");
            Some(header)
        },
    }
}

/// The value that one cookie of a header gives to `key`: the cookie is a
/// name, `=`, and a value, which is all that follows; whitespace around the
/// cookie does not count. A piece without `=` is no cookie.
pub open spec fn cookie_piece_value(piece: Seq<char>, key: Seq<char>) -> Option<Seq<char>> {
    let cookie = trimmed(piece);
    match after_first(cookie, '=') {
        Some(value) => if before_first(cookie, '=') == key {
            Some(value)
        } else {
            None
        },
        None => None,
    }
}

/// The value that a cookie header gives to `key`: that of the last cookie
/// with this name among those that semicolons separate.
pub open spec fn cookie_value(header: Seq<char>, key: Seq<char>) -> Option<Seq<char>>
    decreases header.len(),
{
    let here = cookie_piece_value(before_first(header, ';'), key);
    match after_first(header, ';') {
        Some(rest) => if rest.len() < header.len() {
            match cookie_value(rest, key) {
                Some(v) => Some(v),
                None => here,
            }
        } else {
            here
        },
        None => here,
    }
}

/// Reads the value that one cookie gives to `key`.
pub fn get_cookie_piece(piece: &str, key: &str) -> (r: Option<String>)
    ensures
        opt_text(r) == cookie_piece_value(piece@, key@),
{
    let cookie = trim(piece);
    let (name, rest) = split_first(cookie.as_str(), '=');
    match rest {
        Some(value) => {
            if same_text(name.as_str(), key) {
                Some(value)
            } else {
                None
            }
        },
        None => None,
    }
}

/// Reads the value that a cookie header gives to `key`.
pub fn get_cookie(header: &str, key: &str) -> (r: Option<String>)
    ensures
        opt_text(r) == cookie_value(header@, key@),
{
    let mut found: Option<String> = None;
    let mut rest: String = String::from_str(header);
    loop
        invariant
            cookie_value(header@, key@) == match cookie_value(rest@, key@) {
                Some(v) => Some(v),
                None => opt_text(found),
            },
        decreases rest@.len(),
    {
        let (piece, tail) = split_first(rest.as_str(), ';');
        let here = get_cookie_piece(piece.as_str(), key);
        match tail {
            Some(tail) => {
                proof {
                    crate::text::lemma_first_index(rest@, ';');
                }
                if here.is_some() {
                    found = here;
                }
                rest = tail;
            },
            None => {
                return if here.is_some() {
                    here
                } else {
                    found
                };
            },
        }
    }
}

/// A cookie header that holds the state cookie alone gives back the whole
/// token, padding and all, for every token that can stand as the value of a
/// cookie.
pub proof fn lemma_cookie_carries_token(token: Seq<char>)
    requires
        cookie_safe(token),
    ensures
        cookie_value(state_cookie() + "="@ + token, state_cookie()) == Some(token),
{
    assert(!token.contains(';')) by {
        if token.contains(';') {
            let i = choose|i: int| 0 <= i < token.len() && token[i] == ';';
            assert(token[i] != ';');
        }
    }
    if token.len() > 0 {
        assert(!crate::text::is_whitespace(token[token.len() - 1]));
    }
    reveal_strlit("__Secure-Deploy-Config");
    reveal_strlit("=");
    let name = state_cookie();
    let header = name + "="@ + token;
    assert(name.len() == 22);
    assert(header.len() == 23 + token.len());
    assert(header[22] == '=');
    assert forall|i: int| 0 <= i < header.len() implies header[i] != ';' by {
        if i >= 23 {
            assert(header[i] == token[i - 23]);
            assert(token.contains(token[i - 23]));
        } else if i < 22 {
            assert(header[i] == name[i]);
        }
    }
    crate::text::lemma_first_index_is(header, ';', header.len() as int);
    assert(header.take(header.len() as int) =~= header);
    assert(!crate::text::is_whitespace(header[0])) by {
        assert(header[0] == name[0]);
    }
    assert(!crate::text::is_whitespace(header.last())) by {
        if token.len() > 0 {
            assert(header.last() == token.last());
        }
    }
    assert(trimmed(header) == header);
    assert forall|i: int| 0 <= i < 22 implies header[i] != '=' by {
        assert(header[i] == name[i]);
    }
    crate::text::lemma_first_index_is(header, '=', 22);
    assert(header.take(22) =~= name);
    assert(header.skip(23) =~= token);
}

} // verus!
