//! The command line client's configuration and onboarding steps.
use vstd::prelude::*;
use crate::connection_definition::{AuthSecret, ConnectionDefinition, FormDataItem};

verus! {

pub const CONFIG_FILE_NAME: &'static str = "credentials.toml";
pub const CONFIG_FILE_PATH: &'static str = ".pica";
pub const DEFAULT_LIMIT: u32 = 10;
pub const HEADER_SECRET_KEY: &'static str = "x-pica-secret";
pub const DEFAULT_API: &'static str = "https://api.picaos.com";
pub const DEFAULT_BASE: &'static str = "https://app.picaos.com";
pub const DEFAULT_PORT: u64 = 30000;

/// The addresses of the API and of the web application.
pub struct Server {
    api: String,
    base: String,
}

impl Server {
    pub fn new(api: String, base: String) -> (r: Server)
        ensures
            r.api_view() == api@,
            r.base_view() == base@,
    {
        Server { api, base }
    }

    pub closed spec fn api_view(&self) -> Seq<char> {
        self.api@
    }

    pub closed spec fn base_view(&self) -> Seq<char> {
        self.base@
    }

    pub fn api(&self) -> (r: &str)
        ensures
            r@ == self.api_view(),
    {
        self.api.as_str()
    }

    pub fn base(&self) -> (r: &str)
        ensures
            r@ == self.base_view(),
    {
        self.base.as_str()
    }
}

impl Default for Server {
    /// Both addresses empty.
    fn default() -> (r: Server)
        ensures
            r.api_view().len() == 0,
            r.base_view().len() == 0,
    {
        Server { api: String::new(), base: String::new() }
    }
}

/// The secret keys of the sandbox and production environments.
pub struct Keys {
    sandbox: String,
    production: String,
}

impl Keys {
    pub fn new(sandbox: String, production: String) -> (r: Keys)
        ensures
            r.sandbox_view() == sandbox@,
            r.production_view() == production@,
    {
        Keys { sandbox, production }
    }

    pub closed spec fn sandbox_view(&self) -> Seq<char> {
        self.sandbox@
    }

    pub closed spec fn production_view(&self) -> Seq<char> {
        self.production@
    }

    pub fn sandbox(&self) -> (r: &str)
        ensures
            r@ == self.sandbox_view(),
    {
        self.sandbox.as_str()
    }

    pub fn production(&self) -> (r: &str)
        ensures
            r@ == self.production_view(),
    {
        self.production.as_str()
    }
}

impl Default for Keys {
    /// Both keys empty.
    fn default() -> (r: Keys)
        ensures
            r.sandbox_view().len() == 0,
            r.production_view().len() == 0,
    {
        Keys { sandbox: String::new(), production: String::new() }
    }
}

/// The HTTP settings of the client.
pub struct Http {
    timeout: Option<u64>,
}

impl Http {
    pub fn new(timeout: Option<u64>) -> (r: Http)
        ensures
            r.timeout_view() == timeout,
    {
        Http { timeout }
    }

    pub closed spec fn timeout_view(&self) -> Option<u64> {
        self.timeout
    }

    pub fn timeout(&self) -> (r: Option<u64>)
        ensures
            r == self.timeout_view(),
    {
        self.timeout
    }
}

impl Default for Http {
    /// No timeout configured.
    fn default() -> (r: Http)
        ensures
            r.timeout_view() is None,
    {
        Http { timeout: None }
    }
}

/// The configuration file of the client.
pub struct CliConfig {
    server: Server,
    keys: Keys,
    http: Http,
}

impl CliConfig {
    pub fn new(server: Server, keys: Keys, http: Http) -> (r: CliConfig)
        ensures
            r.server_view() == server,
            r.keys_view() == keys,
            r.http_view() == http,
    {
        CliConfig { keys, http, server }
    }

    pub closed spec fn server_view(&self) -> Server {
        self.server
    }

    pub closed spec fn keys_view(&self) -> Keys {
        self.keys
    }

    pub closed spec fn http_view(&self) -> Http {
        self.http
    }

    pub fn http(&self) -> (r: &Http)
        ensures
            *r == self.http_view(),
    {
        &self.http
    }

    pub fn server(&self) -> (r: &Server)
        ensures
            *r == self.server_view(),
    {
        &self.server
    }

    pub fn keys(&self) -> (r: &Keys)
        ensures
            *r == self.keys_view(),
    {
        &self.keys
    }
}

impl Default for CliConfig {
    /// The default server, keys and HTTP settings: empty addresses, empty
    /// keys and no timeout.
    fn default() -> (r: CliConfig)
        ensures
            r.server_view().api_view().len() == 0,
            r.server_view().base_view().len() == 0,
            r.keys_view().sandbox_view().len() == 0,
            r.keys_view().production_view().len() == 0,
            r.http_view().timeout_view() is None,
    {
        CliConfig { server: Server::default(), keys: Keys::default(), http: Http::default() }
    }
}

/// The timeout of the client's requests, in milliseconds: none configured is 0.
pub fn http_timeout_millis(config: &CliConfig) -> (r: u64)
    ensures
        r == match config.http_view().timeout_view() {
            Some(t) => t,
            None => 0,
        },
{
    match config.http().timeout() {
        Some(t) => t,
        None => 0,
    }
}

/// `s` when given, else `default`.
pub fn or_default(s: Option<String>, default: &str) -> (r: String)
    ensures
        r@ == match s {
            Some(x) => x@,
            None => default@,
        },
{
    match s {
        Some(x) => x,
        None => String::from_str(default),
    }
}

/// The configuration written after onboarding: the keys received, the
/// addresses given (or the public ones) and the default port as timeout.
pub fn onboarding_config(
    sandbox: String,
    production: String,
    api_url: Option<String>,
    base_url: Option<String>,
) -> (r: CliConfig)
    ensures
        r.keys_view().sandbox_view() == sandbox@,
        r.keys_view().production_view() == production@,
        r.server_view().api_view() == match api_url {
            Some(a) => a@,
            None => DEFAULT_API@,
        },
        r.server_view().base_view() == match base_url {
            Some(b) => b@,
            None => DEFAULT_BASE@,
        },
        r.http_view().timeout_view() == Some(DEFAULT_PORT),
{
    let http = Http::new(Some(DEFAULT_PORT));
    let keys = Keys::new(sandbox, production);
    let server = Server::new(or_default(api_url, DEFAULT_API), or_default(base_url, DEFAULT_BASE));
    CliConfig::new(server, keys, http)
}

/// Where the browser is sent to log in with GitHub.
pub fn github_login_url(api_url: Option<String>) -> (r: String)
    ensures
        r@ == match api_url {
            Some(a) => a@,
            None => DEFAULT_API@,
        } + "/public/v3/users/oauth/provider/github"@,
{
    or_default(api_url, DEFAULT_API).concat("/public/v3/users/oauth/provider/github")
}

/// Where the code of a GitHub login is exchanged for keys.
pub fn github_auth_url(api_url: Option<String>) -> (r: String)
    ensures
        r@ == match api_url {
            Some(a) => a@,
            None => DEFAULT_API@,
        } + "/auth/github"@,
{
    or_default(api_url, DEFAULT_API).concat("/auth/github")
}

/// One question of the connection form: what to ask and under which key the
/// answer goes.
pub struct Step {
    question: String,
    key: String,
}

/// The question asked for a form field of a definition.
pub open spec fn step_question(label: Seq<char>, definition_name: Seq<char>) -> Seq<char> {
    "Please enter the `"@ + label + "` for `"@ + definition_name + "`: "@
}

/// The position of the first form field named `name`.
pub open spec fn form_field_named(items: Seq<FormDataItem>, name: Seq<char>) -> Option<int>
    decreases items.len(),
{
    if items.len() == 0 {
        None
    } else if items[0].name@ == name {
        Some(0)
    } else {
        match form_field_named(items.drop_first(), name) {
            Some(i) => Some(i + 1),
            None => None,
        }
    }
}

/// The steps for the secrets of a definition, in order: one for each secret
/// that has a form field, asking for that field's label.
pub open spec fn spec_steps(
    secrets: Seq<AuthSecret>,
    items: Seq<FormDataItem>,
    definition_name: Seq<char>,
) -> Seq<(Seq<char>, Seq<char>)>
    decreases secrets.len(),
{
    if secrets.len() == 0 {
        Seq::empty()
    } else {
        let prev = spec_steps(secrets.drop_last(), items, definition_name);
        let name = secrets.last().name@;
        match form_field_named(items, name) {
            Some(i) => prev.push((step_question(items[i].label@, definition_name), name)),
            None => prev,
        }
    }
}

pub open spec fn step_view(s: Step) -> (Seq<char>, Seq<char>) {
    (s.question_view(), s.key_view())
}

fn find_form_field(items: &Vec<FormDataItem>, name: &String) -> (r: Option<usize>)
    ensures
        match r {
            Some(i) => form_field_named(items@, name@) == Some(i as int) && i < items@.len(),
            None => form_field_named(items@, name@) is None,
        },
{
    let mut i: usize = 0;
    assert(items@.skip(0) =~= items@);
    while i < items.len()
        invariant
            i <= items.len(),
            form_field_named(items@, name@) == match form_field_named(
                items@.skip(i as int),
                name@,
            ) {
                Some(j) => Some(j + i),
                None => None::<int>,
            },
        decreases items.len() - i,
    {
        assert(items@.skip(i as int).drop_first() =~= items@.skip(i + 1));
        if items[i].name == *name {
            return Some(i);
        }
        i = i + 1;
    }
    None
}

impl Step {
    pub fn new(question: String, key: String) -> (r: Step)
        ensures
            r.question_view() == question@,
            r.key_view() == key@,
    {
        Step { question, key }
    }

    pub closed spec fn question_view(&self) -> Seq<char> {
        self.question@
    }

    pub closed spec fn key_view(&self) -> Seq<char> {
        self.key@
    }

    pub fn question(&self) -> (r: &str)
        ensures
            r@ == self.question_view(),
    {
        self.question.as_str()
    }

    pub fn key(&self) -> (r: &str)
        ensures
            r@ == self.key_view(),
    {
        self.key.as_str()
    }

    /// The questions to ask to fill in the secrets of a definition.
    pub fn from(conn_def: &ConnectionDefinition) -> (r: Vec<Step>)
        ensures
            r@.map_values(|s: Step| step_view(s)) == spec_steps(
                conn_def.auth_secrets@,
                conn_def.frontend.connection_form.form_data@,
                conn_def.name@,
            ),
    {
        let secrets = &conn_def.auth_secrets;
        let items = &conn_def.frontend.connection_form.form_data;
        let mut out: Vec<Step> = Vec::new();
        let mut i: usize = 0;
        assert(secrets@.take(0) =~= Seq::<AuthSecret>::empty());
        while i < secrets.len()
            invariant
                i <= secrets.len(),
                out@.map_values(|s: Step| step_view(s)) == spec_steps(
                    secrets@.take(i as int),
                    items@,
                    conn_def.name@,
                ),
            decreases secrets.len() - i,
        {
            let name = &secrets[i].name;
            assert(secrets@.take(i + 1).drop_last() =~= secrets@.take(i as int));
            assert(secrets@.take(i + 1).last() == secrets@[i as int]);
            match find_form_field(items, name) {
                Some(j) => {
                    let label = &items[j].label;
                    let question = String::from_str("Please enter the `").concat(
                        label.as_str(),
                    ).concat("` for `").concat(conn_def.name.as_str()).concat("`: ");
                    let ghost old_out = out@;
                    out.push(Step { question, key: name.clone() });
                    assert(out@.map_values(|s: Step| step_view(s)) =~= old_out.map_values(
                        |s: Step| step_view(s),
                    ).push((step_question(label@, conn_def.name@), name@)));
                },
                None => {},
            }
            i = i + 1;
        }
        assert(secrets@.take(secrets.len() as int) =~= secrets@);
        out
    }
}

} // verus!

verus! {

/// The query of the onboarding callback: the code to exchange.
pub struct QueryParams {
    pub code: String,
}

/// The keys that onboarding hands back.
pub struct OnboardingResponse {
    pub production: String,
    pub sandbox: String,
}

/// Writes the client's messages; it holds no state.
#[derive(Clone, Copy, Debug)]
pub struct Printer;

/// A command of the client: it loads its context, checks it, then runs.
pub trait Handler<Context, Command, Event> {
    fn load(&self) -> Result<Context, crate::error::PicaError>;

    fn validate(&self, ctx: &Context) -> Result<(), crate::error::PicaError>;

    fn run(&self, ctx: &Context) -> Result<(), crate::error::PicaError>;
}

} // verus!
