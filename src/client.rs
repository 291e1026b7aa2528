use vstd::prelude::*;

use std::collections::HashMap;

use crate::content::{Content, FunctionDeclaration, FunctionParameters, Part};
use crate::registry::FunctionRegistry;
use crate::text::{concat, owned};

verus! {

/// What `build` fails with when a required setting is missing.
pub open spec fn missing_fields_message() -> Seq<char> {
    "Missing required fields to build GeminiClient"@
}

/// The characters of an optional string.
pub open spec fn opt_chars(o: Option<String>) -> Option<Seq<char>> {
    match o {
        Some(s) => Some(s@),
        None => None,
    }
}

/// The two remote operations of the model API.
pub enum Operation {
    CountTokens,
    GenerateContent,
}

impl Operation {
    /// The operation's name as it stands in the endpoint address.
    pub open spec fn spec_name(self) -> Seq<char> {
        match self {
            Operation::CountTokens => "countTokens"@,
            Operation::GenerateContent => "generateContent"@,
        }
    }

    pub fn name(&self) -> (r: &'static str)
        ensures
            r@ == self.spec_name(),
    {
        match self {
            Operation::CountTokens => "countTokens",
            Operation::GenerateContent => "generateContent",
        }
    }
}

/// The address of `operation` for a model of a project in a region, with
/// the key as query parameter.
///
/// The region names the host (`{location}-aiplatform.googleapis.com`) as well
/// as standing in the path, so that each request goes to the regional
/// endpoint of the model it names.
pub open spec fn endpoint_address(
    location: Seq<char>,
    project_id: Seq<char>,
    model: Seq<char>,
    operation: Seq<char>,
    api_key: Seq<char>,
) -> Seq<char> {
    "https://"@ + location + "-aiplatform.googleapis.com/v1beta1/projects/"@ + project_id
        + "/locations/"@ + location + "/models/"@ + model + ":"@ + operation + "?key="@ + api_key
}

/// A client for one model of one project, with the functions that the model
/// may ask to have called.
#[verifier::reject_recursive_types(F)]
pub struct GeminiClient<F> {
    client: reqwest::Client,
    project_id: String,
    model: String,
    location: String,
    api_key: String,
    functions: tokio::sync::Mutex<FunctionRegistry<F>>,
}

impl<F> GeminiClient<F> {
    pub closed spec fn spec_project_id(&self) -> Seq<char> {
        self.project_id@
    }

    pub closed spec fn spec_model(&self) -> Seq<char> {
        self.model@
    }

    pub closed spec fn spec_location(&self) -> Seq<char> {
        self.location@
    }

    pub closed spec fn spec_api_key(&self) -> Seq<char> {
        self.api_key@
    }

    pub closed spec fn spec_transport(&self) -> reqwest::Client {
        self.client
    }

    pub closed spec fn spec_functions(&self) -> &tokio::sync::Mutex<FunctionRegistry<F>> {
        &self.functions
    }

    /// A builder with nothing set.
    pub fn builder() -> (r: GeminiClientBuilder)
        ensures
            r.is_empty(),
    {
        GeminiClientBuilder::default()
    }

    /// The HTTP client that requests go through.
    pub fn transport(&self) -> (r: &reqwest::Client)
        ensures
            *r == self.spec_transport(),
    {
        &self.client
    }

    /// The lock that guards the registered functions.
    pub fn functions(&self) -> (r: &tokio::sync::Mutex<FunctionRegistry<F>>)
        ensures
            r == self.spec_functions(),
    {
        &self.functions
    }

    /// A turn of `role` that says `text`.
    pub fn create_text_content(role: String, text: String) -> (r: Content)
        ensures
            r.role == role,
            r.parts@ == seq![Part::Text(text)],
    {
        let mut parts = Vec::new();
        parts.push(Part::Text(text));
        Content { role, parts }
    }

    /// A turn of `role` that asks for `name` to be called with `args`.
    pub fn create_function_call_content(
        role: String,
        name: String,
        args: HashMap<String, String>,
    ) -> (r: Content)
        ensures
            r.role == role,
            r.parts@ == seq![Part::FunctionCall { name, args }],
    {
        let mut parts = Vec::new();
        parts.push(Part::FunctionCall { name, args });
        Content { role, parts }
    }

    /// The declaration of a function, to tell the model that it exists.
    pub fn create_function_declaration(
        name: String,
        description: String,
        parameters: FunctionParameters,
    ) -> (r: FunctionDeclaration)
        ensures
            r.name == name,
            r.description == description,
            r.parameters == parameters,
    {
        FunctionDeclaration { name, description, parameters }
    }

    /// The address to which `operation` is sent.
    pub fn endpoint(&self, operation: Operation) -> (r: String)
        ensures
            r@ == endpoint_address(
                self.spec_location(),
                self.spec_project_id(),
                self.spec_model(),
                operation.spec_name(),
                self.spec_api_key(),
            ),
    {
        let u = owned("https://");
        let u = concat(u, self.location.as_str());
        let u = concat(u, "-aiplatform.googleapis.com/v1beta1/projects/");
        let u = concat(u, self.project_id.as_str());
        let u = concat(u, "/locations/");
        let u = concat(u, self.location.as_str());
        let u = concat(u, "/models/");
        let u = concat(u, self.model.as_str());
        let u = concat(u, ":");
        let u = concat(u, operation.name());
        let u = concat(u, "?key=");
        concat(u, self.api_key.as_str())
    }
}

/// Collects the settings of a `GeminiClient`; `build` checks that all are
/// there.
pub struct GeminiClientBuilder {
    client: Option<reqwest::Client>,
    project_id: Option<String>,
    model: Option<String>,
    location: Option<String>,
    api_key: Option<String>,
}

impl GeminiClientBuilder {
    pub closed spec fn spec_client(&self) -> Option<reqwest::Client> {
        self.client
    }

    pub closed spec fn spec_project_id(&self) -> Option<Seq<char>> {
        opt_chars(self.project_id)
    }

    pub closed spec fn spec_model(&self) -> Option<Seq<char>> {
        opt_chars(self.model)
    }

    pub closed spec fn spec_location(&self) -> Option<Seq<char>> {
        opt_chars(self.location)
    }

    pub closed spec fn spec_api_key(&self) -> Option<Seq<char>> {
        opt_chars(self.api_key)
    }

    /// Nothing is set.
    pub open spec fn is_empty(&self) -> bool {
        &&& self.spec_client() is None
        &&& self.spec_project_id() is None
        &&& self.spec_model() is None
        &&& self.spec_location() is None
        &&& self.spec_api_key() is None
    }

    /// Every required setting is there.
    pub open spec fn is_complete(&self) -> bool {
        &&& self.spec_client() is Some
        &&& self.spec_project_id() is Some
        &&& self.spec_model() is Some
        &&& self.spec_location() is Some
        &&& self.spec_api_key() is Some
    }

    /// Sets the HTTP client.
    pub fn client(self, client: reqwest::Client) -> (r: Self)
        ensures
            r.spec_client() == Some(client),
            r.spec_project_id() == self.spec_project_id(),
            r.spec_model() == self.spec_model(),
            r.spec_location() == self.spec_location(),
            r.spec_api_key() == self.spec_api_key(),
    {
        GeminiClientBuilder { client: Some(client), ..self }
    }

    /// Sets the project.
    pub fn project_id(self, project_id: String) -> (r: Self)
        ensures
            r.spec_client() == self.spec_client(),
            r.spec_project_id() == Some(project_id@),
            r.spec_model() == self.spec_model(),
            r.spec_location() == self.spec_location(),
            r.spec_api_key() == self.spec_api_key(),
    {
        GeminiClientBuilder { project_id: Some(project_id), ..self }
    }

    /// Sets the model.
    pub fn model(self, model: String) -> (r: Self)
        ensures
            r.spec_client() == self.spec_client(),
            r.spec_project_id() == self.spec_project_id(),
            r.spec_model() == Some(model@),
            r.spec_location() == self.spec_location(),
            r.spec_api_key() == self.spec_api_key(),
    {
        GeminiClientBuilder { model: Some(model), ..self }
    }

    /// Sets the region.
    pub fn location(self, location: String) -> (r: Self)
        ensures
            r.spec_client() == self.spec_client(),
            r.spec_project_id() == self.spec_project_id(),
            r.spec_model() == self.spec_model(),
            r.spec_location() == Some(location@),
            r.spec_api_key() == self.spec_api_key(),
    {
        GeminiClientBuilder { location: Some(location), ..self }
    }

    /// Sets the key sent with each request.
    pub fn api_key(self, api_key: String) -> (r: Self)
        ensures
            r.spec_client() == self.spec_client(),
            r.spec_project_id() == self.spec_project_id(),
            r.spec_model() == self.spec_model(),
            r.spec_location() == self.spec_location(),
            r.spec_api_key() == Some(api_key@),
    {
        GeminiClientBuilder { api_key: Some(api_key), ..self }
    }

    /// A client with these settings and no registered function, if every
    /// setting is there.
    pub fn build<F>(self) -> (r: Result<GeminiClient<F>, String>)
        ensures
            r is Ok <==> self.is_complete(),
            r matches Ok(c) ==> {
                &&& Some(c.spec_transport()) == self.spec_client()
                &&& Some(c.spec_project_id()) == self.spec_project_id()
                &&& Some(c.spec_model()) == self.spec_model()
                &&& Some(c.spec_location()) == self.spec_location()
                &&& Some(c.spec_api_key()) == self.spec_api_key()
            },
            r matches Err(e) ==> e@ == missing_fields_message(),
    {
        match (self.client, self.project_id, self.model, self.location, self.api_key) {
            (Some(client), Some(project_id), Some(model), Some(location), Some(api_key)) => {
                Ok(GeminiClient {
                    client,
                    project_id,
                    model,
                    location,
                    api_key,
                    functions: tokio::sync::Mutex::from(FunctionRegistry::new()),
                })
            },
            _ => Err(owned("Missing required fields to build GeminiClient")),
        }
    }
}

impl Default for GeminiClientBuilder {
    fn default() -> (r: Self)
        ensures
            r.is_empty(),
    {
        GeminiClientBuilder { client: None, project_id: None, model: None, location: None, api_key: None }
    }
}

/// A builder that lacks a single setting cannot build, and once that setting
/// is supplied, with the others kept, it can.
pub proof fn lemma_complete_missing_setting(partial: GeminiClientBuilder, completed: GeminiClientBuilder)
    requires
        // exactly one setting of `partial` is missing
        (partial.spec_client() is None) as int + (partial.spec_project_id() is None) as int
            + (partial.spec_model() is None) as int + (partial.spec_location() is None) as int
            + (partial.spec_api_key() is None) as int == 1,
        // `completed` keeps every setting of `partial` and has the missing one
        partial.spec_client() is Some ==> completed.spec_client() == partial.spec_client(),
        partial.spec_project_id() is Some ==> completed.spec_project_id() == partial.spec_project_id(),
        partial.spec_model() is Some ==> completed.spec_model() == partial.spec_model(),
        partial.spec_location() is Some ==> completed.spec_location() == partial.spec_location(),
        partial.spec_api_key() is Some ==> completed.spec_api_key() == partial.spec_api_key(),
        completed.spec_client() is Some,
        completed.spec_project_id() is Some,
        completed.spec_model() is Some,
        completed.spec_location() is Some,
        completed.spec_api_key() is Some,
    ensures
        !partial.is_complete(),
        completed.is_complete(),
{
}

} // verus!
