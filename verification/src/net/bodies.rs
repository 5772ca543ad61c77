use vstd::prelude::*;
use crate::capability::Capability;
use crate::net::request::ReqModel;
use crate::net::request::RequestBuilder;
use crate::resources::resource_handler::ResourceManager;
use crate::utils::error::Error;
use crate::utils::error::ErrorView;
use crate::utils::format_string::FormatString;
use crate::utils::format_string::resolve_parts;

verus! {

/// A capability that attaches a body to the request.
pub trait BodyAdder: Capability {

}

/// A body given as a format string: at application time the template is
/// resolved against the registry and the resulting text becomes the
/// request body.
#[derive(Debug, Clone)]
pub struct TextBody(pub FormatString);

impl TextBody {
    /// Resolves the template and attaches the text as the body. A missing
    /// resource fails the application with that resource's name; the
    /// builder's other accumulated state is unchanged on success.
    pub fn apply_text(&self, request: RequestBuilder, resources: &ResourceManager) -> (r: Result<
        RequestBuilder,
        Error,
    >)
        ensures
            match resolve_parts(self.0@, resources.contents()) {
                Ok(text) => r matches Ok(b) && b.model() == request.model().with_body(text)
                    && b.spec_clonable() == request.spec_clonable(),
                Err(name) => r matches Err(e) && e matches Error::NoResFound(n) && n@ == name,
            },
    {
        match self.0.to_formatted_now(resources) {
            Ok(text) => Ok(request.body(text)),
            Err(e) => Err(e),
        }
    }
}

impl Capability for TextBody {
    /// A text body models its effect exactly.
    open spec fn obeys_apply_spec(&self) -> bool {
        true
    }

    /// The effect: the body becomes the resolved template, or the
    /// application fails with the first missing resource's name.
    open spec fn spec_apply(&self, m: ReqModel, contents: Map<Seq<char>, Seq<char>>) -> Result<
        ReqModel,
        ErrorView,
    > {
        match resolve_parts(self.0@, contents) {
            Ok(text) => Ok(m.with_body(text)),
            Err(name) => Err(ErrorView::NoResFound(name)),
        }
    }

    fn apply(&self, request: RequestBuilder, resources: &ResourceManager) -> (r: Result<
        RequestBuilder,
        Error,
    >) {
        self.apply_text(request, resources)
    }
}

impl BodyAdder for TextBody {

}

/// The body carried by an HTTP verb: currently text produced from a
/// format string.
#[derive(Debug, Clone)]
pub struct Body(pub TextBody);

impl Body {
    pub fn new(body_adder: TextBody) -> (r: Body)
        ensures
            r.0.0@ == body_adder.0@,
    {
        Body(body_adder)
    }

    /// Applies the body adder to the builder: resolves the template and
    /// attaches the text, with the same contract as `TextBody::apply_text`.
    pub fn add_body(&self, request: RequestBuilder, resources: &ResourceManager) -> (r: Result<
        RequestBuilder,
        Error,
    >)
        ensures
            match resolve_parts(self.0.0@, resources.contents()) {
                Ok(text) => r matches Ok(b) && b.model() == request.model().with_body(text)
                    && b.spec_clonable() == request.spec_clonable(),
                Err(name) => r matches Err(e) && e matches Error::NoResFound(n) && n@ == name,
            },
    {
        self.0.apply_text(request, resources)
    }
}

} // verus!
