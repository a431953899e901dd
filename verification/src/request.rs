//! The outbound request that a command is mapped onto, and the reasons why a
//! command may have none.

use vstd::prelude::*;

verus! {

/// The HTTP verbs that a request may carry.
#[derive(Copy, Clone, PartialEq, Eq, Debug, Structural)]
pub enum Method {
    Get,
    Post,
    Put,
    Delete,
}

impl Method {
    /// The verb as it is written on the wire.
    pub open spec fn name(self) -> Seq<char> {
        match self {
            Method::Get => "GET"@,
            Method::Post => "POST"@,
            Method::Put => "PUT"@,
            Method::Delete => "DELETE"@,
        }
    }

    /// The verb as it is written on the wire.
    pub fn as_str(&self) -> (word: &'static str)
        ensures
            word@ == self.name(),
    {
        match self {
            Method::Get => "GET",
            Method::Post => "POST",
            Method::Put => "PUT",
            Method::Delete => "DELETE",
        }
    }
}

/// One header line: a name and its value.
#[derive(Debug, Clone, PartialEq, Eq)]
pub struct Header {
    pub name: String,
    pub value: String,
}

/// A fully specified request: nothing is left for the transport to decide.
#[derive(Debug, Clone, PartialEq, Eq)]
pub struct RequestDescriptor {
    pub method: Method,
    pub url: String,
    pub body: Option<String>,
    pub headers: Vec<Header>,
}

/// Why a command has no request.
#[derive(Debug, Clone, PartialEq, Eq)]
pub enum MappingError {
    /// A field that the operation needs is absent: the field, then the
    /// family and operation that need it.
    MissingArgument(String, String),
    /// The operation is known and deliberately not offered.
    NotImplemented(String),
    /// The operation word is not one that the family offers: the word, then
    /// the family.
    UnsupportedOperation(String, String),
}

/// What a `RequestDescriptor` holds, as plain values. A header is a pair of
/// name and value.
pub struct RequestDescriptorView {
    pub method: Method,
    pub url: Seq<char>,
    pub body: Option<Seq<char>>,
    pub headers: Seq<(Seq<char>, Seq<char>)>,
}

/// What a `MappingError` holds, as plain values.
pub enum MappingErrorView {
    MissingArgument(Seq<char>, Seq<char>),
    NotImplemented(Seq<char>),
    UnsupportedOperation(Seq<char>, Seq<char>),
}

impl View for Header {
    type V = (Seq<char>, Seq<char>);

    open spec fn view(&self) -> (Seq<char>, Seq<char>) {
        (self.name@, self.value@)
    }
}

impl View for RequestDescriptor {
    type V = RequestDescriptorView;

    open spec fn view(&self) -> RequestDescriptorView {
        RequestDescriptorView {
            method: self.method,
            url: self.url@,
            body: match self.body {
                Some(b) => Some(b@),
                None => None,
            },
            headers: Seq::new(self.headers@.len(), |i: int| self.headers@[i]@),
        }
    }
}

impl View for MappingError {
    type V = MappingErrorView;

    open spec fn view(&self) -> MappingErrorView {
        match self {
            MappingError::MissingArgument(field, context) => MappingErrorView::MissingArgument(
                field@,
                context@,
            ),
            MappingError::NotImplemented(operation) => MappingErrorView::NotImplemented(
                operation@,
            ),
            MappingError::UnsupportedOperation(word, family) => {
                MappingErrorView::UnsupportedOperation(word@, family@)
            },
        }
    }
}

/// The outcome of a mapping, as plain values.
pub open spec fn outcome_view(outcome: Result<RequestDescriptor, MappingError>) -> Result<
    RequestDescriptorView,
    MappingErrorView,
> {
    match outcome {
        Ok(request) => Ok(request@),
        Err(error) => Err(error@),
    }
}

} // verus!
