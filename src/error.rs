use vstd::prelude::*;

verus! {

/// Why a provider could not be built or could not answer.
#[derive(Debug, Clone)]
pub enum ProviderError {
    /// The named credential variable is not set.
    MissingCredential(String),
    /// The configured provider name matches no known provider.
    UnsupportedProvider(String),
    /// The requested kind of data is none of `now`, `forecast`, `tomorrow`.
    UnsupportedRequestKind(String),
    /// The HTTP call or the reading of its body failed; holds the cause.
    TransportError(String),
}

/// The mathematical value of a [`ProviderError`].
pub ghost enum ProviderErrorView {
    MissingCredential(Seq<char>),
    UnsupportedProvider(Seq<char>),
    UnsupportedRequestKind(Seq<char>),
    TransportError(Seq<char>),
}

impl View for ProviderError {
    type V = ProviderErrorView;

    open spec fn view(&self) -> ProviderErrorView {
        match self {
            ProviderError::MissingCredential(s) => ProviderErrorView::MissingCredential(s@),
            ProviderError::UnsupportedProvider(s) => ProviderErrorView::UnsupportedProvider(s@),
            ProviderError::UnsupportedRequestKind(s) => ProviderErrorView::UnsupportedRequestKind(
                s@,
            ),
            ProviderError::TransportError(s) => ProviderErrorView::TransportError(s@),
        }
    }
}

impl ProviderError {
    /// A one-line description of the error, for presentation to a user.
    pub fn message(&self) -> (r: String)
        ensures
            r@ == self.message_spec(),
    {
        match self {
            ProviderError::MissingCredential(s) => String::from_str("missing credential: ").concat(
                s.as_str(),
            ),
            ProviderError::UnsupportedProvider(s) => String::from_str(
                "Unsupported provider: ",
            ).concat(s.as_str()),
            ProviderError::UnsupportedRequestKind(s) => String::from_str(
                "Unknown data type: ",
            ).concat(s.as_str()),
            ProviderError::TransportError(s) => String::from_str("request failed: ").concat(
                s.as_str(),
            ),
        }
    }

    pub open spec fn message_spec(&self) -> Seq<char> {
        match self {
            ProviderError::MissingCredential(s) => "missing credential: "@ + s@,
            ProviderError::UnsupportedProvider(s) => "Unsupported provider: "@ + s@,
            ProviderError::UnsupportedRequestKind(s) => "Unknown data type: "@ + s@,
            ProviderError::TransportError(s) => "request failed: "@ + s@,
        }
    }
}

/// The mathematical value of a result that carries a string or a [`ProviderError`].
pub open spec fn text_result_view(r: Result<String, ProviderError>) -> Result<
    Seq<char>,
    ProviderErrorView,
> {
    match r {
        Ok(s) => Ok(s@),
        Err(e) => Err(e@),
    }
}

} // verus!
