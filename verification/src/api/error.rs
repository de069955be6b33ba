//! The ways a request to the service can fail.

use vstd::prelude::*;

verus! {

/// Why a request gave no result.
#[derive(Clone, Eq, PartialEq, Debug)]
pub enum MtgApiErrorKind {
    /// The client that the request was made through is gone.
    ClientDropped,
    /// The service could not be reached, or the connection failed.
    HttpError,
    /// An answer came, but its body could not be read.
    BodyReadError,
    /// The body of an answer from the card endpoints has none of the known shapes.
    CardBodyParseError,
    /// The answer to a request for one card holds no card.
    CardNotFound,
    /// The body of an answer from the set endpoints has none of the known shapes.
    SetBodyParseError,
    /// The answer to a request for one set holds no set.
    SetNotFound,
    /// The body of an answer from the type endpoint has none of the known shapes.
    TypeBodyParseError,
    /// The body of an answer from the subtype endpoint has none of the known shapes.
    SubtypeBodyParseError,
    /// The body of an answer from the supertype endpoint has none of the known shapes.
    SupertypeBodyParseError,
    /// The body of an answer from the format endpoint has none of the known shapes.
    FormatBodyParseError,
    /// The service itself reported an error; `cause` is its description.
    ApiError { cause: String },
    /// The header `header` of an answer is there but holds no unsigned number.
    MetadataParseError { header: String },
}

/// An error kind with the texts it carries as sequences of characters.
pub enum ErrorView {
    ClientDropped,
    HttpError,
    BodyReadError,
    CardBodyParseError,
    CardNotFound,
    SetBodyParseError,
    SetNotFound,
    TypeBodyParseError,
    SubtypeBodyParseError,
    SupertypeBodyParseError,
    FormatBodyParseError,
    ApiError { cause: Seq<char> },
    MetadataParseError { header: Seq<char> },
}

impl View for MtgApiErrorKind {
    type V = ErrorView;

    open spec fn view(&self) -> ErrorView {
        match self {
            MtgApiErrorKind::ClientDropped => ErrorView::ClientDropped,
            MtgApiErrorKind::HttpError => ErrorView::HttpError,
            MtgApiErrorKind::BodyReadError => ErrorView::BodyReadError,
            MtgApiErrorKind::CardBodyParseError => ErrorView::CardBodyParseError,
            MtgApiErrorKind::CardNotFound => ErrorView::CardNotFound,
            MtgApiErrorKind::SetBodyParseError => ErrorView::SetBodyParseError,
            MtgApiErrorKind::SetNotFound => ErrorView::SetNotFound,
            MtgApiErrorKind::TypeBodyParseError => ErrorView::TypeBodyParseError,
            MtgApiErrorKind::SubtypeBodyParseError => ErrorView::SubtypeBodyParseError,
            MtgApiErrorKind::SupertypeBodyParseError => ErrorView::SupertypeBodyParseError,
            MtgApiErrorKind::FormatBodyParseError => ErrorView::FormatBodyParseError,
            MtgApiErrorKind::ApiError { cause } => ErrorView::ApiError { cause: cause@ },
            MtgApiErrorKind::MetadataParseError { header } => ErrorView::MetadataParseError {
                header: header@,
            },
        }
    }
}

/// A result with its error seen through its view.
pub open spec fn outcome<T>(res: Result<T, MtgApiErrorKind>) -> Result<T, ErrorView> {
    match res {
        Ok(content) => Ok(content),
        Err(kind) => Err(kind@),
    }
}

impl MtgApiErrorKind {
    /// The sentence that describes this error to a reader.
    pub open spec fn message(self) -> Seq<char> {
        match self {
            MtgApiErrorKind::ClientDropped => "The Client has been dropped and is no longer available"@,
            MtgApiErrorKind::HttpError => "Error calling the API Endpoint"@,
            MtgApiErrorKind::BodyReadError => "Failed to read the response body"@,
            MtgApiErrorKind::CardBodyParseError => "Could not parse the response of the card struct"@,
            MtgApiErrorKind::CardNotFound => "Requested card not found"@,
            MtgApiErrorKind::SetBodyParseError => "Could not parse the response of the set struct"@,
            MtgApiErrorKind::SetNotFound => "Requested set not found"@,
            MtgApiErrorKind::TypeBodyParseError => "Could not parse the response of the types struct"@,
            MtgApiErrorKind::SubtypeBodyParseError => "Could not parse the response of the subtypes struct"@,
            MtgApiErrorKind::SupertypeBodyParseError => "Could not parse the response of the supertypes struct"@,
            MtgApiErrorKind::FormatBodyParseError => "Could not parse the response of the formats struct"@,
            MtgApiErrorKind::ApiError { cause } => "Error: "@ + cause@,
            MtgApiErrorKind::MetadataParseError { header } => "Could not parse the response header "@
                + header@,
        }
    }

    /// The sentence that describes this error to a reader.
    pub fn description(&self) -> (res: String)
        ensures
            res@ == self.message(),
    {
        match self {
            MtgApiErrorKind::ClientDropped => "The Client has been dropped and is no longer available".to_owned(),
            MtgApiErrorKind::HttpError => "Error calling the API Endpoint".to_owned(),
            MtgApiErrorKind::BodyReadError => "Failed to read the response body".to_owned(),
            MtgApiErrorKind::CardBodyParseError => "Could not parse the response of the card struct".to_owned(),
            MtgApiErrorKind::CardNotFound => "Requested card not found".to_owned(),
            MtgApiErrorKind::SetBodyParseError => "Could not parse the response of the set struct".to_owned(),
            MtgApiErrorKind::SetNotFound => "Requested set not found".to_owned(),
            MtgApiErrorKind::TypeBodyParseError => "Could not parse the response of the types struct".to_owned(),
            MtgApiErrorKind::SubtypeBodyParseError => "Could not parse the response of the subtypes struct".to_owned(),
            MtgApiErrorKind::SupertypeBodyParseError => "Could not parse the response of the supertypes struct".to_owned(),
            MtgApiErrorKind::FormatBodyParseError => "Could not parse the response of the formats struct".to_owned(),
            MtgApiErrorKind::ApiError { cause } => {
                let mut res = "Error: ".to_owned();
                res.append(cause.as_str());
                res
            },
            MtgApiErrorKind::MetadataParseError { header } => {
                let mut res = "Could not parse the response header ".to_owned();
                res.append(header.as_str());
                res
            },
        }
    }
}

} // verus!
