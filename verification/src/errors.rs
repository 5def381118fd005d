use vstd::prelude::*;

verus! {

/// The error taxonomy of the ingestion pipeline.
///
/// Every stage fails all-or-nothing: the first error aborts the whole
/// requested operation and is surfaced to the caller with its context
/// message; nothing is skipped or defaulted.
#[derive(Debug, Clone)]
pub enum IngestError {
    /// A month string is not of the `YYYY/MM` form, or the date parser
    /// rejected it; carries the underlying parser message.
    InvalidDateFormat(String),
    /// A date range whose end month lies before its start month.
    InvalidRange,
    /// A transport failure while fetching from the remote service.
    NetworkError(String),
    /// A payload whose JSON shape does not match the expected records,
    /// or an archive URL whose embedded date cannot be parsed.
    PayloadParseError(String),
    /// A record missing a field that the output schema declares required.
    SchemaProjectionError(String),
}

impl IngestError {
    /// A human-readable rendering of the error and its context.
    pub fn message(self) -> (r: String)
        ensures
            self matches IngestError::InvalidDateFormat(m) ==> r@ == "invalid date format: "@ + m@,
            self matches IngestError::InvalidRange ==> r@ == "end month cannot be earlier than start month"@,
            self matches IngestError::NetworkError(m) ==> r@ == "network error: "@ + m@,
            self matches IngestError::PayloadParseError(m) ==> r@ == "payload parse error: "@ + m@,
            self matches IngestError::SchemaProjectionError(m) ==> r@ == "schema projection error: "@ + m@,
    {
        match self {
            IngestError::InvalidDateFormat(m) => String::from_str("invalid date format: ").concat(m.as_str()),
            IngestError::InvalidRange => String::from_str("end month cannot be earlier than start month"),
            IngestError::NetworkError(m) => String::from_str("network error: ").concat(m.as_str()),
            IngestError::PayloadParseError(m) => String::from_str("payload parse error: ").concat(m.as_str()),
            IngestError::SchemaProjectionError(m) => String::from_str("schema projection error: ").concat(m.as_str()),
        }
    }
}

} // verus!
