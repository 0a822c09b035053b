use vstd::prelude::*;

verus! {

/// `url::ParseError`: why a text is no URL (an enum of unit variants).
#[verifier::external_type_specification]
pub struct ExUrlParseError(url::ParseError);

/// Kind of a URL parse failure, one for each variant of `url::ParseError`.
#[derive(Debug, Clone, Copy, PartialEq, Eq, Structural)]
pub enum UrlParseError {
    EmptyHost,
    IdnaError,
    InvalidPort,
    InvalidIpv4Address,
    InvalidIpv6Address,
    InvalidDomainCharacter,
    RelativeUrlWithoutBase,
    RelativeUrlWithCannotBeABaseBase,
    SetHostOnCannotBeABaseUrl,
    Overflow,
}

pub open spec fn spec_url_error_kind(e: url::ParseError) -> UrlParseError {
    match e {
        url::ParseError::EmptyHost => UrlParseError::EmptyHost,
        url::ParseError::IdnaError => UrlParseError::IdnaError,
        url::ParseError::InvalidPort => UrlParseError::InvalidPort,
        url::ParseError::InvalidIpv4Address => UrlParseError::InvalidIpv4Address,
        url::ParseError::InvalidIpv6Address => UrlParseError::InvalidIpv6Address,
        url::ParseError::InvalidDomainCharacter => UrlParseError::InvalidDomainCharacter,
        url::ParseError::RelativeUrlWithoutBase => UrlParseError::RelativeUrlWithoutBase,
        url::ParseError::RelativeUrlWithCannotBeABaseBase => UrlParseError::RelativeUrlWithCannotBeABaseBase,
        url::ParseError::SetHostOnCannotBeABaseUrl => UrlParseError::SetHostOnCannotBeABaseUrl,
        _ => UrlParseError::Overflow,
    }
}


/// `nom::Err`: a failure of a nom parser (`Incomplete`, `Error` or `Failure`).
#[verifier::external_type_specification]
#[verifier::reject_recursive_types(E)]
pub struct ExNomErr<E>(nom::Err<E>);

/// `nom::Needed`: how much more input a parser asked for.
#[verifier::external_type_specification]
pub struct ExNomNeeded(nom::Needed);

/// `nom::error::ErrorKind`: which nom parser failed (an enum of unit variants).
#[verifier::external_type_specification]
pub struct ExNomErrorKind(nom::error::ErrorKind);

/// Which nom parser failed, one for each variant of `nom::error::ErrorKind`.
#[derive(Debug, Clone, Copy, PartialEq, Eq, Structural)]
pub enum NomErrorKind {
    Tag,
    MapRes,
    MapOpt,
    Alt,
    IsNot,
    IsA,
    SeparatedList,
    SeparatedNonEmptyList,
    Many0,
    Many1,
    ManyTill,
    Count,
    TakeUntil,
    LengthValue,
    TagClosure,
    Alpha,
    Digit,
    HexDigit,
    OctDigit,
    AlphaNumeric,
    Space,
    MultiSpace,
    LengthValueFn,
    Eof,
    Switch,
    TagBits,
    OneOf,
    NoneOf,
    Char,
    CrLf,
    RegexpMatch,
    RegexpMatches,
    RegexpFind,
    RegexpCapture,
    RegexpCaptures,
    TakeWhile1,
    Complete,
    Fix,
    Escaped,
    EscapedTransform,
    NonEmpty,
    ManyMN,
    Not,
    Permutation,
    Verify,
    TakeTill1,
    TakeWhileMN,
    ParseTo,
    TooLarge,
    Many0Count,
    Many1Count,
    Float,
}

/// Model of a nom parser failure.
#[derive(Debug, Clone, Copy, PartialEq, Eq, Structural)]
pub enum NomFailure {
    /// More input was needed: how much, when known.
    Incomplete(Option<usize>),
    /// A recoverable error of the parser of that kind.
    Error(NomErrorKind),
    /// An unrecoverable error of the parser of that kind.
    Failure(NomErrorKind),
}

/// The kind of a nom parser failure.
pub open spec fn spec_nom_error_kind(kind: nom::error::ErrorKind) -> NomErrorKind {
    match kind {
        nom::error::ErrorKind::Tag => NomErrorKind::Tag,
        nom::error::ErrorKind::MapRes => NomErrorKind::MapRes,
        nom::error::ErrorKind::MapOpt => NomErrorKind::MapOpt,
        nom::error::ErrorKind::Alt => NomErrorKind::Alt,
        nom::error::ErrorKind::IsNot => NomErrorKind::IsNot,
        nom::error::ErrorKind::IsA => NomErrorKind::IsA,
        nom::error::ErrorKind::SeparatedList => NomErrorKind::SeparatedList,
        nom::error::ErrorKind::SeparatedNonEmptyList => NomErrorKind::SeparatedNonEmptyList,
        nom::error::ErrorKind::Many0 => NomErrorKind::Many0,
        nom::error::ErrorKind::Many1 => NomErrorKind::Many1,
        nom::error::ErrorKind::ManyTill => NomErrorKind::ManyTill,
        nom::error::ErrorKind::Count => NomErrorKind::Count,
        nom::error::ErrorKind::TakeUntil => NomErrorKind::TakeUntil,
        nom::error::ErrorKind::LengthValue => NomErrorKind::LengthValue,
        nom::error::ErrorKind::TagClosure => NomErrorKind::TagClosure,
        nom::error::ErrorKind::Alpha => NomErrorKind::Alpha,
        nom::error::ErrorKind::Digit => NomErrorKind::Digit,
        nom::error::ErrorKind::HexDigit => NomErrorKind::HexDigit,
        nom::error::ErrorKind::OctDigit => NomErrorKind::OctDigit,
        nom::error::ErrorKind::AlphaNumeric => NomErrorKind::AlphaNumeric,
        nom::error::ErrorKind::Space => NomErrorKind::Space,
        nom::error::ErrorKind::MultiSpace => NomErrorKind::MultiSpace,
        nom::error::ErrorKind::LengthValueFn => NomErrorKind::LengthValueFn,
        nom::error::ErrorKind::Eof => NomErrorKind::Eof,
        nom::error::ErrorKind::Switch => NomErrorKind::Switch,
        nom::error::ErrorKind::TagBits => NomErrorKind::TagBits,
        nom::error::ErrorKind::OneOf => NomErrorKind::OneOf,
        nom::error::ErrorKind::NoneOf => NomErrorKind::NoneOf,
        nom::error::ErrorKind::Char => NomErrorKind::Char,
        nom::error::ErrorKind::CrLf => NomErrorKind::CrLf,
        nom::error::ErrorKind::RegexpMatch => NomErrorKind::RegexpMatch,
        nom::error::ErrorKind::RegexpMatches => NomErrorKind::RegexpMatches,
        nom::error::ErrorKind::RegexpFind => NomErrorKind::RegexpFind,
        nom::error::ErrorKind::RegexpCapture => NomErrorKind::RegexpCapture,
        nom::error::ErrorKind::RegexpCaptures => NomErrorKind::RegexpCaptures,
        nom::error::ErrorKind::TakeWhile1 => NomErrorKind::TakeWhile1,
        nom::error::ErrorKind::Complete => NomErrorKind::Complete,
        nom::error::ErrorKind::Fix => NomErrorKind::Fix,
        nom::error::ErrorKind::Escaped => NomErrorKind::Escaped,
        nom::error::ErrorKind::EscapedTransform => NomErrorKind::EscapedTransform,
        nom::error::ErrorKind::NonEmpty => NomErrorKind::NonEmpty,
        nom::error::ErrorKind::ManyMN => NomErrorKind::ManyMN,
        nom::error::ErrorKind::Not => NomErrorKind::Not,
        nom::error::ErrorKind::Permutation => NomErrorKind::Permutation,
        nom::error::ErrorKind::Verify => NomErrorKind::Verify,
        nom::error::ErrorKind::TakeTill1 => NomErrorKind::TakeTill1,
        nom::error::ErrorKind::TakeWhileMN => NomErrorKind::TakeWhileMN,
        nom::error::ErrorKind::ParseTo => NomErrorKind::ParseTo,
        nom::error::ErrorKind::TooLarge => NomErrorKind::TooLarge,
        nom::error::ErrorKind::Many0Count => NomErrorKind::Many0Count,
        nom::error::ErrorKind::Many1Count => NomErrorKind::Many1Count,
        nom::error::ErrorKind::Float => NomErrorKind::Float,
    }
}

/// Model of a failure of a nom parser.
pub open spec fn spec_nom_failure(e: nom::Err<nom::error::ErrorKind>) -> NomFailure {
    match e {
        nom::Err::Incomplete(nom::Needed::Unknown) => NomFailure::Incomplete(None),
        nom::Err::Incomplete(nom::Needed::Size(n)) => NomFailure::Incomplete(Some(n)),
        nom::Err::Error(kind) => NomFailure::Error(spec_nom_error_kind(kind)),
        nom::Err::Failure(kind) => NomFailure::Failure(spec_nom_error_kind(kind)),
    }
}

/// Errors that the downloader's own logic produces.
#[derive(Debug)]
pub enum AppError {
    /// The requested stream index is not in the master playlist.
    WrongStreamIndex(u8),
    /// Data was handed to a receiver that has already been stopped.
    ReceiverSendError,
    /// A text could not be read or resolved as a URL.
    UrlError(url::ParseError),
    /// The URL has no path segments to edit.
    EmptyUrlSegmentsError,
    /// A playlist could not be parsed.
    M3U8ParseError(nom::Err<nom::error::ErrorKind>),
    /// The master playlist lists no variant stream.
    MasterStreamIsEmpty,
}

} // verus!
