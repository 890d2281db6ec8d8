//! What is sent to the service: where, and with which body.

use vstd::prelude::*;

verus! {

/// The address of the service.
pub const ENDPOINT: &'static str = "https://api.languagetool.org/v2/check";

/// The language in which every text is read.
pub const LANGUAGE: &'static str = "en-GB";

/// Why no request could be made.
#[derive(Clone, Copy, Debug, PartialEq, Eq, Structural)]
pub enum RequestError {
    /// The fields could not be written as a form.
    NotEncodable,
}

#[verifier::external_type_specification]
#[verifier::external_body]
pub struct ExEncodeError(serde_urlencoded::ser::Error);

/// The `application/x-www-form-urlencoded` form of a list of fields, each a
/// key and a value, as `serde_urlencoded::to_string` writes it.
pub uninterp spec fn form_encoded(fields: Seq<(Seq<char>, Seq<char>)>) -> Seq<char>;

/// Keys and values of a list of fields, as plain text.
pub open spec fn fields_text(fields: Seq<(&str, &str)>) -> Seq<(Seq<char>, Seq<char>)> {
    Seq::new(fields.len(), |i: int| (fields[i].0@, fields[i].1@))
}

/// The fields of a request to read `text`.
pub open spec fn request_fields(text: Seq<char>) -> Seq<(Seq<char>, Seq<char>)> {
    seq![("text"@, text), ("language"@, LANGUAGE@)]
}

/// Calls `serde_urlencoded::to_string` on a list of fields. Believed, not
/// proved: the call succeeds, and the text it gives depends on the keys and
/// values alone. It succeeds because the serializer takes a sequence at the
/// top, a tuple of two for each element, and a string for each key and each
/// value; its errors are all for other shapes, or for bytes that are no
/// text.
#[verifier::external_body]
fn encode_form(fields: &[(&str, &str)]) -> (res: Result<String, serde_urlencoded::ser::Error>)
    ensures
        res is Ok,
        res matches Ok(body) ==> body@ == form_encoded(fields_text(fields@)),
{
    serde_urlencoded::to_string(fields)
}

/// Takes the body out of what the encoder gave.
pub fn body_of(encoded: Result<String, serde_urlencoded::ser::Error>) -> (res: Result<
    String,
    RequestError,
>)
    ensures
        res is Ok <==> encoded is Ok,
        res matches Ok(body) ==> encoded matches Ok(text) && body == text,
        res matches Err(error) ==> error == RequestError::NotEncodable,
{
    match encoded {
        Ok(body) => Ok(body),
        Err(_) => Err(RequestError::NotEncodable),
    }
}

/// Writes the body of the request that asks the service to read `text`: a
/// form of two fields, the text and the language. Every text has a body.
pub fn request_body(text: &str) -> (res: Result<String, RequestError>)
    ensures
        res is Ok,
        res matches Ok(body) ==> body@ == form_encoded(request_fields(text@)),
{
    let fields = [("text", text), ("language", LANGUAGE)];
    assert(fields_text(fields@) =~= request_fields(text@));
    body_of(encode_form(&fields))
}

} // verus!
