//! Plain values behind the login form: submission method, encoding and
//! input kinds, with the attribute text each one is written as.
use vstd::prelude::*;

verus! {

/// How a form is submitted.
#[derive(Clone, Copy, Debug, PartialEq, Eq)]
pub enum HttpMethod {
    Get,
    Post,
}

/// The attribute text of a submission method.
pub open spec fn method_text(m: HttpMethod) -> Seq<char> {
    match m {
        HttpMethod::Get => "GET"@,
        HttpMethod::Post => "POST"@,
    }
}

impl HttpMethod {
    /// The method as written in a form's `method` attribute.
    pub fn to_string(&self) -> (r: String)
        ensures
            r@ == method_text(*self),
    {
        match self {
            HttpMethod::Get => String::from_str("GET"),
            HttpMethod::Post => String::from_str("POST"),
        }
    }
}

/// How a form's fields are encoded.
#[derive(Clone, Copy, Debug, PartialEq, Eq)]
pub enum FormEnctype {
    XWwwFormUrlEncoded,
    Json,
}

/// The kinds of input field the forms use.
#[derive(Clone, Copy, Debug, PartialEq, Eq)]
pub enum InputType {
    Text,
    Password,
    Hidden,
}

/// The `type` attribute text of an input kind.
pub open spec fn input_type_text(t: InputType) -> Seq<char> {
    match t {
        InputType::Text => "text"@,
        InputType::Password => "password"@,
        InputType::Hidden => "hidden"@,
    }
}

impl From<InputType> for String {
    fn from(t: InputType) -> (r: String)
        ensures
            r@ == input_type_text(t),
    {
        match t {
            InputType::Text => String::from_str("text"),
            InputType::Password => String::from_str("password"),
            InputType::Hidden => String::from_str("hidden"),
        }
    }
}

/// A `String` has no spec-level constructor, so the text of the conversion
/// is stated by the `ensures` of `from` above instead.
impl vstd::std_specs::convert::FromSpecImpl<InputType> for String {
    open spec fn obeys_from_spec() -> bool {
        false
    }

    open spec fn from_spec(t: InputType) -> String {
        arbitrary()
    }
}

} // verus!
