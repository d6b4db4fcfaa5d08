use vstd::prelude::*;

verus! {

/// A key/value entry sent by the front end.
#[derive(Clone, Debug, PartialEq, Eq)]
pub struct Payload {
    pub key: String,
    pub value: String,
}

/// The acknowledgement of a save.
pub open spec fn saved_message() -> Seq<char> {
    "File saved successfully!"@
}

/// Acknowledges a save of `payload`. Nothing is stored, and every payload is
/// accepted.
pub fn save_file(payload: Payload) -> (r: Result<String, String>)
    ensures
        r is Ok,
        r matches Ok(s) && s@ == saved_message(),
{
    Ok(String::from_str("File saved successfully!"))
}

/// Acknowledges an update of `payload` by handing its value back. Nothing is
/// stored, and every payload is accepted.
pub fn updated_entry(payload: Payload) -> (r: Result<String, String>)
    ensures
        r is Ok,
        r matches Ok(s) && s@ == payload.value@,
{
    Ok(payload.value)
}

} // verus!
