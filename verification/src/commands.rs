use vstd::prelude::*;
use crate::idgen::fresh_uuid;

verus! {

#[verifier::external_type_specification]
#[verifier::external_body]
pub struct ExValue(serde_json::Value);

/// A command addressed to the AI bridge: what to run, with which
/// parameters, stamped with a fresh identifier and the caller's clock.
pub struct AICommand {
    pub id: String,
    pub command: String,
    pub parameters: Vec<(String, serde_json::Value)>,
    pub timestamp: u64,
}

/// What came back for a command. The bridge dispatch is not implemented:
/// every response reports success with a placeholder result.
pub struct AIResponse {
    pub id: String,
    pub success: bool,
    pub result: Option<serde_json::Value>,
    pub error: Option<String>,
    pub timestamp: u64,
}

/// The JSON object that maps `key` to the string `text`. The value is a
/// function of the two texts alone; what it is stays unstated, so every
/// claim about a built value goes through this name.
pub uninterp spec fn json_text_object_of(key: Seq<char>, text: Seq<char>) -> serde_json::Value;

/// Relies on `serde_json::Map::insert` and the `serde_json::Value`
/// constructors: builds the JSON object that maps `key` to the string
/// `text`. The result depends on the two arguments alone.
#[verifier::external_body]
fn json_text_object(key: &str, text: &str) -> (r: serde_json::Value)
    ensures
        r == json_text_object_of(key@, text@),
{
    let mut m = serde_json::Map::new();
    m.insert(key.to_owned(), serde_json::Value::String(text.to_owned()));
    serde_json::Value::Object(m)
}

/// Records the command under a fresh identifier and answers it with the
/// fixed placeholder response: success, no error, the caller's timestamp,
/// and a result value. The command record is returned beside the response
/// so the caller can forward or log it.
pub fn execute_ai_command(
    command: String,
    parameters: Vec<(String, serde_json::Value)>,
    timestamp: u64,
) -> (r: (AICommand, AIResponse))
    ensures
        r.0.id@ == r.1.id@,
        r.0.id@.len() == 36,
        r.0.command@ == command@,
        r.0.parameters == parameters,
        r.0.timestamp == timestamp,
        r.1.success == true,
        r.1.result == Some(
            json_text_object_of("message"@, "Command executed successfully"@),
        ),
        r.1.error is None,
        r.1.timestamp == timestamp,
{
    let command_id = fresh_uuid();
    let response_id = command_id.clone();
    let ai_command = AICommand { id: command_id, command, parameters, timestamp };
    let result = json_text_object("message", "Command executed successfully");
    let response = AIResponse {
        id: response_id,
        success: true,
        result: Some(result),
        error: None,
        timestamp,
    };
    (ai_command, response)
}

} // verus!
