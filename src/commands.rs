//! The frontend's commands: their parameters, results and messages.
use vstd::prelude::*;
use vstd::string::*;
use crate::text::{decimal, push_decimal};

verus! {

/// Parameters of the greeting command.
pub struct GreetParams {
    pub name: String,
}

/// Result of the greeting command.
pub struct GreetResponse {
    pub message: String,
}

pub open spec fn greeting(name: Seq<char>) -> Seq<char> {
    "Hello, "@ + name + "! You've been greeted from Rust!"@
}

pub open spec fn user_info(user_id: u32) -> Seq<char> {
    "User info for ID: "@ + decimal(user_id as nat)
}

/// Greets the user by name; never fails.
pub fn greet(params: &GreetParams) -> (r: Result<GreetResponse, String>)
    ensures
        r matches Ok(resp) && resp.message@ == greeting(params.name@),
{
    let mut message = String::from_str("Hello, ");
    message.append(params.name.as_str());
    message.append("! You've been greeted from Rust!");
    Ok(GreetResponse { message })
}

/// Describes a user by identifier; never fails.
pub fn get_user_info(user_id: u32) -> (r: Result<String, String>)
    ensures
        r matches Ok(info) && info@ == user_info(user_id),
{
    let mut info = String::from_str("User info for ID: ");
    push_decimal(&mut info, user_id);
    Ok(info)
}

} // verus!
