use vstd::prelude::*;
use vstd::string::StringExecFns;

use super::errors;

verus! {

/// The envelope every handler answers with.
#[derive(Debug)]
pub struct ApiResponse<T> {
    pub status: u16,
    pub message: String,
    pub data: Option<T>,
    pub success: bool,
}

/// A bare success.
pub fn api_ok() -> (r: errors::Result<()>)
    ensures
        r matches Ok(a) && a.status == 200 && a.message@ == "OK"@ && a.data is None && a.success,
{
    Ok(ApiResponse { status: 200, message: "OK".to_owned(), data: None, success: true })
}

/// A success carrying `data`.
pub fn api_ok_with_data<T>(data: T) -> (r: errors::Result<T>)
    ensures
        r matches Ok(a) && a.status == 200 && a.message@ == "OK"@ && a.data == Some(data)
            && a.success,
{
    Ok(ApiResponse { status: 200, message: "OK".to_owned(), data: Some(data), success: true })
}

/// The answer for a caller that presented no valid identity.
pub fn api_unauthorized() -> (r: errors::Result<()>)
    ensures
        r matches Ok(a) && a.status == 401 && a.message@ == "Unauthorized"@ && a.data is None
            && !a.success,
{
    Ok(
        ApiResponse {
            status: 401,
            message: "Unauthorized".to_owned(),
            data: None,
            success: false,
        },
    )
}

/// The answer when the service itself failed, with the failure text.
pub fn api_system_error(message: String) -> (r: errors::Result<()>)
    ensures
        r matches Ok(a) && a.status == 500 && a.message@ == "System error: "@ + message@
            && a.data is None && !a.success,
{
    let mut text: String = "System error: ".to_owned();
    text.append(message.as_str());
    Ok(ApiResponse { status: 500, message: text, data: None, success: false })
}

/// The answer for an identity the policy engine refused.
pub fn api_permission_denied() -> (r: errors::Result<()>)
    ensures
        r matches Ok(a) && a.status == 403 && a.message@ == "Permission denied"@ && a.data is None
            && !a.success,
{
    Ok(
        ApiResponse {
            status: 403,
            message: "Permission denied".to_owned(),
            data: None,
            success: false,
        },
    )
}

} // verus!
