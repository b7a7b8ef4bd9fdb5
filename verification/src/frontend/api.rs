//! How the pages read the server's JSON API answers.
use vstd::prelude::*;

verus! {

/// The outcome of a request the API only acknowledges: `Ok` when it reports
/// success, otherwise its message, or `Failed` when it gives none.
pub fn api_ack(success: bool, message: Option<String>) -> (r: Result<(), String>)
    ensures
        success ==> r is Ok,
        !success ==> (r matches Err(m) && m@ == (match message {
            Some(msg) => msg@,
            None => "Failed"@,
        })),
{
    if success {
        Ok(())
    } else {
        match message {
            Some(m) => Err(m),
            None => Err("Failed".to_owned()),
        }
    }
}

/// The payload of an API answer, or `No data` when it carries none.
pub fn api_data<T>(data: Option<T>) -> (r: Result<T, String>)
    ensures
        data matches Some(d) ==> r == Ok::<T, String>(d),
        data is None ==> (r matches Err(m) && m@ == "No data"@),
{
    match data {
        Some(d) => Ok(d),
        None => Err("No data".to_owned()),
    }
}

/// The notice shown when a request fails: `Error: <reason>`.
pub fn error_notice(reason: &str) -> (notice: String)
    ensures
        notice@ == "Error: "@ + reason@,
{
    let mut notice = "Error: ".to_owned();
    notice.append(reason);
    notice
}

} // verus!
