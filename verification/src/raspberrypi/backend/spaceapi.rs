//! The SpaceAPI update that reports whether the space is open.
pub mod configuration;

use vstd::prelude::*;
use vstd::string::*;

use self::configuration::SpaceAPI;

verus! {

/// The status word of a door state: `open` or `closed`.
pub open spec fn status_word(state: bool) -> Seq<char> {
    if state {
        "open"@
    } else {
        "closed"@
    }
}

/// The status word of a door state.
pub fn status_text(state: bool) -> (r: String)
    ensures
        r@ == status_word(state),
{
    if state {
        String::from_str("open")
    } else {
        String::from_str("closed")
    }
}

/// A PUT to `url` with basic authentication. No `Debug`: it holds the
/// password in plain text.
#[derive(Clone)]
pub struct SpaceApiRequest {
    pub url: String,
    pub username: String,
    pub password: String,
}

/// How often a failed SpaceAPI update is retried (with exponential backoff).
pub const MAX_RETRIES: u32 = 5;

/// The SpaceAPI update for the door `state`, where updates are enabled: a PUT
/// to the configured address with the query `?status=open` or
/// `?status=closed`, authenticated with the configured user and password.
/// No update where the SpaceAPI is disabled.
pub fn spaceapi_request(configuration: &SpaceAPI, state: bool) -> (r: Option<SpaceApiRequest>)
    ensures
        r is None <==> !configuration.enable,
        r matches Some(req) ==> {
            &&& req.url@ == configuration.url@ + "?status="@ + status_word(state)
            &&& req.username@ == configuration.username@
            &&& req.password@ == configuration.password@
        },
{
    if !configuration.enable {
        return None;
    }
    let mut url = configuration.url.clone();
    url.append("?status=");
    url.append(status_text(state).as_str());
    Some(SpaceApiRequest {
        url,
        username: configuration.username.clone(),
        password: configuration.password.clone(),
    })
}

/// The SpaceAPI request reports an open door as `status=open` and a closed
/// one as `status=closed`, appended to the configured address, and carries
/// the configured credentials unchanged.
pub proof fn lemma_request_reports_status(configuration: SpaceAPI, state: bool)
    ensures
        status_word(true) == "open"@,
        status_word(false) == "closed"@,
        configuration.url@ + "?status="@ + status_word(state) == configuration.url@ + (if state {
            "?status=open"@
        } else {
            "?status=closed"@
        }),
{
    reveal_strlit("?status=");
    reveal_strlit("?status=open");
    reveal_strlit("?status=closed");
    reveal_strlit("open");
    reveal_strlit("closed");
    assert("?status="@ + "open"@ =~= "?status=open"@);
    assert("?status="@ + "closed"@ =~= "?status=closed"@);
    assert(configuration.url@ + "?status="@ + status_word(state) =~= configuration.url@ + (
    "?status="@ + status_word(state)));
}

} // verus!
