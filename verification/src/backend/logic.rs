//! The decisions of the first backend's command loop.
use vstd::prelude::*;
use vstd::string::*;

use crate::hardware::motor::Direction;
use crate::raspberrypi::backend::spaceapi::configuration::SpaceAPI;
use crate::raspberrypi::backend::spaceapi::{status_text, status_word, SpaceApiRequest};

verus! {

/// The lock movement a command asks for, given whether the lock switch
/// reports the bolt open: `Open` unlocks a closed bolt, `Close` locks an open
/// one, and a command for the side the bolt is on moves nothing.
pub fn lock_command(msg: Direction, is_open: bool) -> (r: Option<Direction>)
    ensures
        r == (if (msg == Direction::Open) != is_open { Some(msg) } else { None }),
{
    match msg {
        Direction::Open => if !is_open {
            Some(Direction::Open)
        } else {
            None
        },
        Direction::Close => if is_open {
            Some(Direction::Close)
        } else {
            None
        },
    }
}

/// The address that takes the door status.
pub open spec fn status_endpoint() -> Seq<char> {
    "https://api.section77.de/set_door_status.php?status="@
}

/// The SpaceAPI update for the door `state`, where updates are enabled: a PUT
/// to the section77 door status address with `status=open` or
/// `status=closed`, authenticated with the configured user and password.
pub fn spaceapi_request(configuration: &SpaceAPI, state: bool) -> (r: Option<SpaceApiRequest>)
    ensures
        r is None <==> !configuration.enable,
        r matches Some(req) ==> {
            &&& req.url@ == status_endpoint() + status_word(state)
            &&& req.username@ == configuration.username@
            &&& req.password@ == configuration.password@
        },
{
    if !configuration.enable {
        return None;
    }
    let mut url = String::from_str("https://api.section77.de/set_door_status.php?status=");
    url.append(status_text(state).as_str());
    Some(SpaceApiRequest {
        url,
        username: configuration.username.clone(),
        password: configuration.password.clone(),
    })
}

} // verus!
