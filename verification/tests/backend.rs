use nerdschloss::backend::logic::{lock_command, spaceapi_request};
use nerdschloss::hardware::motor::Direction;
use nerdschloss::raspberrypi::backend::spaceapi::configuration::SpaceAPI;

#[test]
fn commands_move_only_towards_the_other_side() {
    assert_eq!(lock_command(Direction::Open, false), Some(Direction::Open));
    assert_eq!(lock_command(Direction::Open, true), None);
    assert_eq!(lock_command(Direction::Close, true), Some(Direction::Close));
    assert_eq!(lock_command(Direction::Close, false), None);
}

#[test]
fn first_backend_spaceapi_request() {
    let configuration = SpaceAPI {
        enable: true,
        url: String::from("ignored"),
        username: String::from("door"),
        password: String::from("secret"),
    };
    let request = spaceapi_request(&configuration, true).unwrap();
    assert_eq!(request.url, "https://api.section77.de/set_door_status.php?status=open");
    assert_eq!(request.username, "door");
    assert_eq!(request.password, "secret");
    let request = spaceapi_request(&configuration, false).unwrap();
    assert_eq!(request.url, "https://api.section77.de/set_door_status.php?status=closed");
    let disabled = SpaceAPI { enable: false, ..configuration };
    assert!(spaceapi_request(&disabled, true).is_none());
}
