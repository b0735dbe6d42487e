use playground::web::location::Location;
use playground::web::window::Window;

#[test]
fn hash_of_a_location_is_what_the_host_gave() {
    let hash = Location::hash(Some(Ok(String::from("#intro"))));
    assert_eq!(hash.unwrap(), "#intro");
}

#[test]
fn hash_refused_by_the_host_is_a_security_error() {
    let fatal = Location::hash(Some(Err(()))).unwrap_err();
    assert_eq!(fatal.message, "SecurityError");
}

#[test]
fn hash_without_location_fails() {
    let fatal = Location::hash(None).unwrap_err();
    assert_eq!(fatal.message, "No location");
}

#[test]
fn location_is_made_from_a_string() {
    let location = Location(String::from("https://artichoke.run/#intro"));
    assert_eq!(location.0, "https://artichoke.run/#intro");
}

#[test]
fn window_hands_out_the_phantom_location() {
    assert_eq!(Window::location().0, "phantom");
}

#[test]
fn window_location_failure_names_the_cause() {
    let fatal = Window::location_failure("frozen");
    assert_eq!(fatal.message, "Failed to serialize Rust Location into Ruby: frozen");
}

#[test]
fn type_names_are_under_artichoke_web() {
    assert_eq!(Location::ruby_type_name(), "Artichoke::Web::Location");
    assert_eq!(Window::ruby_type_name(), "Artichoke::Web::Window");
}
