use valhalla_client::service::{classify, Endpoint, Reply, VALHALLA_PUBLIC_API_URL};

#[test]
fn endpoints_have_their_paths() {
    assert_eq!(Endpoint::Route.path(), "route");
    assert_eq!(Endpoint::Matrix.path(), "sources_to_targets");
    assert_eq!(Endpoint::Elevation.path(), "height");
    assert_eq!(Endpoint::Status.path(), "status");
}

#[test]
fn endpoints_have_their_names() {
    assert_eq!(Endpoint::Route.name(), "route");
    assert_eq!(Endpoint::Matrix.name(), "matrix");
    assert_eq!(Endpoint::Elevation.name(), "elevation");
    assert_eq!(Endpoint::Status.name(), "status");
}

#[test]
fn status_decides_what_to_make_of_an_answer() {
    assert_eq!(classify(200), Reply::Answer);
    assert_eq!(classify(204), Reply::Answer);
    assert_eq!(classify(301), Reply::Answer);
    assert_eq!(classify(399), Reply::Answer);
    assert_eq!(classify(400), Reply::Refusal);
    assert_eq!(classify(404), Reply::Refusal);
    assert_eq!(classify(499), Reply::Refusal);
    assert_eq!(classify(500), Reply::Failure);
    assert_eq!(classify(503), Reply::Failure);
    assert_eq!(classify(599), Reply::Failure);
    assert_eq!(classify(600), Reply::Answer);
    assert_eq!(classify(100), Reply::Answer);
}

#[test]
fn public_instance_is_named() {
    assert_eq!(VALHALLA_PUBLIC_API_URL, "https://valhalla1.openstreetmap.de/");
}
