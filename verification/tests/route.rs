use valhalla_client::costing::auto::AutoCostingOptions;
use valhalla_client::costing::bicycle::BicycleType;
use valhalla_client::costing::Costing;
use valhalla_client::number::{Double, Float};
use valhalla_client::route::{
    DirectionsType, DriveTravelType, Leg, Location, LocationType, Maneuver, ManeuverType, Manifest,
    Side, Sign, Summary, TravelMode, TravelType, Trip,
};
use valhalla_client::shapes::ShapePoint;
use valhalla_client::{Coordinate, DateTime, MatrixDateTimeType, Units};

fn float(value: f32) -> Float {
    Float::from_bits(value.to_bits())
}

fn double(value: f64) -> Double {
    Double::from_bits(value.to_bits())
}

fn noon() -> chrono::NaiveDateTime {
    chrono::NaiveDate::from_ymd_opt(2024, 11, 7).unwrap().and_hms_opt(12, 0, 0).unwrap()
}

fn summary() -> Summary {
    Summary {
        time: double(0.0),
        length: double(0.0),
        has_toll: false,
        has_highway: false,
        has_ferry: false,
        min_lat: double(0.0),
        min_lon: double(0.0),
        max_lat: double(0.0),
        max_lon: double(0.0),
    }
}

fn maneuver(begin: usize, end: usize) -> Maneuver {
    Maneuver {
        type_: ManeuverType::Continue,
        instruction: String::new(),
        verbal_transition_alert_instruction: None,
        verbal_pre_transition_instruction: None,
        verbal_post_transition_instruction: None,
        street_names: None,
        begin_street_names: None,
        time: double(1.0),
        length: double(1.0),
        begin_shape_index: begin,
        end_shape_index: end,
        toll: None,
        highway: None,
        rough: None,
        gate: None,
        ferry: None,
        sign: None,
        roundabout_exit_count: None,
        depart_instruction: None,
        verbal_depart_instruction: None,
        arrive_instruction: None,
        verbal_arrive_instruction: None,
        transit_info: None,
        verbal_multi_cue: None,
        travel_mode: TravelMode::Drive,
        travel_type: TravelType::Drive(DriveTravelType::Car),
        bss_maneuver_type: None,
    }
}

fn points(n: i64) -> Vec<ShapePoint> {
    (0..n).map(|k| ShapePoint::new(k, -k)).collect()
}

fn leg(spans: &[(usize, usize)], n: i64) -> Leg {
    Leg {
        summary: summary(),
        maneuvers: spans.iter().map(|(begin, end)| maneuver(*begin, *end)).collect(),
        shape: points(n),
    }
}

fn trip(legs: Vec<Leg>) -> Trip {
    Trip {
        status: 0,
        status_message: "Found route between points".to_string(),
        units: Units::Metric,
        language: "en-US".to_string(),
        locations: vec![],
        warnings: None,
        id: None,
        legs,
        summary: summary(),
    }
}

#[test]
fn route_builder_sets_nothing() {
    let manifest = Manifest::builder();
    assert_eq!(manifest, Manifest::default());
    assert!(manifest.locations.is_empty());
    assert_eq!(manifest.costing, None);
    assert_eq!(manifest.units, None);
    assert_eq!(manifest.id, None);
    assert_eq!(manifest.exclude_polygons, None);
    assert_eq!(manifest.roundabout_exits, None);
    assert_eq!(manifest.date_time, None);
}

#[test]
fn route_manifest_takes_its_options() {
    let amsterdam = Location::new(float(4.9041), float(52.3676));
    let utrecht = Location::new(float(5.1214), float(52.0907));
    let manifest = Manifest::builder()
        .locations(vec![utrecht.clone(), amsterdam.clone()])
        .alternates(2)
        .costing(Costing::Auto(AutoCostingOptions::builder()))
        .language("de-De")
        .id("tour")
        .units(Units::Imperial)
        .directions_type(DirectionsType::Maneuvers)
        .exclude_locations(vec![amsterdam.clone()])
        .include_linear_references()
        .prioritize_bidirectional()
        .roundabout_exits()
        .date_time(DateTime::from_departure_time(noon()));
    assert_eq!(manifest.locations, vec![utrecht, amsterdam.clone()]);
    assert_eq!(manifest.alternates, Some(2));
    assert_eq!(manifest.costing, Some(Costing::Auto(AutoCostingOptions::builder())));
    assert_eq!(manifest.language, Some("de-De".to_string()));
    assert_eq!(manifest.id, Some("tour".to_string()));
    assert_eq!(manifest.units, Some(Units::Imperial));
    assert_eq!(manifest.directions_type, Some(DirectionsType::Maneuvers));
    assert_eq!(manifest.exclude_locations, Some(vec![amsterdam]));
    assert_eq!(manifest.linear_references, Some(true));
    assert_eq!(manifest.prioritize_bidirectional, Some(true));
    assert_eq!(manifest.roundabout_exits, Some(false));
    assert_eq!(
        manifest.date_time,
        Some(DateTime { type_: MatrixDateTimeType::SpecifiedDeparture, value: noon() })
    );
}

#[test]
fn exclude_polygon_appends_and_exclude_polygons_replaces() {
    let a: Vec<Coordinate> = vec![(float(4.99), float(52.25)), (float(4.84), float(52.23))];
    let b: Vec<Coordinate> = vec![(float(4.58), float(52.19))];
    let c: Vec<Coordinate> = vec![];
    let one = Manifest::builder().exclude_polygon(a.clone());
    assert_eq!(one.exclude_polygons, Some(vec![a.clone()]));
    let two = one.exclude_polygon(b.clone());
    assert_eq!(two.exclude_polygons, Some(vec![a.clone(), b.clone()]));
    let replaced = two.exclude_polygons(vec![c.clone()]);
    assert_eq!(replaced.exclude_polygons, Some(vec![c.clone()]));
    let grown = replaced.id("x").exclude_polygon(a.clone());
    assert_eq!(grown.exclude_polygons, Some(vec![c, a]));
    assert_eq!(grown.id, Some("x".to_string()));
}

#[test]
fn location_new_sets_the_point_only() {
    let location = Location::new(float(4.9041), float(52.3676));
    assert_eq!(location.longitude, float(4.9041));
    assert_eq!(location.latitude, float(52.3676));
    assert_eq!(location.display_lat, None);
    assert_eq!(location.street, None);
    assert_eq!(location.type_, None);
    assert_eq!(location.waiting, None);
    assert_eq!(location.date_time, None);
    assert_eq!(Location::default(), Location::new(float(0.0), float(0.0)));
}

#[test]
fn location_from_a_pair_reads_longitude_first() {
    let location = Location::from((float(4.9041), float(52.3676)));
    assert_eq!(location, Location::new(float(4.9041), float(52.3676)));
    assert_eq!(location.longitude, float(4.9041));
    assert_eq!(location.latitude, float(52.3676));
}

#[test]
fn location_takes_its_options() {
    let location = Location::new(float(4.9041), float(52.3676))
        .display_coordinates(float(52.3677), float(4.9042))
        .street_name("Damrak")
        .way_id(7_226_519)
        .minimum_reachability(50)
        .radius(10)
        .rank_candidates(false)
        .preferred_side(Side::Opposite)
        .type_(LocationType::Via)
        .heading(90)
        .heading_tolerance(60)
        .name("Centraal")
        .search_cutoff(float(35000.0))
        .node_snap_tolerance(float(5.0))
        .street_side_tolerance(float(5.0))
        .street_side_max_distance(float(1000.0))
        .street_side_cutoff(float(7.0))
        .date_time(noon())
        .waiting(chrono::Duration::seconds(90));
    assert_eq!(location.display_lat, Some(float(52.3677)));
    assert_eq!(location.display_lon, Some(float(4.9042)));
    assert_eq!(location.street, Some("Damrak".to_string()));
    assert_eq!(location.way_id, Some(7_226_519));
    assert_eq!(location.minimum_reachability, Some(50));
    assert_eq!(location.radius, Some(10));
    assert_eq!(location.rank_candidates, Some(false));
    assert_eq!(location.preferred_side, Some(Side::Opposite));
    assert_eq!(location.type_, Some(LocationType::Via));
    assert_eq!(location.heading, Some(90));
    assert_eq!(location.heading_tolerance, Some(60));
    assert_eq!(location.name, Some("Centraal".to_string()));
    assert_eq!(location.search_cutoff, Some(float(35000.0)));
    assert_eq!(location.node_snap_tolerance, Some(float(5.0)));
    assert_eq!(location.street_side_tolerance, Some(float(5.0)));
    assert_eq!(location.street_side_max_distance, Some(float(1000.0)));
    assert_eq!(location.street_side_cutoff, Some(float(7.0)));
    assert_eq!(location.date_time, Some(noon()));
    assert_eq!(location.waiting, Some(90));
    assert_eq!(location.longitude, float(4.9041));
    assert_eq!(location.latitude, float(52.3676));
}

#[test]
fn waiting_counts_whole_seconds() {
    let here = Location::new(float(0.0), float(0.0));
    assert_eq!(here.clone().waiting(chrono::Duration::milliseconds(2_500)).waiting, Some(2));
    assert_eq!(here.clone().waiting(chrono::Duration::minutes(3)).waiting, Some(180));
    assert_eq!(here.clone().waiting(chrono::Duration::milliseconds(-2_500)).waiting, Some(-2));
    assert_eq!(here.waiting_seconds(45).waiting, Some(45));
}

#[test]
fn enums_have_their_defaults() {
    assert_eq!(DirectionsType::default(), DirectionsType::Instructions);
    assert_eq!(LocationType::default(), LocationType::Break);
    assert_eq!(Side::default(), Side::Either);
    assert_eq!(Units::default(), Units::Metric);
    assert_eq!(TravelType::Bicycle(BicycleType::Road), TravelType::Bicycle(BicycleType::Road));
}

#[test]
fn empty_sign_says_nothing() {
    let sign = Sign::default();
    assert_eq!(sign, Sign::new());
    assert!(sign.exit_number_elements.is_empty());
    assert!(sign.exit_branch_elements.is_empty());
    assert!(sign.exit_toward_elements.is_empty());
    assert!(sign.exit_name_elements.is_empty());
}

#[test]
fn date_time_constructors_set_the_kind() {
    assert_eq!(
        DateTime::from_departure_time(noon()),
        DateTime { type_: MatrixDateTimeType::SpecifiedDeparture, value: noon() }
    );
    assert_eq!(
        DateTime::from_arrival_time(noon()),
        DateTime { type_: MatrixDateTimeType::SpecifiedArrival, value: noon() }
    );
    assert_eq!(
        DateTime::from_current_departure_at(noon()),
        DateTime { type_: MatrixDateTimeType::CurrentDeparture, value: noon() }
    );
    let before = chrono::Local::now().naive_local();
    let now = DateTime::from_current_departure_time();
    let after = chrono::Local::now().naive_local();
    assert_eq!(now.type_, MatrixDateTimeType::CurrentDeparture);
    assert!(before <= now.value && now.value <= after);
}

#[test]
fn track_runs_from_first_begin_to_last_end() {
    let leg = leg(&[(1, 3), (3, 4), (4, 6)], 8);
    assert!(leg.has_track());
    assert_eq!(leg.track_points(), points(8)[1..6].to_vec());
    let whole = Leg { ..leg_of_one(0, 8, 8) };
    assert_eq!(whole.track_points(), points(8));
    let empty = leg_of_one(2, 2, 8);
    assert!(empty.has_track());
    assert_eq!(empty.track_points(), vec![]);
}

fn leg_of_one(begin: usize, end: usize, n: i64) -> Leg {
    leg(&[(begin, end)], n)
}

#[test]
fn leg_without_track_is_told_apart() {
    assert!(!leg(&[], 8).has_track());
    assert!(!leg_of_one(5, 4, 8).has_track());
    assert!(!leg_of_one(0, 9, 8).has_track());
    assert!(!leg_of_one(5, 4, 8).has_track());
    assert!(!leg(&[(5, 6), (1, 2)], 8).has_track());
    assert!(leg(&[(5, 9), (1, 6)], 8).has_track());
}

#[test]
fn maneuver_points_are_the_starts_of_the_maneuvers() {
    let leg = leg(&[(1, 3), (3, 4), (7, 8), (0, 1)], 8);
    assert!(leg.has_starts());
    let all = points(8);
    assert_eq!(leg.maneuver_points(), vec![all[1], all[3], all[7], all[0]]);
    assert!(leg_of_one(0, 0, 1).has_starts());
    assert!(!leg_of_one(8, 8, 8).has_starts());
    assert!(!leg_of_one(0, 0, 0).has_starts());
    assert!(super_empty().has_starts());
    assert_eq!(super_empty().maneuver_points(), vec![]);
}

fn super_empty() -> Leg {
    leg(&[], 0)
}

#[test]
fn trip_is_drawn_leg_after_leg() {
    let trip = trip(vec![leg(&[(0, 2), (2, 3)], 4), leg(&[], 0), leg(&[(1, 2)], 3)]);
    assert!(!trip.can_be_drawn());
    let trip = Trip { legs: vec![leg(&[(0, 2), (2, 3)], 4), leg(&[(1, 2)], 3)], ..trip };
    assert!(trip.can_be_drawn());
    let all = points(4);
    assert_eq!(trip.track_segments(), vec![vec![all[0], all[1], all[2]], vec![all[1]]]);
    assert_eq!(trip.route_points(), vec![all[0], all[2], all[1]]);
}

#[test]
fn trip_without_legs_has_nothing_to_draw() {
    let trip = trip(vec![]);
    assert!(trip.can_be_drawn());
    assert_eq!(trip.track_segments(), Vec::<Vec<ShapePoint>>::new());
    assert_eq!(trip.route_points(), vec![]);
}

#[test]
fn trip_with_a_maneuver_outside_its_shape_cannot_be_drawn() {
    assert!(!trip(vec![leg(&[(0, 2), (4, 2)], 4)]).can_be_drawn());
    assert!(!trip(vec![leg(&[(0, 5)], 4)]).can_be_drawn());
    assert!(trip(vec![leg(&[(0, 4)], 4)]).can_be_drawn());
}
