use rusty::ident::Identifier;
use rusty::point::Point;
use rusty::polygon::{Host, Polygon};

const ID_TEXT: &str = "67e55044-10b1-426f-9247-bb680e5fe0c8";

struct TestHost;

impl Host for TestHost {
    fn values_equal(&self, a: Point, b: Point) -> bool {
        f64::from_bits(a.x) == f64::from_bits(b.x) && f64::from_bits(a.y) == f64::from_bits(b.y)
    }

    fn generate_identifier(&self) -> String {
        String::from(ID_TEXT)
    }
}

struct BadHost;

impl Host for BadHost {
    fn values_equal(&self, _a: Point, _b: Point) -> bool {
        false
    }

    fn generate_identifier(&self) -> String {
        String::from("not an identifier")
    }
}

fn pt(x: f64, y: f64) -> Point {
    Point::new(x.to_bits(), y.to_bits())
}

fn distance(a: Point, b: Point) -> f64 {
    (f64::from_bits(a.x) - f64::from_bits(b.x)).hypot(f64::from_bits(a.y) - f64::from_bits(b.y))
}

fn path_length(p: &Polygon) -> f64 {
    p.segments()
        .iter()
        .fold(0.0, |total, (a, b)| total + distance(*a, *b))
}

#[test]
fn it_works() {
    let result = 2 + 2;
    assert_eq!(result, 4);
}

#[test]
fn snapshot_then_assign_round_trips() {
    let host = TestHost;
    let mut original = Polygon::new(&host).unwrap();
    original.push(pt(0.0, 0.0));
    original.push(pt(1.5, -2.0));
    original.push(pt(1.5, -2.0));
    original.push(pt(-7.25, 3.0));

    let buffer = original.points();
    let mut fresh = Polygon::new(&host).unwrap();
    fresh.set_points(buffer.as_slice());

    assert_eq!(fresh.points(), original.points());
    assert_eq!(fresh.count(), 4);
}

#[test]
fn length_of_trivial_paths_is_zero() {
    let host = TestHost;
    let mut p = Polygon::new(&host).unwrap();
    assert_eq!(p.segments().len(), 0);
    assert_eq!(path_length(&p), 0.0);
    p.push(pt(4.0, 9.0));
    assert_eq!(p.segments().len(), 0);
    assert_eq!(path_length(&p), 0.0);
}

#[test]
fn length_of_closed_unit_square_is_four() {
    let host = TestHost;
    let mut p = Polygon::new(&host).unwrap();
    p.push(pt(0.0, 0.0));
    p.push(pt(1.0, 0.0));
    p.push(pt(1.0, 1.0));
    p.push(pt(0.0, 1.0));
    p.push(pt(0.0, 0.0));
    assert!((path_length(&p) - 4.0).abs() < 1e-12);
}

#[test]
fn description_closed_iff_endpoints_equal_and_two_points() {
    let host = TestHost;

    let empty = Polygon::new(&host).unwrap();
    assert!(empty.description(&host).contains("(opened)"));

    let mut single = Polygon::new(&host).unwrap();
    single.push(pt(2.0, 2.0));
    assert!(single.description(&host).contains("(opened)"));

    let mut ring = Polygon::new(&host).unwrap();
    ring.push(pt(2.0, 2.0));
    ring.push(pt(5.0, 1.0));
    ring.push(pt(2.0, 2.0));
    assert!(ring.description(&host).contains("(closed)"));

    let mut open_path = Polygon::new(&host).unwrap();
    open_path.push(pt(2.0, 2.0));
    open_path.push(pt(5.0, 1.0));
    assert!(open_path.description(&host).contains("(opened)"));
}

#[test]
fn description_text_is_exact() {
    let host = TestHost;
    let mut p = Polygon::new(&host).unwrap();
    p.push(pt(0.0, 0.0));
    p.push(pt(3.0, 4.0));
    assert_eq!(
        p.description(&host),
        format!("Polygon containing 2 points (opened) [{}]", ID_TEXT)
    );
    assert_eq!(
        p.describe_with(true),
        format!("Polygon containing 2 points (closed) [{}]", ID_TEXT)
    );
    assert_eq!(
        Polygon::new(&host).unwrap().description(&host),
        format!("Polygon containing 0 points (opened) [{}]", ID_TEXT)
    );
}

#[test]
fn remove_guard_rejects_out_of_range_indices() {
    let host = TestHost;
    let mut p = Polygon::new(&host).unwrap();
    p.push(pt(1.0, 1.0));
    p.push(pt(2.0, 2.0));

    assert!(!p.can_remove(-1));
    assert!(!p.can_remove(2));
    assert!(!p.can_remove(i64::MAX));
    assert!(p.can_remove(0));

    p.remove(0);
    assert_eq!(p.count(), 1);
    assert_eq!(p.points(), vec![pt(2.0, 2.0)]);
    assert!(!p.can_remove(1));
}

#[test]
fn scenario_square_path_closed() {
    let host = TestHost;
    let mut p = Polygon::new(&host).unwrap();
    p.push(pt(0.0, 0.0));
    p.push(pt(1.0, 0.0));
    p.push(pt(1.0, 1.0));
    p.push(pt(0.0, 0.0));
    let expected = 2.0 + 2.0_f64.sqrt();
    assert!((path_length(&p) - expected).abs() < 1e-12);
    let text = p.description(&host);
    assert!(text.contains("4 points"));
    assert!(text.contains("closed"));
}

#[test]
fn scenario_triangle_legs_opened() {
    let host = TestHost;
    let mut p = Polygon::new(&host).unwrap();
    p.push(pt(0.0, 0.0));
    p.push(pt(3.0, 4.0));
    assert_eq!(path_length(&p), 5.0);
    let text = p.description(&host);
    assert!(text.contains("2 points"));
    assert!(text.contains("opened"));
}

#[test]
fn identifier_parse_and_canonical_text() {
    let id = Identifier::parse(ID_TEXT).unwrap();
    assert_eq!(id.canonical_text(), ID_TEXT);

    let simple = Identifier::parse("67e5504410b1426f9247bb680e5fe0c8").unwrap();
    assert_eq!(simple.canonical_text(), ID_TEXT);

    let upper = Identifier::parse("67E55044-10B1-426F-9247-BB680E5FE0C8").unwrap();
    assert_eq!(upper.canonical_text(), ID_TEXT);

    assert!(Identifier::parse("not an identifier").is_none());
    assert!(Identifier::parse("").is_none());
    assert!(Identifier::parse("67e55044-10b1-426f-9247-bb680e5fe0c").is_none());
}

#[test]
fn construction_fails_on_malformed_identifier_text() {
    assert!(Polygon::new(&BadHost).is_none());
    let good = Polygon::new(&TestHost).unwrap();
    assert_eq!(good.identifier(), Identifier::parse(ID_TEXT).unwrap());
}

#[test]
fn set_points_replaces_wholesale_and_keeps_identifier() {
    let host = TestHost;
    let mut p = Polygon::new(&host).unwrap();
    p.push(pt(9.0, 9.0));
    let before = p.identifier();
    let replacement = vec![pt(1.0, 2.0), pt(3.0, 4.0), pt(5.0, 6.0)];
    p.set_points(replacement.as_slice());
    assert_eq!(p.points(), replacement);
    assert_eq!(p.identifier(), before);

    p.set_points(&[]);
    assert_eq!(p.count(), 0);
    assert_eq!(p.points(), Vec::<Point>::new());
}
