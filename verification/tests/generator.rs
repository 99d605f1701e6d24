use sierpinski::generator::{start_point, PointGenerator};
use sierpinski::geometry::{Point, ScreenDimension, Triangle};
use sierpinski::random::Draws;
use sierpinski::Config;

fn generator_for(width: u16, height: u16, max_iterations: u32) -> PointGenerator {
    let dim = ScreenDimension::new(width, height);
    let config = Config::new(dim, max_iterations, 0);
    PointGenerator::new(Triangle::from_screen(&dim), &config)
}

#[test]
fn new_generator_has_emitted_nothing() {
    let g = generator_for(10, 10, 2);
    assert_eq!(g.current, None);
    assert_eq!(g.remaining, 2);
    assert_eq!(g.screen, ScreenDimension::new(10, 10));
    assert_eq!(g.triangle.vertices, [Point::new(0, 0), Point::new(5, 10), Point::new(10, 0)]);
    assert!(!g.is_exhausted());
}

#[test]
fn first_point_takes_x_from_the_rows_and_y_from_the_columns() {
    let screen = ScreenDimension::new(10, 100);
    let p = start_point(&screen, &Draws::new(99, 15, 0, 0));
    assert_eq!(p, Point::new(99, 5));
    let q = start_point(&screen, &Draws::new(100, 10, 0, 0));
    assert_eq!(q, Point::new(0, 0));
    let r = start_point(&screen, &Draws::new(u16::MAX, u16::MAX, 0, 0));
    assert_eq!(r, Point::new(35, 5));
}

#[test]
fn first_point_on_the_smallest_screen_is_the_origin() {
    let screen = ScreenDimension::new(1, 1);
    assert_eq!(start_point(&screen, &Draws::new(12345, 54321, 2, 5)), Point::new(0, 0));
}

#[test]
fn always_the_second_corner_from_five_five() {
    let mut g = generator_for(10, 10, 2);
    let draws = Draws::new(5, 5, 1, 0);
    assert_eq!(g.next_with(&draws), Some(Point::new(5, 5)));
    assert_eq!(g.next_with(&draws), Some(Point::new(5, 7)));
    assert_eq!(g.next_with(&draws), Some(Point::new(5, 8)));
    assert_eq!(g.next_with(&draws), None);
    assert!(g.is_exhausted());
}

#[test]
fn always_the_second_corner_from_five_five_collected() {
    let mut g = generator_for(10, 10, 2);
    let draws = vec![Draws::new(5, 5, 1, 0); 3];
    let points = g.collect_with(&draws);
    assert_eq!(points, vec![Point::new(5, 5), Point::new(5, 7), Point::new(5, 8)]);
}

#[test]
fn each_corner_pulls_the_point_its_way() {
    let mut g = generator_for(10, 10, 3);
    assert_eq!(g.next_with(&Draws::new(8, 6, 0, 0)), Some(Point::new(8, 6)));
    assert_eq!(g.next_with(&Draws::new(0, 0, 0, 0)), Some(Point::new(4, 3)));
    assert_eq!(g.next_with(&Draws::new(0, 0, 2, 0)), Some(Point::new(7, 1)));
    assert_eq!(g.next_with(&Draws::new(0, 0, 4, 0)), Some(Point::new(6, 5)));
    assert_eq!(g.next_with(&Draws::new(0, 0, 1, 0)), None);
}

#[test]
fn no_iterations_still_emit_the_first_point() {
    let mut g = generator_for(10, 10, 0);
    let points = g.collect_with(&vec![Draws::new(3, 4, 2, 1); 5]);
    assert_eq!(points, vec![Point::new(3, 4)]);
    assert!(g.is_exhausted());
}

#[test]
fn emits_one_point_more_than_iterations() {
    let mut counts: Vec<usize> = Vec::new();
    for n in [0u32, 1, 2, 7, 100, 1000] {
        let mut g = generator_for(80, 24, n);
        let draws = vec![Draws::new(11, 13, 2, 0); n as usize + 10];
        counts.push(g.collect_with(&draws).len());
        assert!(g.is_exhausted());
    }
    assert_eq!(counts, vec![1, 2, 3, 8, 101, 1001]);
}

#[test]
fn too_few_draws_leave_points_pending() {
    let mut g = generator_for(10, 10, 5);
    let points = g.collect_with(&vec![Draws::new(1, 1, 0, 0); 4]);
    assert_eq!(points.len(), 4);
    assert!(!g.is_exhausted());
    assert_eq!(g.remaining, 2);
    let rest = g.collect_with(&vec![Draws::new(1, 1, 0, 0); 4]);
    assert_eq!(rest.len(), 2);
    assert!(g.is_exhausted());
}

#[test]
fn no_draws_emit_nothing() {
    let mut g = generator_for(10, 10, 5);
    assert_eq!(g.collect_with(&Vec::new()), Vec::new());
    assert_eq!(g.current, None);
    assert_eq!(g.remaining, 5);
}

#[test]
fn exhausted_generator_stays_as_it_is() {
    let mut g = generator_for(10, 10, 1);
    g.collect_with(&vec![Draws::new(2, 2, 1, 0); 2]);
    let before = g;
    assert_eq!(g.next_with(&Draws::new(9, 9, 2, 3)), None);
    assert_eq!(g.next_point(), None);
    assert_eq!(g.current, before.current);
    assert_eq!(g.remaining, 0);
}

#[test]
fn same_draws_give_the_same_points() {
    let draws: Vec<Draws> = (0u16..50)
        .map(|i| Draws::new(i * 7 + 3, i * 5 + 1, (i as usize) * 11 + 2, i as usize))
        .collect();
    let first = generator_for(80, 24, 40).collect_with(&draws);
    let second = generator_for(80, 24, 40).collect_with(&draws);
    assert_eq!(first.len(), 41);
    assert_eq!(first, second);
}

#[test]
fn colour_draws_do_not_move_the_points() {
    let plain: Vec<Draws> = (0u16..20).map(|i| Draws::new(3, 4, i as usize, 0)).collect();
    let coloured: Vec<Draws> = (0u16..20).map(|i| Draws::new(3, 4, i as usize, 99)).collect();
    assert_eq!(
        generator_for(30, 30, 19).collect_with(&plain),
        generator_for(30, 30, 19).collect_with(&coloured)
    );
}

#[test]
fn points_stay_on_a_square_screen() {
    let draws: Vec<Draws> = (0u16..500)
        .map(|i| Draws::new(i.wrapping_mul(7919), i.wrapping_mul(104), (i as usize) * 31 + 1, 0))
        .collect();
    let points = generator_for(40, 40, 499).collect_with(&draws);
    assert_eq!(points.len(), 500);
    assert!(points.iter().all(|p| p.x <= 40 && p.y <= 40));
}

#[test]
fn a_first_point_off_the_screen_stays_in_the_box_it_spans_with_the_triangle() {
    let mut g = generator_for(10, 100, 3);
    assert_eq!(g.next_with(&Draws::new(99, 0, 0, 0)), Some(Point::new(99, 0)));
    assert_eq!(g.next_with(&Draws::new(0, 0, 0, 0)), Some(Point::new(49, 0)));
    assert_eq!(g.next_with(&Draws::new(0, 0, 2, 0)), Some(Point::new(29, 0)));
    assert_eq!(g.next_with(&Draws::new(0, 0, 1, 0)), Some(Point::new(17, 50)));
}

#[test]
fn random_generator_emits_iterations_plus_one_points() {
    let mut g = generator_for(80, 24, 200);
    let mut count: u32 = 0;
    while let Some(_) = g.next_point() {
        count += 1;
        assert!(count <= 201);
    }
    assert_eq!(count, 201);
    assert!(g.is_exhausted());
}

#[test]
fn random_first_point_lies_below_the_swapped_sides() {
    for _ in 0..200 {
        let mut g = generator_for(7, 3, 0);
        let p = g.next_point().expect("a new generator emits its first point");
        assert!(p.x < 3 && p.y < 7);
    }
}

#[test]
fn random_hops_go_halfway_to_a_corner() {
    let mut g = generator_for(80, 24, 300);
    let corners = g.triangle.vertices;
    let mut prev = g.next_point().expect("a new generator emits its first point");
    while let Some(p) = g.next_point() {
        assert!(corners.iter().any(|c| prev.midpoint(*c) == p));
        prev = p;
    }
}

#[test]
fn random_points_stay_on_a_square_screen() {
    let mut g = generator_for(50, 50, 1000);
    while let Some(p) = g.next_point() {
        assert!(p.x <= 50 && p.y <= 50);
    }
}
