use cellular3::driver::{Driver, DriverConfig};
use cellular3::engine::GrammarConfig;
use cellular3::grid::CellGrid;
use cellular3::image::Image;

fn tiny_image() -> Image {
    let grid = CellGrid::new(1, 1);
    Image::new(String::from("flat"), vec![grid], 1, 1)
}

fn scenario_config() -> DriverConfig {
    DriverConfig {
        width: 8,
        height: 8,
        history_length: 2,
        tics_per_update: 4,
        activity_value_lower_bound: 0,
        alpha_value_lower_bound: 0,
        local_similarity_upper_bound: u64::MAX >> 8,
        global_similarity_upper_bound: u64::MAX >> 8,
    }
}

#[test]
fn end_to_end_first_cycle() {
    // seed 42, 8 x 8 grid, four ticks per update, two history frames:
    // after one full cycle the finished frame sits in history slot
    // tick mod 2 and the displaced fresh frame has become the working
    // buffer, every byte still in its initial opaque-black pattern.
    let mut driver = Driver::new(scenario_config(), GrammarConfig::standard(), tiny_image(), 42);
    assert_eq!(driver.current_t, 0);
    for i in 0..4 {
        assert_eq!(driver.tick, i);
        driver.update();
    }
    assert_eq!(driver.current_t, 1);
    assert_eq!(driver.tick, 0);
    for y in 0..8 {
        for x in 0..8 {
            for c in 0..4 {
                let v = driver.next_history_step.cell_array.get(y, x, c);
                if c == 3 {
                    assert_eq!(v, 255);
                } else {
                    assert_eq!(v, 0);
                }
            }
        }
    }
}

#[test]
fn identical_seeds_evolve_identically() {
    let mut a = Driver::new(scenario_config(), GrammarConfig::standard(), tiny_image(), 42);
    let mut b = Driver::new(scenario_config(), GrammarConfig::standard(), tiny_image(), 42);
    for _ in 0..12 {
        a.update();
        b.update();
    }
    assert_eq!(a.current_t, b.current_t);
    for t in 0..2 {
        for y in 0..8 {
            for x in 0..8 {
                let ca = a.history.get(x, y, t);
                let cb = b.history.get(x, y, t);
                assert_eq!(ca, cb);
            }
        }
    }
    assert_eq!(
        a.history.history_steps[0].apply_rotation,
        b.history.history_steps[0].apply_rotation
    );
    assert_eq!(
        a.history.history_steps[0].rotation.into_inner(),
        b.history.history_steps[0].rotation.into_inner()
    );
}

#[test]
fn history_lookup_wraps() {
    let h = cellular3::history::History::new(3, 2, 2);
    let c = h.get(10, 11, 12);
    assert_eq!(c.a, 255);
    assert_eq!((c.r, c.g, c.b), (0, 0, 0));
}

#[test]
fn grid_writes_are_read_back() {
    let mut g = CellGrid::new(2, 3);
    g.set(1, 2, 1, 77);
    assert_eq!(g.get(1, 2, 1), 77);
    assert_eq!(g.get(1, 2, 0), 0);
    assert_eq!(g.get(0, 2, 1), 0);
}

#[test]
fn image_pixel_lookup_wraps() {
    let mut g = CellGrid::new(2, 2);
    g.set(0, 0, 0, 10);
    g.set(0, 1, 0, 20);
    g.set(1, 0, 0, 30);
    g.set(1, 1, 0, 40);
    let img = Image::new(String::from("quad"), vec![g], 2, 2);
    assert_eq!(img.get_pixel_wrapped(0, 0, 0).r, 10);
    assert_eq!(img.get_pixel_wrapped(1, 0, 5).r, 20);
    assert_eq!(img.get_pixel_wrapped(2, 0, 0).r, 10);
    assert_eq!(img.get_pixel_wrapped(3, 3, 0).r, 40);
    let sn = cellular3::continuous::SNFloat::new(-cellular3::continuous::SN_ONE);
    let c = img.get_pixel_normalised(sn, sn, 0);
    assert_eq!(c.r, 10);
}

#[test]
fn image_duplicate_preserves_pixels() {
    let mut g = CellGrid::new(1, 2);
    g.set(0, 0, 2, 9);
    g.set(0, 1, 2, 11);
    let img = Image::new(String::from("pair"), vec![g], 2, 1);
    let copy = img.duplicate();
    assert_eq!(copy.get_pixel_wrapped(0, 0, 0).b, 9);
    assert_eq!(copy.get_pixel_wrapped(1, 0, 0).b, 11);
    assert_eq!(copy.width, 2);
    assert_eq!(copy.height, 1);
}
