use telescope::sde::{EveRegionArea, Moon, Planet, Region, SdeLine, SdeManager, SdePoint, SolarSystem, Universe};

#[test]
fn correction_divides_by_a_positive_factor_and_inverts() {
    let m = SdeManager::new(String::from("data/sde.db"), 10);
    assert!(m.invert_coordinates);
    let r = m.correct_point(SdePoint::new(100, -75, 31));
    // Divide by 10 (truncating toward zero, as the raw data convention),
    // then invert the sign.
    assert_eq!((r.x, r.y, r.z), (-10, 7, -3));
}

#[test]
fn correction_multiplies_by_a_negative_factor() {
    let m = SdeManager::new(String::from("data/sde.db"), -10);
    let r = m.correct_point(SdePoint::new(5, -2, 0));
    // Scale up by the magnitude 10, then invert.
    assert_eq!((r.x, r.y, r.z), (-50, 20, 0));
}

#[test]
fn correction_with_unit_factor_only_inverts() {
    let m = SdeManager::new(String::from("data/sde.db"), 1);
    let r = m.correct_point(SdePoint::new(8, -9, 10));
    assert_eq!((r.x, r.y, r.z), (-8, 9, -10));
}

#[test]
fn corrected_without_inversion_keeps_signs() {
    let p = SdePoint::new(99, -99, 45);
    let r = p.corrected(9, false);
    assert_eq!((r.x, r.y, r.z), (11, -11, 5));
}

#[test]
fn region_area_inversion_swaps_the_corners() {
    let m = SdeManager::new(String::from("data/sde.db"), 10);
    let mut area = EveRegionArea::new();
    area.region_id = 7;
    area.name = String::from("Vale");
    area.min = SdePoint::new(-2, -3, -4);
    area.max = SdePoint::new(5, 6, 7);
    let r = m.correct_region_area(area);
    assert_eq!(r.region_id, 7);
    assert_eq!(r.name, "Vale");
    // Inverting every coordinate turns the greatest corner into the least.
    assert_eq!((r.min.x, r.min.y, r.min.z), (-5, -6, -7));
    assert_eq!((r.max.x, r.max.y, r.max.z), (2, 3, 4));
}

#[test]
fn line_midpoint_averages_each_axis() {
    let l = SdeLine::new(SdePoint::new(0, 0, 0), SdePoint::new(3, 3, 3));
    let mid = l.midpoint();
    assert_eq!((mid.x, mid.y, mid.z), (1, 1, 1));
    let l = SdeLine::new(SdePoint::new(-10, 4, 0), SdePoint::new(4, 4, -7));
    let mid = l.midpoint();
    assert_eq!((mid.x, mid.y, mid.z), (-3, 4, -3));
}

#[test]
fn point_projects_to_the_x_z_plane() {
    let p = SdePoint::new(11, 22, 33);
    let plane = p.to_plane();
    assert_eq!((plane.x, plane.y), (11, 33));
}

#[test]
fn solar_system_coords_are_scaled_by_its_factor() {
    let mut s = SolarSystem::new(10);
    s.projected_coords = SdePoint::new(950, 0, 0);
    s.real_coords = SdePoint::new(0, 620, -450);
    let (x, y) = s.coord2d();
    assert_eq!((x, y), (95, 62));
    let (x3, y3, z3) = s.coord3d();
    assert_eq!((x3, y3, z3), (95, 62, -45));
}

#[test]
fn fresh_records_start_empty() {
    let u = Universe::new(10_000_000_000_000);
    assert_eq!(u.factor, 10_000_000_000_000);
    assert!(u.regions.is_empty());
    assert!(u.solar_systems.is_empty());
    let r = Region::new();
    assert_eq!(r.id, 0);
    assert!(r.constellations.is_empty());
    let p = Planet::new();
    assert_eq!((p.id, p.solar_system, p.index), (0, 0, 0));
    let mo = Moon::new();
    assert_eq!((mo.id, mo.planet, mo.index, mo.solar_system), (0, 0, 0, 0));
}
