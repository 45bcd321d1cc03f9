//! In-memory model of the static game dataset: solar systems, the regions
//! and constellations that group them, and the raw 3-D coordinates they
//! come with. The relational layer that reads this data from disk is an
//! external collaborator; what belongs to the engine — and is verified
//! here — is the coordinate correction applied once at ingestion, so that
//! points, edges and label anchors all share one convention: scale by the
//! configured factor, then optionally invert the sign, and never re-invert
//! downstream.

use vstd::prelude::*;

use std::collections::HashMap;

use crate::geom::{div_trunc, div_trunc_i64, PlanePoint};

verus! {

/// Magnitude bound on a raw dataset coordinate; raw values are below
/// 10^17, so their sums and inversions stay far inside the 64-bit range.
pub const RAW_COORD_LIMIT: i64 = 1_000_000_000_000_000_000;

/// A raw 3-D dataset coordinate.
#[derive(Clone, Copy, PartialEq, Eq, Structural, Debug, Hash)]
pub struct SdePoint {
    pub x: i64,
    pub y: i64,
    pub z: i64,
}

/// One coordinate axis after correction: scaled down by a factor greater
/// than one, scaled up by the magnitude of a factor less than minus one,
/// left alone otherwise; then sign-inverted on request.
pub open spec fn spec_correct_axis(v: int, factor: int, invert: bool) -> int {
    let scaled = if factor > 1 {
        div_trunc(v, factor)
    } else if factor < -1 {
        v * (-factor)
    } else {
        v
    };
    if invert {
        -scaled
    } else {
        scaled
    }
}

/// Whether the corrected axis value stays inside the 64-bit range for
/// every axis of `p` under `factor`.
pub open spec fn correction_in_range(p: SdePoint, factor: int) -> bool {
    &&& -RAW_COORD_LIMIT <= p.x <= RAW_COORD_LIMIT
    &&& -RAW_COORD_LIMIT <= p.y <= RAW_COORD_LIMIT
    &&& -RAW_COORD_LIMIT <= p.z <= RAW_COORD_LIMIT
    &&& (factor < -1 ==> (-RAW_COORD_LIMIT <= p.x * (-factor) <= RAW_COORD_LIMIT
        && -RAW_COORD_LIMIT <= p.y * (-factor) <= RAW_COORD_LIMIT && -RAW_COORD_LIMIT <= p.z * (
    -factor) <= RAW_COORD_LIMIT))
}

impl SdePoint {
    /// A point from its three coordinates.
    pub fn new(x: i64, y: i64, z: i64) -> (p: SdePoint)
        ensures
            p.x == x,
            p.y == y,
            p.z == z,
    {
        SdePoint { x, y, z }
    }

    /// The planar projection the map draws: the x and z axes.
    pub fn to_plane(self) -> (p: PlanePoint)
        ensures
            p.x == self.x,
            p.y == self.z,
    {
        PlanePoint { x: self.x, y: self.z }
    }

    /// Applies the ingestion correction to every axis: scale by `factor`,
    /// then invert the sign if `invert` is set.
    pub fn corrected(self, factor: i64, invert: bool) -> (r: SdePoint)
        requires
            correction_in_range(self, factor as int),
        ensures
            r.x == spec_correct_axis(self.x as int, factor as int, invert),
            r.y == spec_correct_axis(self.y as int, factor as int, invert),
            r.z == spec_correct_axis(self.z as int, factor as int, invert),
    {
        let x = correct_axis(self.x, factor, invert);
        let y = correct_axis(self.y, factor, invert);
        let z = correct_axis(self.z, factor, invert);
        SdePoint { x, y, z }
    }
}

/// Applies the ingestion correction to one axis value.
fn correct_axis(v: i64, factor: i64, invert: bool) -> (r: i64)
    requires
        -RAW_COORD_LIMIT <= v <= RAW_COORD_LIMIT,
        factor < -1 ==> -RAW_COORD_LIMIT <= v * (-factor) <= RAW_COORD_LIMIT,
    ensures
        r == spec_correct_axis(v as int, factor as int, invert),
{
    let scaled: i64 = if factor > 1 {
        div_trunc_i64(v, factor)
    } else if factor < -1 {
        let wide: i128 = (v as i128) * (-(factor as i128));
        wide as i64
    } else {
        v
    };
    proof {
        if factor > 1 {
            crate::viewport::lemma_div_trunc_magnitude(v as int, factor as int);
        }
    }
    if invert {
        -scaled
    } else {
        scaled
    }
}

/// A straight connection between two dataset points.
#[derive(Clone, Copy, PartialEq, Eq, Structural, Debug, Hash)]
pub struct SdeLine {
    pub a: SdePoint,
    pub b: SdePoint,
}

impl SdeLine {
    /// A line from its two endpoints.
    pub fn new(a: SdePoint, b: SdePoint) -> (l: SdeLine)
        ensures
            l.a == a,
            l.b == b,
    {
        SdeLine { a, b }
    }

    /// The midpoint of the line, axis by axis (components rounded toward
    /// zero).
    pub fn midpoint(self) -> (m: SdePoint)
        requires
            -RAW_COORD_LIMIT <= self.a.x <= RAW_COORD_LIMIT,
            -RAW_COORD_LIMIT <= self.a.y <= RAW_COORD_LIMIT,
            -RAW_COORD_LIMIT <= self.a.z <= RAW_COORD_LIMIT,
            -RAW_COORD_LIMIT <= self.b.x <= RAW_COORD_LIMIT,
            -RAW_COORD_LIMIT <= self.b.y <= RAW_COORD_LIMIT,
            -RAW_COORD_LIMIT <= self.b.z <= RAW_COORD_LIMIT,
        ensures
            m.x == div_trunc(self.a.x + self.b.x, 2),
            m.y == div_trunc(self.a.y + self.b.y, 2),
            m.z == div_trunc(self.a.z + self.b.z, 2),
    {
        SdePoint {
            x: div_trunc_i64(self.a.x + self.b.x, 2),
            y: div_trunc_i64(self.a.y + self.b.y, 2),
            z: div_trunc_i64(self.a.z + self.b.z, 2),
        }
    }
}

/// The bounding box of one region, as read from the dataset.
#[derive(Clone, PartialEq, Eq, Debug)]
pub struct EveRegionArea {
    pub region_id: u32,
    pub name: String,
    pub min: SdePoint,
    pub max: SdePoint,
}

impl EveRegionArea {
    /// An empty region area, to be filled from the dataset.
    pub fn new() -> (r: EveRegionArea)
        ensures
            r.region_id == 0,
            r.name@.len() == 0,
            r.min == (SdePoint { x: 0, y: 0, z: 0 }),
            r.max == (SdePoint { x: 0, y: 0, z: 0 }),
    {
        EveRegionArea {
            region_id: 0,
            name: String::new(),
            min: SdePoint { x: 0, y: 0, z: 0 },
            max: SdePoint { x: 0, y: 0, z: 0 },
        }
    }
}

/// A moon of a planet.
#[derive(Clone, Copy, PartialEq, Eq, Structural, Debug, Hash)]
pub struct Moon {
    pub id: u32,
    pub planet: u32,
    pub index: u8,
    pub solar_system: u32,
}

impl Moon {
    /// An empty moon record, to be filled from the dataset.
    pub fn new() -> (m: Moon)
        ensures
            m == (Moon { id: 0, planet: 0, index: 0, solar_system: 0 }),
    {
        Moon { id: 0, planet: 0, index: 0, solar_system: 0 }
    }
}

/// A planet of a solar system.
#[derive(Clone, Copy, PartialEq, Eq, Structural, Debug, Hash)]
pub struct Planet {
    pub id: u32,
    pub solar_system: u32,
    pub index: u8,
}

impl Planet {
    /// An empty planet record, to be filled from the dataset.
    pub fn new() -> (p: Planet)
        ensures
            p == (Planet { id: 0, solar_system: 0, index: 0 }),
    {
        Planet { id: 0, solar_system: 0, index: 0 }
    }
}

/// One solar system with its coordinates and gate connections.
#[derive(Clone, Debug)]
pub struct SolarSystem {
    pub id: u32,
    pub name: String,
    pub region: u32,
    pub constellation: u32,
    pub planets: Vec<u32>,
    pub connections: Vec<u32>,
    pub real_coords: SdePoint,
    pub projected_coords: SdePoint,
    pub factor: i64,
}

impl SolarSystem {
    /// An empty solar system carrying the coordinate correction factor,
    /// to be filled from the dataset.
    pub fn new(factor: i64) -> (s: SolarSystem)
        ensures
            s.id == 0,
            s.name@.len() == 0,
            s.region == 0,
            s.constellation == 0,
            s.planets@.len() == 0,
            s.connections@.len() == 0,
            s.real_coords == (SdePoint { x: 0, y: 0, z: 0 }),
            s.projected_coords == (SdePoint { x: 0, y: 0, z: 0 }),
            s.factor == factor,
    {
        SolarSystem {
            id: 0,
            name: String::new(),
            region: 0,
            constellation: 0,
            planets: Vec::new(),
            connections: Vec::new(),
            real_coords: SdePoint { x: 0, y: 0, z: 0 },
            projected_coords: SdePoint { x: 0, y: 0, z: 0 },
            factor,
        }
    }

    /// The system's planar map position, corrected by the stored factor:
    /// the projected x and the real y axis, each scaled down.
    pub fn coord2d(&self) -> (r: (i64, i64))
        requires
            self.factor >= 1,
            i64::MIN < self.projected_coords.x,
            i64::MIN < self.real_coords.y,
        ensures
            r.0 == div_trunc(self.projected_coords.x as int, self.factor as int),
            r.1 == div_trunc(self.real_coords.y as int, self.factor as int),
    {
        (
            div_trunc_i64(self.projected_coords.x, self.factor),
            div_trunc_i64(self.real_coords.y, self.factor),
        )
    }

    /// The system's spatial position, corrected by the stored factor.
    pub fn coord3d(&self) -> (r: (i64, i64, i64))
        requires
            self.factor >= 1,
            i64::MIN < self.projected_coords.x,
            i64::MIN < self.real_coords.y,
            i64::MIN < self.real_coords.z,
        ensures
            r.0 == div_trunc(self.projected_coords.x as int, self.factor as int),
            r.1 == div_trunc(self.real_coords.y as int, self.factor as int),
            r.2 == div_trunc(self.real_coords.z as int, self.factor as int),
    {
        (
            div_trunc_i64(self.projected_coords.x, self.factor),
            div_trunc_i64(self.real_coords.y, self.factor),
            div_trunc_i64(self.real_coords.z, self.factor),
        )
    }
}

/// A constellation grouping several solar systems.
#[derive(Clone, Debug)]
pub struct Constellation {
    pub id: u32,
    pub name: String,
    pub region: u32,
    pub solar_systems: Vec<u32>,
    pub projected_coords: SdePoint,
}

impl Constellation {
    /// An empty constellation record, to be filled from the dataset.
    pub fn new() -> (c: Constellation)
        ensures
            c.id == 0,
            c.name@.len() == 0,
            c.region == 0,
            c.solar_systems@.len() == 0,
            c.projected_coords == (SdePoint { x: 0, y: 0, z: 0 }),
    {
        Constellation {
            id: 0,
            name: String::new(),
            region: 0,
            solar_systems: Vec::new(),
            projected_coords: SdePoint { x: 0, y: 0, z: 0 },
        }
    }
}

/// A region grouping several constellations.
#[derive(Clone, Debug)]
pub struct Region {
    pub id: u32,
    pub name: String,
    pub constellations: Vec<u32>,
    pub projected_coords: SdePoint,
}

impl Region {
    /// An empty region record, to be filled from the dataset.
    pub fn new() -> (r: Region)
        ensures
            r.id == 0,
            r.name@.len() == 0,
            r.constellations@.len() == 0,
            r.projected_coords == (SdePoint { x: 0, y: 0, z: 0 }),
    {
        Region {
            id: 0,
            name: String::new(),
            constellations: Vec::new(),
            projected_coords: SdePoint { x: 0, y: 0, z: 0 },
        }
    }
}

/// Everything one loaded universe holds, keyed by identifier.
pub struct Universe {
    pub regions: HashMap<u32, Region>,
    pub constellations: HashMap<u32, Constellation>,
    pub solar_systems: HashMap<u32, SolarSystem>,
    pub planets: HashMap<u32, Planet>,
    pub moons: HashMap<u32, Moon>,
    pub factor: i64,
    pub connections: HashMap<String, SdeLine>,
}

impl Universe {
    /// An empty universe carrying the coordinate correction factor.
    pub fn new(factor: i64) -> (u: Universe)
        ensures
            u.regions@.len() == 0,
            u.constellations@.len() == 0,
            u.solar_systems@.len() == 0,
            u.planets@.len() == 0,
            u.moons@.len() == 0,
            u.factor == factor,
    {
        Universe {
            regions: HashMap::new(),
            constellations: HashMap::new(),
            solar_systems: HashMap::new(),
            planets: HashMap::new(),
            moons: HashMap::new(),
            factor,
            connections: HashMap::new(),
        }
    }
}

/// The dataset manager: where the data lives, the universe read from it,
/// and the coordinate-correction convention applied to everything at
/// ingestion. The reading itself is the excluded relational layer; the
/// correction is verified here and applied nowhere else.
pub struct SdeManager {
    /// Where the dataset lives, for the reading layer.
    pub path: String,
    /// The universe read so far.
    pub universe: Universe,
    /// The scale factor applied to raw coordinates (they are very large).
    pub factor: i64,
    /// Whether the sign of every coordinate is inverted at ingestion.
    pub invert_coordinates: bool,
}

impl SdeManager {
    /// A manager for the dataset at `path`, inverting coordinates by
    /// default as the map's drawing convention expects.
    pub fn new(path: String, factor: i64) -> (m: SdeManager)
        ensures
            m.path@ == path@,
            m.factor == factor,
            m.invert_coordinates,
            m.universe.factor == factor,
            m.universe.solar_systems@.len() == 0,
    {
        SdeManager { path: path, universe: Universe::new(factor), factor, invert_coordinates: true }
    }

    /// Applies this manager's correction convention to one raw point.
    pub fn correct_point(&self, raw: SdePoint) -> (r: SdePoint)
        requires
            correction_in_range(raw, self.factor as int),
        ensures
            r.x == spec_correct_axis(raw.x as int, self.factor as int, self.invert_coordinates),
            r.y == spec_correct_axis(raw.y as int, self.factor as int, self.invert_coordinates),
            r.z == spec_correct_axis(raw.z as int, self.factor as int, self.invert_coordinates),
    {
        raw.corrected(self.factor, self.invert_coordinates)
    }

    /// Applies the inversion convention to a region area: inverting every
    /// coordinate swaps the roles of the minimum and maximum corner, so
    /// the corners are exchanged as they are inverted. Without inversion
    /// the area passes through unchanged.
    pub fn correct_region_area(&self, area: EveRegionArea) -> (r: EveRegionArea)
        requires
            -RAW_COORD_LIMIT <= area.min.x <= RAW_COORD_LIMIT,
            -RAW_COORD_LIMIT <= area.min.y <= RAW_COORD_LIMIT,
            -RAW_COORD_LIMIT <= area.min.z <= RAW_COORD_LIMIT,
            -RAW_COORD_LIMIT <= area.max.x <= RAW_COORD_LIMIT,
            -RAW_COORD_LIMIT <= area.max.y <= RAW_COORD_LIMIT,
            -RAW_COORD_LIMIT <= area.max.z <= RAW_COORD_LIMIT,
        ensures
            r.region_id == area.region_id,
            r.name@ == area.name@,
            self.invert_coordinates ==> r.min.x == -area.max.x && r.min.y == -area.max.y
                && r.min.z == -area.max.z && r.max.x == -area.min.x && r.max.y == -area.min.y
                && r.max.z == -area.min.z,
            !self.invert_coordinates ==> r.min == area.min && r.max == area.max,
    {
        if self.invert_coordinates {
            EveRegionArea {
                region_id: area.region_id,
                name: area.name,
                min: SdePoint { x: -area.max.x, y: -area.max.y, z: -area.max.z },
                max: SdePoint { x: -area.min.x, y: -area.min.y, z: -area.min.z },
            }
        } else {
            area
        }
    }
}

} // verus!
