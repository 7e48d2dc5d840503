//! Vehicle factories: a simple factory driven by a configuration list, a
//! factory-method trait with concrete creators, and a registry that builds
//! vehicles registered under names.

use vstd::prelude::*;

use crate::util::all_digits;
use crate::util::dec_rep;
use crate::util::fmt_u32;
use crate::util::parse_u32;
use crate::util::parsed_val;
use crate::util::str_eq;

verus! {

/// What every vehicle does; each implementor fixes its wording as spec
/// functions.
pub trait Vehicle {
    spec fn start_spec(&self) -> Seq<char>;

    spec fn stop_spec(&self) -> Seq<char>;

    spec fn info_spec(&self) -> Seq<char>;

    fn start(&self) -> (r: String)
        ensures
            r@ == self.start_spec(),
    ;

    fn stop(&self) -> (r: String)
        ensures
            r@ == self.stop_spec(),
    ;

    fn get_info(&self) -> (r: String)
        ensures
            r@ == self.info_spec(),
    ;
}

#[derive(Debug, Clone)]
pub struct Car {
    pub brand: String,
    pub model: String,
    pub year: u32,
}

impl Car {
    pub fn new(brand: &str, model: &str, year: u32) -> (r: Car)
        ensures
            r.brand@ == brand@,
            r.model@ == model@,
            r.year == year,
    {
        Car { brand: brand.to_owned(), model: model.to_owned(), year }
    }

    pub fn brand(&self) -> (r: &str)
        ensures
            r@ == self.brand@,
    {
        self.brand.as_str()
    }

    pub fn model(&self) -> (r: &str)
        ensures
            r@ == self.model@,
    {
        self.model.as_str()
    }

    pub fn year(&self) -> (r: u32)
        ensures
            r == self.year,
    {
        self.year
    }
}

/// The words of a car's messages.
pub open spec fn car_tail(brand: Seq<char>, model: Seq<char>, year: u32) -> Seq<char> {
    dec_rep(year as nat) + " "@ + brand + " "@ + model
}

impl Vehicle for Car {
    open spec fn start_spec(&self) -> Seq<char> {
        "Starting "@ + car_tail(self.brand@, self.model@, self.year) + " engine"@
    }

    open spec fn stop_spec(&self) -> Seq<char> {
        "Stopping "@ + car_tail(self.brand@, self.model@, self.year)
    }

    open spec fn info_spec(&self) -> Seq<char> {
        "Car: "@ + car_tail(self.brand@, self.model@, self.year)
    }

    fn start(&self) -> (r: String) {
        let r = "Starting ".to_owned().concat(fmt_u32(self.year).as_str()).concat(" ").concat(
            self.brand.as_str(),
        ).concat(" ").concat(self.model.as_str()).concat(" engine");
        proof {
            assert(r@ =~= self.start_spec());
        }
        r
    }

    fn stop(&self) -> (r: String) {
        let r = "Stopping ".to_owned().concat(fmt_u32(self.year).as_str()).concat(" ").concat(
            self.brand.as_str(),
        ).concat(" ").concat(self.model.as_str());
        proof {
            assert(r@ =~= self.stop_spec());
        }
        r
    }

    fn get_info(&self) -> (r: String) {
        let r = "Car: ".to_owned().concat(fmt_u32(self.year).as_str()).concat(" ").concat(
            self.brand.as_str(),
        ).concat(" ").concat(self.model.as_str());
        proof {
            assert(r@ =~= self.info_spec());
        }
        r
    }
}

#[derive(Debug, Clone)]
pub struct Motorcycle {
    pub brand: String,
    pub engine_size: u32,
}

impl Motorcycle {
    pub fn new(brand: &str, engine_size: u32) -> (r: Motorcycle)
        ensures
            r.brand@ == brand@,
            r.engine_size == engine_size,
    {
        Motorcycle { brand: brand.to_owned(), engine_size }
    }

    pub fn brand(&self) -> (r: &str)
        ensures
            r@ == self.brand@,
    {
        self.brand.as_str()
    }

    pub fn engine_size(&self) -> (r: u32)
        ensures
            r == self.engine_size,
    {
        self.engine_size
    }
}

impl Vehicle for Motorcycle {
    open spec fn start_spec(&self) -> Seq<char> {
        "Starting "@ + self.brand@ + " motorcycle ("@ + dec_rep(self.engine_size as nat) + "cc)"@
    }

    open spec fn stop_spec(&self) -> Seq<char> {
        "Stopping "@ + self.brand@ + " motorcycle"@
    }

    open spec fn info_spec(&self) -> Seq<char> {
        "Motorcycle: "@ + self.brand@ + " ("@ + dec_rep(self.engine_size as nat) + "cc)"@
    }

    fn start(&self) -> (r: String) {
        let r = "Starting ".to_owned().concat(self.brand.as_str()).concat(" motorcycle (").concat(
            fmt_u32(self.engine_size).as_str(),
        ).concat("cc)");
        proof {
            assert(r@ =~= self.start_spec());
        }
        r
    }

    fn stop(&self) -> (r: String) {
        let r = "Stopping ".to_owned().concat(self.brand.as_str()).concat(" motorcycle");
        proof {
            assert(r@ =~= self.stop_spec());
        }
        r
    }

    fn get_info(&self) -> (r: String) {
        let r = "Motorcycle: ".to_owned().concat(self.brand.as_str()).concat(" (").concat(
            fmt_u32(self.engine_size).as_str(),
        ).concat("cc)");
        proof {
            assert(r@ =~= self.info_spec());
        }
        r
    }
}

#[derive(Debug)]
pub struct Truck {
    pub brand: String,
    pub cargo_capacity: u32,
}

impl Vehicle for Truck {
    open spec fn start_spec(&self) -> Seq<char> {
        "Starting "@ + self.brand@ + " truck ("@ + dec_rep(self.cargo_capacity as nat)
            + "kg capacity)"@
    }

    open spec fn stop_spec(&self) -> Seq<char> {
        "Stopping "@ + self.brand@ + " truck"@
    }

    open spec fn info_spec(&self) -> Seq<char> {
        "Truck: "@ + self.brand@ + " ("@ + dec_rep(self.cargo_capacity as nat) + "kg capacity)"@
    }

    fn start(&self) -> (r: String) {
        let r = "Starting ".to_owned().concat(self.brand.as_str()).concat(" truck (").concat(
            fmt_u32(self.cargo_capacity).as_str(),
        ).concat("kg capacity)");
        proof {
            assert(r@ =~= self.start_spec());
        }
        r
    }

    fn stop(&self) -> (r: String) {
        let r = "Stopping ".to_owned().concat(self.brand.as_str()).concat(" truck");
        proof {
            assert(r@ =~= self.stop_spec());
        }
        r
    }

    fn get_info(&self) -> (r: String) {
        let r = "Truck: ".to_owned().concat(self.brand.as_str()).concat(" (").concat(
            fmt_u32(self.cargo_capacity).as_str(),
        ).concat("kg capacity)");
        proof {
            assert(r@ =~= self.info_spec());
        }
        r
    }
}

/// Which kind of vehicle a factory is asked for.
#[derive(Debug, Clone, Hash, Eq, PartialEq)]
pub enum VehicleType {
    Car,
    Motorcycle,
    Truck,
}

/// A vehicle of any of the three kinds.
#[derive(Debug)]
pub enum VehicleKind {
    Car(Car),
    Motorcycle(Motorcycle),
    Truck(Truck),
}

/// The spec-level image of a vehicle.
#[verifier::ext_equal]
pub enum VehicleImage {
    Car { brand: Seq<char>, model: Seq<char>, year: u32 },
    Motorcycle { brand: Seq<char>, engine_size: u32 },
    Truck { brand: Seq<char>, cargo_capacity: u32 },
}

impl View for VehicleKind {
    type V = VehicleImage;

    open spec fn view(&self) -> VehicleImage {
        match self {
            VehicleKind::Car(c) => VehicleImage::Car {
                brand: c.brand@,
                model: c.model@,
                year: c.year,
            },
            VehicleKind::Motorcycle(m) => VehicleImage::Motorcycle {
                brand: m.brand@,
                engine_size: m.engine_size,
            },
            VehicleKind::Truck(t) => VehicleImage::Truck {
                brand: t.brand@,
                cargo_capacity: t.cargo_capacity,
            },
        }
    }
}

/// The information line of any vehicle image.
pub open spec fn image_info(v: VehicleImage) -> Seq<char> {
    match v {
        VehicleImage::Car { brand, model, year } => "Car: "@ + car_tail(brand, model, year),
        VehicleImage::Motorcycle { brand, engine_size } => "Motorcycle: "@ + brand + " ("@
            + dec_rep(engine_size as nat) + "cc)"@,
        VehicleImage::Truck { brand, cargo_capacity } => "Truck: "@ + brand + " ("@ + dec_rep(
            cargo_capacity as nat,
        ) + "kg capacity)"@,
    }
}

impl Vehicle for VehicleKind {
    open spec fn start_spec(&self) -> Seq<char> {
        match self {
            VehicleKind::Car(c) => c.start_spec(),
            VehicleKind::Motorcycle(m) => m.start_spec(),
            VehicleKind::Truck(t) => t.start_spec(),
        }
    }

    open spec fn stop_spec(&self) -> Seq<char> {
        match self {
            VehicleKind::Car(c) => c.stop_spec(),
            VehicleKind::Motorcycle(m) => m.stop_spec(),
            VehicleKind::Truck(t) => t.stop_spec(),
        }
    }

    open spec fn info_spec(&self) -> Seq<char> {
        match self {
            VehicleKind::Car(c) => c.info_spec(),
            VehicleKind::Motorcycle(m) => m.info_spec(),
            VehicleKind::Truck(t) => t.info_spec(),
        }
    }

    fn start(&self) -> (r: String) {
        match self {
            VehicleKind::Car(c) => c.start(),
            VehicleKind::Motorcycle(m) => m.start(),
            VehicleKind::Truck(t) => t.start(),
        }
    }

    fn stop(&self) -> (r: String) {
        match self {
            VehicleKind::Car(c) => c.stop(),
            VehicleKind::Motorcycle(m) => m.stop(),
            VehicleKind::Truck(t) => t.stop(),
        }
    }

    fn get_info(&self) -> (r: String) {
        match self {
            VehicleKind::Car(c) => {
                let out = c.get_info();
                proof {
                    assert(out@ == c.info_spec());
                    assert(self.info_spec() == c.info_spec());
                }
                out
            },
            VehicleKind::Motorcycle(m) => {
                let out = m.get_info();
                proof {
                    assert(out@ == m.info_spec());
                    assert(self.info_spec() == m.info_spec());
                }
                out
            },
            VehicleKind::Truck(t) => {
                let out = t.get_info();
                proof {
                    assert(out@ == t.info_spec());
                    assert(self.info_spec() == t.info_spec());
                }
                out
            },
        }
    }
}

/// A vehicle's information line is the information line of its image.
pub proof fn lemma_kind_info(v: VehicleKind)
    ensures
        v.info_spec() == image_info(v@),
{
}

/// The first value stored under a key, or nothing.
pub open spec fn assoc_lookup(s: Seq<(Seq<char>, Seq<char>)>, key: Seq<char>) -> Option<Seq<char>>
    decreases s.len(),
{
    if s.len() == 0 {
        None
    } else if s[0].0 == key {
        Some(s[0].1)
    } else {
        assoc_lookup(s.subrange(1, s.len() as int), key)
    }
}

/// The view of a configuration list.
pub open spec fn config_view(cfg: Seq<(String, String)>) -> Seq<(Seq<char>, Seq<char>)> {
    cfg.map_values(|p: (String, String)| (p.0@, p.1@))
}

fn config_get<'a>(config: &'a Vec<(String, String)>, key: &str) -> (r: Option<&'a String>)
    ensures
        match r {
            Some(v) => assoc_lookup(config_view(config@), key@) == Some(v@),
            None => assoc_lookup(config_view(config@), key@) is None,
        },
{
    let ghost cv = config_view(config@);
    proof {
        assert(cv.subrange(0, cv.len() as int) =~= cv);
    }
    let mut i: usize = 0;
    while i < config.len()
        invariant
            i <= config@.len(),
            cv == config_view(config@),
            cv.len() == config@.len(),
            forall|k: int| 0 <= k < i ==> (#[trigger] cv[k]).0 != key@,
            assoc_lookup(cv, key@) == assoc_lookup(cv.subrange(i as int, cv.len() as int), key@),
        decreases config@.len() - i,
    {
        proof {
            assert(cv[i as int] == (config@[i as int].0@, config@[i as int].1@));
        }
        if str_eq(config[i].0.as_str(), key) {
            proof {
                assert(cv.subrange(i as int, cv.len() as int)[0] == cv[i as int]);
            }
            return Some(&config[i].1);
        }
        proof {
            let tail = cv.subrange(i as int, cv.len() as int);
            assert(tail[0] == cv[i as int]);
            assert(tail.subrange(1, tail.len() as int) =~= cv.subrange(
                i + 1,
                cv.len() as int,
            ));
        }
        i += 1;
    }
    proof {
        assert(cv.subrange(cv.len() as int, cv.len() as int) =~= Seq::<
            (Seq<char>, Seq<char>),
        >::empty());
    }
    None
}

/// Whether a string parses as a `u32`.
pub open spec fn parses_u32(s: Seq<char>) -> bool {
    s.len() > 0 && all_digits(s) && parsed_val(s) <= u32::MAX
}

/// What the simple factory yields for a kind and a configuration: the
/// required keys in order, each missing or malformed one named in the error.
pub open spec fn create_vehicle_spec(
    vehicle_type: VehicleType,
    cfg: Seq<(Seq<char>, Seq<char>)>,
) -> Result<VehicleImage, Seq<char>> {
    match vehicle_type {
        VehicleType::Car => {
            if assoc_lookup(cfg, "brand"@) is None {
                Err("Brand required for car"@)
            } else if assoc_lookup(cfg, "model"@) is None {
                Err("Model required for car"@)
            } else if assoc_lookup(cfg, "year"@) is None {
                Err("Year required for car"@)
            } else if !parses_u32(assoc_lookup(cfg, "year"@)->0) {
                Err("Invalid year format"@)
            } else {
                Ok(VehicleImage::Car {
                    brand: assoc_lookup(cfg, "brand"@)->0,
                    model: assoc_lookup(cfg, "model"@)->0,
                    year: parsed_val(assoc_lookup(cfg, "year"@)->0) as u32,
                })
            }
        },
        VehicleType::Motorcycle => {
            if assoc_lookup(cfg, "brand"@) is None {
                Err("Brand required for motorcycle"@)
            } else if assoc_lookup(cfg, "engine_size"@) is None {
                Err("Engine size required for motorcycle"@)
            } else if !parses_u32(assoc_lookup(cfg, "engine_size"@)->0) {
                Err("Invalid engine size format"@)
            } else {
                Ok(VehicleImage::Motorcycle {
                    brand: assoc_lookup(cfg, "brand"@)->0,
                    engine_size: parsed_val(assoc_lookup(cfg, "engine_size"@)->0) as u32,
                })
            }
        },
        VehicleType::Truck => {
            if assoc_lookup(cfg, "brand"@) is None {
                Err("Brand required for truck"@)
            } else if assoc_lookup(cfg, "cargo_capacity"@) is None {
                Err("Cargo capacity required for truck"@)
            } else if !parses_u32(assoc_lookup(cfg, "cargo_capacity"@)->0) {
                Err("Invalid cargo capacity format"@)
            } else {
                Ok(VehicleImage::Truck {
                    brand: assoc_lookup(cfg, "brand"@)->0,
                    cargo_capacity: parsed_val(assoc_lookup(cfg, "cargo_capacity"@)->0) as u32,
                })
            }
        },
    }
}

/// A built vehicle or an error, lifted to the spec level.
pub open spec fn vehicle_result(r: Result<VehicleKind, String>) -> Result<VehicleImage, Seq<char>> {
    match r {
        Ok(v) => Ok(v@),
        Err(e) => Err(e@),
    }
}

/// The simple factory: one entry point, configured by key-value pairs.
pub struct VehicleFactory;

impl VehicleFactory {
    /// Builds the requested kind from the configuration; see
    /// `create_vehicle_spec` for exactly what comes out.
    pub fn create_vehicle(vehicle_type: VehicleType, config: Vec<(String, String)>) -> (r: Result<
        VehicleKind,
        String,
    >)
        ensures
            vehicle_result(r) == create_vehicle_spec(vehicle_type, config_view(config@)),
    {
        match vehicle_type {
            VehicleType::Car => {
                let brand = match config_get(&config, "brand") {
                    Some(b) => b.clone(),
                    None => {
                        return Err("Brand required for car".to_owned());
                    },
                };
                let model = match config_get(&config, "model") {
                    Some(m) => m.clone(),
                    None => {
                        return Err("Model required for car".to_owned());
                    },
                };
                let year_text = match config_get(&config, "year") {
                    Some(y) => y,
                    None => {
                        return Err("Year required for car".to_owned());
                    },
                };
                let year = match parse_u32(year_text.as_str()) {
                    Some(y) => y,
                    None => {
                        return Err("Invalid year format".to_owned());
                    },
                };
                Ok(VehicleKind::Car(Car { brand, model, year }))
            },
            VehicleType::Motorcycle => {
                let brand = match config_get(&config, "brand") {
                    Some(b) => b.clone(),
                    None => {
                        return Err("Brand required for motorcycle".to_owned());
                    },
                };
                let size_text = match config_get(&config, "engine_size") {
                    Some(t) => t,
                    None => {
                        return Err("Engine size required for motorcycle".to_owned());
                    },
                };
                let engine_size = match parse_u32(size_text.as_str()) {
                    Some(v) => v,
                    None => {
                        return Err("Invalid engine size format".to_owned());
                    },
                };
                Ok(VehicleKind::Motorcycle(Motorcycle { brand, engine_size }))
            },
            VehicleType::Truck => {
                let brand = match config_get(&config, "brand") {
                    Some(b) => b.clone(),
                    None => {
                        return Err("Brand required for truck".to_owned());
                    },
                };
                let cap_text = match config_get(&config, "cargo_capacity") {
                    Some(t) => t,
                    None => {
                        return Err("Cargo capacity required for truck".to_owned());
                    },
                };
                let cargo_capacity = match parse_u32(cap_text.as_str()) {
                    Some(v) => v,
                    None => {
                        return Err("Invalid cargo capacity format".to_owned());
                    },
                };
                Ok(VehicleKind::Truck(Truck { brand, cargo_capacity }))
            },
        }
    }
}

/// The factory-method side: a creator knows which vehicle it makes.
pub trait VehicleCreator {
    /// The vehicle this creator makes.
    spec fn created(&self) -> VehicleImage;

    fn create_vehicle(&self) -> (r: VehicleKind)
        ensures
            r@ == self.created(),
    ;

    fn deliver_vehicle(&self) -> (r: String)
        ensures
            r@ == "Delivering: "@ + image_info(self.created()),
    {
        let vehicle = self.create_vehicle();
        let r = "Delivering: ".to_owned().concat(vehicle.get_info().as_str());
        proof {
            lemma_kind_info(vehicle);
            assert(r@ =~= "Delivering: "@ + image_info(self.created()));
        }
        r
    }
}

pub struct CarCreator {
    pub brand: String,
    pub model: String,
    pub year: u32,
}

impl VehicleCreator for CarCreator {
    open spec fn created(&self) -> VehicleImage {
        VehicleImage::Car { brand: self.brand@, model: self.model@, year: self.year }
    }

    fn create_vehicle(&self) -> (r: VehicleKind) {
        VehicleKind::Car(Car { brand: self.brand.clone(), model: self.model.clone(), year: self.year })
    }
}

pub struct MotorcycleCreator {
    pub brand: String,
    pub engine_size: u32,
}

impl VehicleCreator for MotorcycleCreator {
    open spec fn created(&self) -> VehicleImage {
        VehicleImage::Motorcycle { brand: self.brand@, engine_size: self.engine_size }
    }

    fn create_vehicle(&self) -> (r: VehicleKind) {
        VehicleKind::Motorcycle(Motorcycle { brand: self.brand.clone(), engine_size: self.engine_size })
    }
}

/// Rebuilds a vehicle with the same image, part by part.
fn clone_vehicle(v: &VehicleKind) -> (r: VehicleKind)
    ensures
        r@ == v@,
{
    match v {
        VehicleKind::Car(c) => VehicleKind::Car(
            Car { brand: c.brand.clone(), model: c.model.clone(), year: c.year },
        ),
        VehicleKind::Motorcycle(m) => VehicleKind::Motorcycle(
            Motorcycle { brand: m.brand.clone(), engine_size: m.engine_size },
        ),
        VehicleKind::Truck(t) => VehicleKind::Truck(
            Truck { brand: t.brand.clone(), cargo_capacity: t.cargo_capacity },
        ),
    }
}

/// The registry entries, as name-image pairs.
pub open spec fn registry_view(entries: Seq<(String, VehicleKind)>) -> Seq<
    (Seq<char>, VehicleImage),
> {
    entries.map_values(|p: (String, VehicleKind)| (p.0@, p.1@))
}

/// The first vehicle image stored under a name, or nothing.
pub open spec fn registry_lookup(s: Seq<(Seq<char>, VehicleImage)>, name: Seq<char>) -> Option<
    VehicleImage,
>
    decreases s.len(),
{
    if s.len() == 0 {
        None
    } else if s[0].0 == name {
        Some(s[0].1)
    } else {
        registry_lookup(s.subrange(1, s.len() as int), name)
    }
}

/// A registry of vehicles that can be built by name.
pub struct VehicleRegistry {
    pub entries: Vec<(String, VehicleKind)>,
}

impl VehicleRegistry {
    /// An empty registry.
    pub fn new() -> (r: VehicleRegistry)
        ensures
            r.entries@.len() == 0,
    {
        VehicleRegistry { entries: Vec::new() }
    }

    /// Runs the creator once and stores what it made under the name.
    pub fn register<F: Fn() -> VehicleKind>(&mut self, name: &str, creator: F)
        requires
            creator.requires(()),
        ensures
            final(self).entries@.len() == old(self).entries@.len() + 1,
            final(self).entries@.subrange(0, old(self).entries@.len() as int) == old(
                self,
            ).entries@,
            final(self).entries@.last().0@ == name@,
            exists|v: VehicleKind|
                #[trigger] creator.ensures((), v) && final(self).entries@.last().1 == v,
    {
        let vehicle = creator();
        self.entries.push((name.to_owned(), vehicle));
        proof {
            assert(self.entries@.subrange(0, old(self).entries@.len() as int) =~= old(
                self,
            ).entries@);
        }
    }

    /// A fresh copy of the vehicle registered under a name, or the error
    /// naming the unknown type.
    pub fn create(&self, name: &str) -> (r: Result<VehicleKind, String>)
        ensures
            ({
                let found = registry_lookup(registry_view(self.entries@), name@);
                match r {
                    Ok(v) => found == Some(v@),
                    Err(e) => found is None && e@ == "Unknown vehicle type: "@ + name@,
                }
            }),
    {
        let ghost rv = registry_view(self.entries@);
        proof {
            assert(rv.subrange(0, rv.len() as int) =~= rv);
        }
        let mut i: usize = 0;
        while i < self.entries.len()
            invariant
                i <= self.entries@.len(),
                rv == registry_view(self.entries@),
                rv.len() == self.entries@.len(),
                registry_lookup(rv, name@) == registry_lookup(
                    rv.subrange(i as int, rv.len() as int),
                    name@,
                ),
            decreases self.entries@.len() - i,
        {
            proof {
                assert(rv[i as int] == (self.entries@[i as int].0@, self.entries@[i as int].1@));
                let tail = rv.subrange(i as int, rv.len() as int);
                assert(tail[0] == rv[i as int]);
                assert(tail.subrange(1, tail.len() as int) =~= rv.subrange(i + 1, rv.len() as int));
            }
            if str_eq(self.entries[i].0.as_str(), name) {
                return Ok(clone_vehicle(&self.entries[i].1));
            }
            i += 1;
        }
        proof {
            assert(rv.subrange(rv.len() as int, rv.len() as int) =~= Seq::<
                (Seq<char>, VehicleImage),
            >::empty());
        }
        let msg = "Unknown vehicle type: ".to_owned().concat(name);
        proof {
            assert(msg@ =~= "Unknown vehicle type: "@ + name@);
        }
        Err(msg)
    }

    /// The registered names, in registration order.
    pub fn list_types(&self) -> (r: Vec<String>)
        ensures
            r@.map_values(|s: String| s@) == registry_view(self.entries@).map_values(
                |p: (Seq<char>, VehicleImage)| p.0,
            ),
    {
        let ghost target = registry_view(self.entries@).map_values(
            |p: (Seq<char>, VehicleImage)| p.0,
        );
        let mut out: Vec<String> = Vec::new();
        let mut i: usize = 0;
        while i < self.entries.len()
            invariant
                i <= self.entries@.len(),
                target == registry_view(self.entries@).map_values(
                    |p: (Seq<char>, VehicleImage)| p.0,
                ),
                target.len() == self.entries@.len(),
                out@.len() == i,
                forall|k: int| 0 <= k < i ==> (#[trigger] out@[k])@ == target[k],
            decreases self.entries@.len() - i,
        {
            proof {
                assert(registry_view(self.entries@)[i as int] == (
                    self.entries@[i as int].0@,
                    self.entries@[i as int].1@,
                ));
                assert(target[i as int] == registry_view(self.entries@)[i as int].0);
            }
            out.push(self.entries[i].0.clone());
            i += 1;
        }
        proof {
            assert(out@.map_values(|s: String| s@) =~= target);
        }
        out
    }
}

impl Default for VehicleRegistry {
    /// A registry holding one stock car, motorcycle and truck under the
    /// standard names.
    fn default() -> (r: VehicleRegistry)
        ensures
            r.entries@.len() == 3,
            r.entries@[0].0@ == "default_car"@,
            r.entries@[1].0@ == "default_motorcycle"@,
            r.entries@[2].0@ == "default_truck"@,
    {
        let mut registry = VehicleRegistry::new();
        registry.entries.push((
            "default_car".to_owned(),
            VehicleKind::Car(Car::new("Toyota", "Camry", 2023)),
        ));
        registry.entries.push((
            "default_motorcycle".to_owned(),
            VehicleKind::Motorcycle(Motorcycle::new("Honda", 600)),
        ));
        registry.entries.push((
            "default_truck".to_owned(),
            VehicleKind::Truck(Truck { brand: "Ford".to_owned(), cargo_capacity: 5000 }),
        ));
        registry
    }
}

} // verus!
