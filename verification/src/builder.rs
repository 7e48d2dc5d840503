//! Step-by-step construction of a computer configuration: a classic builder
//! with validation, a phantom-typed builder whose required fields are tracked
//! in the type, a director with ready-made configurations, and a fluent
//! builder that collects errors as it goes.

use vstd::prelude::*;

use crate::util::contains_seq;
use crate::util::dec_rep;
use crate::util::fmt_u32;
use crate::util::join_with;
use crate::util::join_strings;
use crate::util::opt_view;
use crate::util::str_contains;

verus! {

/// A finished configuration.
#[derive(Debug, Clone)]
pub struct Computer {
    pub cpu: String,
    pub ram_gb: u32,
    pub storage_gb: u32,
    pub gpu: Option<String>,
    pub motherboard: String,
    pub power_supply_watts: u32,
    pub case_type: String,
    pub operating_system: Option<String>,
    pub peripherals: Vec<String>,
    pub warranty_years: u32,
}

/// The spec-level image of a computer.
#[verifier::ext_equal]
pub struct ComputerModel {
    pub cpu: Seq<char>,
    pub ram_gb: u32,
    pub storage_gb: u32,
    pub gpu: Option<Seq<char>>,
    pub motherboard: Seq<char>,
    pub power_supply_watts: u32,
    pub case_type: Seq<char>,
    pub operating_system: Option<Seq<char>>,
    pub peripherals: Seq<Seq<char>>,
    pub warranty_years: u32,
}

impl View for Computer {
    type V = ComputerModel;

    open spec fn view(&self) -> ComputerModel {
        ComputerModel {
            cpu: self.cpu@,
            ram_gb: self.ram_gb,
            storage_gb: self.storage_gb,
            gpu: opt_view(self.gpu),
            motherboard: self.motherboard@,
            power_supply_watts: self.power_supply_watts,
            case_type: self.case_type@,
            operating_system: opt_view(self.operating_system),
            peripherals: self.peripherals@.map_values(|p: String| p@),
            warranty_years: self.warranty_years,
        }
    }
}

/// The specification sheet a computer prints.
pub open spec fn computer_specs(c: ComputerModel) -> Seq<char> {
    let base = "Computer Specifications:\nCPU: "@ + c.cpu + "\nRAM: "@ + dec_rep(c.ram_gb as nat)
        + "GB\nStorage: "@ + dec_rep(c.storage_gb as nat) + "GB\nMotherboard: "@ + c.motherboard
        + "\nPSU: "@ + dec_rep(c.power_supply_watts as nat) + "W\nCase: "@ + c.case_type
        + "\nWarranty: "@ + dec_rep(c.warranty_years as nat) + " years"@;
    let with_gpu = match c.gpu {
        Some(g) => base + "\nGPU: "@ + g,
        None => base,
    };
    let with_os = match c.operating_system {
        Some(o) => with_gpu + "\nOS: "@ + o,
        None => with_gpu,
    };
    if c.peripherals.len() > 0 {
        with_os + "\nPeripherals: "@ + join_with(c.peripherals, ", "@)
    } else {
        with_os
    }
}

/// The price estimate: a base of 500, a CPU tier bonus, 4 per GB of RAM, a
/// storage term that is cheaper per GB above a terabyte, a GPU tier bonus,
/// and 50 per peripheral.
pub open spec fn estimated_price_of(c: ComputerModel) -> int {
    let cpu_bonus: int = if contains_seq(c.cpu, "i9"@) || contains_seq(c.cpu, "Ryzen 9"@) {
        400
    } else if contains_seq(c.cpu, "i7"@) || contains_seq(c.cpu, "Ryzen 7"@) {
        300
    } else if contains_seq(c.cpu, "i5"@) || contains_seq(c.cpu, "Ryzen 5"@) {
        200
    } else {
        0
    };
    let storage_term: int = if c.storage_gb >= 1000 {
        c.storage_gb as int / 5
    } else {
        c.storage_gb as int / 10
    };
    let gpu_bonus: int = match c.gpu {
        Some(g) => {
            if contains_seq(g, "RTX 40"@) || contains_seq(g, "RX 7"@) {
                800
            } else if contains_seq(g, "RTX 30"@) || contains_seq(g, "RX 6"@) {
                500
            } else {
                200
            }
        },
        None => 0,
    };
    500 + cpu_bonus + c.ram_gb as int * 4 + storage_term + gpu_bonus + c.peripherals.len() * 50
}

impl Computer {
    /// The printed specification sheet, exactly `computer_specs`.
    pub fn get_specs(&self) -> (r: String)
        ensures
            r@ == computer_specs(self@),
    {
        let mut specs = "Computer Specifications:\nCPU: ".to_owned().concat(
            self.cpu.as_str(),
        ).concat("\nRAM: ").concat(fmt_u32(self.ram_gb).as_str()).concat(
            "GB\nStorage: ",
        ).concat(fmt_u32(self.storage_gb).as_str()).concat("GB\nMotherboard: ").concat(
            self.motherboard.as_str(),
        ).concat("\nPSU: ").concat(fmt_u32(self.power_supply_watts).as_str()).concat(
            "W\nCase: ",
        ).concat(self.case_type.as_str()).concat("\nWarranty: ").concat(
            fmt_u32(self.warranty_years).as_str(),
        ).concat(" years");
        if let Some(gpu) = &self.gpu {
            specs = specs.concat("\nGPU: ").concat(gpu.as_str());
        }
        if let Some(os) = &self.operating_system {
            specs = specs.concat("\nOS: ").concat(os.as_str());
        }
        if self.peripherals.len() > 0 {
            specs = specs.concat("\nPeripherals: ").concat(
                join_strings(&self.peripherals, ", ").as_str(),
            );
        }
        proof {
            assert(specs@ =~= computer_specs(self@));
        }
        specs
    }

    /// The price estimate, clamped to the register's top.
    pub fn estimated_price(&self) -> (r: u32)
        ensures
            r as int == if estimated_price_of(self@) > u32::MAX as int {
                u32::MAX as int
            } else {
                estimated_price_of(self@)
            },
    {
        let mut price: u64 = 500;
        if str_contains(self.cpu.as_str(), "i9") || str_contains(self.cpu.as_str(), "Ryzen 9") {
            price = price + 400;
        } else if str_contains(self.cpu.as_str(), "i7") || str_contains(
            self.cpu.as_str(),
            "Ryzen 7",
        ) {
            price = price + 300;
        } else if str_contains(self.cpu.as_str(), "i5") || str_contains(
            self.cpu.as_str(),
            "Ryzen 5",
        ) {
            price = price + 200;
        }
        price = price + (self.ram_gb as u64) * 4;
        price = price + (if self.storage_gb >= 1000 {
            self.storage_gb / 5
        } else {
            self.storage_gb / 10
        }) as u64;
        if let Some(gpu) = &self.gpu {
            if str_contains(gpu.as_str(), "RTX 40") || str_contains(gpu.as_str(), "RX 7") {
                price = price + 800;
            } else if str_contains(gpu.as_str(), "RTX 30") || str_contains(gpu.as_str(), "RX 6") {
                price = price + 500;
            } else {
                price = price + 200;
            }
        }
        let n_peripherals = self.peripherals.len();
        proof {
            assert(self.peripherals@.map_values(|p: String| p@).len() == self.peripherals@.len());
        }
        if n_peripherals as u64 > (u64::MAX - price) / 50 {
            return u32::MAX;
        }
        price = price + (n_peripherals as u64) * 50;
        if price > u32::MAX as u64 {
            u32::MAX
        } else {
            price as u32
        }
    }
}

/// The spec-level image of a builder in progress.
#[verifier::ext_equal]
pub struct BuilderModel {
    pub cpu: Option<Seq<char>>,
    pub ram_gb: Option<u32>,
    pub storage_gb: Option<u32>,
    pub gpu: Option<Seq<char>>,
    pub motherboard: Option<Seq<char>>,
    pub power_supply_watts: Option<u32>,
    pub case_type: Option<Seq<char>>,
    pub operating_system: Option<Seq<char>>,
    pub peripherals: Seq<Seq<char>>,
    pub warranty_years: Option<u32>,
}

/// What `build` yields: the first missing required part names itself; then
/// undersized RAM or storage is refused; otherwise the computer, with a
/// one-year warranty unless one was chosen.
pub open spec fn build_result(b: BuilderModel) -> Result<ComputerModel, Seq<char>> {
    if b.cpu is None {
        Err("CPU is required"@)
    } else if b.ram_gb is None {
        Err("RAM is required"@)
    } else if b.storage_gb is None {
        Err("Storage is required"@)
    } else if b.motherboard is None {
        Err("Motherboard is required"@)
    } else if b.power_supply_watts is None {
        Err("Power supply is required"@)
    } else if b.case_type is None {
        Err("Case type is required"@)
    } else if b.ram_gb->0 < 4 {
        Err("Minimum 4GB RAM required"@)
    } else if b.storage_gb->0 < 120 {
        Err("Minimum 120GB storage required"@)
    } else {
        Ok(ComputerModel {
            cpu: b.cpu->0,
            ram_gb: b.ram_gb->0,
            storage_gb: b.storage_gb->0,
            gpu: b.gpu,
            motherboard: b.motherboard->0,
            power_supply_watts: b.power_supply_watts->0,
            case_type: b.case_type->0,
            operating_system: b.operating_system,
            peripherals: b.peripherals,
            warranty_years: match b.warranty_years {
                Some(w) => w,
                None => 1,
            },
        })
    }
}

/// A built computer or an error, lifted to the spec level.
pub open spec fn computer_result(r: Result<Computer, String>) -> Result<ComputerModel, Seq<char>> {
    match r {
        Ok(c) => Ok(c@),
        Err(e) => Err(e@),
    }
}

/// The classic builder: set parts one by one, then `build`.
pub struct ComputerBuilder {
    pub cpu: Option<String>,
    pub ram_gb: Option<u32>,
    pub storage_gb: Option<u32>,
    pub gpu: Option<String>,
    pub motherboard: Option<String>,
    pub power_supply_watts: Option<u32>,
    pub case_type: Option<String>,
    pub operating_system: Option<String>,
    pub peripherals: Vec<String>,
    pub warranty_years: Option<u32>,
}

impl View for ComputerBuilder {
    type V = BuilderModel;

    open spec fn view(&self) -> BuilderModel {
        BuilderModel {
            cpu: opt_view(self.cpu),
            ram_gb: self.ram_gb,
            storage_gb: self.storage_gb,
            gpu: opt_view(self.gpu),
            motherboard: opt_view(self.motherboard),
            power_supply_watts: self.power_supply_watts,
            case_type: opt_view(self.case_type),
            operating_system: opt_view(self.operating_system),
            peripherals: self.peripherals@.map_values(|p: String| p@),
            warranty_years: self.warranty_years,
        }
    }
}

impl ComputerBuilder {
    /// An empty builder: nothing chosen yet.
    pub fn new() -> (r: ComputerBuilder)
        ensures
            r@ == (BuilderModel {
                cpu: None,
                ram_gb: None,
                storage_gb: None,
                gpu: None,
                motherboard: None,
                power_supply_watts: None,
                case_type: None,
                operating_system: None,
                peripherals: Seq::<Seq<char>>::empty(),
                warranty_years: None,
            }),
    {
        let r = ComputerBuilder {
            cpu: None,
            ram_gb: None,
            storage_gb: None,
            gpu: None,
            motherboard: None,
            power_supply_watts: None,
            case_type: None,
            operating_system: None,
            peripherals: Vec::new(),
            warranty_years: None,
        };
        proof {
            assert(r@.peripherals =~= Seq::<Seq<char>>::empty());
        }
        r
    }

    pub fn cpu(self, cpu: &str) -> (r: ComputerBuilder)
        ensures
            r@ == (BuilderModel { cpu: Some(cpu@), ..self@ }),
    {
        let mut b = self;
        b.cpu = Some(cpu.to_owned());
        b
    }

    pub fn ram(self, gb: u32) -> (r: ComputerBuilder)
        ensures
            r@ == (BuilderModel { ram_gb: Some(gb), ..self@ }),
    {
        let mut b = self;
        b.ram_gb = Some(gb);
        b
    }

    pub fn storage(self, gb: u32) -> (r: ComputerBuilder)
        ensures
            r@ == (BuilderModel { storage_gb: Some(gb), ..self@ }),
    {
        let mut b = self;
        b.storage_gb = Some(gb);
        b
    }

    pub fn gpu(self, gpu: &str) -> (r: ComputerBuilder)
        ensures
            r@ == (BuilderModel { gpu: Some(gpu@), ..self@ }),
    {
        let mut b = self;
        b.gpu = Some(gpu.to_owned());
        b
    }

    pub fn motherboard(self, motherboard: &str) -> (r: ComputerBuilder)
        ensures
            r@ == (BuilderModel { motherboard: Some(motherboard@), ..self@ }),
    {
        let mut b = self;
        b.motherboard = Some(motherboard.to_owned());
        b
    }

    pub fn power_supply(self, watts: u32) -> (r: ComputerBuilder)
        ensures
            r@ == (BuilderModel { power_supply_watts: Some(watts), ..self@ }),
    {
        let mut b = self;
        b.power_supply_watts = Some(watts);
        b
    }

    pub fn case_type(self, case_type: &str) -> (r: ComputerBuilder)
        ensures
            r@ == (BuilderModel { case_type: Some(case_type@), ..self@ }),
    {
        let mut b = self;
        b.case_type = Some(case_type.to_owned());
        b
    }

    pub fn operating_system(self, os: &str) -> (r: ComputerBuilder)
        ensures
            r@ == (BuilderModel { operating_system: Some(os@), ..self@ }),
    {
        let mut b = self;
        b.operating_system = Some(os.to_owned());
        b
    }

    pub fn add_peripheral(self, peripheral: &str) -> (r: ComputerBuilder)
        ensures
            r@ == (BuilderModel { peripherals: self@.peripherals.push(peripheral@), ..self@ }),
    {
        let mut b = self;
        b.peripherals.push(peripheral.to_owned());
        proof {
            assert(b@.peripherals =~= self@.peripherals.push(peripheral@));
            assert(b@ =~= (BuilderModel { peripherals: self@.peripherals.push(peripheral@), ..self@ }));
        }
        b
    }

    pub fn warranty_years(self, years: u32) -> (r: ComputerBuilder)
        ensures
            r@ == (BuilderModel { warranty_years: Some(years), ..self@ }),
    {
        let mut b = self;
        b.warranty_years = Some(years);
        b
    }

    /// Finishes the build; see `build_result` for exactly what comes out.
    pub fn build(self) -> (r: Result<Computer, String>)
        ensures
            computer_result(r) == build_result(self@),
    {
        let cpu = match self.cpu {
            Some(c) => c,
            None => {
                return Err("CPU is required".to_owned());
            },
        };
        let ram_gb = match self.ram_gb {
            Some(v) => v,
            None => {
                return Err("RAM is required".to_owned());
            },
        };
        let storage_gb = match self.storage_gb {
            Some(v) => v,
            None => {
                return Err("Storage is required".to_owned());
            },
        };
        let motherboard = match self.motherboard {
            Some(v) => v,
            None => {
                return Err("Motherboard is required".to_owned());
            },
        };
        let power_supply_watts = match self.power_supply_watts {
            Some(v) => v,
            None => {
                return Err("Power supply is required".to_owned());
            },
        };
        let case_type = match self.case_type {
            Some(v) => v,
            None => {
                return Err("Case type is required".to_owned());
            },
        };
        let warranty_years = match self.warranty_years {
            Some(v) => v,
            None => 1,
        };
        if ram_gb < 4 {
            return Err("Minimum 4GB RAM required".to_owned());
        }
        if storage_gb < 120 {
            return Err("Minimum 120GB storage required".to_owned());
        }
        let computer = Computer {
            cpu,
            ram_gb,
            storage_gb,
            gpu: self.gpu,
            motherboard,
            power_supply_watts,
            case_type,
            operating_system: self.operating_system,
            peripherals: self.peripherals,
            warranty_years,
        };
        proof {
            assert(computer@ =~= build_result(self@)->Ok_0);
        }
        Ok(computer)
    }
}

impl Default for ComputerBuilder {
    /// The same empty builder `new` yields.
    fn default() -> (r: ComputerBuilder)
        ensures
            r@ == (BuilderModel {
                cpu: None,
                ram_gb: None,
                storage_gb: None,
                gpu: None,
                motherboard: None,
                power_supply_watts: None,
                case_type: None,
                operating_system: None,
                peripherals: Seq::<Seq<char>>::empty(),
                warranty_years: None,
            }),
    {
        ComputerBuilder::new()
    }
}

/// Marks a field of the typed builder whose value has been supplied.
pub struct Required;

/// Marks a field of the typed builder that is still open.
pub struct Optional;

/// A builder whose type records which required parts are set: the field
/// setters move the matching parameter from `Optional` to `Required`, and
/// only a fully `Required` builder offers `build`.
pub struct TypedComputerBuilder<CpuState, RamState, StorageState, MotherboardState> {
    pub cpu: Option<String>,
    pub ram_gb: Option<u32>,
    pub storage_gb: Option<u32>,
    pub gpu: Option<String>,
    pub motherboard: Option<String>,
    pub power_supply_watts: Option<u32>,
    pub case_type: Option<String>,
    pub operating_system: Option<String>,
    pub peripherals: Vec<String>,
    pub warranty_years: Option<u32>,
    pub cpu_state: core::marker::PhantomData<CpuState>,
    pub ram_state: core::marker::PhantomData<RamState>,
    pub storage_state: core::marker::PhantomData<StorageState>,
    pub motherboard_state: core::marker::PhantomData<MotherboardState>,
}

impl TypedComputerBuilder<Optional, Optional, Optional, Optional> {
    /// An empty typed builder.
    pub fn new() -> (r: TypedComputerBuilder<Optional, Optional, Optional, Optional>)
        ensures
            r.cpu is None,
            r.ram_gb is None,
            r.storage_gb is None,
            r.gpu is None,
            r.motherboard is None,
            r.power_supply_watts is None,
            r.case_type is None,
            r.operating_system is None,
            r.peripherals@.len() == 0,
            r.warranty_years is None,
    {
        TypedComputerBuilder {
            cpu: None,
            ram_gb: None,
            storage_gb: None,
            gpu: None,
            motherboard: None,
            power_supply_watts: None,
            case_type: None,
            operating_system: None,
            peripherals: Vec::new(),
            warranty_years: None,
            cpu_state: core::marker::PhantomData,
            ram_state: core::marker::PhantomData,
            storage_state: core::marker::PhantomData,
            motherboard_state: core::marker::PhantomData,
        }
    }
}

impl<RamState, StorageState, MotherboardState> TypedComputerBuilder<
    Optional,
    RamState,
    StorageState,
    MotherboardState,
> {
    /// Supplies the CPU, marking it `Required` in the type.
    pub fn cpu(self, cpu: &str) -> (r: TypedComputerBuilder<
        Required,
        RamState,
        StorageState,
        MotherboardState,
    >)
        ensures
            r.cpu is Some && (r.cpu->0)@ == cpu@,
            r.ram_gb == self.ram_gb,
            r.storage_gb == self.storage_gb,
            r.gpu == self.gpu,
            r.motherboard == self.motherboard,
            r.power_supply_watts == self.power_supply_watts,
            r.case_type == self.case_type,
            r.operating_system == self.operating_system,
            r.peripherals == self.peripherals,
            r.warranty_years == self.warranty_years,
    {
        TypedComputerBuilder {
            cpu: Some(cpu.to_owned()),
            ram_gb: self.ram_gb,
            storage_gb: self.storage_gb,
            gpu: self.gpu,
            motherboard: self.motherboard,
            power_supply_watts: self.power_supply_watts,
            case_type: self.case_type,
            operating_system: self.operating_system,
            peripherals: self.peripherals,
            warranty_years: self.warranty_years,
            cpu_state: core::marker::PhantomData,
            ram_state: core::marker::PhantomData,
            storage_state: core::marker::PhantomData,
            motherboard_state: core::marker::PhantomData,
        }
    }
}

impl<CpuState, StorageState, MotherboardState> TypedComputerBuilder<
    CpuState,
    Optional,
    StorageState,
    MotherboardState,
> {
    /// Supplies the RAM size, marking it `Required` in the type.
    pub fn ram(self, gb: u32) -> (r: TypedComputerBuilder<
        CpuState,
        Required,
        StorageState,
        MotherboardState,
    >)
        ensures
            r.ram_gb == Some(gb),
            r.cpu == self.cpu,
            r.storage_gb == self.storage_gb,
            r.gpu == self.gpu,
            r.motherboard == self.motherboard,
            r.power_supply_watts == self.power_supply_watts,
            r.case_type == self.case_type,
            r.operating_system == self.operating_system,
            r.peripherals == self.peripherals,
            r.warranty_years == self.warranty_years,
    {
        TypedComputerBuilder {
            cpu: self.cpu,
            ram_gb: Some(gb),
            storage_gb: self.storage_gb,
            gpu: self.gpu,
            motherboard: self.motherboard,
            power_supply_watts: self.power_supply_watts,
            case_type: self.case_type,
            operating_system: self.operating_system,
            peripherals: self.peripherals,
            warranty_years: self.warranty_years,
            cpu_state: core::marker::PhantomData,
            ram_state: core::marker::PhantomData,
            storage_state: core::marker::PhantomData,
            motherboard_state: core::marker::PhantomData,
        }
    }
}

impl TypedComputerBuilder<Required, Required, Required, Required> {
    /// Finishes a fully supplied typed builder; unset optional parts take
    /// the defaults of 650 W, a mid tower case and one year of warranty.
    pub fn build(self) -> (r: Computer)
        requires
            self.cpu is Some,
            self.ram_gb is Some,
            self.storage_gb is Some,
            self.motherboard is Some,
        ensures
            r.cpu == self.cpu->0,
            r.ram_gb == self.ram_gb->0,
            r.storage_gb == self.storage_gb->0,
            r.gpu == self.gpu,
            r.motherboard == self.motherboard->0,
            r.power_supply_watts == (match self.power_supply_watts {
                Some(w) => w,
                None => 650u32,
            }),
            (r.case_type@ == match opt_view(self.case_type) {
                Some(c) => c,
                None => "Mid Tower"@,
            }),
            r.operating_system == self.operating_system,
            r.peripherals == self.peripherals,
            r.warranty_years == (match self.warranty_years {
                Some(w) => w,
                None => 1u32,
            }),
    {
        let case_type = match self.case_type {
            Some(c) => c,
            None => "Mid Tower".to_owned(),
        };
        Computer {
            cpu: match self.cpu {
                Some(c) => c,
                None => String::new(),
            },
            ram_gb: match self.ram_gb {
                Some(v) => v,
                None => 0,
            },
            storage_gb: match self.storage_gb {
                Some(v) => v,
                None => 0,
            },
            gpu: self.gpu,
            motherboard: match self.motherboard {
                Some(v) => v,
                None => String::new(),
            },
            power_supply_watts: match self.power_supply_watts {
                Some(w) => w,
                None => 650,
            },
            case_type,
            operating_system: self.operating_system,
            peripherals: self.peripherals,
            warranty_years: match self.warranty_years {
                Some(w) => w,
                None => 1,
            },
        }
    }
}

/// Ready-made configurations.
pub struct ComputerDirector;

impl ComputerDirector {
    /// A gaming build; always well-formed, so always `Ok`.
    pub fn build_gaming_pc() -> (r: Result<Computer, String>)
        ensures
            r is Ok,
            r->Ok_0@.cpu == "Intel Core i7-13700K"@,
            r->Ok_0@.ram_gb == 32,
            r->Ok_0@.storage_gb == 1000,
            r->Ok_0@.gpu == Some("NVIDIA RTX 4070"@),
            r->Ok_0@.motherboard == "ASUS ROG STRIX Z790-E"@,
            r->Ok_0@.power_supply_watts == 750,
            r->Ok_0@.case_type == "Mid Tower RGB"@,
            r->Ok_0@.operating_system == Some("Windows 11"@),
            r->Ok_0@.peripherals =~= seq!["Gaming Keyboard"@, "Gaming Mouse"@, "Gaming Headset"@],
            r->Ok_0@.warranty_years == 2,
    {
        ComputerBuilder::new().cpu("Intel Core i7-13700K").ram(32).storage(1000).gpu(
            "NVIDIA RTX 4070",
        ).motherboard("ASUS ROG STRIX Z790-E").power_supply(750).case_type(
            "Mid Tower RGB",
        ).operating_system("Windows 11").add_peripheral("Gaming Keyboard").add_peripheral(
            "Gaming Mouse",
        ).add_peripheral("Gaming Headset").warranty_years(2).build()
    }

    /// An office build; always `Ok`.
    pub fn build_office_pc() -> (r: Result<Computer, String>)
        ensures
            r is Ok,
            r->Ok_0@.cpu == "Intel Core i5-13400"@,
            r->Ok_0@.ram_gb == 16,
            r->Ok_0@.storage_gb == 512,
            r->Ok_0@.gpu is None,
            r->Ok_0@.warranty_years == 3,
    {
        ComputerBuilder::new().cpu("Intel Core i5-13400").ram(16).storage(512).motherboard(
            "ASUS PRIME B660M-A",
        ).power_supply(500).case_type("Small Form Factor").operating_system(
            "Windows 11",
        ).add_peripheral("Wireless Keyboard").add_peripheral("Wireless Mouse").warranty_years(
            3,
        ).build()
    }

    /// A budget build; always `Ok`.
    pub fn build_budget_pc() -> (r: Result<Computer, String>)
        ensures
            r is Ok,
            r->Ok_0@.cpu == "AMD Ryzen 5 5600G"@,
            r->Ok_0@.ram_gb == 8,
            r->Ok_0@.storage_gb == 256,
            r->Ok_0@.gpu is None,
            r->Ok_0@.peripherals.len() == 0,
            r->Ok_0@.warranty_years == 1,
    {
        ComputerBuilder::new().cpu("AMD Ryzen 5 5600G").ram(8).storage(256).motherboard(
            "MSI A520M-A PRO",
        ).power_supply(400).case_type("Micro ATX").operating_system("Ubuntu 22.04").warranty_years(
            1,
        ).build()
    }

    /// A workstation build; always `Ok`.
    pub fn build_workstation() -> (r: Result<Computer, String>)
        ensures
            r is Ok,
            r->Ok_0@.cpu == "AMD Ryzen 9 7950X"@,
            r->Ok_0@.ram_gb == 64,
            r->Ok_0@.storage_gb == 2000,
            r->Ok_0@.gpu == Some("NVIDIA RTX 4090"@),
            r->Ok_0@.peripherals.len() == 4,
            r->Ok_0@.warranty_years == 3,
    {
        ComputerBuilder::new().cpu("AMD Ryzen 9 7950X").ram(64).storage(2000).gpu(
            "NVIDIA RTX 4090",
        ).motherboard("ASUS ProArt X670E-CREATOR").power_supply(1000).case_type(
            "Full Tower",
        ).operating_system("Windows 11 Pro").add_peripheral("Professional Keyboard").add_peripheral(
            "Precision Mouse",
        ).add_peripheral("4K Monitor").add_peripheral("Drawing Tablet").warranty_years(3).build()
    }
}

/// The spec-level image of the fluent builder.
#[verifier::ext_equal]
pub struct FluentModel {
    pub cpu: Option<Seq<char>>,
    pub ram_gb: Option<u32>,
    pub errors: Seq<Seq<char>>,
}

/// A chaining builder that collects validation errors instead of failing at
/// once; `validate_and_build` hands back either the computer or every error.
pub struct FluentComputerBuilder {
    pub cpu: Option<String>,
    pub ram_gb: Option<u32>,
    pub errors: Vec<String>,
}

impl View for FluentComputerBuilder {
    type V = FluentModel;

    open spec fn view(&self) -> FluentModel {
        FluentModel {
            cpu: opt_view(self.cpu),
            ram_gb: self.ram_gb,
            errors: self.errors@.map_values(|e: String| e@),
        }
    }
}

impl FluentComputerBuilder {
    /// An empty fluent builder with no errors yet.
    pub fn new() -> (r: FluentComputerBuilder)
        ensures
            r@ == (FluentModel { cpu: None, ram_gb: None, errors: Seq::<Seq<char>>::empty() }),
    {
        let r = FluentComputerBuilder { cpu: None, ram_gb: None, errors: Vec::new() };
        proof {
            assert(r@.errors =~= Seq::<Seq<char>>::empty());
        }
        r
    }

    /// Accepts any non-empty CPU name; an empty one is noted as an error.
    pub fn cpu(self, cpu: &str) -> (r: FluentComputerBuilder)
        ensures
            cpu@.len() == 0 ==> r@ == (FluentModel {
                errors: self@.errors.push("CPU cannot be empty"@),
                ..self@
            }),
            cpu@.len() > 0 ==> r@ == (FluentModel { cpu: Some(cpu@), ..self@ }),
    {
        let mut b = self;
        if cpu.unicode_len() == 0 {
            b.errors.push("CPU cannot be empty".to_owned());
            proof {
                assert(b@.errors =~= self@.errors.push("CPU cannot be empty"@));
            }
        } else {
            b.cpu = Some(cpu.to_owned());
        }
        b
    }

    /// Accepts at least 4 GB of RAM; less is noted as an error.
    pub fn ram(self, gb: u32) -> (r: FluentComputerBuilder)
        ensures
            gb < 4 ==> r@ == (FluentModel {
                errors: self@.errors.push("RAM must be at least 4GB"@),
                ..self@
            }),
            gb >= 4 ==> r@ == (FluentModel { ram_gb: Some(gb), ..self@ }),
    {
        let mut b = self;
        if gb < 4 {
            b.errors.push("RAM must be at least 4GB".to_owned());
            proof {
                assert(b@.errors =~= self@.errors.push("RAM must be at least 4GB"@));
            }
        } else {
            b.ram_gb = Some(gb);
        }
        b
    }

    /// With any error collected, every error comes back; otherwise a computer
    /// with the chosen CPU (or an empty name), the chosen RAM (or 8 GB), and
    /// stock values for the rest.
    pub fn validate_and_build(self) -> (r: Result<Computer, Vec<String>>)
        ensures
            self@.errors.len() > 0 <==> r is Err,
            r is Err ==> (r->Err_0)@.map_values(|e: String| e@) == self@.errors,
            r is Ok ==> {
                let c = (r->Ok_0)@;
                &&& c.cpu == (match self@.cpu {
                    Some(s) => s,
                    None => Seq::<char>::empty(),
                })
                &&& c.ram_gb == (match self@.ram_gb {
                    Some(g) => g,
                    None => 8u32,
                })
                &&& c.storage_gb == 512
                &&& c.gpu is None
                &&& c.motherboard == "Default"@
                &&& c.power_supply_watts == 650
                &&& c.case_type == "Mid Tower"@
                &&& c.operating_system is None
                &&& c.peripherals.len() == 0
                &&& c.warranty_years == 1
            },
    {
        if self.errors.len() > 0 {
            return Err(self.errors);
        }
        let cpu = match self.cpu {
            Some(c) => c,
            None => String::new(),
        };
        let ram_gb = match self.ram_gb {
            Some(g) => g,
            None => 8,
        };
        let c = Computer {
            cpu,
            ram_gb,
            storage_gb: 512,
            gpu: None,
            motherboard: "Default".to_owned(),
            power_supply_watts: 650,
            case_type: "Mid Tower".to_owned(),
            operating_system: None,
            peripherals: Vec::new(),
            warranty_years: 1,
        };
        proof {
            assert(c@.peripherals =~= Seq::<Seq<char>>::empty());
        }
        Ok(c)
    }
}

} // verus!
