use vstd::prelude::*;

use crate::logging::{contains_text, text_contains};
use crate::sensors::SensorError;
use crate::text::{decimal, push_decimal};
use crate::text::{int_error_text, parse_unsigned, parse_unsigned_spec, trim_spec, trim_text, IntErrorKind};
use crate::types::{CPUData, SensorData};
use crate::units::EnergyUj;

verus! {

/// Directory of the RAPL package domain in sysfs.
pub const RAPL_PATH: &'static str = "/sys/class/powercap/intel-rapl:0";

/// The file holding the package's cumulative energy counter, in microjoules.
pub const RAPL_ENERGY_PATH: &'static str = "/sys/class/powercap/intel-rapl:0/energy_uj";

/// The file holding the value at which the counter wraps around.
pub const RAPL_MAX_ENERGY_PATH: &'static str = "/sys/class/powercap/intel-rapl:0/max_energy_range_uj";

/// The value of a counter file: its text without surrounding whitespace, read as a
/// decimal `u64`.
pub open spec fn counter_value(text: Seq<char>) -> Result<nat, IntErrorKind> {
    parse_unsigned_spec(trim_spec(text), u64::MAX as nat)
}

/// `prefix` followed by `": "` and `detail`.
pub open spec fn error_text(prefix: Seq<char>, detail: Seq<char>) -> Seq<char> {
    prefix + ": "@ + detail
}

/// Builds `prefix: detail`.
fn error_message(prefix: &str, detail: &str) -> (s: String)
    ensures
        s@ == error_text(prefix@, detail@),
{
    let mut s = String::from_str(prefix);
    s.append(": ");
    s.append(detail);
    proof {
        reveal_strlit(": ");
        assert(s@ =~= error_text(prefix@, detail@));
    }
    s
}

/// Reads a counter file's text as a number.
fn parse_counter(text: &str) -> (r: Result<u64, IntErrorKind>)
    ensures
        match counter_value(text@) {
            Ok(v) => r == Ok::<u64, IntErrorKind>(v as u64),
            Err(e) => r == Err::<u64, IntErrorKind>(e),
        },
{
    parse_unsigned(trim_text(text), u64::MAX)
}

/// The energy used between two readings of a counter that wraps after `max`: the
/// difference, or across the wrap the rest up to `max` and then the new reading
/// (a sum that wraps in the 64-bit range).
pub open spec fn rapl_delta(current: u64, last: u64, max: u64) -> u64 {
    if current >= last {
        (current - last) as u64
    } else {
        let sum = (if max >= last { max - last } else { 0 }) + current;
        if sum > u64::MAX {
            (sum - 0x1_0000_0000_0000_0000) as u64
        } else {
            sum as u64
        }
    }
}

/// Linux CPU energy sensor reading Intel RAPL through sysfs.
pub struct LinuxCPUSensor {
    max_energy_uj: u64,
    last_reading: Option<u64>,
}

impl LinuxCPUSensor {
    pub closed spec fn max_energy(&self) -> u64 {
        self.max_energy_uj
    }

    pub closed spec fn last(&self) -> Option<u64> {
        self.last_reading
    }

    /// A sensor set up from the readings of the two sysfs files (their text, or the
    /// text of the error that stopped the read); it fails when either is unreadable or
    /// the wrap value is not a number.
    pub fn new(max_energy_text: Result<String, String>, energy_text: Result<String, String>) -> (r: Result<
        Self,
        SensorError,
    >)
        ensures
            match max_energy_text {
                Err(e) => r is Err && r->Err_0 is ReadError && r->Err_0->ReadError_0@ == error_text(
                    "Failed to read RAPL max range"@,
                    e@,
                ),
                Ok(t) => match counter_value(t@) {
                    Err(k) => r is Err && r->Err_0 is ReadError && r->Err_0->ReadError_0@
                        == error_text("Failed to parse RAPL max value"@, int_error_text(k)),
                    Ok(max) => match energy_text {
                        Err(e) => r is Err && r->Err_0 is ReadError && r->Err_0->ReadError_0@
                            == error_text("RAPL not accessible"@, e@),
                        Ok(_) => r is Ok && r->Ok_0.max_energy() == max && r->Ok_0.last() is None,
                    },
                },
            },
    {
        let max_text = match max_energy_text {
            Ok(t) => t,
            Err(e) => {
                return Err(
                    SensorError::ReadError(error_message("Failed to read RAPL max range", e.as_str())),
                );
            },
        };
        let max_energy_uj = match parse_counter(max_text.as_str()) {
            Ok(v) => v,
            Err(k) => {
                return Err(
                    SensorError::ReadError(
                        error_message("Failed to parse RAPL max value", k.description()),
                    ),
                );
            },
        };
        match energy_text {
            Ok(_) => {},
            Err(e) => {
                return Err(SensorError::ReadError(error_message("RAPL not accessible", e.as_str())));
            },
        }
        Ok(LinuxCPUSensor { max_energy_uj, last_reading: None })
    }
}

impl LinuxCPUSensor {
    /// Reads the cumulative energy counter, in microjoules, from the text of its file
    /// (or the text of the error that stopped the read).
    pub fn read_energy_uj(&self, energy_text: Result<String, String>) -> (r: Result<u64, SensorError>)
        ensures
            match energy_text {
                Err(e) => r is Err && r->Err_0 is ReadError && r->Err_0->ReadError_0@ == error_text(
                    "Failed to read RAPL"@,
                    e@,
                ),
                Ok(t) => match counter_value(t@) {
                    Err(k) => r is Err && r->Err_0 is ReadError && r->Err_0->ReadError_0@
                        == error_text("Failed to parse RAPL value"@, int_error_text(k)),
                    Ok(v) => r == Ok::<u64, SensorError>(v as u64),
                },
            },
    {
        let text = match energy_text {
            Ok(t) => t,
            Err(e) => {
                return Err(SensorError::ReadError(error_message("Failed to read RAPL", e.as_str())));
            },
        };
        match parse_counter(text.as_str()) {
            Ok(v) => Ok(v),
            Err(k) => Err(
                SensorError::ReadError(error_message("Failed to parse RAPL value", k.description())),
            ),
        }
    }

    /// A reading: the energy used since the previous reading (none for the first
    /// one), from the counter's current text; the counter value is kept for the next
    /// reading. A failed read leaves the sensor unchanged.
    pub fn read_full_data(&mut self, energy_text: Result<String, String>) -> (r: Result<SensorData, SensorError>)
        ensures
            final(self).max_energy() == old(self).max_energy(),
            match energy_text {
                Err(e) => r is Err && r->Err_0 is ReadError && r->Err_0->ReadError_0@ == error_text(
                    "Failed to read RAPL"@,
                    e@,
                ) && final(self).last() == old(self).last(),
                Ok(t) => match counter_value(t@) {
                    Err(k) => r is Err && r->Err_0 is ReadError && r->Err_0->ReadError_0@
                        == error_text("Failed to parse RAPL value"@, int_error_text(k))
                        && final(self).last() == old(self).last(),
                    Ok(v) => {
                        &&& final(self).last() == Some(v as u64)
                        &&& r matches Ok(SensorData::CPU(d))
                        &&& d == (CPUData {
                            total_energy: match old(self).last() {
                                Some(l) => Some(EnergyUj(rapl_delta(v as u64, l, old(self).max_energy()))),
                                None => None,
                            },
                            pp0_energy: None,
                            pp1_energy: None,
                            dram_energy: None,
                            usage_percent: None,
                        })
                    },
                },
            },
    {
        let current_uj = match self.read_energy_uj(energy_text) {
            Ok(v) => v,
            Err(e) => {
                return Err(e);
            },
        };
        let delta_uj = match self.last_reading {
            Some(last_uj) => {
                let delta = if current_uj >= last_uj {
                    current_uj - last_uj
                } else {
                    self.max_energy_uj.saturating_sub(last_uj).wrapping_add(current_uj)
                };
                Some(EnergyUj::from_u64(delta))
            },
            None => None,
        };
        self.last_reading = Some(current_uj);
        Ok(
            SensorData::CPU(
                CPUData {
                    total_energy: delta_uj,
                    pp0_energy: None,
                    pp1_energy: None,
                    dram_energy: None,
                    usage_percent: None,
                },
            ),
        )
    }
}

/// The CPU vendor, which decides the registers read and how their counters wrap.
#[derive(Debug, Clone, Copy, PartialEq, Eq, Structural)]
pub enum CPUVendor {
    Intel,
    Amd,
    Other,
}

/// Intel RAPL model-specific registers.
pub const MSR_RAPL_POWER_UNIT: u32 = 0x606;

pub const MSR_PKG_ENERGY_STATUS: u32 = 0x611;

pub const MSR_PP0_ENERGY_STATUS: u32 = 0x639;

pub const MSR_PP1_ENERGY_STATUS: u32 = 0x641;

pub const MSR_DRAM_ENERGY_STATUS: u32 = 0x618;

/// AMD RAPL model-specific registers.
pub const ENERGY_PWR_UNIT_MSR: u32 = 0xC0010299;

pub const ENERGY_PKG_MSR: u32 = 0xC001029B;

pub const ENERGY_CORE_MSR: u32 = 0xC001029A;

/// Position and width of the energy-unit field in the power-unit register.
pub const ENERGY_UNIT_OFFSET: u32 = 8;

pub const ENERGY_UNIT_MASK: u32 = 0x1F;

/// Splits a register value into its high (`edx`) and low (`eax`) halves.
pub fn split_msr(out: u64) -> (r: (u32, u32))
    ensures
        r.0 == out / 0x1_0000_0000,
        r.1 == out % 0x1_0000_0000,
{
    let edx = ((out >> 32) & 0xffffffff) as u32;
    let eax = (out & 0xffffffff) as u32;
    assert(((out >> 32) & 0xffffffff) == out / 0x1_0000_0000) by (bit_vector);
    assert((out & 0xffffffff) == out % 0x1_0000_0000) by (bit_vector);
    (edx, eax)
}

/// The energy counter held by a register's halves: `edx:eax` read as one number.
pub fn energy_expression(edx: u32, eax: u32) -> (r: u64)
    ensures
        r == edx * 0x1_0000_0000 + eax,
{
    let r = ((edx as u64) << 32) | (eax as u64);
    assert(((edx as u64) << 32) | (eax as u64) == (edx as u64) * 0x1_0000_0000 + (eax as u64))
        by (bit_vector);
    r
}

/// The energy-unit exponent of the power-unit register's low half: the energy unit is
/// `1 / 2^exponent` joules.
pub fn energy_unit_exponent(eax: u32) -> (r: u32)
    ensures
        r == (eax / 256) % 32,
        r < 32,
{
    let r = (eax >> ENERGY_UNIT_OFFSET) & ENERGY_UNIT_MASK;
    assert((eax >> 8u32) & 0x1Fu32 == (eax / 256) % 32) by (bit_vector);
    r
}

/// Reading a register and putting its halves back together gives the register's
/// value.
pub proof fn law_split_then_join_restores(out: u64)
    ensures
        (out / 0x1_0000_0000) * 0x1_0000_0000 + out % 0x1_0000_0000 == out,
{
}

/// Raw energy counters of the RAPL domains.
#[derive(Debug, Clone, Copy, PartialEq, Eq)]
pub struct CPUValues {
    pub pkg: Option<u64>,
    pub pp0: Option<u64>,
    pub pp1: Option<u64>,
    pub dram: Option<u64>,
}

impl Default for CPUValues {
    fn default() -> (r: Self)
        ensures
            r == (CPUValues { pkg: Some(0), pp0: Some(0), pp1: Some(0), dram: Some(0) }),
    {
        CPUValues { pkg: Some(0), pp0: Some(0), pp1: Some(0), dram: Some(0) }
    }
}

/// The counters read from the domain registers of a vendor: Intel has package,
/// core, uncore and DRAM counters; AMD package and core ones.
pub fn cpu_values_from_registers(vendor: CPUVendor, pkg: u64, pp0: u64, pp1: u64, dram: u64) -> (r: Option<CPUValues>)
    ensures
        r == (match vendor {
            CPUVendor::Intel => Some(CPUValues { pkg: Some(pkg), pp0: Some(pp0), pp1: Some(pp1), dram: Some(dram) }),
            CPUVendor::Amd => Some(CPUValues { pkg: Some(pkg), pp0: Some(pp0), pp1: None, dram: None }),
            CPUVendor::Other => None,
        }),
{
    match vendor {
        CPUVendor::Intel => {
            let (e, a) = split_msr(pkg);
            let pkg_energy = energy_expression(e, a);
            let (e, a) = split_msr(pp0);
            let pp0_energy = energy_expression(e, a);
            let (e, a) = split_msr(pp1);
            let pp1_energy = energy_expression(e, a);
            let (e, a) = split_msr(dram);
            let dram_energy = energy_expression(e, a);
            Some(CPUValues { pkg: Some(pkg_energy), pp0: Some(pp0_energy), pp1: Some(pp1_energy), dram: Some(dram_energy) })
        },
        CPUVendor::Amd => {
            let (e, a) = split_msr(pkg);
            let pkg_energy = energy_expression(e, a);
            let (e, a) = split_msr(pp0);
            let pp0_energy = energy_expression(e, a);
            Some(CPUValues { pkg: Some(pkg_energy), pp0: Some(pp0_energy), pp1: None, dram: None })
        },
        CPUVendor::Other => None,
    }
}

/// The registers holding a vendor's domain counters, in the order package, core,
/// uncore, DRAM (AMD has only the first two; other vendors none).
pub fn energy_registers(vendor: CPUVendor) -> (r: Vec<u32>)
    ensures
        r@ == (match vendor {
            CPUVendor::Intel => seq![MSR_PKG_ENERGY_STATUS, MSR_PP0_ENERGY_STATUS, MSR_PP1_ENERGY_STATUS, MSR_DRAM_ENERGY_STATUS],
            CPUVendor::Amd => seq![ENERGY_PKG_MSR, ENERGY_CORE_MSR],
            CPUVendor::Other => Seq::<u32>::empty(),
        }),
{
    match vendor {
        CPUVendor::Intel => vec![MSR_PKG_ENERGY_STATUS, MSR_PP0_ENERGY_STATUS, MSR_PP1_ENERGY_STATUS, MSR_DRAM_ENERGY_STATUS],
        CPUVendor::Amd => vec![ENERGY_PKG_MSR, ENERGY_CORE_MSR],
        CPUVendor::Other => Vec::new(),
    }
}

/// The register holding a vendor's energy unit, if it has one.
pub fn power_unit_register(vendor: CPUVendor) -> (r: Option<u32>)
    ensures
        r == (match vendor {
            CPUVendor::Intel => Some(MSR_RAPL_POWER_UNIT),
            CPUVendor::Amd => Some(ENERGY_PWR_UNIT_MSR),
            CPUVendor::Other => None::<u32>,
        }),
{
    match vendor {
        CPUVendor::Intel => Some(MSR_RAPL_POWER_UNIT),
        CPUVendor::Amd => Some(ENERGY_PWR_UNIT_MSR),
        CPUVendor::Other => None,
    }
}

/// The counter ticks of one domain between two readings: Intel counters are 32 bits
/// wide and wrap, AMD ones are read as 64-bit values and do not go back; no ticks are
/// reported when either reading is missing or zero, or nothing was counted.
pub open spec fn delta_ticks_spec(vendor: CPUVendor, current: Option<u64>, last: Option<u64>) -> Option<u64> {
    match (current, last) {
        (Some(c), Some(l)) => {
            let diff: u64 = if vendor is Intel {
                ((c - l) % 0x1_0000_0000) as u64
            } else if c >= l {
                (c - l) as u64
            } else {
                0
            };
            if c == 0 || l == 0 || diff == 0 {
                None
            } else {
                Some(diff)
            }
        },
        _ => None,
    }
}

/// Ticks need two readings, both non-zero, whatever the vendor: a missing reading, a
/// zero current reading or a zero previous reading gives none. A counter that went up
/// by less than 2^32 ticks gives the difference for every vendor; an Intel counter that
/// wrapped gives the ticks across the wrap, while a counter of another vendor that went
/// back gives none.
pub proof fn law_delta_ticks(v: CPUVendor, c: u64, l: u64)
    ensures
        delta_ticks_spec(v, Some(c), Some(0)) is None,
        delta_ticks_spec(v, Some(0), Some(l)) is None,
        delta_ticks_spec(v, None, Some(l)) is None,
        delta_ticks_spec(v, Some(c), None) is None,
        delta_ticks_spec(v, Some(c), Some(c)) is None,
        0 < l < c && c - l < 0x1_0000_0000 ==> delta_ticks_spec(v, Some(c), Some(l)) == Some((c - l) as u64),
        0 < c < l && l - c < 0x1_0000_0000 ==> delta_ticks_spec(CPUVendor::Intel, Some(c), Some(l)) == Some(
            (c + 0x1_0000_0000 - l) as u64,
        ),
        0 < c < l && !(v is Intel) ==> delta_ticks_spec(v, Some(c), Some(l)) is None,
{
    if 0 < l < c && c - l < 0x1_0000_0000 {
        assert((c - l) % 0x1_0000_0000 == c - l) by (nonlinear_arith)
            requires
                0 < c - l < 0x1_0000_0000,
        ;
    }
    if 0 < c < l && l - c < 0x1_0000_0000 {
        assert((c - l) % 0x1_0000_0000 == c + 0x1_0000_0000 - l) by (nonlinear_arith)
            requires
                0 < l - c < 0x1_0000_0000,
        ;
    }
    assert((c - c) % 0x1_0000_0000 == 0) by (nonlinear_arith);
}

pub fn compute_component_delta_ticks(vendor: CPUVendor, current: Option<u64>, last: Option<u64>) -> (r: Option<u64>)
    ensures
        r == delta_ticks_spec(vendor, current, last),
{
    match (current, last) {
        (Some(current), Some(last)) => {
            let energy_diff: u64 = if vendor == CPUVendor::Intel {
                let w = current.wrapping_sub(last);
                let t = (w as u32) as u64;
                assert(t == w % 0x1_0000_0000) by (bit_vector)
                    requires t == (w as u32) as u64;
                assert(w % 0x1_0000_0000 == ((current - last) % 0x1_0000_0000)) by (nonlinear_arith)
                    requires w == vstd::wrapping::u64_specs::wrapping_sub(current, last);
                t
            } else {
                current.saturating_sub(last)
            };
            if current == 0 || last == 0 || energy_diff == 0 {
                None
            } else {
                Some(energy_diff)
            }
        },
        _ => None,
    }
}

/// Counter ticks of each domain between two readings.
#[derive(Debug, Clone, Copy, PartialEq, Eq)]
pub struct CPUTicks {
    pub pkg: Option<u64>,
    pub pp0: Option<u64>,
    pub pp1: Option<u64>,
    pub dram: Option<u64>,
}

/// Windows CPU energy sensor reading the RAPL registers through a driver.
pub struct WindowsCPUSensor {
    vendor: CPUVendor,
    /// The exponent of the energy unit, `None` when it could not be read (the unit is
    /// then zero).
    energy_unit_exponent: Option<u32>,
    last_energy_measurement: CPUValues,
}

impl WindowsCPUSensor {
    pub closed spec fn spec_vendor(&self) -> CPUVendor {
        self.vendor
    }

    pub closed spec fn unit_exponent(&self) -> Option<u32> {
        self.energy_unit_exponent
    }

    pub closed spec fn last(&self) -> CPUValues {
        self.last_energy_measurement
    }

    /// A sensor for `vendor`; `power_unit` is the value of its power-unit register,
    /// `None` when it could not be read.
    pub fn new(vendor: CPUVendor, power_unit: Option<u64>) -> (r: Self)
        ensures
            r.spec_vendor() == vendor,
            r.unit_exponent() == (match (vendor, power_unit) {
                (CPUVendor::Other, _) => None,
                (_, None) => None,
                (_, Some(out)) => Some(((out % 0x1_0000_0000) / 256 % 32) as u32),
            }),
            r.last() == (CPUValues { pkg: Some(0), pp0: Some(0), pp1: Some(0), dram: Some(0) }),
    {
        let energy_unit_exponent = match (vendor, power_unit) {
            (CPUVendor::Other, _) => None,
            (_, None) => None,
            (_, Some(out)) => {
                let (_edx, eax) = split_msr(out);
                Some(energy_unit_exponent(eax))
            },
        };
        WindowsCPUSensor { vendor, energy_unit_exponent, last_energy_measurement: CPUValues::default() }
    }

    /// The ticks counted since the last measurement, from the current counters; the
    /// current counters become the last measurement. Fails when no package energy
    /// could be computed.
    pub fn read_raw_energy_delta(&mut self, current_energy: CPUValues) -> (r: Result<CPUTicks, SensorError>)
        ensures
            final(self).spec_vendor() == old(self).spec_vendor(),
            final(self).unit_exponent() == old(self).unit_exponent(),
            final(self).last() == current_energy,
            ({
                let v = old(self).spec_vendor();
                let l = old(self).last();
                let ticks = CPUTicks {
                    pkg: delta_ticks_spec(v, current_energy.pkg, l.pkg),
                    pp0: delta_ticks_spec(v, current_energy.pp0, l.pp0),
                    pp1: delta_ticks_spec(v, current_energy.pp1, l.pp1),
                    dram: delta_ticks_spec(v, current_energy.dram, l.dram),
                };
                if ticks.pkg is None {
                    r is Err && r->Err_0 is ReadError && r->Err_0->ReadError_0@ == "Failed to calculate energy"@
                } else {
                    r == Ok::<CPUTicks, SensorError>(ticks)
                }
            }),
    {
        let last = self.last_energy_measurement;
        let ticks = CPUTicks {
            pkg: compute_component_delta_ticks(self.vendor, current_energy.pkg, last.pkg),
            pp0: compute_component_delta_ticks(self.vendor, current_energy.pp0, last.pp0),
            pp1: compute_component_delta_ticks(self.vendor, current_energy.pp1, last.pp1),
            dram: compute_component_delta_ticks(self.vendor, current_energy.dram, last.dram),
        };
        self.last_energy_measurement = current_energy;
        if ticks.pkg.is_none() {
            return Err(SensorError::ReadError(String::from_str("Failed to calculate energy")));
        }
        Ok(ticks)
    }
}

/// The fragment by which a Windows error message names its error code.
pub open spec fn code_fragment(code: u32) -> Seq<char> {
    "(code "@ + decimal(code as nat) + ")"@
}

/// Whether `message` names the Windows error `code`, as `(code N)`.
pub fn has_windows_error_code(message: &str, code: u32) -> (r: bool)
    ensures
        r == text_contains(message@, code_fragment(code)),
{
    let mut fragment = String::from_str("(code ");
    push_decimal(&mut fragment, code as u64);
    fragment.append(")");
    contains_text(message, fragment.as_str())
}

/// The error by which Windows reports a service marked for deletion; it can pass once
/// the service handles are released.
pub const ERROR_SERVICE_MARKED_FOR_DELETE: u32 = 1072;

/// How many times the driver installation is tried.
pub const INSTALL_ATTEMPTS: u32 = 3;

/// Pause between two installation attempts, in milliseconds.
pub const INSTALL_RETRY_PAUSE_MS: u64 = 500;

/// What follows one attempt to install the driver.
#[derive(Debug)]
pub enum InstallStep {
    /// Installation is over, with this outcome.
    Finish(Result<(), String>),
    /// Pause, then try again; the error met so far is kept.
    Retry(String),
}

/// The decision after attempt number `attempt` (counting from 0) ended with `result`:
/// a service marked for deletion is retried while attempts remain, any other error
/// ends the installation.
pub fn install_step(attempt: u32, result: Result<(), String>) -> (step: InstallStep)
    ensures
        match result {
            Ok(()) => step == InstallStep::Finish(Ok(())),
            Err(m) => if install_retries(attempt, m@) {
                step matches InstallStep::Retry(e) && e@ == m@
            } else {
                step matches InstallStep::Finish(Err(e)) && e@ == "Failed to install Scaphandre driver: "@ + m@
            },
        },
{
    match result {
        Ok(()) => InstallStep::Finish(Ok(())),
        Err(message) => {
            if has_windows_error_code(message.as_str(), ERROR_SERVICE_MARKED_FOR_DELETE) && attempt
                < INSTALL_ATTEMPTS - 1 {
                InstallStep::Retry(message)
            } else {
                let mut e = String::from_str("Failed to install Scaphandre driver: ");
                e.append(message.as_str());
                InstallStep::Finish(Err(e))
            }
        },
    }
}

/// Whether an attempt number `attempt` that failed with `message` is followed by another.
pub open spec fn install_retries(attempt: u32, message: Seq<char>) -> bool {
    text_contains(message, code_fragment(ERROR_SERVICE_MARKED_FOR_DELETE)) && attempt < INSTALL_ATTEMPTS
        - 1
}

/// Installation is tried at most `INSTALL_ATTEMPTS` times: counting attempts from 0, no
/// attempt from number `INSTALL_ATTEMPTS - 1` on is followed by another, whatever its
/// error.
pub proof fn law_install_tries_at_most_three(attempt: u32, message: Seq<char>)
    requires
        attempt >= INSTALL_ATTEMPTS - 1,
    ensures
        !install_retries(attempt, message),
{
}

/// Whether the driver is installed, from the status query; a failed query counts as not
/// installed and gives a warning.
pub fn is_installed(status: Result<bool, String>) -> (r: (bool, Option<String>))
    ensures
        match status {
            Ok(b) => r.0 == b && r.1 is None,
            Err(e) => !r.0 && (r.1 matches Some(w) && w@ == "Warning: failed to query Scaphandre driver status: "@ + e@),
        },
{
    match status {
        Ok(b) => (b, None),
        Err(e) => {
            let mut w = String::from_str("Warning: failed to query Scaphandre driver status: ");
            w.append(e.as_str());
            (false, Some(w))
        },
    }
}

/// The first step of uninstalling: nothing to do when the driver is not installed, an
/// error when the status cannot be read, otherwise `None` to go on.
pub fn uninstall_after_status(status: Result<bool, String>) -> (r: Option<Result<(), String>>)
    ensures
        match status {
            Ok(false) => r == Some(Ok::<(), String>(())),
            Ok(true) => r is None,
            Err(e) => r matches Some(Err(m)) && m@ == "Failed to query Scaphandre driver status: "@ + e@,
        },
{
    match status {
        Ok(false) => Some(Ok(())),
        Ok(true) => None,
        Err(e) => {
            let mut m = String::from_str("Failed to query Scaphandre driver status: ");
            m.append(e.as_str());
            Some(Err(m))
        },
    }
}

/// The second step of uninstalling: an error when the driver cannot be opened,
/// otherwise `None` to go on.
pub fn uninstall_after_open(opened: Result<(), String>) -> (r: Option<Result<(), String>>)
    ensures
        match opened {
            Ok(()) => r is None,
            Err(e) => r matches Some(Err(m)) && m@ == "Failed to open Scaphandre driver for uninstall: "@ + e@,
        },
{
    match opened {
        Ok(()) => None,
        Err(e) => {
            let mut m = String::from_str("Failed to open Scaphandre driver for uninstall: ");
            m.append(e.as_str());
            Some(Err(m))
        },
    }
}

/// The outcome of removing the driver: a service already marked for deletion counts
/// as removed.
pub fn uninstall_outcome(result: Result<(), String>) -> (r: Result<(), String>)
    ensures
        match result {
            Ok(()) => r == Ok::<(), String>(()),
            Err(m) => if text_contains(m@, code_fragment(ERROR_SERVICE_MARKED_FOR_DELETE)) {
                r == Ok::<(), String>(())
            } else {
                r matches Err(e) && e@ == "Failed to uninstall Scaphandre driver: "@ + m@
            },
        },
{
    match result {
        Ok(()) => Ok(()),
        Err(message) => {
            if has_windows_error_code(message.as_str(), ERROR_SERVICE_MARKED_FOR_DELETE) {
                Ok(())
            } else {
                let mut e = String::from_str("Failed to uninstall Scaphandre driver: ");
                e.append(message.as_str());
                Err(e)
            }
        },
    }
}

/// The report of installing the CPU driver: whether it succeeded and the line logged.
pub fn install(result: Result<(), String>) -> (r: (bool, String))
    ensures
        match result {
            Ok(()) => r.0 && r.1@ == "✓ CPU MSR driver installed successfully"@,
            Err(e) => !r.0 && r.1@ == "✗ Failed to install CPU MSR driver: "@ + e@,
        },
{
    match result {
        Ok(()) => (true, String::from_str("✓ CPU MSR driver installed successfully")),
        Err(e) => {
            let mut m = String::from_str("✗ Failed to install CPU MSR driver: ");
            m.append(e.as_str());
            (false, m)
        },
    }
}

/// The report of uninstalling the CPU driver: whether it succeeded and the line logged.
pub fn uninstall(result: Result<(), String>) -> (r: (bool, String))
    ensures
        match result {
            Ok(()) => r.0 && r.1@ == "✓ CPU MSR driver uninstalled successfully"@,
            Err(e) => !r.0 && r.1@ == "✗ Failed to uninstall CPU MSR driver: "@ + e@,
        },
{
    match result {
        Ok(()) => (true, String::from_str("✓ CPU MSR driver uninstalled successfully")),
        Err(e) => {
            let mut m = String::from_str("✗ Failed to uninstall CPU MSR driver: ");
            m.append(e.as_str());
            (false, m)
        },
    }
}

} // verus!
