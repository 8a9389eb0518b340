//! The electricity/gas meter decoder: a payload is a tagged union
//! discriminated by its top-level key (`electricitymeter` or `gasmeter`),
//! and each variant maps its domain fields onto a fixed line-protocol
//! record.

use vstd::prelude::*;
use crate::json::{
    get_num, json_num_text, json_only_member, json_sole_member_is, json_str_text, json_string_at,
    key_views,
};
use crate::line::{encode_line, line_of, Number, NormalizedRecord, RecordModel};
use crate::text::{
    chars_vec, chars_eq, ends_slash, ends_with_slash, skip_chars, split_chars, split_seq,
    starts_with_chars, str_eq, string_from_chars, segments_view,
};
use crate::timestamp::{get_rfc3339, spec_time_at};
use crate::{opt_submission_view, Decoder, Error, MqttMessage, Submission, SubmissionModel};

verus! {

/// The unit attached to a numeric meter field.  Units are carried through
/// decoding but are not emitted in the line-protocol output.
#[allow(non_camel_case_types)]
#[derive(Copy, Clone, Debug, PartialEq, Eq, Structural)]
pub enum Units {
    kWh,
    kW,
    m3,
}

/// The unit named by a JSON unit string, if it names one.
pub open spec fn unit_of_text(t: Seq<char>) -> Option<Units> {
    if t == "kWh"@ {
        Some(Units::kWh)
    } else if t == "kW"@ {
        Some(Units::kW)
    } else if t == "m3"@ {
        Some(Units::m3)
    } else {
        None
    }
}

/// The unit at `path` of a JSON document, if that member is a string
/// naming one.
pub open spec fn spec_unit_at(doc: Seq<u8>, path: Seq<Seq<char>>) -> Option<Units> {
    match json_str_text(doc, path) {
        Some(t) => unit_of_text(t),
        None => None,
    }
}

/// Reads the unit string at `path`.
fn get_unit(payload: &Vec<u8>, path: &Vec<&str>) -> (r: Option<Units>)
    ensures
        r == spec_unit_at(payload@, key_views(path@)),
{
    match json_string_at(payload, path) {
        Some(s) => {
            if str_eq(s.as_str(), "kWh") {
                Some(Units::kWh)
            } else if str_eq(s.as_str(), "kW") {
                Some(Units::kW)
            } else if str_eq(s.as_str(), "m3") {
                Some(Units::m3)
            } else {
                None
            }
        },
        None => None,
    }
}

/// Import pricing: unit rate and standing charge.
#[derive(Clone, Debug)]
pub struct EnergyImportPrice {
    pub unitrate: Number,
    pub standingcharge: Number,
}

/// Cumulative energy exported, with its unit.
#[derive(Clone, Debug)]
pub struct ElectricityEnergyExport {
    pub cumulative: Number,
    pub units: Units,
}

/// Imported energy: cumulative and day/week/month aggregates, meter-point
/// number, supplier and pricing.
#[derive(Clone, Debug)]
pub struct ElectricityEnergyImport {
    pub cumulative: Number,
    pub day: Number,
    pub week: Number,
    pub month: Number,
    pub units: Units,
    pub mpan: String,
    pub supplier: String,
    pub price: EnergyImportPrice,
}

/// Export and import energy readings.
#[derive(Clone, Debug)]
pub struct ElectricityEnergy {
    pub export: ElectricityEnergyExport,
    pub import: ElectricityEnergyImport,
}

/// Instantaneous power, with its unit.
#[derive(Clone, Debug)]
pub struct ElectricityPower {
    pub value: Number,
    pub units: Units,
}

/// One electricity-meter reading.
#[derive(Clone, Debug)]
pub struct ElectricityMeter {
    pub timestamp: i64,
    pub energy: ElectricityEnergy,
    pub power: ElectricityPower,
}

/// Imported gas: energy and volume cumulatives with their aggregates and
/// units, meter-point reference, supplier and pricing.
#[derive(Clone, Debug)]
pub struct GasMeterEnergyImport {
    pub cumulative: Number,
    pub day: Number,
    pub week: Number,
    pub month: Number,
    pub units: Units,
    pub cumulativevol: Number,
    pub cumulativevolunits: Units,
    pub dayvol: Number,
    pub weekvol: Number,
    pub monthvol: Number,
    pub dayweekmonthvolunits: Units,
    pub mprn: String,
    pub supplier: String,
    pub price: EnergyImportPrice,
}

/// Import energy readings of a gas meter.
#[derive(Clone, Debug)]
pub struct GasMeterEnergy {
    pub import: GasMeterEnergyImport,
}

/// One gas-meter reading.
#[derive(Clone, Debug)]
pub struct GasMeter {
    pub timestamp: i64,
    pub energy: GasMeterEnergy,
}

/// A meter reading of either family.
#[derive(Clone, Debug)]
pub enum MeterReading {
    Electricity(ElectricityMeter),
    Gas(GasMeter),
}

impl ElectricityMeter {
    /// Every numeric field holds well-formed decimal text.
    pub open spec fn wf(&self) -> bool {
        &&& self.energy.export.cumulative.wf()
        &&& self.energy.import.cumulative.wf()
        &&& self.energy.import.day.wf()
        &&& self.energy.import.week.wf()
        &&& self.energy.import.month.wf()
        &&& self.energy.import.price.unitrate.wf()
        &&& self.energy.import.price.standingcharge.wf()
        &&& self.power.value.wf()
    }

    /// The record this reading renders as: measurement `electricity`,
    /// tagged by meter-point number, with power, cumulative import, unit
    /// price and standing charge.
    pub open spec fn record_model(&self) -> RecordModel {
        RecordModel {
            measurement: "electricity"@,
            tags: seq![("mpan"@, self.energy.import.mpan@)],
            fields: seq![
                ("power"@, self.power.value@),
                ("cumulative"@, self.energy.import.cumulative@),
                ("price"@, self.energy.import.price.unitrate@),
                ("standing"@, self.energy.import.price.standingcharge@),
            ],
            timestamp: self.timestamp as int,
        }
    }

    /// Renders the reading as one line-protocol line.
    pub fn to_line(&self) -> (r: String)
        ensures
            r@ == line_of(self.record_model()),
    {
        let mut tags: Vec<(String, String)> = Vec::new();
        tags.push(("mpan".to_owned(), self.energy.import.mpan.clone()));
        let mut fields: Vec<(String, Number)> = Vec::new();
        fields.push(("power".to_owned(), self.power.value.clone()));
        fields.push(("cumulative".to_owned(), self.energy.import.cumulative.clone()));
        fields.push(("price".to_owned(), self.energy.import.price.unitrate.clone()));
        fields.push(("standing".to_owned(), self.energy.import.price.standingcharge.clone()));
        let record = NormalizedRecord {
            measurement: "electricity".to_owned(),
            tags,
            fields,
            timestamp_seconds: self.timestamp,
        };
        proof {
            assert(record@.tags =~= self.record_model().tags);
            assert(record@.fields =~= self.record_model().fields);
            assert(record@ == self.record_model());
        }
        encode_line(&record)
    }
}

impl GasMeter {
    /// Every numeric field holds well-formed decimal text.
    pub open spec fn wf(&self) -> bool {
        &&& self.energy.import.cumulative.wf()
        &&& self.energy.import.day.wf()
        &&& self.energy.import.week.wf()
        &&& self.energy.import.month.wf()
        &&& self.energy.import.cumulativevol.wf()
        &&& self.energy.import.dayvol.wf()
        &&& self.energy.import.weekvol.wf()
        &&& self.energy.import.monthvol.wf()
        &&& self.energy.import.price.unitrate.wf()
        &&& self.energy.import.price.standingcharge.wf()
    }

    /// The record this reading renders as: measurement `gas`, tagged by
    /// meter-point reference, with cumulative energy, cumulative volume,
    /// unit price and standing charge.
    pub open spec fn record_model(&self) -> RecordModel {
        RecordModel {
            measurement: "gas"@,
            tags: seq![("mprn"@, self.energy.import.mprn@)],
            fields: seq![
                ("cumulative"@, self.energy.import.cumulative@),
                ("cumulativevol"@, self.energy.import.cumulativevol@),
                ("price"@, self.energy.import.price.unitrate@),
                ("standing"@, self.energy.import.price.standingcharge@),
            ],
            timestamp: self.timestamp as int,
        }
    }

    /// Renders the reading as one line-protocol line.
    pub fn to_line(&self) -> (r: String)
        ensures
            r@ == line_of(self.record_model()),
    {
        let mut tags: Vec<(String, String)> = Vec::new();
        tags.push(("mprn".to_owned(), self.energy.import.mprn.clone()));
        let mut fields: Vec<(String, Number)> = Vec::new();
        fields.push(("cumulative".to_owned(), self.energy.import.cumulative.clone()));
        fields.push(("cumulativevol".to_owned(), self.energy.import.cumulativevol.clone()));
        fields.push(("price".to_owned(), self.energy.import.price.unitrate.clone()));
        fields.push(("standing".to_owned(), self.energy.import.price.standingcharge.clone()));
        let record = NormalizedRecord {
            measurement: "gas".to_owned(),
            tags,
            fields,
            timestamp_seconds: self.timestamp,
        };
        proof {
            assert(record@.tags =~= self.record_model().tags);
            assert(record@.fields =~= self.record_model().fields);
            assert(record@ == self.record_model());
        }
        encode_line(&record)
    }
}

/// Key path to a top-level electricity-meter member.
pub open spec fn em_top(k: Seq<char>) -> Seq<Seq<char>> {
    seq!["electricitymeter"@, k]
}

/// Key path to an exported-energy member of an electricity meter.
pub open spec fn em_export(k: Seq<char>) -> Seq<Seq<char>> {
    seq!["electricitymeter"@, "energy"@, "export"@, k]
}

/// Key path to an imported-energy member of an electricity meter.
pub open spec fn em_import(k: Seq<char>) -> Seq<Seq<char>> {
    seq!["electricitymeter"@, "energy"@, "import"@, k]
}

/// Key path to an import-price member of an electricity meter.
pub open spec fn em_price(k: Seq<char>) -> Seq<Seq<char>> {
    seq!["electricitymeter"@, "energy"@, "import"@, "price"@, k]
}

/// Key path to a power member of an electricity meter.
pub open spec fn em_power(k: Seq<char>) -> Seq<Seq<char>> {
    seq!["electricitymeter"@, "power"@, k]
}

/// Key path to a top-level gas-meter member.
pub open spec fn gm_top(k: Seq<char>) -> Seq<Seq<char>> {
    seq!["gasmeter"@, k]
}

/// Key path to an imported-energy member of a gas meter.
pub open spec fn gm_import(k: Seq<char>) -> Seq<Seq<char>> {
    seq!["gasmeter"@, "energy"@, "import"@, k]
}

/// Key path to an import-price member of a gas meter.
pub open spec fn gm_price(k: Seq<char>) -> Seq<Seq<char>> {
    seq!["gasmeter"@, "energy"@, "import"@, "price"@, k]
}

/// Whether the payload holds a complete electricity-meter reading: the
/// sole top-level member is the `electricitymeter` tag (as a tagged
/// union demands), every field of the schema is present with the right
/// type, the timestamp is in RFC 3339 form and each unit string names a
/// known unit.
pub open spec fn elec_ok(doc: Seq<u8>) -> bool {
    &&& json_only_member(doc, "electricitymeter"@)
    &&& spec_time_at(doc, em_top("timestamp"@)) is Some
    &&& json_num_text(doc, em_export("cumulative"@)) is Some
    &&& spec_unit_at(doc, em_export("units"@)) is Some
    &&& json_num_text(doc, em_import("cumulative"@)) is Some
    &&& json_num_text(doc, em_import("day"@)) is Some
    &&& json_num_text(doc, em_import("week"@)) is Some
    &&& json_num_text(doc, em_import("month"@)) is Some
    &&& spec_unit_at(doc, em_import("units"@)) is Some
    &&& json_str_text(doc, em_import("mpan"@)) is Some
    &&& json_str_text(doc, em_import("supplier"@)) is Some
    &&& json_num_text(doc, em_price("unitrate"@)) is Some
    &&& json_num_text(doc, em_price("standingcharge"@)) is Some
    &&& json_num_text(doc, em_power("value"@)) is Some
    &&& spec_unit_at(doc, em_power("units"@)) is Some
}

/// Whether `m` holds exactly the electricity-meter fields of the payload.
pub open spec fn elec_matches(m: ElectricityMeter, doc: Seq<u8>) -> bool {
    &&& m.wf()
    &&& m.timestamp as int == spec_time_at(doc, em_top("timestamp"@))->0
    &&& m.energy.export.cumulative@ == json_num_text(doc, em_export("cumulative"@))->0
    &&& m.energy.export.units == spec_unit_at(doc, em_export("units"@))->0
    &&& m.energy.import.cumulative@ == json_num_text(doc, em_import("cumulative"@))->0
    &&& m.energy.import.day@ == json_num_text(doc, em_import("day"@))->0
    &&& m.energy.import.week@ == json_num_text(doc, em_import("week"@))->0
    &&& m.energy.import.month@ == json_num_text(doc, em_import("month"@))->0
    &&& m.energy.import.units == spec_unit_at(doc, em_import("units"@))->0
    &&& m.energy.import.mpan@ == json_str_text(doc, em_import("mpan"@))->0
    &&& m.energy.import.supplier@ == json_str_text(doc, em_import("supplier"@))->0
    &&& m.energy.import.price.unitrate@ == json_num_text(doc, em_price("unitrate"@))->0
    &&& m.energy.import.price.standingcharge@ == json_num_text(doc, em_price("standingcharge"@))->0
    &&& m.power.value@ == json_num_text(doc, em_power("value"@))->0
    &&& m.power.units == spec_unit_at(doc, em_power("units"@))->0
}

/// Whether the payload holds a complete gas-meter reading, with the
/// `gasmeter` tag as its sole top-level member.
pub open spec fn gas_ok(doc: Seq<u8>) -> bool {
    &&& json_only_member(doc, "gasmeter"@)
    &&& spec_time_at(doc, gm_top("timestamp"@)) is Some
    &&& json_num_text(doc, gm_import("cumulative"@)) is Some
    &&& json_num_text(doc, gm_import("day"@)) is Some
    &&& json_num_text(doc, gm_import("week"@)) is Some
    &&& json_num_text(doc, gm_import("month"@)) is Some
    &&& spec_unit_at(doc, gm_import("units"@)) is Some
    &&& json_num_text(doc, gm_import("cumulativevol"@)) is Some
    &&& spec_unit_at(doc, gm_import("cumulativevolunits"@)) is Some
    &&& json_num_text(doc, gm_import("dayvol"@)) is Some
    &&& json_num_text(doc, gm_import("weekvol"@)) is Some
    &&& json_num_text(doc, gm_import("monthvol"@)) is Some
    &&& spec_unit_at(doc, gm_import("dayweekmonthvolunits"@)) is Some
    &&& json_str_text(doc, gm_import("mprn"@)) is Some
    &&& json_str_text(doc, gm_import("supplier"@)) is Some
    &&& json_num_text(doc, gm_price("unitrate"@)) is Some
    &&& json_num_text(doc, gm_price("standingcharge"@)) is Some
}

/// Whether `m` holds exactly the gas-meter fields of the payload.
pub open spec fn gas_matches(m: GasMeter, doc: Seq<u8>) -> bool {
    &&& m.wf()
    &&& m.timestamp as int == spec_time_at(doc, gm_top("timestamp"@))->0
    &&& m.energy.import.cumulative@ == json_num_text(doc, gm_import("cumulative"@))->0
    &&& m.energy.import.day@ == json_num_text(doc, gm_import("day"@))->0
    &&& m.energy.import.week@ == json_num_text(doc, gm_import("week"@))->0
    &&& m.energy.import.month@ == json_num_text(doc, gm_import("month"@))->0
    &&& m.energy.import.units == spec_unit_at(doc, gm_import("units"@))->0
    &&& m.energy.import.cumulativevol@ == json_num_text(doc, gm_import("cumulativevol"@))->0
    &&& m.energy.import.cumulativevolunits == spec_unit_at(doc, gm_import("cumulativevolunits"@))->0
    &&& m.energy.import.dayvol@ == json_num_text(doc, gm_import("dayvol"@))->0
    &&& m.energy.import.weekvol@ == json_num_text(doc, gm_import("weekvol"@))->0
    &&& m.energy.import.monthvol@ == json_num_text(doc, gm_import("monthvol"@))->0
    &&& m.energy.import.dayweekmonthvolunits == spec_unit_at(
        doc,
        gm_import("dayweekmonthvolunits"@),
    )->0
    &&& m.energy.import.mprn@ == json_str_text(doc, gm_import("mprn"@))->0
    &&& m.energy.import.supplier@ == json_str_text(doc, gm_import("supplier"@))->0
    &&& m.energy.import.price.unitrate@ == json_num_text(doc, gm_price("unitrate"@))->0
    &&& m.energy.import.price.standingcharge@ == json_num_text(doc, gm_price("standingcharge"@))->0
}

impl ElectricityMeter {
    /// Decodes a complete electricity-meter reading from the payload.
    pub fn from_payload(payload: &Vec<u8>) -> (r: Option<ElectricityMeter>)
        ensures
            match r {
                Some(m) => elec_ok(payload@) && elec_matches(m, payload@),
                None => !elec_ok(payload@),
            },
    {
        if !json_sole_member_is(payload, "electricitymeter") {
            return None;
        }
        let path: Vec<&str> = vec!["electricitymeter", "timestamp"];
        proof {
            assert(key_views(path@) =~= em_top("timestamp"@));
        }
        let timestamp: i64 = match get_rfc3339(payload, &path) {
            Some(t) => t,
            None => return None,
        };
        let path: Vec<&str> = vec!["electricitymeter", "energy", "export", "cumulative"];
        proof {
            assert(key_views(path@) =~= em_export("cumulative"@));
        }
        let export_cumulative = match get_num(payload, &path) {
            Some(n) => n,
            None => return None,
        };
        let path: Vec<&str> = vec!["electricitymeter", "energy", "export", "units"];
        proof {
            assert(key_views(path@) =~= em_export("units"@));
        }
        let export_units = match get_unit(payload, &path) {
            Some(u) => u,
            None => return None,
        };
        let path: Vec<&str> = vec!["electricitymeter", "energy", "import", "cumulative"];
        proof {
            assert(key_views(path@) =~= em_import("cumulative"@));
        }
        let import_cumulative = match get_num(payload, &path) {
            Some(n) => n,
            None => return None,
        };
        let path: Vec<&str> = vec!["electricitymeter", "energy", "import", "day"];
        proof {
            assert(key_views(path@) =~= em_import("day"@));
        }
        let day = match get_num(payload, &path) {
            Some(n) => n,
            None => return None,
        };
        let path: Vec<&str> = vec!["electricitymeter", "energy", "import", "week"];
        proof {
            assert(key_views(path@) =~= em_import("week"@));
        }
        let week = match get_num(payload, &path) {
            Some(n) => n,
            None => return None,
        };
        let path: Vec<&str> = vec!["electricitymeter", "energy", "import", "month"];
        proof {
            assert(key_views(path@) =~= em_import("month"@));
        }
        let month = match get_num(payload, &path) {
            Some(n) => n,
            None => return None,
        };
        let path: Vec<&str> = vec!["electricitymeter", "energy", "import", "units"];
        proof {
            assert(key_views(path@) =~= em_import("units"@));
        }
        let import_units = match get_unit(payload, &path) {
            Some(u) => u,
            None => return None,
        };
        let path: Vec<&str> = vec!["electricitymeter", "energy", "import", "mpan"];
        proof {
            assert(key_views(path@) =~= em_import("mpan"@));
        }
        let mpan = match json_string_at(payload, &path) {
            Some(s) => s,
            None => return None,
        };
        let path: Vec<&str> = vec!["electricitymeter", "energy", "import", "supplier"];
        proof {
            assert(key_views(path@) =~= em_import("supplier"@));
        }
        let supplier = match json_string_at(payload, &path) {
            Some(s) => s,
            None => return None,
        };
        let path: Vec<&str> = vec!["electricitymeter", "energy", "import", "price", "unitrate"];
        proof {
            assert(key_views(path@) =~= em_price("unitrate"@));
        }
        let unitrate = match get_num(payload, &path) {
            Some(n) => n,
            None => return None,
        };
        let path: Vec<&str> = vec![
            "electricitymeter",
            "energy",
            "import",
            "price",
            "standingcharge",
        ];
        proof {
            assert(key_views(path@) =~= em_price("standingcharge"@));
        }
        let standingcharge = match get_num(payload, &path) {
            Some(n) => n,
            None => return None,
        };
        let path: Vec<&str> = vec!["electricitymeter", "power", "value"];
        proof {
            assert(key_views(path@) =~= em_power("value"@));
        }
        let power_value = match get_num(payload, &path) {
            Some(n) => n,
            None => return None,
        };
        let path: Vec<&str> = vec!["electricitymeter", "power", "units"];
        proof {
            assert(key_views(path@) =~= em_power("units"@));
        }
        let power_units = match get_unit(payload, &path) {
            Some(u) => u,
            None => return None,
        };
        Some(
            ElectricityMeter {
                timestamp,
                energy: ElectricityEnergy {
                    export: ElectricityEnergyExport { cumulative: export_cumulative, units: export_units },
                    import: ElectricityEnergyImport {
                        cumulative: import_cumulative,
                        day,
                        week,
                        month,
                        units: import_units,
                        mpan,
                        supplier,
                        price: EnergyImportPrice { unitrate, standingcharge },
                    },
                },
                power: ElectricityPower { value: power_value, units: power_units },
            },
        )
    }
}

impl GasMeter {
    /// Decodes a complete gas-meter reading from the payload.
    pub fn from_payload(payload: &Vec<u8>) -> (r: Option<GasMeter>)
        ensures
            match r {
                Some(m) => gas_ok(payload@) && gas_matches(m, payload@),
                None => !gas_ok(payload@),
            },
    {
        if !json_sole_member_is(payload, "gasmeter") {
            return None;
        }
        let path: Vec<&str> = vec!["gasmeter", "timestamp"];
        proof {
            assert(key_views(path@) =~= gm_top("timestamp"@));
        }
        let timestamp: i64 = match get_rfc3339(payload, &path) {
            Some(t) => t,
            None => return None,
        };
        let path: Vec<&str> = vec!["gasmeter", "energy", "import", "cumulative"];
        proof {
            assert(key_views(path@) =~= gm_import("cumulative"@));
        }
        let cumulative = match get_num(payload, &path) {
            Some(n) => n,
            None => return None,
        };
        let path: Vec<&str> = vec!["gasmeter", "energy", "import", "day"];
        proof {
            assert(key_views(path@) =~= gm_import("day"@));
        }
        let day = match get_num(payload, &path) {
            Some(n) => n,
            None => return None,
        };
        let path: Vec<&str> = vec!["gasmeter", "energy", "import", "week"];
        proof {
            assert(key_views(path@) =~= gm_import("week"@));
        }
        let week = match get_num(payload, &path) {
            Some(n) => n,
            None => return None,
        };
        let path: Vec<&str> = vec!["gasmeter", "energy", "import", "month"];
        proof {
            assert(key_views(path@) =~= gm_import("month"@));
        }
        let month = match get_num(payload, &path) {
            Some(n) => n,
            None => return None,
        };
        let path: Vec<&str> = vec!["gasmeter", "energy", "import", "units"];
        proof {
            assert(key_views(path@) =~= gm_import("units"@));
        }
        let units = match get_unit(payload, &path) {
            Some(u) => u,
            None => return None,
        };
        let path: Vec<&str> = vec!["gasmeter", "energy", "import", "cumulativevol"];
        proof {
            assert(key_views(path@) =~= gm_import("cumulativevol"@));
        }
        let cumulativevol = match get_num(payload, &path) {
            Some(n) => n,
            None => return None,
        };
        let path: Vec<&str> = vec!["gasmeter", "energy", "import", "cumulativevolunits"];
        proof {
            assert(key_views(path@) =~= gm_import("cumulativevolunits"@));
        }
        let cumulativevolunits = match get_unit(payload, &path) {
            Some(u) => u,
            None => return None,
        };
        let path: Vec<&str> = vec!["gasmeter", "energy", "import", "dayvol"];
        proof {
            assert(key_views(path@) =~= gm_import("dayvol"@));
        }
        let dayvol = match get_num(payload, &path) {
            Some(n) => n,
            None => return None,
        };
        let path: Vec<&str> = vec!["gasmeter", "energy", "import", "weekvol"];
        proof {
            assert(key_views(path@) =~= gm_import("weekvol"@));
        }
        let weekvol = match get_num(payload, &path) {
            Some(n) => n,
            None => return None,
        };
        let path: Vec<&str> = vec!["gasmeter", "energy", "import", "monthvol"];
        proof {
            assert(key_views(path@) =~= gm_import("monthvol"@));
        }
        let monthvol = match get_num(payload, &path) {
            Some(n) => n,
            None => return None,
        };
        let path: Vec<&str> = vec!["gasmeter", "energy", "import", "dayweekmonthvolunits"];
        proof {
            assert(key_views(path@) =~= gm_import("dayweekmonthvolunits"@));
        }
        let dayweekmonthvolunits = match get_unit(payload, &path) {
            Some(u) => u,
            None => return None,
        };
        let path: Vec<&str> = vec!["gasmeter", "energy", "import", "mprn"];
        proof {
            assert(key_views(path@) =~= gm_import("mprn"@));
        }
        let mprn = match json_string_at(payload, &path) {
            Some(s) => s,
            None => return None,
        };
        let path: Vec<&str> = vec!["gasmeter", "energy", "import", "supplier"];
        proof {
            assert(key_views(path@) =~= gm_import("supplier"@));
        }
        let supplier = match json_string_at(payload, &path) {
            Some(s) => s,
            None => return None,
        };
        let path: Vec<&str> = vec!["gasmeter", "energy", "import", "price", "unitrate"];
        proof {
            assert(key_views(path@) =~= gm_price("unitrate"@));
        }
        let unitrate = match get_num(payload, &path) {
            Some(n) => n,
            None => return None,
        };
        let path: Vec<&str> = vec!["gasmeter", "energy", "import", "price", "standingcharge"];
        proof {
            assert(key_views(path@) =~= gm_price("standingcharge"@));
        }
        let standingcharge = match get_num(payload, &path) {
            Some(n) => n,
            None => return None,
        };
        Some(
            GasMeter {
                timestamp,
                energy: GasMeterEnergy {
                    import: GasMeterEnergyImport {
                        cumulative,
                        day,
                        week,
                        month,
                        units,
                        cumulativevol,
                        cumulativevolunits,
                        dayvol,
                        weekvol,
                        monthvol,
                        dayweekmonthvolunits,
                        mprn,
                        supplier,
                        price: EnergyImportPrice { unitrate, standingcharge },
                    },
                },
            },
        )
    }
}

impl MeterReading {
    /// Decodes the payload as whichever meter family it carries,
    /// electricity first.
    pub fn from_payload(payload: &Vec<u8>) -> (r: Option<MeterReading>)
        ensures
            match r {
                Some(reading) => match reading {
                    MeterReading::Electricity(m) => elec_ok(payload@) && elec_matches(m, payload@),
                    MeterReading::Gas(m) => !elec_ok(payload@) && gas_ok(payload@) && gas_matches(
                        m,
                        payload@,
                    ),
                },
                None => !elec_ok(payload@) && !gas_ok(payload@),
            },
    {
        match ElectricityMeter::from_payload(payload) {
            Some(m) => Some(MeterReading::Electricity(m)),
            None => match GasMeter::from_payload(payload) {
                Some(m) => Some(MeterReading::Gas(m)),
                None => None,
            },
        }
    }

    /// The record of whichever variant this reading holds.
    pub open spec fn record_model(&self) -> RecordModel {
        match self {
            MeterReading::Electricity(m) => m.record_model(),
            MeterReading::Gas(m) => m.record_model(),
        }
    }

    /// Renders the reading as one line-protocol line.
    pub fn to_line(&self) -> (r: String)
        ensures
            r@ == line_of(self.record_model()),
    {
        match self {
            MeterReading::Electricity(m) => m.to_line(),
            MeterReading::Gas(m) => m.to_line(),
        }
    }
}

/// The record an electricity-meter payload renders as.
pub open spec fn elec_record(doc: Seq<u8>) -> RecordModel {
    RecordModel {
        measurement: "electricity"@,
        tags: seq![("mpan"@, json_str_text(doc, em_import("mpan"@))->0)],
        fields: seq![
            ("power"@, json_num_text(doc, em_power("value"@))->0),
            ("cumulative"@, json_num_text(doc, em_import("cumulative"@))->0),
            ("price"@, json_num_text(doc, em_price("unitrate"@))->0),
            ("standing"@, json_num_text(doc, em_price("standingcharge"@))->0),
        ],
        timestamp: spec_time_at(doc, em_top("timestamp"@))->0,
    }
}

/// The record a gas-meter payload renders as.
pub open spec fn gas_record(doc: Seq<u8>) -> RecordModel {
    RecordModel {
        measurement: "gas"@,
        tags: seq![("mprn"@, json_str_text(doc, gm_import("mprn"@))->0)],
        fields: seq![
            ("cumulative"@, json_num_text(doc, gm_import("cumulative"@))->0),
            ("cumulativevol"@, json_num_text(doc, gm_import("cumulativevol"@))->0),
            ("price"@, json_num_text(doc, gm_price("unitrate"@))->0),
            ("standing"@, json_num_text(doc, gm_price("standingcharge"@))->0),
        ],
        timestamp: spec_time_at(doc, gm_top("timestamp"@))->0,
    }
}

/// One route of the meter decoder: topic prefix and destination bucket.
#[derive(Debug)]
pub struct GlowConfig {
    pub topic: String,
    pub bucket: String,
}

/// The meter decoder bound to one route.
#[derive(Debug)]
pub struct Glow {
    pub config: GlowConfig,
}

/// The submission a meter route yields for one bus message: the topic
/// must extend the route's prefix, the remainder must have at least two
/// path segments, the second must be the sentinel `SENSOR`, and the
/// payload must decode as one of the two meter families.
pub open spec fn glow_submission(config: GlowConfig, topic: Seq<char>, payload: Seq<u8>) -> Option<
    SubmissionModel,
> {
    if !config.topic@.is_prefix_of(topic) {
        None
    } else {
        let segs = split_seq(topic.skip(config.topic@.len() as int), '/');
        if segs.len() < 2 {
            None
        } else if segs[1] != "SENSOR"@ {
            None
        } else if elec_ok(payload) {
            Some(SubmissionModel { line: line_of(elec_record(payload)), bucket: config.bucket@ })
        } else if gas_ok(payload) {
            Some(SubmissionModel { line: line_of(gas_record(payload)), bucket: config.bucket@ })
        } else {
            None
        }
    }
}

/// Whether a route-table entry binds `c`'s topic prefix to a meter
/// decoder carrying `c`.
pub open spec fn glow_entry_matches(e: (String, Decoder), c: GlowConfig) -> bool {
    &&& e.0@ == c.topic@
    &&& e.1 matches Decoder::Glow(g) && g.config.topic@ == c.topic@ && g.config.bucket@
        == c.bucket@
}

impl Glow {
    /// Binds the decoder to one configured route.
    pub fn new(config: &GlowConfig) -> (r: Self)
        ensures
            r.config.topic@ == config.topic@,
            r.config.bucket@ == config.bucket@,
    {
        Glow {
            config: GlowConfig {
                topic: config.topic.clone(),
                bucket: config.bucket.clone(),
            },
        }
    }

    /// Builds one route-table entry per configured route, rejecting the
    /// first topic prefix that ends with the path separator; the
    /// subscription pattern appends the multi-level wildcard `/#` to the
    /// prefix.  Entries built before an offending prefix remain.
    pub fn from_configs(
        configs: &Vec<GlowConfig>,
        topics: &mut Vec<String>,
        submittables: &mut Vec<(String, Decoder)>,
    ) -> (r: Result<(), Error>)
        ensures
            match r {
                Ok(()) => {
                    &&& forall|i: int|
                        0 <= i < configs@.len() ==> !ends_slash((#[trigger] configs@[i]).topic@)
                    &&& final(topics)@.len() == old(topics)@.len() + configs@.len()
                    &&& forall|i: int|
                        0 <= i < old(topics)@.len() ==> final(topics)@[i] == old(topics)@[i]
                    &&& forall|i: int|
                        0 <= i < configs@.len() ==> (#[trigger] final(topics)@[old(topics)@.len()
                            + i])@ == configs@[i].topic@ + seq!['/', '#']
                    &&& final(submittables)@.len() == old(submittables)@.len() + configs@.len()
                    &&& forall|i: int|
                        0 <= i < old(submittables)@.len() ==> final(submittables)@[i] == old(
                            submittables,
                        )@[i]
                    &&& forall|i: int|
                        0 <= i < configs@.len() ==> glow_entry_matches(
                            #[trigger] final(submittables)@[old(submittables)@.len() + i],
                            configs@[i],
                        )
                },
                Err(e) => {
                    &&& exists|i: int|
                        #![auto]
                        0 <= i < configs@.len() && ends_slash(configs@[i].topic@) && (forall|j: int|
                            0 <= j < i ==> !ends_slash((#[trigger] configs@[j]).topic@)) && (
                        e matches Error::ConfigTopicSlash(t) && t@ == configs@[i].topic@) && final(topics)@.len() == old(topics)@.len() + i && final(submittables)@.len() == old(
                            submittables,
                        )@.len() + i && (forall|j: int|
                            0 <= j < i ==> (#[trigger] final(topics)@[old(topics)@.len() + j])@
                                == configs@[j].topic@ + seq!['/', '#']) && (forall|j: int|
                            0 <= j < i ==> glow_entry_matches(
                                #[trigger] final(submittables)@[old(submittables)@.len() + j],
                                configs@[j],
                            ))
                    &&& forall|j: int|
                        0 <= j < old(topics)@.len() ==> final(topics)@[j] == old(topics)@[j]
                    &&& forall|j: int|
                        0 <= j < old(submittables)@.len() ==> final(submittables)@[j] == old(
                            submittables,
                        )@[j]
                },
            },
    {
        let n = configs.len();
        for i in 0..n
            invariant
                n == configs.len(),
                forall|j: int| 0 <= j < i ==> !ends_slash((#[trigger] configs@[j]).topic@),
                topics@.len() == old(topics)@.len() + i,
                forall|j: int| 0 <= j < old(topics)@.len() ==> topics@[j] == old(topics)@[j],
                forall|j: int|
                    0 <= j < i ==> (#[trigger] topics@[old(topics)@.len() + j])@ == configs@[
                        j
                    ].topic@ + seq!['/', '#'],
                submittables@.len() == old(submittables)@.len() + i,
                forall|j: int|
                    0 <= j < old(submittables)@.len() ==> submittables@[j] == old(submittables)@[j],
                forall|j: int|
                    0 <= j < i ==> glow_entry_matches(
                        #[trigger] submittables@[old(submittables)@.len() + j],
                        configs@[j],
                    ),
        {
            if ends_with_slash(configs[i].topic.as_str()) {
                return Err(Error::ConfigTopicSlash(configs[i].topic.clone()));
            }
            let mut pattern = chars_vec(configs[i].topic.as_str());
            pattern.push('/');
            pattern.push('#');
            proof {
                assert(pattern@ =~= configs@[i as int].topic@ + seq!['/', '#']);
            }
            topics.push(string_from_chars(&pattern));
            submittables.push((configs[i].topic.clone(), Decoder::Glow(Glow::new(&configs[i]))));
        }
        Ok(())
    }

    /// Yields the submission for one bus message on this route, if the
    /// message passes the topic guards and its payload decodes.
    pub fn to_submission(&self, message: &MqttMessage) -> (r: Option<Submission>)
        ensures
            opt_submission_view(r) == glow_submission(self.config, message.topic@, message.payload@),
    {
        let topic_chars = chars_vec(message.topic.as_str());
        let prefix_chars = chars_vec(self.config.topic.as_str());
        if !starts_with_chars(&topic_chars, &prefix_chars) {
            return None;
        }
        let rest = skip_chars(&topic_chars, prefix_chars.len());
        let segs = split_chars(&rest, '/');
        if segs.len() < 2 {
            return None;
        }
        let sensor = chars_vec("SENSOR");
        if !chars_eq(&segs[1], &sensor) {
            proof {
                assert(segments_view(segs@)[1] == segs@[1]@);
            }
            return None;
        }
        proof {
            assert(segments_view(segs@)[1] == segs@[1]@);
        }
        match MeterReading::from_payload(&message.payload) {
            Some(reading) => {
                let line = reading.to_line();
                proof {
                    let doc = message.payload@;
                    match reading {
                        MeterReading::Electricity(m) => {
                            assert(m.record_model().tags =~= elec_record(doc).tags);
                            assert(m.record_model().fields =~= elec_record(doc).fields);
                            assert(m.record_model() == elec_record(doc));
                        },
                        MeterReading::Gas(m) => {
                            assert(m.record_model().tags =~= gas_record(doc).tags);
                            assert(m.record_model().fields =~= gas_record(doc).fields);
                            assert(m.record_model() == gas_record(doc));
                        },
                    }
                }
                Some(Submission { line, bucket: self.config.bucket.clone() })
            },
            None => None,
        }
    }
}

} // verus!
