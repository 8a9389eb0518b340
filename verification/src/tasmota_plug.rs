//! The smart-plug decoder: a fixed-shape payload with capitalized field
//! names (device-firmware convention), rendered as measurement
//! `tasmota_plug` tagged by a configured device name.

use vstd::prelude::*;
use crate::json::{get_num, json_num_text, json_str_text, json_string_at, key_views};
use crate::line::{encode_line, line_of, Number, NormalizedRecord, RecordModel};
use crate::text::{
    chars_vec, chars_eq, ends_slash, ends_with_slash, skip_chars, split_chars, split_seq,
    starts_with_chars, string_from_chars, segments_view,
};
use crate::timestamp::{get_rfc3339, spec_time_at};
use crate::{opt_submission_view, Decoder, Error, MqttMessage, Submission, SubmissionModel};

verus! {

/// One route of the smart-plug decoder: topic prefix, device display name
/// and destination bucket.
#[derive(Debug)]
pub struct TasmotaPlugConfig {
    pub topic: String,
    pub name: String,
    pub bucket: String,
}

/// The energy block of a plug payload.
#[derive(Debug)]
pub struct EnergyReading {
    pub total_start_time: String,
    pub total: Number,
    pub yesterday: Number,
    pub today: Number,
    pub power: Number,
    pub apparent_power: Number,
    pub reactive_power: Number,
    pub factor: Number,
    pub voltage: Number,
    pub current: Number,
}

/// One smart-plug reading.
#[derive(Debug)]
pub struct TasmotaPlugReading {
    pub time: i64,
    pub energy: EnergyReading,
}

/// Key path to a top-level plug member.
pub open spec fn pl_top(k: Seq<char>) -> Seq<Seq<char>> {
    seq![k]
}

/// Key path to a member of the plug's energy block.
pub open spec fn pl_energy(k: Seq<char>) -> Seq<Seq<char>> {
    seq!["ENERGY"@, k]
}

/// Whether the payload holds a complete plug reading: every field of the
/// schema present with the right type, and the timestamp in RFC 3339 form.
pub open spec fn plug_ok(doc: Seq<u8>) -> bool {
    &&& spec_time_at(doc, pl_top("Time"@)) is Some
    &&& json_str_text(doc, pl_energy("TotalStartTime"@)) is Some
    &&& json_num_text(doc, pl_energy("Total"@)) is Some
    &&& json_num_text(doc, pl_energy("Yesterday"@)) is Some
    &&& json_num_text(doc, pl_energy("Today"@)) is Some
    &&& json_num_text(doc, pl_energy("Power"@)) is Some
    &&& json_num_text(doc, pl_energy("ApparentPower"@)) is Some
    &&& json_num_text(doc, pl_energy("ReactivePower"@)) is Some
    &&& json_num_text(doc, pl_energy("Factor"@)) is Some
    &&& json_num_text(doc, pl_energy("Voltage"@)) is Some
    &&& json_num_text(doc, pl_energy("Current"@)) is Some
}

/// Whether `m` holds exactly the plug fields of the payload.
pub open spec fn plug_matches(m: TasmotaPlugReading, doc: Seq<u8>) -> bool {
    &&& m.wf()
    &&& m.time as int == spec_time_at(doc, pl_top("Time"@))->0
    &&& m.energy.total_start_time@ == json_str_text(doc, pl_energy("TotalStartTime"@))->0
    &&& m.energy.total@ == json_num_text(doc, pl_energy("Total"@))->0
    &&& m.energy.yesterday@ == json_num_text(doc, pl_energy("Yesterday"@))->0
    &&& m.energy.today@ == json_num_text(doc, pl_energy("Today"@))->0
    &&& m.energy.power@ == json_num_text(doc, pl_energy("Power"@))->0
    &&& m.energy.apparent_power@ == json_num_text(doc, pl_energy("ApparentPower"@))->0
    &&& m.energy.reactive_power@ == json_num_text(doc, pl_energy("ReactivePower"@))->0
    &&& m.energy.factor@ == json_num_text(doc, pl_energy("Factor"@))->0
    &&& m.energy.voltage@ == json_num_text(doc, pl_energy("Voltage"@))->0
    &&& m.energy.current@ == json_num_text(doc, pl_energy("Current"@))->0
}

impl TasmotaPlugReading {
    /// Every numeric field holds well-formed decimal text.
    pub open spec fn wf(&self) -> bool {
        &&& self.energy.total.wf()
        &&& self.energy.yesterday.wf()
        &&& self.energy.today.wf()
        &&& self.energy.power.wf()
        &&& self.energy.apparent_power.wf()
        &&& self.energy.reactive_power.wf()
        &&& self.energy.factor.wf()
        &&& self.energy.voltage.wf()
        &&& self.energy.current.wf()
    }

    /// The record this reading renders as: measurement `tasmota_plug`,
    /// tagged by the configured device name, with power, cumulative total,
    /// today's total and voltage.
    pub open spec fn record_model(&self, name: Seq<char>) -> RecordModel {
        RecordModel {
            measurement: "tasmota_plug"@,
            tags: seq![("name"@, name)],
            fields: seq![
                ("power"@, self.energy.power@),
                ("cumulative"@, self.energy.total@),
                ("today"@, self.energy.today@),
                ("voltage"@, self.energy.voltage@),
            ],
            timestamp: self.time as int,
        }
    }

    /// Decodes a complete plug reading from the payload.
    pub fn from_payload(payload: &Vec<u8>) -> (r: Option<TasmotaPlugReading>)
        ensures
            match r {
                Some(m) => plug_ok(payload@) && plug_matches(m, payload@),
                None => !plug_ok(payload@),
            },
    {
        let path: Vec<&str> = vec!["Time"];
        proof {
            assert(key_views(path@) =~= pl_top("Time"@));
        }
        let time: i64 = match get_rfc3339(payload, &path) {
            Some(t) => t,
            None => return None,
        };
        let path: Vec<&str> = vec!["ENERGY", "TotalStartTime"];
        proof {
            assert(key_views(path@) =~= pl_energy("TotalStartTime"@));
        }
        let total_start_time = match json_string_at(payload, &path) {
            Some(s) => s,
            None => return None,
        };
        let path: Vec<&str> = vec!["ENERGY", "Total"];
        proof {
            assert(key_views(path@) =~= pl_energy("Total"@));
        }
        let total = match get_num(payload, &path) {
            Some(n) => n,
            None => return None,
        };
        let path: Vec<&str> = vec!["ENERGY", "Yesterday"];
        proof {
            assert(key_views(path@) =~= pl_energy("Yesterday"@));
        }
        let yesterday = match get_num(payload, &path) {
            Some(n) => n,
            None => return None,
        };
        let path: Vec<&str> = vec!["ENERGY", "Today"];
        proof {
            assert(key_views(path@) =~= pl_energy("Today"@));
        }
        let today = match get_num(payload, &path) {
            Some(n) => n,
            None => return None,
        };
        let path: Vec<&str> = vec!["ENERGY", "Power"];
        proof {
            assert(key_views(path@) =~= pl_energy("Power"@));
        }
        let power = match get_num(payload, &path) {
            Some(n) => n,
            None => return None,
        };
        let path: Vec<&str> = vec!["ENERGY", "ApparentPower"];
        proof {
            assert(key_views(path@) =~= pl_energy("ApparentPower"@));
        }
        let apparent_power = match get_num(payload, &path) {
            Some(n) => n,
            None => return None,
        };
        let path: Vec<&str> = vec!["ENERGY", "ReactivePower"];
        proof {
            assert(key_views(path@) =~= pl_energy("ReactivePower"@));
        }
        let reactive_power = match get_num(payload, &path) {
            Some(n) => n,
            None => return None,
        };
        let path: Vec<&str> = vec!["ENERGY", "Factor"];
        proof {
            assert(key_views(path@) =~= pl_energy("Factor"@));
        }
        let factor = match get_num(payload, &path) {
            Some(n) => n,
            None => return None,
        };
        let path: Vec<&str> = vec!["ENERGY", "Voltage"];
        proof {
            assert(key_views(path@) =~= pl_energy("Voltage"@));
        }
        let voltage = match get_num(payload, &path) {
            Some(n) => n,
            None => return None,
        };
        let path: Vec<&str> = vec!["ENERGY", "Current"];
        proof {
            assert(key_views(path@) =~= pl_energy("Current"@));
        }
        let current = match get_num(payload, &path) {
            Some(n) => n,
            None => return None,
        };
        Some(
            TasmotaPlugReading {
                time,
                energy: EnergyReading {
                    total_start_time,
                    total,
                    yesterday,
                    today,
                    power,
                    apparent_power,
                    reactive_power,
                    factor,
                    voltage,
                    current,
                },
            },
        )
    }

    /// Renders the reading as one line-protocol line, tagged with the
    /// configured device name.
    pub fn to_line(&self, name: &str) -> (r: String)
        ensures
            r@ == line_of(self.record_model(name@)),
    {
        let mut tags: Vec<(String, String)> = Vec::new();
        tags.push(("name".to_owned(), name.to_owned()));
        let mut fields: Vec<(String, Number)> = Vec::new();
        fields.push(("power".to_owned(), self.energy.power.clone()));
        fields.push(("cumulative".to_owned(), self.energy.total.clone()));
        fields.push(("today".to_owned(), self.energy.today.clone()));
        fields.push(("voltage".to_owned(), self.energy.voltage.clone()));
        let record = NormalizedRecord {
            measurement: "tasmota_plug".to_owned(),
            tags,
            fields,
            timestamp_seconds: self.time,
        };
        proof {
            assert(record@.tags =~= self.record_model(name@).tags);
            assert(record@.fields =~= self.record_model(name@).fields);
            assert(record@ == self.record_model(name@));
        }
        encode_line(&record)
    }
}

/// The record a plug payload renders as, tagged with the configured
/// device name.
pub open spec fn plug_record(doc: Seq<u8>, name: Seq<char>) -> RecordModel {
    RecordModel {
        measurement: "tasmota_plug"@,
        tags: seq![("name"@, name)],
        fields: seq![
            ("power"@, json_num_text(doc, pl_energy("Power"@))->0),
            ("cumulative"@, json_num_text(doc, pl_energy("Total"@))->0),
            ("today"@, json_num_text(doc, pl_energy("Today"@))->0),
            ("voltage"@, json_num_text(doc, pl_energy("Voltage"@))->0),
        ],
        timestamp: spec_time_at(doc, pl_top("Time"@))->0,
    }
}

/// The plug decoder bound to one route.
#[derive(Debug)]
pub struct TasmotaPlug {
    pub config: TasmotaPlugConfig,
}

/// The submission a plug route yields for one bus message: the topic must
/// extend the route's prefix, the remainder must have at least two path
/// segments, the second must be the sentinel `SENSOR`, and the payload
/// must decode as a plug reading.
pub open spec fn plug_submission(
    config: TasmotaPlugConfig,
    topic: Seq<char>,
    payload: Seq<u8>,
) -> Option<SubmissionModel> {
    if !config.topic@.is_prefix_of(topic) {
        None
    } else {
        let segs = split_seq(topic.skip(config.topic@.len() as int), '/');
        if segs.len() < 2 {
            None
        } else if segs[1] != "SENSOR"@ {
            None
        } else if plug_ok(payload) {
            Some(
                SubmissionModel {
                    line: line_of(plug_record(payload, config.name@)),
                    bucket: config.bucket@,
                },
            )
        } else {
            None
        }
    }
}

/// Whether a route-table entry binds `c`'s topic prefix to a plug decoder
/// carrying `c`.
pub open spec fn plug_entry_matches(e: (String, Decoder), c: TasmotaPlugConfig) -> bool {
    &&& e.0@ == c.topic@
    &&& e.1 matches Decoder::TasmotaPlug(p) && p.config.topic@ == c.topic@ && p.config.name@
        == c.name@ && p.config.bucket@ == c.bucket@
}

impl TasmotaPlug {
    /// Binds the decoder to one configured route.
    pub fn new(config: &TasmotaPlugConfig) -> (r: Self)
        ensures
            r.config.topic@ == config.topic@,
            r.config.name@ == config.name@,
            r.config.bucket@ == config.bucket@,
    {
        TasmotaPlug {
            config: TasmotaPlugConfig {
                topic: config.topic.clone(),
                name: config.name.clone(),
                bucket: config.bucket.clone(),
            },
        }
    }

    /// Builds one route-table entry per configured route, rejecting the
    /// first topic prefix that ends with the path separator; the
    /// subscription pattern appends the multi-level wildcard `/#` to the
    /// prefix.  Entries built before an offending prefix remain.
    pub fn from_configs(
        configs: &Vec<TasmotaPlugConfig>,
        topics: &mut Vec<String>,
        submittables: &mut Vec<(String, Decoder)>,
    ) -> (r: Result<(), Error>)
        ensures
            match r {
                Ok(()) => {
                    &&& forall|i: int|
                        0 <= i < configs@.len() ==> !ends_slash((#[trigger] configs@[i]).topic@)
                    &&& final(topics)@.len() == old(topics)@.len() + configs@.len()
                    &&& forall|i: int|
                        0 <= i < old(topics)@.len() ==> final(topics)@[i] == old(topics)@[i]
                    &&& forall|i: int|
                        0 <= i < configs@.len() ==> (#[trigger] final(topics)@[old(topics)@.len()
                            + i])@ == configs@[i].topic@ + seq!['/', '#']
                    &&& final(submittables)@.len() == old(submittables)@.len() + configs@.len()
                    &&& forall|i: int|
                        0 <= i < old(submittables)@.len() ==> final(submittables)@[i] == old(
                            submittables,
                        )@[i]
                    &&& forall|i: int|
                        0 <= i < configs@.len() ==> plug_entry_matches(
                            #[trigger] final(submittables)@[old(submittables)@.len() + i],
                            configs@[i],
                        )
                },
                Err(e) => {
                    &&& exists|i: int|
                        #![auto]
                        0 <= i < configs@.len() && ends_slash(configs@[i].topic@) && (forall|j: int|
                            0 <= j < i ==> !ends_slash((#[trigger] configs@[j]).topic@)) && (
                        e matches Error::ConfigTopicSlash(t) && t@ == configs@[i].topic@) && final(topics)@.len() == old(topics)@.len() + i && final(submittables)@.len() == old(
                            submittables,
                        )@.len() + i && (forall|j: int|
                            0 <= j < i ==> (#[trigger] final(topics)@[old(topics)@.len() + j])@
                                == configs@[j].topic@ + seq!['/', '#']) && (forall|j: int|
                            0 <= j < i ==> plug_entry_matches(
                                #[trigger] final(submittables)@[old(submittables)@.len() + j],
                                configs@[j],
                            ))
                    &&& forall|j: int|
                        0 <= j < old(topics)@.len() ==> final(topics)@[j] == old(topics)@[j]
                    &&& forall|j: int|
                        0 <= j < old(submittables)@.len() ==> final(submittables)@[j] == old(
                            submittables,
                        )@[j]
                },
            },
    {
        let n = configs.len();
        for i in 0..n
            invariant
                n == configs.len(),
                forall|j: int| 0 <= j < i ==> !ends_slash((#[trigger] configs@[j]).topic@),
                topics@.len() == old(topics)@.len() + i,
                forall|j: int| 0 <= j < old(topics)@.len() ==> topics@[j] == old(topics)@[j],
                forall|j: int|
                    0 <= j < i ==> (#[trigger] topics@[old(topics)@.len() + j])@ == configs@[
                        j
                    ].topic@ + seq!['/', '#'],
                submittables@.len() == old(submittables)@.len() + i,
                forall|j: int|
                    0 <= j < old(submittables)@.len() ==> submittables@[j] == old(submittables)@[j],
                forall|j: int|
                    0 <= j < i ==> plug_entry_matches(
                        #[trigger] submittables@[old(submittables)@.len() + j],
                        configs@[j],
                    ),
        {
            if ends_with_slash(configs[i].topic.as_str()) {
                return Err(Error::ConfigTopicSlash(configs[i].topic.clone()));
            }
            let mut pattern = chars_vec(configs[i].topic.as_str());
            pattern.push('/');
            pattern.push('#');
            proof {
                assert(pattern@ =~= configs@[i as int].topic@ + seq!['/', '#']);
            }
            topics.push(string_from_chars(&pattern));
            submittables.push(
                (configs[i].topic.clone(), Decoder::TasmotaPlug(TasmotaPlug::new(&configs[i]))),
            );
        }
        Ok(())
    }

    /// Yields the submission for one bus message on this route, if the
    /// message passes the topic guards and its payload decodes.
    pub fn to_submission(&self, message: &MqttMessage) -> (r: Option<Submission>)
        ensures
            opt_submission_view(r) == plug_submission(self.config, message.topic@, message.payload@),
    {
        let topic_chars = chars_vec(message.topic.as_str());
        let prefix_chars = chars_vec(self.config.topic.as_str());
        if !starts_with_chars(&topic_chars, &prefix_chars) {
            return None;
        }
        let rest = skip_chars(&topic_chars, prefix_chars.len());
        let segs = split_chars(&rest, '/');
        if segs.len() < 2 {
            return None;
        }
        let sensor = chars_vec("SENSOR");
        if !chars_eq(&segs[1], &sensor) {
            proof {
                assert(segments_view(segs@)[1] == segs@[1]@);
            }
            return None;
        }
        proof {
            assert(segments_view(segs@)[1] == segs@[1]@);
        }
        match TasmotaPlugReading::from_payload(&message.payload) {
            Some(reading) => {
                let line = reading.to_line(self.config.name.as_str());
                proof {
                    let doc = message.payload@;
                    assert(reading.record_model(self.config.name@).tags =~= plug_record(
                        doc,
                        self.config.name@,
                    ).tags);
                    assert(reading.record_model(self.config.name@).fields =~= plug_record(
                        doc,
                        self.config.name@,
                    ).fields);
                    assert(reading.record_model(self.config.name@) == plug_record(
                        doc,
                        self.config.name@,
                    ));
                }
                Some(Submission { line, bucket: self.config.bucket.clone() })
            },
            None => None,
        }
    }
}

} // verus!
