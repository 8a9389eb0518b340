//! The generic Zigbee sensor decoder: the payload is a loosely shaped JSON
//! document, the timestamp comes from a `last_seen` member when present
//! and RFC 3339-parseable (the current wall-clock time stands in
//! otherwise), and only the caller-configured field names are copied into
//! the record.

use vstd::prelude::*;
use crate::json::{
    get_num, json_member, json_member_at, json_num_text, json_parses, json_str_text, json_valid,
    key_views,
};
use crate::line::{encode_line, line_of, Number, NormalizedRecord, RecordModel};
use crate::text::ends_slash;
use crate::text::ends_with_slash;
use crate::timestamp::{get_rfc3339, unix_of_rfc3339};
use crate::{opt_submission_view, Decoder, Error, MqttMessage, Submission, SubmissionModel};

verus! {

/// One route of the generic sensor decoder: topic prefix, device display
/// name, destination bucket, measurement name and the field names to copy.
#[derive(Debug)]
pub struct ZigbeeConfig {
    pub topic: String,
    pub name: String,
    pub bucket: String,
    pub measurement: String,
    pub keys: Vec<String>,
}

/// One decoded sensor reading: a timestamp and the configured fields that
/// were present and numeric, in configuration order.
#[derive(Debug)]
pub struct ZigbeeReading {
    pub time: i64,
    pub values: Vec<(String, Number)>,
}

/// The views of a field list.
pub open spec fn values_views(vs: Seq<(String, Number)>) -> Seq<(Seq<char>, Seq<char>)> {
    vs.map_values(|p: (String, Number)| (p.0@, p.1@))
}

/// The views of the configured key list.
pub open spec fn keys_views(keys: Seq<String>) -> Seq<Seq<char>> {
    keys.map_values(|k: String| k@)
}

/// The fields a sensor payload yields for the configured keys, in key
/// order: a key contributes its number text when its member is present
/// and numeric, and is skipped otherwise.
pub open spec fn zigbee_fields(doc: Seq<u8>, keys: Seq<Seq<char>>) -> Seq<(Seq<char>, Seq<char>)>
    decreases keys.len(),
{
    if keys.len() == 0 {
        Seq::empty()
    } else {
        (match json_num_text(doc, seq![keys[0]]) {
            Some(t) => seq![(keys[0], t)],
            None => Seq::empty()
        }) + zigbee_fields(doc, keys.drop_first())
    }
}

/// Key collection distributes over the yielded fields.
pub proof fn lemma_zigbee_fields_concat(doc: Seq<u8>, a: Seq<Seq<char>>, b: Seq<Seq<char>>)
    ensures
        zigbee_fields(doc, a + b) == zigbee_fields(doc, a) + zigbee_fields(doc, b),
    decreases a.len(),
{
    if a.len() == 0 {
        assert(a + b =~= b);
        assert(zigbee_fields(doc, a) + zigbee_fields(doc, b) =~= zigbee_fields(doc, b));
    } else {
        lemma_zigbee_fields_concat(doc, a.drop_first(), b);
        assert((a + b).drop_first() =~= a.drop_first() + b);
        assert((a + b)[0] == a[0]);
        let head = (match json_num_text(doc, seq![a[0]]) {
            Some(t) => seq![(a[0], t)],
            None => Seq::<(Seq<char>, Seq<char>)>::empty()
        });
        assert(head + (zigbee_fields(doc, a.drop_first()) + zigbee_fields(doc, b)) =~= (head
            + zigbee_fields(doc, a.drop_first())) + zigbee_fields(doc, b));
    }
}

/// The timestamp a sensor payload yields: `last_seen` when present and
/// RFC 3339-parseable, the current wall-clock time otherwise; only an
/// unparseable document yields none.
pub open spec fn zigbee_time(doc: Seq<u8>, now: int) -> Option<int> {
    if !json_valid(doc) {
        None
    } else if json_member(doc, seq!["last_seen"@]) {
        match json_str_text(doc, seq!["last_seen"@]) {
            Some(t) => match unix_of_rfc3339(t) {
                Some(ts) => Some(ts),
                None => Some(now),
            },
            None => Some(now),
        }
    } else {
        Some(now)
    }
}

impl ZigbeeReading {
    /// Every field holds well-formed decimal text.
    pub open spec fn wf(&self) -> bool {
        forall|i: int| 0 <= i < self.values@.len() ==> (#[trigger] self.values@[i]).1.wf()
    }

    /// Decodes a sensor reading from the payload, with `now` standing in
    /// when the payload carries no RFC 3339-parseable `last_seen`
    /// timestamp.
    pub fn from_payload(keys: &Vec<String>, payload: &Vec<u8>, now: i64) -> (r: Option<
        ZigbeeReading,
    >)
        ensures
            match r {
                Some(reading) => {
                    &&& zigbee_time(payload@, now as int) == Some(reading.time as int)
                    &&& values_views(reading.values@) == zigbee_fields(
                        payload@,
                        keys_views(keys@),
                    )
                    &&& reading.wf()
                },
                None => zigbee_time(payload@, now as int) is None,
            },
    {
        if !json_parses(payload) {
            return None;
        }
        let last_seen_path: Vec<&str> = vec!["last_seen"];
        proof {
            assert(key_views(last_seen_path@) =~= seq!["last_seen"@]);
        }
        let time: i64 = if json_member_at(payload, &last_seen_path) {
            match get_rfc3339(payload, &last_seen_path) {
                Some(t) => t,
                None => now,
            }
        } else {
            now
        };
        let mut values: Vec<(String, Number)> = Vec::new();
        let nkeys = keys.len();
        proof {
            assert(keys_views(keys@).subrange(0, 0) =~= Seq::<Seq<char>>::empty());
            assert(values_views(values@) =~= zigbee_fields(
                payload@,
                keys_views(keys@).subrange(0, 0),
            ));
        }
        for i in 0..nkeys
            invariant
                nkeys == keys.len(),
                values_views(values@) == zigbee_fields(
                    payload@,
                    keys_views(keys@).subrange(0, i as int),
                ),
                forall|j: int| 0 <= j < values@.len() ==> (#[trigger] values@[j]).1.wf(),
        {
            let path: Vec<&str> = vec![keys[i].as_str()];
            proof {
                assert(key_views(path@) =~= seq![keys_views(keys@)[i as int]]);
                lemma_zigbee_fields_concat(
                    payload@,
                    keys_views(keys@).subrange(0, i as int),
                    seq![keys_views(keys@)[i as int]],
                );
                assert(keys_views(keys@).subrange(0, i as int) + seq![
                    keys_views(keys@)[i as int],
                ] =~= keys_views(keys@).subrange(0, i as int + 1));
                let one = seq![keys_views(keys@)[i as int]];
                assert(one.drop_first() =~= Seq::<Seq<char>>::empty());
                assert(zigbee_fields(payload@, Seq::<Seq<char>>::empty()) == Seq::<(Seq<char>, Seq<
                    char,
                >)>::empty());
            }
            let ghost before = values_views(values@);
            match get_num(payload, &path) {
                Some(n) => {
                    values.push((keys[i].clone(), n));
                    proof {
                        assert(values_views(values@) =~= before + seq![
                            (keys_views(keys@)[i as int], n@),
                        ]);
                        assert(zigbee_fields(payload@, seq![keys_views(keys@)[i as int]]) =~= seq![
                            (keys_views(keys@)[i as int], n@),
                        ] + Seq::<(Seq<char>, Seq<char>)>::empty());
                        assert(seq![(keys_views(keys@)[i as int], n@)] + Seq::<(Seq<char>, Seq<
                            char,
                        >)>::empty() =~= seq![(keys_views(keys@)[i as int], n@)]);
                    }
                },
                None => {
                    proof {
                        assert(zigbee_fields(payload@, seq![keys_views(keys@)[i as int]])
                            =~= Seq::<(Seq<char>, Seq<char>)>::empty());
                        assert(before + Seq::<(Seq<char>, Seq<char>)>::empty() =~= before);
                    }
                },
            }
        }
        proof {
            assert(keys_views(keys@).subrange(0, nkeys as int) =~= keys_views(keys@));
        }
        Some(ZigbeeReading { time, values })
    }

    /// The record this reading renders as: the configured measurement
    /// name, tagged by the configured device name, with the reading's
    /// fields in order.
    pub open spec fn record_model(&self, measurement: Seq<char>, name: Seq<char>) -> RecordModel {
        RecordModel {
            measurement,
            tags: seq![("name"@, name)],
            fields: values_views(self.values@),
            timestamp: self.time as int,
        }
    }

    /// Renders the reading as one line-protocol line.
    pub fn to_line(&self, measurement: &str, name: &str) -> (r: String)
        ensures
            r@ == line_of(self.record_model(measurement@, name@)),
    {
        let mut tags: Vec<(String, String)> = Vec::new();
        tags.push(("name".to_owned(), name.to_owned()));
        let mut fields: Vec<(String, Number)> = Vec::new();
        let n = self.values.len();
        for i in 0..n
            invariant
                n == self.values.len(),
                fields@.len() == i,
                forall|j: int|
                    0 <= j < i ==> (#[trigger] fields@[j]).0@ == self.values@[j].0@ && fields@[
                        j
                    ].1@ == self.values@[j].1@,
        {
            fields.push((self.values[i].0.clone(), self.values[i].1.clone()));
        }
        let record = NormalizedRecord {
            measurement: measurement.to_owned(),
            tags,
            fields,
            timestamp_seconds: self.time,
        };
        proof {
            assert(record@.tags =~= self.record_model(measurement@, name@).tags);
            assert(record@.fields =~= self.record_model(measurement@, name@).fields);
            assert(record@ == self.record_model(measurement@, name@));
        }
        encode_line(&record)
    }
}

/// The generic sensor decoder bound to one route.
#[derive(Debug)]
pub struct Zigbee {
    pub config: ZigbeeConfig,
}

/// The submission a sensor route yields for one bus message: the payload
/// must parse as JSON; a `last_seen` member supplies the timestamp when
/// it is an RFC 3339 string, and the wall clock stands in otherwise.
/// The topic plays no part: the route's topic shape is caller-defined.
pub open spec fn zigbee_submission(config: ZigbeeConfig, payload: Seq<u8>, now: int) -> Option<
    SubmissionModel,
> {
    match zigbee_time(payload, now) {
        Some(ts) => Some(
            SubmissionModel {
                line: line_of(
                    RecordModel {
                        measurement: config.measurement@,
                        tags: seq![("name"@, config.name@)],
                        fields: zigbee_fields(payload, keys_views(config.keys@)),
                        timestamp: ts,
                    },
                ),
                bucket: config.bucket@,
            },
        ),
        None => None,
    }
}

/// Whether a route-table entry binds `c`'s topic prefix to a sensor
/// decoder carrying `c`.
pub open spec fn zigbee_entry_matches(e: (String, Decoder), c: ZigbeeConfig) -> bool {
    &&& e.0@ == c.topic@
    &&& e.1 matches Decoder::Zigbee(z) && z.config.topic@ == c.topic@ && z.config.name@ == c.name@
        && z.config.bucket@ == c.bucket@ && z.config.measurement@ == c.measurement@ && keys_views(
        z.config.keys@,
    ) == keys_views(c.keys@)
}

/// Copies a list of configured key names.
fn clone_keys(keys: &Vec<String>) -> (r: Vec<String>)
    ensures
        keys_views(r@) == keys_views(keys@),
{
    let n = keys.len();
    let mut r: Vec<String> = Vec::new();
    for i in 0..n
        invariant
            n == keys.len(),
            r@.len() == i,
            forall|j: int| 0 <= j < i ==> (#[trigger] r@[j])@ == keys@[j]@,
    {
        r.push(keys[i].clone());
    }
    proof {
        assert(keys_views(r@) =~= keys_views(keys@));
    }
    r
}

impl Zigbee {
    /// Binds the decoder to one configured route.
    pub fn new(config: &ZigbeeConfig) -> (r: Self)
        ensures
            r.config.topic@ == config.topic@,
            r.config.name@ == config.name@,
            r.config.bucket@ == config.bucket@,
            r.config.measurement@ == config.measurement@,
            keys_views(r.config.keys@) == keys_views(config.keys@),
    {
        Zigbee {
            config: ZigbeeConfig {
                topic: config.topic.clone(),
                name: config.name.clone(),
                bucket: config.bucket.clone(),
                measurement: config.measurement.clone(),
                keys: clone_keys(&config.keys),
            },
        }
    }

    /// Builds one route-table entry per configured route, rejecting the
    /// first topic prefix that ends with the path separator; the
    /// subscription pattern appends the multi-level wildcard `/#` to the
    /// prefix.  Entries built before an offending prefix remain.
    pub fn from_configs(
        configs: &Vec<ZigbeeConfig>,
        topics: &mut Vec<String>,
        submittables: &mut Vec<(String, Decoder)>,
    ) -> (r: Result<(), Error>)
        ensures
            match r {
                Ok(()) => {
                    &&& forall|i: int|
                        0 <= i < configs@.len() ==> !ends_slash((#[trigger] configs@[i]).topic@)
                    &&& final(topics)@.len() == old(topics)@.len() + configs@.len()
                    &&& forall|i: int|
                        0 <= i < old(topics)@.len() ==> final(topics)@[i] == old(topics)@[i]
                    &&& forall|i: int|
                        0 <= i < configs@.len() ==> (#[trigger] final(topics)@[old(topics)@.len()
                            + i])@ == configs@[i].topic@ + seq!['/', '#']
                    &&& final(submittables)@.len() == old(submittables)@.len() + configs@.len()
                    &&& forall|i: int|
                        0 <= i < old(submittables)@.len() ==> final(submittables)@[i] == old(
                            submittables,
                        )@[i]
                    &&& forall|i: int|
                        0 <= i < configs@.len() ==> zigbee_entry_matches(
                            #[trigger] final(submittables)@[old(submittables)@.len() + i],
                            configs@[i],
                        )
                },
                Err(e) => {
                    &&& exists|i: int|
                        #![auto]
                        0 <= i < configs@.len() && ends_slash(configs@[i].topic@) && (forall|j: int|
                            0 <= j < i ==> !ends_slash((#[trigger] configs@[j]).topic@)) && (
                        e matches Error::ConfigTopicSlash(t) && t@ == configs@[i].topic@) && final(topics)@.len() == old(topics)@.len() + i && final(submittables)@.len() == old(
                            submittables,
                        )@.len() + i && (forall|j: int|
                            0 <= j < i ==> (#[trigger] final(topics)@[old(topics)@.len() + j])@
                                == configs@[j].topic@ + seq!['/', '#']) && (forall|j: int|
                            0 <= j < i ==> zigbee_entry_matches(
                                #[trigger] final(submittables)@[old(submittables)@.len() + j],
                                configs@[j],
                            ))
                    &&& forall|j: int|
                        0 <= j < old(topics)@.len() ==> final(topics)@[j] == old(topics)@[j]
                    &&& forall|j: int|
                        0 <= j < old(submittables)@.len() ==> final(submittables)@[j] == old(
                            submittables,
                        )@[j]
                },
            },
    {
        let n = configs.len();
        for i in 0..n
            invariant
                n == configs.len(),
                forall|j: int| 0 <= j < i ==> !ends_slash((#[trigger] configs@[j]).topic@),
                topics@.len() == old(topics)@.len() + i,
                forall|j: int| 0 <= j < old(topics)@.len() ==> topics@[j] == old(topics)@[j],
                forall|j: int|
                    0 <= j < i ==> (#[trigger] topics@[old(topics)@.len() + j])@ == configs@[
                        j
                    ].topic@ + seq!['/', '#'],
                submittables@.len() == old(submittables)@.len() + i,
                forall|j: int|
                    0 <= j < old(submittables)@.len() ==> submittables@[j] == old(submittables)@[j],
                forall|j: int|
                    0 <= j < i ==> zigbee_entry_matches(
                        #[trigger] submittables@[old(submittables)@.len() + j],
                        configs@[j],
                    ),
        {
            if ends_with_slash(configs[i].topic.as_str()) {
                return Err(Error::ConfigTopicSlash(configs[i].topic.clone()));
            }
            let mut pattern = crate::text::chars_vec(configs[i].topic.as_str());
            pattern.push('/');
            pattern.push('#');
            proof {
                assert(pattern@ =~= configs@[i as int].topic@ + seq!['/', '#']);
            }
            topics.push(crate::text::string_from_chars(&pattern));
            submittables.push((configs[i].topic.clone(), Decoder::Zigbee(Zigbee::new(&configs[i]))));
        }
        Ok(())
    }

    /// Yields the submission for one bus message on this route, with
    /// `now` standing in when the payload carries no timestamp.
    pub fn to_submission(&self, message: &MqttMessage, now: i64) -> (r: Option<Submission>)
        ensures
            opt_submission_view(r) == zigbee_submission(
                self.config,
                message.payload@,
                now as int,
            ),
    {
        match ZigbeeReading::from_payload(&self.config.keys, &message.payload, now) {
            Some(reading) => {
                let line = reading.to_line(
                    self.config.measurement.as_str(),
                    self.config.name.as_str(),
                );
                Some(Submission { line, bucket: self.config.bucket.clone() })
            },
            None => None,
        }
    }
}

} // verus!
