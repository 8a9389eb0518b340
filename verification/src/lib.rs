pub mod glow;
pub mod json;
pub mod line;
pub mod tasmota_plug;
pub mod text;
pub mod timestamp;
pub mod zigbee;

use vstd::prelude::*;

verus! {

/// Errors raised while building the route table from configuration.
#[derive(Debug)]
pub enum Error {
    /// A configured topic prefix ends with the path separator `/`;
    /// the offending prefix is carried verbatim.
    ConfigTopicSlash(String),
}

/// One message delivered by the publish/subscribe transport.
#[derive(Clone, Debug)]
pub struct MqttMessage {
    pub topic: String,
    pub payload: Vec<u8>,
}

/// One line-protocol record ready to be written to a bucket of the
/// time-series sink.
#[derive(Clone, Debug)]
pub struct Submission {
    pub line: String,
    pub bucket: String,
}

/// The mathematical content of a submission.
pub ghost struct SubmissionModel {
    pub line: Seq<char>,
    pub bucket: Seq<char>,
}

impl View for Submission {
    type V = SubmissionModel;

    open spec fn view(&self) -> SubmissionModel {
        SubmissionModel { line: self.line@, bucket: self.bucket@ }
    }
}

/// The view of an optional submission.
pub open spec fn opt_submission_view(r: Option<Submission>) -> Option<SubmissionModel> {
    match r {
        Some(s) => Some(s@),
        None => None,
    }
}

/// One payload decoder bound to a configured route: the closed set of
/// device families.
#[derive(Debug)]
pub enum Decoder {
    Glow(glow::Glow),
    TasmotaPlug(tasmota_plug::TasmotaPlug),
    Zigbee(zigbee::Zigbee),
}

impl Decoder {
    /// The submission this decoder yields for one bus message, with `now`
    /// standing in for the wall clock.
    pub open spec fn spec_submission(&self, message: MqttMessage, now: int) -> Option<
        SubmissionModel,
    > {
        match self {
            Decoder::Glow(g) => glow::glow_submission(g.config, message.topic@, message.payload@),
            Decoder::TasmotaPlug(p) => tasmota_plug::plug_submission(
                p.config,
                message.topic@,
                message.payload@,
            ),
            Decoder::Zigbee(z) => zigbee::zigbee_submission(z.config, message.payload@, now as int),
        }
    }

    /// Turns one bus message into a submission, if this decoder accepts it.
    pub fn to_submission(&self, message: &MqttMessage, now: i64) -> (r: Option<Submission>)
        ensures
            opt_submission_view(r) == self.spec_submission(*message, now as int),
    {
        match self {
            Decoder::Glow(g) => g.to_submission(message),
            Decoder::TasmotaPlug(p) => p.to_submission(message),
            Decoder::Zigbee(z) => z.to_submission(message, now),
        }
    }

    /// The topic prefix of the route this decoder is bound to.
    pub open spec fn topic_prefix(&self) -> Seq<char> {
        match self {
            Decoder::Glow(g) => g.config.topic@,
            Decoder::TasmotaPlug(p) => p.config.topic@,
            Decoder::Zigbee(z) => z.config.topic@,
        }
    }
}

/// The transport connection settings.
#[derive(Clone, Debug)]
pub struct MqttConfig {
    pub url: String,
}

/// The time-series sink settings.
#[derive(Clone, Debug)]
pub struct InfluxDbConfig {
    pub url: String,
    pub org: String,
    pub token: String,
}

/// The whole configuration surface: transport, sink, and one route list
/// per device family.
#[derive(Debug)]
pub struct Config {
    pub mqtt: MqttConfig,
    pub influxdb: InfluxDbConfig,
    pub glow: Option<Vec<glow::GlowConfig>>,
    pub tasmota_plug: Option<Vec<tasmota_plug::TasmotaPlugConfig>>,
    pub zigbee: Option<Vec<zigbee::ZigbeeConfig>>,
}

/// The configured meter routes, an absent list standing for none.
pub open spec fn config_glows(c: Config) -> Seq<glow::GlowConfig> {
    match c.glow {
        Some(v) => v@,
        None => Seq::empty(),
    }
}

/// The configured plug routes.
pub open spec fn config_plugs(c: Config) -> Seq<tasmota_plug::TasmotaPlugConfig> {
    match c.tasmota_plug {
        Some(v) => v@,
        None => Seq::empty(),
    }
}

/// The configured sensor routes.
pub open spec fn config_zigbees(c: Config) -> Seq<zigbee::ZigbeeConfig> {
    match c.zigbee {
        Some(v) => v@,
        None => Seq::empty(),
    }
}

/// Whether no configured topic prefix ends with the path separator.
pub open spec fn config_topics_ok(c: Config) -> bool {
    &&& forall|i: int|
        0 <= i < config_glows(c).len() ==> !text::ends_slash((#[trigger] config_glows(c)[i]).topic@)
    &&& forall|i: int|
        0 <= i < config_plugs(c).len() ==> !text::ends_slash((#[trigger] config_plugs(c)[i]).topic@)
    &&& forall|i: int|
        0 <= i < config_zigbees(c).len() ==> !text::ends_slash(
            (#[trigger] config_zigbees(c)[i]).topic@,
        )
}

/// The route table: the ordered topic-prefix to decoder bindings built
/// once from configuration, and the transport subscription patterns they
/// ask for.
pub struct Router {
    pub submittables: Vec<(String, Decoder)>,
    pub topics: Vec<String>,
}

/// The views of a submission list.
pub open spec fn submissions_views(vs: Seq<Submission>) -> Seq<SubmissionModel> {
    vs.map_values(|s: Submission| s@)
}

/// The submissions the route table yields for one bus message: every
/// entry whose topic prefix literally prefixes the message topic is
/// tried, in insertion order, and each accepted decode contributes one
/// submission.
pub open spec fn route_model(
    entries: Seq<(String, Decoder)>,
    message: MqttMessage,
    now: int,
) -> Seq<SubmissionModel>
    decreases entries.len(),
{
    if entries.len() == 0 {
        Seq::empty()
    } else {
        (if entries[0].0@.is_prefix_of(message.topic@) {
            match entries[0].1.spec_submission(message, now) {
                Some(s) => seq![s],
                None => Seq::empty(),
            }
        } else {
            Seq::empty()
        }) + route_model(entries.drop_first(), message, now)
    }
}

/// Entry lists distribute over routing.
proof fn lemma_route_model_concat(
    a: Seq<(String, Decoder)>,
    b: Seq<(String, Decoder)>,
    message: MqttMessage,
    now: int,
)
    ensures
        route_model(a + b, message, now) == route_model(a, message, now) + route_model(
            b,
            message,
            now,
        ),
    decreases a.len(),
{
    if a.len() == 0 {
        assert(a + b =~= b);
        assert(route_model(a, message, now) + route_model(b, message, now) =~= route_model(
            b,
            message,
            now,
        ));
    } else {
        lemma_route_model_concat(a.drop_first(), b, message, now);
        assert((a + b).drop_first() =~= a.drop_first() + b);
        assert((a + b)[0] == a[0]);
        let head = (if a[0].0@.is_prefix_of(message.topic@) {
            match a[0].1.spec_submission(message, now) {
                Some(s) => seq![s],
                None => Seq::<SubmissionModel>::empty(),
            }
        } else {
            Seq::<SubmissionModel>::empty()
        });
        assert(head + (route_model(a.drop_first(), message, now) + route_model(b, message, now))
            =~= (head + route_model(a.drop_first(), message, now)) + route_model(b, message, now));
    }
}

impl Router {
    /// Builds the route table from configuration: meter routes first,
    /// then plug routes, then sensor routes.  A topic prefix ending with
    /// the path separator is a configuration error naming the offending
    /// prefix, and the first one found (in that same order) is reported.
    pub fn new(config: &Config) -> (r: Result<Router, Error>)
        ensures
            match r {
                Ok(router) => {
                    &&& config_topics_ok(*config)
                    &&& router.submittables@.len() == config_glows(*config).len() + config_plugs(
                        *config,
                    ).len() + config_zigbees(*config).len()
                    &&& forall|i: int|
                        0 <= i < config_glows(*config).len() ==> glow::glow_entry_matches(
                            #[trigger] router.submittables@[i],
                            config_glows(*config)[i],
                        )
                    &&& forall|i: int|
                        0 <= i < config_plugs(*config).len() ==> tasmota_plug::plug_entry_matches(
                            #[trigger] router.submittables@[config_glows(*config).len() + i],
                            config_plugs(*config)[i],
                        )
                    &&& forall|i: int|
                        0 <= i < config_zigbees(*config).len() ==> zigbee::zigbee_entry_matches(
                            #[trigger] router.submittables@[config_glows(*config).len()
                                + config_plugs(*config).len() + i],
                            config_zigbees(*config)[i],
                        )
                    &&& router.topics@.len() == router.submittables@.len()
                    &&& forall|i: int|
                        0 <= i < config_glows(*config).len() ==> (
                        #[trigger] router.topics@[i])@ == config_glows(*config)[i].topic@ + seq![
                            '/',
                            '#',
                        ]
                    &&& forall|i: int|
                        0 <= i < config_plugs(*config).len() ==> (
                        #[trigger] router.topics@[config_glows(*config).len() + i])@ == config_plugs(
                            *config,
                        )[i].topic@ + seq!['/', '#']
                    &&& forall|i: int|
                        0 <= i < config_zigbees(*config).len() ==> (
                        #[trigger] router.topics@[config_glows(*config).len() + config_plugs(
                            *config,
                        ).len() + i])@ == config_zigbees(*config)[i].topic@ + seq!['/', '#']
                },
                Err(e) => {
                    &&& !config_topics_ok(*config)
                    &&& e matches Error::ConfigTopicSlash(t) && {
                        ||| (exists|i: int|
                            #![auto]
                            0 <= i < config_glows(*config).len() && text::ends_slash(
                                config_glows(*config)[i].topic@,
                            ) && (forall|j: int|
                                0 <= j < i ==> !text::ends_slash(
                                    (#[trigger] config_glows(*config)[j]).topic@,
                                )) && t@ == config_glows(*config)[i].topic@)
                        ||| ((forall|j: int|
                            0 <= j < config_glows(*config).len() ==> !text::ends_slash(
                                (#[trigger] config_glows(*config)[j]).topic@,
                            )) && (exists|i: int|
                            #![auto]
                            0 <= i < config_plugs(*config).len() && text::ends_slash(
                                config_plugs(*config)[i].topic@,
                            ) && (forall|j: int|
                                0 <= j < i ==> !text::ends_slash(
                                    (#[trigger] config_plugs(*config)[j]).topic@,
                                )) && t@ == config_plugs(*config)[i].topic@))
                        ||| ((forall|j: int|
                            0 <= j < config_glows(*config).len() ==> !text::ends_slash(
                                (#[trigger] config_glows(*config)[j]).topic@,
                            )) && (forall|j: int|
                            0 <= j < config_plugs(*config).len() ==> !text::ends_slash(
                                (#[trigger] config_plugs(*config)[j]).topic@,
                            )) && (exists|i: int|
                            #![auto]
                            0 <= i < config_zigbees(*config).len() && text::ends_slash(
                                config_zigbees(*config)[i].topic@,
                            ) && (forall|j: int|
                                0 <= j < i ==> !text::ends_slash(
                                    (#[trigger] config_zigbees(*config)[j]).topic@,
                                )) && t@ == config_zigbees(*config)[i].topic@))
                    }
                },
            },
    {
        let ghost glows_model = config_glows(*config);
        let ghost plugs_model = config_plugs(*config);
        let ghost zigbees_model = config_zigbees(*config);
        let mut topics: Vec<String> = Vec::new();
        let mut submittables: Vec<(String, Decoder)> = Vec::new();
        let ghost t0 = topics@;
        let ghost s0 = submittables@;
        if let Some(glows) = &config.glow {
            match glow::Glow::from_configs(glows, &mut topics, &mut submittables) {
                Ok(()) => (),
                Err(e) => return Err(e),
            }
        }
        proof {
            assert(topics@.len() == glows_model.len());
            assert(submittables@.len() == glows_model.len());
            assert forall|i: int| 0 <= i < glows_model.len() implies glow::glow_entry_matches(
                #[trigger] submittables@[i],
                glows_model[i],
            ) by {
                assert(glow::glow_entry_matches(submittables@[s0.len() + i], glows_model[i]));
            }
            assert forall|i: int| 0 <= i < glows_model.len() implies (#[trigger] topics@[i])@
                == glows_model[i].topic@ + seq!['/', '#'] by {
                assert((topics@[t0.len() + i])@ == glows_model[i].topic@ + seq!['/', '#']);
            }
        }
        let ghost t1 = topics@;
        let ghost s1 = submittables@;
        if let Some(plugs) = &config.tasmota_plug {
            match tasmota_plug::TasmotaPlug::from_configs(plugs, &mut topics, &mut submittables) {
                Ok(()) => (),
                Err(e) => return Err(e),
            }
        }
        proof {
            assert(topics@.len() == glows_model.len() + plugs_model.len());
            assert(submittables@.len() == glows_model.len() + plugs_model.len());
            assert(forall|i: int| 0 <= i < s1.len() ==> #[trigger] submittables@[i] == s1[i]);
            assert(forall|i: int| 0 <= i < t1.len() ==> #[trigger] topics@[i] == t1[i]);
            assert forall|i: int|
                0 <= i < plugs_model.len() implies tasmota_plug::plug_entry_matches(
                #[trigger] submittables@[glows_model.len() + i],
                plugs_model[i],
            ) by {
                assert(tasmota_plug::plug_entry_matches(
                    submittables@[s1.len() + i],
                    plugs_model[i],
                ));
            }
            assert forall|i: int|
                0 <= i < plugs_model.len() implies (#[trigger] topics@[glows_model.len() + i])@
                == plugs_model[i].topic@ + seq!['/', '#'] by {
                assert((topics@[t1.len() + i])@ == plugs_model[i].topic@ + seq!['/', '#']);
            }
        }
        let ghost t2 = topics@;
        let ghost s2 = submittables@;
        if let Some(zigbees) = &config.zigbee {
            match zigbee::Zigbee::from_configs(zigbees, &mut topics, &mut submittables) {
                Ok(()) => (),
                Err(e) => return Err(e),
            }
        }
        proof {
            assert(forall|i: int| 0 <= i < s2.len() ==> #[trigger] submittables@[i] == s2[i]);
            assert(forall|i: int| 0 <= i < t2.len() ==> #[trigger] topics@[i] == t2[i]);
            assert forall|i: int|
                0 <= i < zigbees_model.len() implies zigbee::zigbee_entry_matches(
                #[trigger] submittables@[glows_model.len() + plugs_model.len() + i],
                zigbees_model[i],
            ) by {
                assert(zigbee::zigbee_entry_matches(
                    submittables@[s2.len() + i],
                    zigbees_model[i],
                ));
            }
            assert forall|i: int|
                0 <= i < zigbees_model.len() implies (#[trigger] topics@[glows_model.len()
                + plugs_model.len() + i])@ == zigbees_model[i].topic@ + seq!['/', '#'] by {
                assert((topics@[t2.len() + i])@ == zigbees_model[i].topic@ + seq!['/', '#']);
            }
            assert(forall|i: int|
                0 <= i < glows_model.len() ==> glow::glow_entry_matches(
                    #[trigger] submittables@[i],
                    glows_model[i],
                ));
            assert(forall|i: int|
                0 <= i < plugs_model.len() ==> tasmota_plug::plug_entry_matches(
                    #[trigger] submittables@[glows_model.len() + i],
                    plugs_model[i],
                ));
        }
        Ok(Router { submittables, topics })
    }

    /// Routes one bus message with `now` standing in for the wall clock:
    /// every matching entry is tried in order, and each accepted decode
    /// contributes one submission.
    pub fn route_message_at(&self, message: &MqttMessage, now: i64) -> (r: Vec<Submission>)
        ensures
            submissions_views(r@) == route_model(self.submittables@, *message, now as int),
    {
        let mut out: Vec<Submission> = Vec::new();
        let n = self.submittables.len();
        proof {
            assert(self.submittables@.subrange(0, 0) =~= Seq::<(String, Decoder)>::empty());
            assert(submissions_views(out@) =~= route_model(
                self.submittables@.subrange(0, 0),
                *message,
                now as int,
            ));
        }
        for i in 0..n
            invariant
                n == self.submittables.len(),
                submissions_views(out@) == route_model(
                    self.submittables@.subrange(0, i as int),
                    *message,
                    now as int,
                ),
        {
            let ghost before = submissions_views(out@);
            let ghost entry = self.submittables@[i as int];
            proof {
                lemma_route_model_concat(
                    self.submittables@.subrange(0, i as int),
                    seq![entry],
                    *message,
                    now as int,
                );
                assert(self.submittables@.subrange(0, i as int) + seq![entry]
                    =~= self.submittables@.subrange(0, i as int + 1));
                assert(seq![entry].drop_first() =~= Seq::<(String, Decoder)>::empty());
                assert(route_model(Seq::<(String, Decoder)>::empty(), *message, now as int)
                    == Seq::<SubmissionModel>::empty());
            }
            let topic_chars = text::chars_vec(message.topic.as_str());
            let prefix_chars = text::chars_vec(self.submittables[i].0.as_str());
            if text::starts_with_chars(&topic_chars, &prefix_chars) {
                match self.submittables[i].1.to_submission(message, now) {
                    Some(s) => {
                        out.push(s);
                        proof {
                            assert(route_model(seq![entry], *message, now as int) =~= seq![s@]
                                + Seq::<SubmissionModel>::empty());
                            assert(seq![s@] + Seq::<SubmissionModel>::empty() =~= seq![s@]);
                            assert(submissions_views(out@) =~= before + seq![s@]);
                        }
                    },
                    None => {
                        proof {
                            assert(route_model(seq![entry], *message, now as int)
                                =~= Seq::<SubmissionModel>::empty());
                            assert(before + Seq::<SubmissionModel>::empty() =~= before);
                        }
                    },
                }
            } else {
                proof {
                    assert(route_model(seq![entry], *message, now as int) =~= Seq::<
                        SubmissionModel,
                    >::empty());
                    assert(before + Seq::<SubmissionModel>::empty() =~= before);
                }
            }
        }
        proof {
            assert(self.submittables@.subrange(0, n as int) =~= self.submittables@);
        }
        out
    }

    /// Routes one bus message, reading the wall clock once for any sensor
    /// payload that carries no timestamp of its own.
    pub fn route_message(&self, message: &MqttMessage) -> (r: Vec<Submission>)
        ensures
            exists|now: int|
                submissions_views(r@) == #[trigger] route_model(self.submittables@, *message, now),
    {
        let now = timestamp::now_unix();
        let r = self.route_message_at(message, now);
        proof {
            assert(submissions_views(r@) == route_model(
                self.submittables@,
                *message,
                now as int,
            ));
        }
        r
    }
}

/// For a meter or plug route, a matching topic whose remainder after the
/// route's prefix splits into fewer than two path segments yields no
/// submission.
pub proof fn lemma_few_segments_no_submission(d: Decoder, message: MqttMessage, now: int)
    requires
        !(d is Zigbee),
        d.topic_prefix().is_prefix_of(message.topic@),
        text::split_seq(message.topic@.skip(d.topic_prefix().len() as int), '/').len() < 2,
    ensures
        d.spec_submission(message, now) is None,
{
}

/// For a meter or plug route, a matching topic whose second remaining
/// segment is not the sentinel `SENSOR` yields no submission.
pub proof fn lemma_wrong_sentinel_no_submission(d: Decoder, message: MqttMessage, now: int)
    requires
        !(d is Zigbee),
        d.topic_prefix().is_prefix_of(message.topic@),
        text::split_seq(message.topic@.skip(d.topic_prefix().len() as int), '/').len() >= 2,
        text::split_seq(message.topic@.skip(d.topic_prefix().len() as int), '/')[1] != "SENSOR"@,
    ensures
        d.spec_submission(message, now) is None,
{
}

} // verus!
