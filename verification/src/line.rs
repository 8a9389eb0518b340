//! The line-protocol encoder: a normalized record rendered as
//! `measurement,tag=v field=v,... timestampSeconds`, with the
//! bus-reserved characters escaped in tag values.

use vstd::prelude::*;
use crate::text::{chars_vec, extend_chars, string_from_chars};

verus! {

/// Characters that may appear in the decimal text of a numeric field value.
pub open spec fn is_number_char(c: char) -> bool {
    ('0' <= c && c <= '9') || c == '.' || c == '-' || c == '+' || c == 'e' || c == 'E'
}

/// Well-formed numeric text: nonempty, made of decimal-literal characters only.
pub open spec fn number_text_wf(s: Seq<char>) -> bool {
    s.len() > 0 && forall|i: int| 0 <= i < s.len() ==> is_number_char(s[i])
}

/// A numeric field value, carried as its decimal text so that encoding
/// reproduces it exactly, with no rounding drift.
#[derive(Debug)]
pub struct Number {
    text: String,
}

impl Clone for Number {
    fn clone(&self) -> (r: Self)
        ensures
            r@ == self@,
    {
        Number { text: self.text.clone() }
    }
}

impl View for Number {
    type V = Seq<char>;

    closed spec fn view(&self) -> Seq<char> {
        self.text@
    }
}

impl Number {
    /// The type invariant: the text is a nonempty decimal literal.
    pub open spec fn wf(&self) -> bool {
        number_text_wf(self@)
    }

    /// Accepts `text` as a numeric value if it is nonempty and made of
    /// decimal-literal characters only.
    pub fn from_text(text: String) -> (r: Option<Number>)
        ensures
            match r {
                Some(n) => number_text_wf(text@) && n@ == text@ && n.wf(),
                None => !number_text_wf(text@),
            },
    {
        let chars = chars_vec(text.as_str());
        let n = chars.len();
        if n == 0 {
            return None;
        }
        for i in 0..n
            invariant
                n == chars.len(),
                chars@ == text@,
                forall|j: int| 0 <= j < i ==> is_number_char(text@[j]),
        {
            let c = chars[i];
            let ok = ('0' <= c && c <= '9') || c == '.' || c == '-' || c == '+' || c == 'e' || c
                == 'E';
            if !ok {
                return None;
            }
        }
        Some(Number { text })
    }

    /// The decimal text itself.
    pub fn text(&self) -> (r: &String)
        ensures
            r@ == self@,
    {
        &self.text
    }
}

/// A tag-value character that the line protocol reserves.
pub open spec fn is_reserved_tag_char(c: char) -> bool {
    c == ',' || c == '=' || c == ' '
}

/// Escaping of one tag-value character: a reserved character is preceded
/// by a backslash; any other character stands unaltered.
pub open spec fn escape_char(c: char) -> Seq<char> {
    if is_reserved_tag_char(c) {
        seq!['\\', c]
    } else {
        seq![c]
    }
}

/// Escaping of a whole tag value, character by character.
pub open spec fn escape_seq(s: Seq<char>) -> Seq<char>
    decreases s.len(),
{
    if s.len() == 0 {
        Seq::empty()
    } else {
        escape_char(s[0]) + escape_seq(s.drop_first())
    }
}

/// Escaping acts independently on each part of a tag value.
pub proof fn lemma_escape_concat(a: Seq<char>, b: Seq<char>)
    ensures
        escape_seq(a + b) == escape_seq(a) + escape_seq(b),
    decreases a.len(),
{
    if a.len() == 0 {
        assert(a + b =~= b);
        assert(escape_seq(a) + escape_seq(b) =~= escape_seq(b));
    } else {
        lemma_escape_concat(a.drop_first(), b);
        assert((a + b).drop_first() =~= a.drop_first() + b);
        assert(escape_char((a + b)[0]) + (escape_seq(a.drop_first()) + escape_seq(b)) =~= (
        escape_char(a[0]) + escape_seq(a.drop_first())) + escape_seq(b));
    }
}

/// Escaping a single character yields exactly its escape.
pub proof fn lemma_escape_singleton(c: char)
    ensures
        escape_seq(seq![c]) == escape_char(c),
{
    assert(seq![c].len() == 1 && seq![c][0] == c);
    assert(escape_seq(seq![c]) == escape_char(c) + escape_seq(seq![c].drop_first()));
    assert(seq![c].drop_first() =~= Seq::<char>::empty());
    assert(escape_seq(Seq::<char>::empty()) == Seq::<char>::empty());
    assert(escape_char(c) + Seq::<char>::empty() =~= escape_char(c));
}

/// A reserved character appears in the escaped value with a preceding
/// backslash.
pub proof fn lemma_escape_reserved(c: char)
    requires
        is_reserved_tag_char(c),
    ensures
        escape_seq(seq![c]) == seq!['\\', c],
{
    lemma_escape_singleton(c);
}

/// Any other character is left unaltered by escaping.
pub proof fn lemma_escape_plain(c: char)
    requires
        !is_reserved_tag_char(c),
    ensures
        escape_seq(seq![c]) == seq![c],
{
    lemma_escape_singleton(c);
}

/// Escapes the reserved characters of a tag value.
pub fn escape_chars(s: &Vec<char>) -> (r: Vec<char>)
    ensures
        r@ == escape_seq(s@),
{
    let n = s.len();
    let mut r: Vec<char> = Vec::new();
    proof {
        assert(s@.subrange(0, 0) =~= Seq::<char>::empty());
    }
    for i in 0..n
        invariant
            n == s.len(),
            r@ == escape_seq(s@.subrange(0, i as int)),
    {
        let c = s[i];
        proof {
            lemma_escape_concat(s@.subrange(0, i as int), seq![s@[i as int]]);
            lemma_escape_singleton(s@[i as int]);
            assert(s@.subrange(0, i as int) + seq![s@[i as int]] =~= s@.subrange(0, i as int + 1));
        }
        if c == ',' || c == '=' || c == ' ' {
            r.push('\\');
            r.push(c);
        } else {
            r.push(c);
        }
        proof {
            assert(r@ =~= escape_seq(s@.subrange(0, i as int + 1)));
        }
    }
    proof {
        assert(s@.subrange(0, n as int) =~= s@);
    }
    r
}

/// The decimal digit character of `n`, for `n < 10`.
pub open spec fn digit_char(n: nat) -> char {
    if n == 0 {
        '0'
    } else if n == 1 {
        '1'
    } else if n == 2 {
        '2'
    } else if n == 3 {
        '3'
    } else if n == 4 {
        '4'
    } else if n == 5 {
        '5'
    } else if n == 6 {
        '6'
    } else if n == 7 {
        '7'
    } else if n == 8 {
        '8'
    } else {
        '9'
    }
}

/// The decimal text of a nonnegative integer, most significant digit first.
pub open spec fn dec_text(n: nat) -> Seq<char>
    decreases n,
{
    if n < 10 {
        seq![digit_char(n)]
    } else {
        dec_text(n / 10).push(digit_char(n % 10))
    }
}

/// The decimal text of an integer, with a leading minus sign when negative.
pub open spec fn int_text(n: int) -> Seq<char> {
    if n < 0 {
        seq!['-'] + dec_text((-n) as nat)
    } else {
        dec_text(n as nat)
    }
}

fn digit_of(n: u64) -> (c: char)
    requires
        n < 10,
    ensures
        c == digit_char(n as nat),
{
    if n == 0 {
        '0'
    } else if n == 1 {
        '1'
    } else if n == 2 {
        '2'
    } else if n == 3 {
        '3'
    } else if n == 4 {
        '4'
    } else if n == 5 {
        '5'
    } else if n == 6 {
        '6'
    } else if n == 7 {
        '7'
    } else if n == 8 {
        '8'
    } else {
        '9'
    }
}

/// The decimal digits of `n`.
pub fn dec_chars(n: u64) -> (r: Vec<char>)
    ensures
        r@ == dec_text(n as nat),
    decreases n,
{
    if n < 10 {
        let mut r: Vec<char> = Vec::new();
        r.push(digit_of(n));
        assert(r@ =~= seq![digit_char(n as nat)]);
        r
    } else {
        let mut r = dec_chars(n / 10);
        r.push(digit_of(n % 10));
        r
    }
}

/// The decimal text of a signed timestamp.
pub fn int_chars(n: i64) -> (r: Vec<char>)
    ensures
        r@ == int_text(n as int),
{
    if n >= 0 {
        dec_chars(n as u64)
    } else {
        let mag: u64 = if n == i64::MIN {
            9223372036854775808u64
        } else {
            (-n) as u64
        };
        assert(mag == -(n as int));
        let mut r: Vec<char> = Vec::new();
        r.push('-');
        let digits = dec_chars(mag);
        extend_chars(&mut r, &digits);
        assert(r@ =~= seq!['-'] + dec_text((-(n as int)) as nat));
        r
    }
}

/// The mathematical content of a normalized record: measurement name, tag
/// and field lists in order, and the timestamp in whole seconds.
pub ghost struct RecordModel {
    pub measurement: Seq<char>,
    pub tags: Seq<(Seq<char>, Seq<char>)>,
    pub fields: Seq<(Seq<char>, Seq<char>)>,
    pub timestamp: int,
}

/// The rendered tag set: each tag preceded by a comma, its value escaped.
pub open spec fn tags_text(tags: Seq<(Seq<char>, Seq<char>)>) -> Seq<char>
    decreases tags.len(),
{
    if tags.len() == 0 {
        Seq::empty()
    } else {
        seq![','] + tags[0].0 + seq!['='] + escape_seq(tags[0].1) + tags_text(tags.drop_first())
    }
}

/// The rendered field set: `name=value` pairs joined by commas, values verbatim.
pub open spec fn fields_text(fields: Seq<(Seq<char>, Seq<char>)>) -> Seq<char>
    decreases fields.len(),
{
    if fields.len() == 0 {
        Seq::empty()
    } else if fields.len() == 1 {
        fields[0].0 + seq!['='] + fields[0].1
    } else {
        fields[0].0 + seq!['='] + fields[0].1 + seq![','] + fields_text(fields.drop_first())
    }
}

/// The whole line: measurement, tags, a space, fields, a space, timestamp.
/// There is no trailing newline.
pub open spec fn line_of(r: RecordModel) -> Seq<char> {
    r.measurement + tags_text(r.tags) + seq![' '] + fields_text(r.fields) + seq![' '] + int_text(
        r.timestamp,
    )
}

/// The decoders' unified output: a measurement name, ordered tags, ordered
/// numeric fields, and a timestamp in whole seconds.
#[derive(Clone, Debug)]
pub struct NormalizedRecord {
    pub measurement: String,
    pub tags: Vec<(String, String)>,
    pub fields: Vec<(String, Number)>,
    pub timestamp_seconds: i64,
}

impl View for NormalizedRecord {
    type V = RecordModel;

    open spec fn view(&self) -> RecordModel {
        RecordModel {
            measurement: self.measurement@,
            tags: self.tags@.map_values(|t: (String, String)| (t.0@, t.1@)),
            fields: self.fields@.map_values(|f: (String, Number)| (f.0@, f.1@)),
            timestamp: self.timestamp_seconds as int,
        }
    }
}

/// Tag lists distribute over rendering.
proof fn lemma_tags_text_concat(a: Seq<(Seq<char>, Seq<char>)>, b: Seq<(Seq<char>, Seq<char>)>)
    ensures
        tags_text(a + b) == tags_text(a) + tags_text(b),
    decreases a.len(),
{
    if a.len() == 0 {
        assert(a + b =~= b);
        assert(tags_text(a) + tags_text(b) =~= tags_text(b));
    } else {
        lemma_tags_text_concat(a.drop_first(), b);
        assert((a + b).drop_first() =~= a.drop_first() + b);
        assert(seq![','] + (a + b)[0].0 + seq!['='] + escape_seq((a + b)[0].1) + (tags_text(
            a.drop_first(),
        ) + tags_text(b)) =~= (seq![','] + a[0].0 + seq!['='] + escape_seq(a[0].1) + tags_text(
            a.drop_first(),
        )) + tags_text(b));
    }
}

/// Renders `record` as its line-protocol text.  Encoding is a function of
/// the record alone, so equal records always render identically.
pub fn encode_line(record: &NormalizedRecord) -> (r: String)
    ensures
        r@ == line_of(record@),
{
    let mut buf: Vec<char> = Vec::new();
    let m = chars_vec(record.measurement.as_str());
    extend_chars(&mut buf, &m);

    let ghost tag_models = record@.tags;
    let ntags = record.tags.len();
    proof {
        assert(tag_models.subrange(0, 0) =~= Seq::<(Seq<char>, Seq<char>)>::empty());
        assert(buf@ =~= record.measurement@ + tags_text(tag_models.subrange(0, 0)));
    }
    for i in 0..ntags
        invariant
            ntags == record.tags.len(),
            tag_models == record@.tags,
            tag_models.len() == ntags,
            forall|j: int|
                0 <= j < ntags ==> tag_models[j] == (record.tags@[j].0@, record.tags@[j].1@),
            buf@ == record.measurement@ + tags_text(tag_models.subrange(0, i as int)),
    {
        buf.push(',');
        let key = chars_vec(record.tags[i].0.as_str());
        extend_chars(&mut buf, &key);
        buf.push('=');
        let raw = chars_vec(record.tags[i].1.as_str());
        let esc = escape_chars(&raw);
        extend_chars(&mut buf, &esc);
        proof {
            lemma_tags_text_concat(
                tag_models.subrange(0, i as int),
                seq![tag_models[i as int]],
            );
            assert(tag_models.subrange(0, i as int) + seq![tag_models[i as int]]
                =~= tag_models.subrange(0, i as int + 1));
            let one = seq![tag_models[i as int]];
            assert(tags_text(one) == seq![','] + one[0].0 + seq!['='] + escape_seq(one[0].1)
                + tags_text(one.drop_first()));
            assert(one.drop_first() =~= Seq::<(Seq<char>, Seq<char>)>::empty());
            assert(tags_text(Seq::<(Seq<char>, Seq<char>)>::empty()) == Seq::<char>::empty());
            assert(tags_text(one) =~= seq![','] + one[0].0 + seq!['='] + escape_seq(one[0].1));
            assert(buf@ =~= record.measurement@ + tags_text(tag_models.subrange(0, i as int + 1)));
        }
    }
    proof {
        assert(tag_models.subrange(0, ntags as int) =~= tag_models);
    }

    buf.push(' ');
    let ghost field_models = record@.fields;
    let nfields = record.fields.len();
    proof {
        assert(buf@ =~= record.measurement@ + tags_text(record@.tags) + seq![' '] + fields_text(
            field_models.subrange(0, 0),
        ));
    }
    for i in 0..nfields
        invariant
            nfields == record.fields.len(),
            field_models == record@.fields,
            field_models.len() == nfields,
            forall|j: int|
                0 <= j < nfields ==> field_models[j] == (record.fields@[j].0@, record.fields@[j].1@),
            buf@ == record.measurement@ + tags_text(record@.tags) + seq![' '] + fields_text(
                field_models.subrange(0, i as int),
            ),
    {
        if i > 0 {
            buf.push(',');
        }
        let key = chars_vec(record.fields[i].0.as_str());
        extend_chars(&mut buf, &key);
        buf.push('=');
        let value = chars_vec(record.fields[i].1.text().as_str());
        extend_chars(&mut buf, &value);
        proof {
            lemma_fields_text_snoc(field_models, i as int);
        }
    }
    proof {
        assert(field_models.subrange(0, nfields as int) =~= field_models);
    }

    buf.push(' ');
    let ts = int_chars(record.timestamp_seconds);
    extend_chars(&mut buf, &ts);
    proof {
        assert(buf@ =~= line_of(record@));
    }
    string_from_chars(&buf)
}

/// Appending one field to a rendered field list adds `,name=value`, or just
/// `name=value` when the list was empty.
proof fn lemma_fields_text_snoc(fields: Seq<(Seq<char>, Seq<char>)>, i: int)
    requires
        0 <= i < fields.len(),
    ensures
        fields_text(fields.subrange(0, i + 1)) == fields_text(fields.subrange(0, i)) + (if i == 0 {
            Seq::<char>::empty()
        } else {
            seq![',']
        }) + fields[i].0 + seq!['='] + fields[i].1,
    decreases i,
{
    let pre = fields.subrange(0, i + 1);
    if i == 0 {
        assert(pre.len() == 1);
        assert(pre[0] == fields[0]);
        assert(fields.subrange(0, 0) =~= Seq::<(Seq<char>, Seq<char>)>::empty());
        assert(fields_text(pre) =~= Seq::<char>::empty() + Seq::<char>::empty() + fields[0].0
            + seq!['='] + fields[0].1);
    } else {
        lemma_fields_text_snoc(fields.drop_first(), i - 1);
        assert(pre.drop_first() =~= fields.drop_first().subrange(0, i));
        assert(fields.subrange(0, i).drop_first() =~= fields.drop_first().subrange(0, i - 1));
        assert(pre.len() >= 2);
        assert(fields_text(pre) == pre[0].0 + seq!['='] + pre[0].1 + seq![','] + fields_text(
            pre.drop_first(),
        ));
        if i == 1 {
            let sub = fields.subrange(0, 1);
            assert(sub.len() == 1);
            assert(fields_text(sub) == sub[0].0 + seq!['='] + sub[0].1);
            assert(fields_text(pre) =~= fields_text(fields.subrange(0, i)) + seq![','] + fields[
                i
            ].0 + seq!['='] + fields[i].1);
        } else {
            let sub = fields.subrange(0, i);
            assert(sub.len() >= 2);
            assert(fields_text(sub) == sub[0].0 + seq!['='] + sub[0].1 + seq![','] + fields_text(
                sub.drop_first(),
            ));
            assert(fields_text(pre) =~= fields_text(sub) + seq![','] + fields[i].0 + seq!['=']
                + fields[i].1);
        }
    }
}

/// Encoding is deterministic: two renderings of one record model are
/// byte-identical.
pub proof fn lemma_encode_deterministic(m: RecordModel, l1: Seq<char>, l2: Seq<char>)
    requires
        l1 == line_of(m),
        l2 == line_of(m),
    ensures
        l1 == l2,
{
}

} // verus!
