//! Decoding of the search service's reply.
//!
//! The reply is flat: the number of matches, then three items for each
//! document returned: its key, its score, and a list in which the names and
//! the values of its fields alternate. A group that does not have this shape
//! is left out; the others become records.
//!
//! A score is a decimal fraction, and this library does not compute with
//! fractions. So decoding takes two steps: [`score_texts`] hands out the
//! text of each group's score, the caller reads each as a number, and
//! [`decode`] takes the numbers with the reply.

use vstd::prelude::*;
use crate::json::{
    array, copy, integer, json_model, json_parse, members_of, models, models_push, parse, parsed_model, string,
    unsigned, JsonModel, ObjectBuilder,
};
use crate::text::{decimal, lossy_text, option_text, same_text, signed_decimal, utf8_lossy};

verus! {

/// One item of a reply of the store.
#[derive(Debug)]
pub enum Reply {
    Nil,
    Int(i64),
    Data(Vec<u8>),
    Bulk(Vec<Reply>),
    Status(String),
    Okay,
}

/// The outcome of a search: the number of matches and the records returned.
pub struct SearchResult {
    pub total: u64,
    pub records: Vec<serde_json::Value>,
}

/// The number of matches that a reply announces: its first item where that
/// is a number and not negative, else zero.
pub open spec fn total_of(reply: Seq<Reply>) -> u64 {
    if reply.len() == 0 {
        0
    } else {
        match reply[0] {
            Reply::Int(n) => if n >= 0 {
                n as u64
            } else {
                0
            },
            _ => 0,
        }
    }
}

/// The score of a group for which the caller hands over none.
pub open spec fn zero_score() -> JsonModel {
    JsonModel::Number(signed_decimal(0))
}

/// The number of whole groups of three behind the first item.
pub open spec fn full_groups(len: nat) -> nat {
    if len == 0 {
        0
    } else {
        ((len - 1) / 3) as nat
    }
}

/// The text of a score item: that of a byte string, nothing for any other
/// item.
pub open spec fn score_text_of(item: Reply) -> Option<Seq<char>> {
    match item {
        Reply::Data(bytes) => Some(utf8_lossy(bytes@)),
        _ => None,
    }
}

/// The texts of the scores of a reply, one for each whole group, in the
/// order of the groups.
pub open spec fn score_texts_of(reply: Seq<Reply>) -> Seq<Option<Seq<char>>> {
    Seq::new(full_groups(reply.len()), |g: int| score_text_of(reply[3 * g + 2]))
}

/// The texts of a list of optional texts.
pub open spec fn option_texts(texts: Seq<Option<String>>) -> Seq<Option<Seq<char>>> {
    texts.map_values(|t: Option<String>| option_text(t))
}

/// The score of the group at place `g`, counted from zero: the one handed
/// over for that place, or zero where the list of scores ends before it.
pub open spec fn score_at(scores: Seq<serde_json::Value>, g: int) -> JsonModel {
    if 0 <= g < scores.len() {
        json_model(scores[g])
    } else {
        zero_score()
    }
}

/// A record after one field with its name, its text, and what the text was
/// read as. Under the name `$` stands the whole document: where it is a JSON
/// object its members are laid over the record, otherwise it is passed over.
/// Any other name is set to the value that the text writes, or to the text
/// itself where it writes none.
pub open spec fn with_field(
    record: Map<Seq<char>, JsonModel>,
    name: Seq<char>,
    text: Seq<char>,
    parsed: Result<JsonModel, Seq<char>>,
) -> Map<Seq<char>, JsonModel> {
    if name == "$"@ {
        match parsed {
            Ok(JsonModel::Object(m)) => record.union_prefer_right(m),
            _ => record,
        }
    } else {
        record.insert(
            name,
            match parsed {
                Ok(value) => value,
                Err(_) => JsonModel::Text(text),
            },
        )
    }
}

/// A record after one name and value of the field list: the field of their
/// texts. A pair that is not two byte strings is passed over.
pub open spec fn with_pair(record: Map<Seq<char>, JsonModel>, name: Reply, value: Reply) -> Map<
    Seq<char>,
    JsonModel,
> {
    match (name, value) {
        (Reply::Data(k), Reply::Data(v)) => with_field(
            record,
            utf8_lossy(k@),
            utf8_lossy(v@),
            json_parse(utf8_lossy(v@)),
        ),
        _ => record,
    }
}

/// A record after the first `pairs` pairs of the field list, taken in
/// their order. An item left over at the end of the list belongs to no pair.
pub open spec fn with_pairs(record: Map<Seq<char>, JsonModel>, fields: Seq<Reply>, pairs: nat) -> Map<
    Seq<char>,
    JsonModel,
>
    decreases pairs,
{
    if pairs == 0 {
        record
    } else {
        with_pair(
            with_pairs(record, fields, (pairs - 1) as nat),
            fields[2 * (pairs - 1)],
            fields[2 * (pairs - 1) + 1],
        )
    }
}

/// The record of a group with its score: seeded with `_key` and `_score`,
/// then filled from the field list. A group whose key is no byte string, or
/// whose third item is no list, gives no record.
pub open spec fn group_model(key: Reply, score: JsonModel, fields: Reply) -> Option<JsonModel> {
    match (key, fields) {
        (Reply::Data(k), Reply::Bulk(list)) => Some(
            JsonModel::Object(
                with_pairs(
                    Map::<Seq<char>, JsonModel>::empty().insert("_key"@, JsonModel::Text(utf8_lossy(k@))).insert(
                        "_score"@,
                        score,
                    ),
                    list@,
                    list@.len() / 2,
                ),
            ),
        ),
        _ => None,
    }
}

/// The records of the first `groups` groups with their scores, in the
/// order of the reply.
pub open spec fn records_of(reply: Seq<Reply>, scores: Seq<serde_json::Value>, groups: nat) -> Seq<JsonModel>
    decreases groups,
{
    if groups == 0 {
        Seq::<JsonModel>::empty()
    } else {
        let before = records_of(reply, scores, (groups - 1) as nat);
        match group_model(reply[3 * groups - 2], score_at(scores, groups - 1), reply[3 * groups as int]) {
            Some(record) => before.push(record),
            None => before,
        }
    }
}

/// The JSON form of a search result: the total and the records.
pub open spec fn result_model(total: u64, records: Seq<JsonModel>) -> JsonModel {
    JsonModel::Object(
        Map::<Seq<char>, JsonModel>::empty().insert("total"@, JsonModel::Number(decimal(total as nat))).insert(
            "results"@,
            JsonModel::Array(records),
        ),
    )
}

/// Puts one field into a record, from its name, its text, and what the text
/// was read as.
pub fn set_field(record: &mut ObjectBuilder, name: &str, text: &str, parsed: Result<serde_json::Value, String>)
    ensures
        final(record).model() == with_field(old(record).model(), name@, text@, parsed_model(parsed)),
{
    if same_text(name, "$") {
        match parsed {
            Ok(document) => match members_of(&document) {
                Some(list) => {
                    record.merge(&list);
                },
                None => {},
            },
            Err(_) => {},
        }
    } else {
        let value = match parsed {
            Ok(value) => value,
            Err(_) => string(text),
        };
        record.set(name, value);
    }
}

fn apply_pair(record: &mut ObjectBuilder, name: &Reply, value: &Reply)
    ensures
        final(record).model() == with_pair(old(record).model(), *name, *value),
{
    match name {
        Reply::Data(k) => match value {
            Reply::Data(v) => {
                let key = lossy_text(k);
                let text = lossy_text(v);
                let parsed = parse(text.as_str());
                set_field(record, key.as_str(), text.as_str(), parsed);
            },
            _ => {},
        },
        _ => {},
    }
}

fn decode_group(key: &Reply, score: serde_json::Value, fields: &Reply) -> (r: Option<serde_json::Value>)
    ensures
        match group_model(*key, json_model(score), *fields) {
            Some(m) => r is Some && json_model(r.unwrap()) == m,
            None => r is None,
        },
{
    match key {
        Reply::Data(k) => match fields {
            Reply::Bulk(list) => {
                let mut record = ObjectBuilder::new();
                record.set("_key", string(lossy_text(k).as_str()));
                record.set("_score", score);
                let ghost seed = record.model();
                let pairs: usize = list.len() / 2;
                let mut p: usize = 0;
                while p < pairs
                    invariant
                        p <= pairs,
                        pairs == list@.len() / 2,
                        list@.len() <= usize::MAX,
                        record.model() == with_pairs(seed, list@, p as nat),
                    decreases pairs - p,
                {
                    apply_pair(&mut record, &list[2 * p], &list[2 * p + 1]);
                    p = p + 1;
                }
                Some(record.finish())
            },
            _ => None,
        },
        _ => None,
    }
}

/// The texts of the scores of a reply, one for each whole group of three
/// behind its first item, in the order of the groups: the text of a score
/// that is a byte string, nothing for any other item.
pub fn score_texts(reply: &Vec<Reply>) -> (texts: Vec<Option<String>>)
    ensures
        option_texts(texts@) == score_texts_of(reply@),
{
    let mut texts: Vec<Option<String>> = Vec::new();
    let groups: usize = if reply.len() == 0 {
        0
    } else {
        (reply.len() - 1) / 3
    };
    let mut g: usize = 0;
    while g < groups
        invariant
            g <= groups,
            groups == full_groups(reply@.len()),
            reply@.len() <= usize::MAX,
            texts@.len() == g,
            forall|k: int| 0 <= k < g ==> option_text(#[trigger] texts@[k]) == score_text_of(reply@[3 * k + 2]),
        decreases groups - g,
    {
        let text = match &reply[3 * g + 2] {
            Reply::Data(bytes) => Some(lossy_text(bytes)),
            _ => None,
        };
        texts.push(text);
        g = g + 1;
    }
    proof {
        assert(option_texts(texts@) =~= score_texts_of(reply@));
    }
    texts
}

/// Decodes a reply with the scores of its groups: the total it announces,
/// and one record for each whole group of three behind it that has the
/// shape of a document, in the order of the reply. The record of the group
/// at a place carries the score handed over for that place, and zero where
/// the list of scores ends before it.
pub fn decode(reply: &Vec<Reply>, scores: &Vec<serde_json::Value>) -> (result: SearchResult)
    ensures
        result.total == total_of(reply@),
        models(result.records@) == records_of(reply@, scores@, full_groups(reply@.len())),
{
    let total: u64 = if reply.len() == 0 {
        0
    } else {
        match &reply[0] {
            Reply::Int(n) => if *n >= 0 {
                *n as u64
            } else {
                0
            },
            _ => 0,
        }
    };
    let mut records: Vec<serde_json::Value> = Vec::new();
    let groups: usize = if reply.len() == 0 {
        0
    } else {
        (reply.len() - 1) / 3
    };
    let mut g: usize = 0;
    proof {
        assert(models(records@) =~= Seq::<JsonModel>::empty());
    }
    while g < groups
        invariant
            g <= groups,
            groups == full_groups(reply@.len()),
            reply@.len() <= usize::MAX,
            models(records@) == records_of(reply@, scores@, g as nat),
        decreases groups - g,
    {
        let at: usize = 3 * g + 1;
        let score = if g < scores.len() {
            copy(&scores[g])
        } else {
            integer(0)
        };
        match decode_group(&reply[at], score, &reply[at + 2]) {
            Some(record) => {
                proof {
                    models_push(records@, record);
                }
                records.push(record);
            },
            None => {},
        }
        g = g + 1;
    }
    SearchResult { total, records }
}

impl SearchResult {
    /// The JSON form of the result: the total under `total`, the records
    /// under `results`.
    pub fn to_json(self) -> (r: serde_json::Value)
        ensures
            json_model(r) == result_model(self.total, models(self.records@)),
    {
        let mut b = ObjectBuilder::new();
        b.set("total", unsigned(self.total));
        b.set("results", array(self.records));
        b.finish()
    }
}

} // verus!
