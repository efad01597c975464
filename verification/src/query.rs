//! Query strings: a record of optional parameters becomes the part of a URL after `?`.

use crate::encoding::{encode_pairs, form_pairs, pair_texts};
use crate::error::Error;
use crate::text::{decimal, decimal_text, labelled_cause, shown};
use serde_urlencoded::ser::Error as EncodeError;
use vstd::prelude::*;
use vstd::string::StringExecFns;

verus! {

/// One parameter of a record: its key, and its value as text where it is present.
pub struct QueryField {
    pub key: &'static str,
    pub value: Option<String>,
}

impl View for QueryField {
    type V = (Seq<char>, Option<Seq<char>>);

    open spec fn view(&self) -> (Seq<char>, Option<Seq<char>>) {
        (
            self.key@,
            match self.value {
                Some(text) => Some(text@),
                None => None,
            },
        )
    }
}

/// The text of an optional string.
pub open spec fn optional_string(value: Option<String>) -> Option<Seq<char>> {
    match value {
        Some(text) => Some(text@),
        None => None,
    }
}

/// The decimal numeral of an optional number.
pub open spec fn optional_number(value: Option<u32>) -> Option<Seq<char>> {
    match value {
        Some(n) => Some(decimal(n as nat)),
        None => None,
    }
}

/// A parameter that is text: present with that text where the record holds one.
pub fn text_field(key: &'static str, value: &Option<String>) -> (field: QueryField)
    ensures
        field@ == (key@, optional_string(*value)),
{
    let value = match value {
        Some(text) => Some(text.clone()),
        None => None,
    };
    QueryField { key, value }
}

/// A parameter that is a number: present as its decimal numeral where the record
/// holds one.
pub fn number_field(key: &'static str, value: Option<u32>) -> (field: QueryField)
    ensures
        field@ == (key@, optional_number(value)),
{
    let value = match value {
        Some(n) => Some(decimal_text(n as u64)),
        None => None,
    };
    QueryField { key, value }
}

/// The parameters of a record, each as its key and its text where it is present.
pub open spec fn field_texts(fields: Seq<QueryField>) -> Seq<(Seq<char>, Option<Seq<char>>)> {
    Seq::new(fields.len(), |i: int| fields[i]@)
}

/// A parameter as a pair, if it is present.
pub open spec fn present_field(field: (Seq<char>, Option<Seq<char>>)) -> Option<
    (Seq<char>, Seq<char>),
> {
    match field.1 {
        Some(value) => Some((field.0, value)),
        None => None,
    }
}

/// The parameters that are present, in the order of the record.
pub open spec fn present(fields: Seq<(Seq<char>, Option<Seq<char>>)>) -> Seq<
    (Seq<char>, Seq<char>),
> {
    fields.filter_map(|field: (Seq<char>, Option<Seq<char>>)| present_field(field))
}

/// A path with the parameters of a record: the path as it is where none is present,
/// else the path, `?`, and the present parameters as a form.
pub open spec fn query_path(path: Seq<char>, fields: Seq<(Seq<char>, Option<Seq<char>>)>) -> Seq<
    char,
> {
    if present(fields).len() == 0 {
        path
    } else {
        path + seq!['?'] + form_pairs(present(fields))
    }
}

/// Adding one parameter adds its pair where it is present, and nothing where it is not.
pub proof fn lemma_present_push(
    fields: Seq<(Seq<char>, Option<Seq<char>>)>,
    field: (Seq<char>, Option<Seq<char>>),
)
    ensures
        present(fields.push(field)) == match field.1 {
            Some(value) => present(fields).push((field.0, value)),
            None => present(fields),
        },
{
    let longer = fields.push(field);
    assert(longer.drop_last() =~= fields);
    assert(longer.last() == field);
    let f = |field: (Seq<char>, Option<Seq<char>>)| present_field(field);
    assert(longer.filter_map(f) == match f(longer.last()) {
        Some(pair) => longer.drop_last().filter_map(f) + seq![pair],
        None => longer.drop_last().filter_map(f),
    });
    match field.1 {
        Some(value) => {
            assert(present(fields) + seq![(field.0, value)] =~= present(fields).push(
                (field.0, value),
            ));
        },
        None => {},
    }
}

/// The pairs of a query are exactly the parameters that are present: each present
/// parameter is among them with its value, each of them is a present parameter, and
/// there is one pair for each.
pub proof fn lemma_present_exact(fields: Seq<(Seq<char>, Option<Seq<char>>)>)
    ensures
        forall|i: int|
            0 <= i < fields.len() && (#[trigger] fields[i]).1 is Some ==> present(fields).contains(
                (fields[i].0, fields[i].1->0),
            ),
        forall|j: int|
            0 <= j < present(fields).len() ==> fields.contains(
                ((#[trigger] present(fields)[j]).0, Some(present(fields)[j].1)),
            ),
        present(fields).len() <= fields.len(),
    decreases fields.len(),
{
    if fields.len() > 0 {
        let shorter = fields.drop_last();
        let last = fields.last();
        lemma_present_exact(shorter);
        assert(fields =~= shorter.push(last));
        lemma_present_push(shorter, last);
        let pairs = present(fields);
        let fewer = present(shorter);
        assert forall|i: int| 0 <= i < fields.len() && (#[trigger] fields[i]).1 is Some implies pairs.contains(
            (fields[i].0, fields[i].1->0),
        ) by {
            if i < shorter.len() {
                assert(shorter[i] == fields[i]);
                let pair = (fields[i].0, fields[i].1->0);
                assert(fewer.contains(pair));
                let k = choose|k: int| 0 <= k < fewer.len() && fewer[k] == pair;
                assert(pairs[k] == pair);
            } else {
                assert(pairs[pairs.len() - 1] == (last.0, last.1->0));
            }
        }
        assert forall|j: int| 0 <= j < pairs.len() implies fields.contains(
            ((#[trigger] pairs[j]).0, Some(pairs[j].1)),
        ) by {
            if j < fewer.len() {
                assert(pairs[j] == fewer[j]);
                let field = (fewer[j].0, Some(fewer[j].1));
                assert(shorter.contains(field));
                let k = choose|k: int| 0 <= k < shorter.len() && shorter[k] == field;
                assert(fields[k] == field);
            } else {
                assert(fields[fields.len() - 1] == last);
            }
        }
    } else {
        assert(present(fields) =~= Seq::empty());
    }
}

/// A record has no pair exactly when none of its parameters is present.
pub proof fn lemma_present_empty(fields: Seq<(Seq<char>, Option<Seq<char>>)>)
    ensures
        present(fields).len() == 0 <==> (forall|i: int|
            0 <= i < fields.len() ==> (#[trigger] fields[i]).1 is None),
{
    lemma_present_exact(fields);
    if present(fields).len() == 0 {
        assert forall|i: int| 0 <= i < fields.len() implies (#[trigger] fields[i]).1 is None by {
            if fields[i].1 is Some {
                assert(present(fields).contains((fields[i].0, fields[i].1->0)));
            }
        }
    } else {
        let pair = present(fields)[0];
        assert(fields.contains((pair.0, Some(pair.1))));
    }
}

/// A record in which no parameter is present leaves a path as it is.
pub proof fn lemma_absent_fields_keep_path(
    path: Seq<char>,
    fields: Seq<(Seq<char>, Option<Seq<char>>)>,
)
    requires
        forall|i: int| 0 <= i < fields.len() ==> (#[trigger] fields[i]).1 is None,
    ensures
        query_path(path, fields) == path,
{
    lemma_present_empty(fields);
}

/// A record in which a parameter is present gives the path, `?`, and the form of
/// exactly the parameters that are present.
pub proof fn lemma_present_fields_make_query(
    path: Seq<char>,
    fields: Seq<(Seq<char>, Option<Seq<char>>)>,
    i: int,
)
    requires
        0 <= i < fields.len(),
        fields[i].1 is Some,
    ensures
        query_path(path, fields) == path + seq!['?'] + form_pairs(present(fields)),
        present(fields).contains((fields[i].0, fields[i].1->0)),
{
    lemma_present_exact(fields);
    lemma_present_empty(fields);
}

/// Collects the parameters that are present, in the order of the record.
pub fn present_pairs(fields: &Vec<QueryField>) -> (pairs: Vec<(String, String)>)
    ensures
        pair_texts(pairs@) == present(field_texts(fields@)),
{
    let mut pairs: Vec<(String, String)> = Vec::new();
    let mut i: usize = 0;
    assert(field_texts(fields@).take(0) =~= Seq::empty());
    assert(pair_texts(pairs@) =~= Seq::empty());
    assert(present(Seq::empty()) =~= Seq::empty());
    while i < fields.len()
        invariant
            i <= fields.len(),
            pair_texts(pairs@) == present(field_texts(fields@).take(i as int)),
        decreases fields.len() - i,
    {
        let ghost before = pair_texts(pairs@);
        let ghost seen = field_texts(fields@).take(i as int);
        proof {
            assert(field_texts(fields@).take(i + 1) =~= seen.push(fields[i as int]@));
            lemma_present_push(seen, fields[i as int]@);
        }
        let field = &fields[i];
        match &field.value {
            Some(value) => {
                pairs.push((field.key.to_owned(), value.clone()));
                assert(pair_texts(pairs@) =~= before.push((field.key@, value@)));
            },
            None => {},
        }
        i = i + 1;
    }
    assert(field_texts(fields@).take(i as int) =~= field_texts(fields@));
    pairs
}

/// Joins a path and what the encoder made of the parameters: the query goes after `?`;
/// an encoder's failure becomes an API error that holds the encoder's message.
pub fn append_query(path: &str, encoded: Result<String, EncodeError>) -> (r: Result<String, Error>)
    ensures
        match encoded {
            Ok(query) => r matches Ok(full) && full@ == path@ + seq!['?'] + query@,
            Err(cause) => r matches Err(Error::ApiError(message)) && exists|shows: Seq<char>| #[trigger]
                shown(cause, shows) && message@ == "Failed to encode query: "@ + shows,
        },
{
    match encoded {
        Ok(query) => {
            let mut full = path.to_owned();
            proof {
                reveal_strlit("?");
            }
            full.append("?");
            full.append(query.as_str());
            assert(full@ =~= path@ + seq!['?'] + query@);
            Ok(full)
        },
        Err(e) => {
            Err(Error::ApiError(labelled_cause("Failed to encode query: ", &e)))
        },
    }
}

/// Appends the parameters of a record to a path. Where no parameter is present the
/// path stays as it is. This does not fail: what is handed to the encoder is pairs of
/// strings.
pub fn with_query(path: &str, fields: &Vec<QueryField>) -> (r: Result<String, Error>)
    ensures
        r matches Ok(full) && full@ == query_path(path@, field_texts(fields@)),
{
    let pairs = present_pairs(fields);
    if pairs.len() == 0 {
        Ok(path.to_owned())
    } else {
        append_query(path, encode_pairs(&pairs))
    }
}

} // verus!
