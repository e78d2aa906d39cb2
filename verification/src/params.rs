//! The parameters of a call, and how they are written as JSON.
//!
//! An operation hands its parameters over as a list of [`Param`] values. A
//! parameter that an operation leaves out has no element in the list: the
//! list never holds a null.

use vstd::prelude::*;
use crate::call::TellStatusField;
use crate::json::{json_quote, quote};
use crate::options::{Aria2Options, Aria2OptionsView};
use crate::text::{
    append_part, collected, decimal, decimal_text, joined, lemma_collected_fails_early,
    lemma_collected_next,
};

verus! {

/// One parameter of a call.
#[derive(Debug)]
pub enum Param {
    /// A string: a GID, or the secret token.
    Text(String),
    /// A number: an offset, a count, a position.
    Number(i32),
    /// A list of strings: the URIs of a download.
    TextList(Vec<String>),
    /// The keys that a status query asks for.
    Fields(Vec<TellStatusField>),
    /// The options of a download.
    Options(Aria2Options),
}

/// One parameter of a call as mathematics.
pub enum ParamView {
    Text(Seq<char>),
    Number(int),
    TextList(Seq<Seq<char>>),
    Fields(Seq<TellStatusField>),
    Options(Aria2OptionsView),
}

/// The characters of each string of a list.
pub open spec fn texts(list: Seq<String>) -> Seq<Seq<char>> {
    Seq::new(list.len(), |i: int| list[i]@)
}

impl View for Param {
    type V = ParamView;

    open spec fn view(&self) -> ParamView {
        match *self {
            Param::Text(s) => ParamView::Text(s@),
            Param::Number(n) => ParamView::Number(n as int),
            Param::TextList(list) => ParamView::TextList(texts(list@)),
            Param::Fields(fields) => ParamView::Fields(fields@),
            Param::Options(options) => ParamView::Options(options@),
        }
    }
}

/// The view of each parameter of a list.
pub open spec fn views(params: Seq<Param>) -> Seq<ParamView> {
    Seq::new(params.len(), |i: int| params[i]@)
}

/// A JSON array of the given elements.
pub open spec fn array_json(parts: Seq<Seq<char>>) -> Seq<char> {
    "["@ + joined(parts) + "]"@
}

/// A JSON array of elements that may each fail to be written: the array, or
/// the message of the first failure.
pub open spec fn array_of(parts: Seq<Result<Seq<char>, Seq<char>>>) -> Result<
    Seq<char>,
    Seq<char>,
> {
    match collected(parts) {
        Ok(done) => Ok(array_json(done)),
        Err(e) => Err(e),
    }
}

/// A list of strings as a JSON array of strings.
pub open spec fn text_list_json(list: Seq<Seq<char>>) -> Result<Seq<char>, Seq<char>> {
    array_of(Seq::new(list.len(), |i: int| json_quote(list[i])))
}

/// A key as a JSON string: its wire name between quotes.
pub open spec fn field_json(field: TellStatusField) -> Seq<char> {
    "\""@ + field.name() + "\""@
}

/// A list of keys as a JSON array of their wire names.
pub open spec fn fields_json(fields: Seq<TellStatusField>) -> Seq<char> {
    array_json(Seq::new(fields.len(), |i: int| field_json(fields[i])))
}

impl ParamView {
    /// The parameter as JSON, or the message of the failure to write it.
    pub open spec fn json(self) -> Result<Seq<char>, Seq<char>> {
        match self {
            ParamView::Text(s) => json_quote(s),
            ParamView::Number(n) => Ok(decimal(n)),
            ParamView::TextList(list) => text_list_json(list),
            ParamView::Fields(fields) => Ok(fields_json(fields)),
            ParamView::Options(options) => options.json(),
        }
    }
}

/// A parameter list as a JSON array, or the message of the first parameter
/// that could not be written.
pub open spec fn params_json(params: Seq<ParamView>) -> Result<Seq<char>, Seq<char>> {
    array_of(Seq::new(params.len(), |i: int| params[i].json()))
}

/// Whether a result of the executable code is the one that a spec function gives.
pub open spec fn agrees(r: Result<String, String>, expected: Result<Seq<char>, Seq<char>>) -> bool {
    match r {
        Ok(t) => expected == Ok::<Seq<char>, Seq<char>>(t@),
        Err(e) => expected == Err::<Seq<char>, Seq<char>>(e@),
    }
}

/// Writes a list of strings as a JSON array.
pub fn encode_text_list(list: &Vec<String>) -> (r: Result<String, String>)
    ensures
        agrees(r, text_list_json(texts(list@))),
{
    let ghost all = Seq::new(list.len() as nat, |i: int| json_quote(texts(list@)[i]));
    let ghost mut parts = Seq::<Seq<char>>::empty();
    let mut out = String::new();
    out.append("[");
    assert(out@ =~= "["@ + joined(parts));
    assert(all.take(0) =~= Seq::empty());
    let mut i: usize = 0;
    while i < list.len()
        invariant
            i <= list.len(),
            all == Seq::new(list.len() as nat, |i: int| json_quote(texts(list@)[i])),
            parts.len() == i,
            collected(all.take(i as int)) == Ok::<Seq<Seq<char>>, Seq<char>>(parts),
            out@ == "["@ + joined(parts),
        decreases list.len() - i,
    {
        proof {
            lemma_collected_next(all, i as int);
        }
        match quote(list[i].as_str()) {
            Ok(q) => {
                append_part(&mut out, i, q.as_str(), Ghost("["@), Ghost(parts));
                proof {
                    parts = parts.push(q@);
                }
            },
            Err(e) => {
                proof {
                    lemma_collected_fails_early(all, i + 1);
                }
                return Err(e);
            },
        }
        i += 1;
    }
    out.append("]");
    proof {
        assert(all.take(i as int) =~= all);
        assert(out@ =~= array_json(parts));
    }
    Ok(out)
}

/// Writes a list of keys as a JSON array of their wire names.
pub fn encode_fields(fields: &Vec<TellStatusField>) -> (r: String)
    ensures
        r@ == fields_json(fields@),
{
    let ghost all = Seq::new(fields.len() as nat, |i: int| field_json(fields@[i]));
    let ghost mut parts = Seq::<Seq<char>>::empty();
    let mut out = String::new();
    out.append("[");
    assert(out@ =~= "["@ + joined(parts));
    let mut i: usize = 0;
    while i < fields.len()
        invariant
            i <= fields.len(),
            all == Seq::new(fields.len() as nat, |i: int| field_json(fields@[i])),
            parts == all.take(i as int),
            out@ == "["@ + joined(parts),
        decreases fields.len() - i,
    {
        let mut part = String::new();
        part.append("\"");
        part.append(fields[i].as_str());
        part.append("\"");
        assert(part@ =~= field_json(fields@[i as int]));
        append_part(&mut out, i, part.as_str(), Ghost("["@), Ghost(parts));
        proof {
            assert(all.take(i + 1) =~= parts.push(part@));
            parts = parts.push(part@);
        }
        i += 1;
    }
    out.append("]");
    proof {
        assert(all.take(i as int) =~= all);
        assert(out@ =~= array_json(parts));
    }
    out
}

impl Param {
    /// Writes the parameter as JSON.
    pub fn to_json(&self) -> (r: Result<String, String>)
        ensures
            agrees(r, self@.json()),
    {
        match self {
            Param::Text(s) => quote(s.as_str()),
            Param::Number(n) => Ok(decimal_text(*n as i64)),
            Param::TextList(list) => encode_text_list(list),
            Param::Fields(fields) => Ok(encode_fields(fields)),
            Param::Options(options) => options.to_json(),
        }
    }
}

/// Writes a parameter list as a JSON array.
pub fn encode_params(params: &Vec<Param>) -> (r: Result<String, String>)
    ensures
        agrees(r, params_json(views(params@))),
{
    let ghost all = Seq::new(params.len() as nat, |i: int| views(params@)[i].json());
    let ghost mut parts = Seq::<Seq<char>>::empty();
    let mut out = String::new();
    out.append("[");
    assert(out@ =~= "["@ + joined(parts));
    assert(all.take(0) =~= Seq::empty());
    let mut i: usize = 0;
    while i < params.len()
        invariant
            i <= params.len(),
            all == Seq::new(params.len() as nat, |i: int| views(params@)[i].json()),
            parts.len() == i,
            collected(all.take(i as int)) == Ok::<Seq<Seq<char>>, Seq<char>>(parts),
            out@ == "["@ + joined(parts),
        decreases params.len() - i,
    {
        proof {
            lemma_collected_next(all, i as int);
        }
        match params[i].to_json() {
            Ok(q) => {
                append_part(&mut out, i, q.as_str(), Ghost("["@), Ghost(parts));
                proof {
                    parts = parts.push(q@);
                }
            },
            Err(e) => {
                proof {
                    lemma_collected_fails_early(all, i + 1);
                }
                return Err(e);
            },
        }
        i += 1;
    }
    out.append("]");
    proof {
        assert(all.take(i as int) =~= all);
        assert(out@ =~= array_json(parts));
    }
    Ok(out)
}

} // verus!
