//! Options that the daemon takes with a new download.

use vstd::prelude::*;
use crate::json::{json_quote, quote};
use crate::text::{append_part, collected, joined, lemma_collected_fails_early, lemma_collected_next};

verus! {

/// Options of a download. An option that is not set is not sent.
#[derive(Debug, Clone, PartialEq, Eq)]
pub struct Aria2Options {
    /// The directory to store the download in.
    pub dir: Option<String>,
    /// The file name of the download.
    pub out: Option<String>,
    /// The referrer of HTTP requests.
    pub referer: Option<String>,
    /// The user agent of HTTP requests.
    pub user_agent: Option<String>,
}

/// The options as mathematics.
pub struct Aria2OptionsView {
    pub dir: Option<Seq<char>>,
    pub out: Option<Seq<char>>,
    pub referer: Option<Seq<char>>,
    pub user_agent: Option<Seq<char>>,
}

/// The characters of an optional string.
pub open spec fn opt_view(s: Option<String>) -> Option<Seq<char>> {
    match s {
        Some(t) => Some(t@),
        None => None,
    }
}

impl View for Aria2Options {
    type V = Aria2OptionsView;

    open spec fn view(&self) -> Aria2OptionsView {
        Aria2OptionsView {
            dir: opt_view(self.dir),
            out: opt_view(self.out),
            referer: opt_view(self.referer),
            user_agent: opt_view(self.user_agent),
        }
    }
}

/// One member of the options object: the key, a colon and the value as a
/// JSON string. An option that is not set has no member.
pub open spec fn member_json(key: Seq<char>, value: Option<Seq<char>>) -> Seq<
    Result<Seq<char>, Seq<char>>,
> {
    match value {
        Some(v) => seq![
            match json_quote(v) {
                Ok(q) => Ok(key + q),
                Err(e) => Err(e),
            },
        ],
        None => Seq::empty(),
    }
}

impl Aria2OptionsView {
    /// The members of the options object, in wire order.
    pub open spec fn members(self) -> Seq<Result<Seq<char>, Seq<char>>> {
        member_json("\"dir\":"@, self.dir) + member_json("\"out\":"@, self.out) + member_json(
            "\"referer\":"@,
            self.referer,
        ) + member_json("\"user-agent\":"@, self.user_agent)
    }

    /// The options as a JSON object, or the message of the first value that
    /// could not be written.
    pub open spec fn json(self) -> Result<Seq<char>, Seq<char>> {
        match collected(self.members()) {
            Ok(parts) => Ok("{"@ + joined(parts) + "}"@),
            Err(e) => Err(e),
        }
    }

    /// How many options are set.
    pub open spec fn count(self) -> nat {
        self.members().len()
    }
}

impl Default for Aria2Options {
    /// No option set.
    fn default() -> (r: Self)
        ensures
            r@ == (Aria2OptionsView { dir: None, out: None, referer: None, user_agent: None }),
    {
        Aria2Options { dir: None, out: None, referer: None, user_agent: None }
    }
}

/// Writes one member, if its option is set.
fn append_member(
    out: &mut String,
    count: &mut usize,
    key: &str,
    value: &Option<String>,
    Ghost(before): Ghost<Seq<Result<Seq<char>, Seq<char>>>>,
    Ghost(parts): Ghost<Seq<Seq<char>>>,
) -> (r: Result<Ghost<Seq<Seq<char>>>, String>)
    requires
        *old(count) == parts.len(),
        parts.len() <= 4,
        collected(before) == Ok::<Seq<Seq<char>>, Seq<char>>(parts),
        old(out)@ == "{"@ + joined(parts),
    ensures
        match r {
            Ok(more) => {
                &&& collected(before + member_json(key@, opt_view(*value))) == Ok::<
                    Seq<Seq<char>>,
                    Seq<char>,
                >(more@)
                &&& final(out)@ == "{"@ + joined(more@)
                &&& *final(count) == more@.len()
                &&& more@.len() <= parts.len() + 1
            },
            Err(e) => collected(before + member_json(key@, opt_view(*value))) == Err::<
                Seq<Seq<char>>,
                Seq<char>,
            >(e@),
        },
{
    let ghost all = before + member_json(key@, opt_view(*value));
    match value {
        None => {
            assert(all =~= before);
            Ok(Ghost(parts))
        },
        Some(v) => {
            proof {
                assert(all.take(before.len() as int) =~= before);
                lemma_collected_next(all, before.len() as int);
                assert(all.take(before.len() as int + 1) =~= all);
            }
            match quote(v.as_str()) {
                Ok(q) => {
                    let mut part = String::new();
                    part.append(key);
                    part.append(q.as_str());
                    assert(part@ =~= key@ + q@);
                    append_part(out, *count, part.as_str(), Ghost("{"@), Ghost(parts));
                    *count = *count + 1;
                    Ok(Ghost(parts.push(part@)))
                },
                Err(e) => Err(e),
            }
        },
    }
}

/// A copy of an optional string.
fn copy_text(value: &Option<String>) -> (r: Option<String>)
    ensures
        opt_view(r) == opt_view(*value),
{
    match value {
        Some(s) => Some(s.clone()),
        None => None,
    }
}

impl Aria2Options {
    /// A copy of the options.
    pub fn copy(&self) -> (r: Self)
        ensures
            r@ == self@,
    {
        Aria2Options {
            dir: copy_text(&self.dir),
            out: copy_text(&self.out),
            referer: copy_text(&self.referer),
            user_agent: copy_text(&self.user_agent),
        }
    }

    /// The options as a JSON object: a member for each option that is set, in
    /// the order `dir`, `out`, `referer`, `user-agent`.
    pub fn to_json(&self) -> (r: Result<String, String>)
        ensures
            match r {
                Ok(t) => self@.json() == Ok::<Seq<char>, Seq<char>>(t@),
                Err(e) => self@.json() == Err::<Seq<char>, Seq<char>>(e@),
            },
    {
        let mut out = String::new();
        out.append("{");
        let mut count: usize = 0;
        let ghost none = Seq::<Result<Seq<char>, Seq<char>>>::empty();
        let ghost to_dir = none + member_json("\"dir\":"@, opt_view(self.dir));
        let ghost to_out = to_dir + member_json("\"out\":"@, opt_view(self.out));
        let ghost to_referer = to_out + member_json("\"referer\":"@, opt_view(self.referer));
        let ghost to_agent = to_referer + member_json("\"user-agent\":"@, opt_view(self.user_agent));
        proof {
            assert(out@ =~= "{"@ + joined(Seq::<Seq<char>>::empty()));
            assert(to_agent =~= self@.members());
            assert(to_dir =~= to_agent.take(to_dir.len() as int));
            assert(to_out =~= to_agent.take(to_out.len() as int));
            assert(to_referer =~= to_agent.take(to_referer.len() as int));
        }
        let with_dir = match append_member(
            &mut out,
            &mut count,
            "\"dir\":",
            &self.dir,
            Ghost(none),
            Ghost(Seq::empty()),
        ) {
            Ok(p) => p,
            Err(e) => {
                proof {
                    lemma_collected_fails_early(to_agent, to_dir.len() as int);
                }
                return Err(e);
            },
        };
        let with_out = match append_member(&mut out, &mut count, "\"out\":", &self.out, Ghost(to_dir), with_dir) {
            Ok(p) => p,
            Err(e) => {
                proof {
                    lemma_collected_fails_early(to_agent, to_out.len() as int);
                }
                return Err(e);
            },
        };
        let with_referer = match append_member(
            &mut out,
            &mut count,
            "\"referer\":",
            &self.referer,
            Ghost(to_out),
            with_out,
        ) {
            Ok(p) => p,
            Err(e) => {
                proof {
                    lemma_collected_fails_early(to_agent, to_referer.len() as int);
                }
                return Err(e);
            },
        };
        let with_agent = match append_member(
            &mut out,
            &mut count,
            "\"user-agent\":",
            &self.user_agent,
            Ghost(to_referer),
            with_referer,
        ) {
            Ok(p) => p,
            Err(e) => {
                return Err(e);
            },
        };
        out.append("}");
        assert(out@ =~= "{"@ + joined(with_agent@) + "}"@);
        Ok(out)
    }
}

} // verus!
