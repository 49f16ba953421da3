use vstd::prelude::*;

verus! {

use crate::errors::ConfigError;
use crate::pairs::PairModel;
use crate::parse::{parse_record, pairs_model, p_record, RecordModel};

/// Relies on `String: FromIterator<char>`: collecting characters yields
/// the string of exactly those characters, in order.
#[verifier::external_body]
fn chars_to_string(v: Vec<char>) -> (s: String)
    ensures
        s@ == v@,
{
    v.into_iter().collect()
}

/// Turn parsed character pairs into string pairs, preserving contents.
fn pairs_to_strings(v: Vec<(Vec<char>, Vec<char>)>) -> (r: Vec<(String, String)>)
    ensures
        r.deep_view() == pairs_model(v@),
{
    let ghost target = pairs_model(v@);
    let mut v = v;
    let mut r: Vec<(String, String)> = Vec::new();
    assert(r.deep_view() + pairs_model(v@) =~= target);
    while v.len() > 0
        invariant
            r.deep_view() + pairs_model(v@) == target,
        decreases v@.len(),
    {
        let ghost v0 = v@;
        let ghost r0 = r.deep_view();
        let p = v.remove(0);
        let ks = chars_to_string(p.0);
        let vs = chars_to_string(p.1);
        r.push((ks, vs));
        assert(r.deep_view() =~= r0 + seq![(p.0@, p.1@)]);
        assert(pairs_model(v0) =~= seq![(p.0@, p.1@)] + pairs_model(v@)) by {
            assert(v@ == v0.subrange(1, v0.len() as int));
            assert(forall|m: int|
                1 <= m < v0.len() ==> v0[m] == v0.subrange(1, v0.len() as int)[m - 1]);
        }
        assert(r.deep_view() + pairs_model(v@) =~= target);
    }
    assert(pairs_model(v@) =~= Seq::<PairModel>::empty());
    assert(r.deep_view() =~= r.deep_view() + pairs_model(v@));
    r
}

/// Takes the three parts of one stage descriptor, in descriptor order.
/// The three predicates say what each step of consumption did to the
/// consumer; `ModuleInfo::into_consumer` chains them.
pub trait ModuleInfoConsumer: Sized {
    /// What taking the program path does to the consumer.
    spec fn path_taken(pre: Self, post: Self, m: Seq<char>) -> bool;

    /// What taking the environment entries does to the consumer.
    spec fn env_taken(pre: Self, post: Self, e: Seq<PairModel>) -> bool;

    /// What taking the directory mappings does to the consumer.
    spec fn map_taken(pre: Self, post: Self, m: Seq<PairModel>) -> bool;

    fn consume_module_path(&mut self, m: String)
        ensures
            Self::path_taken(*old(self), *final(self), m@),
    ;

    fn consume_env(&mut self, e: Vec<(String, String)>)
        ensures
            Self::env_taken(*old(self), *final(self), e.deep_view()),
    ;

    fn consume_map(&mut self, m: Vec<(String, String)>)
        ensures
            Self::map_taken(*old(self), *final(self), m.deep_view()),
    ;
}

/// One stage descriptor: the program path, the environment entries and
/// the directory mappings, exactly as its record states them.
#[derive(Debug)]
pub struct ModuleInfo {
    /// Path of the stage's compiled program.
    pub program_path: String,
    /// Environment entries `(key, val)`, in descriptor order.
    pub env: Vec<(String, String)>,
    /// Directory mappings `(host, guest)`, in descriptor order.
    pub map: Vec<(String, String)>,
}

impl ModuleInfo {
    /// The record this descriptor denotes.
    pub open spec fn model(&self) -> RecordModel {
        RecordModel {
            path: self.program_path@,
            env: self.env.deep_view(),
            map: self.map.deep_view(),
        }
    }

    /// Hand the descriptor's three parts to `c`, in descriptor order:
    /// program path first, then environment entries, then mappings.
    pub fn into_consumer<C: ModuleInfoConsumer>(self, c: &mut C)
        ensures
            exists|c1: C, c2: C|
                #![trigger C::env_taken(c1, c2, self.model().env)]
                C::path_taken(*old(c), c1, self.model().path) && C::env_taken(
                    c1,
                    c2,
                    self.model().env,
                ) && C::map_taken(c2, *final(c), self.model().map),
    {
        let ghost me = self.model();
        let ModuleInfo { program_path, env, map } = self;
        c.consume_module_path(program_path);
        let ghost c1 = *c;
        c.consume_env(env);
        let ghost c2 = *c;
        c.consume_map(map);
        proof {
            assert(C::path_taken(*old(c), c1, me.path) && C::env_taken(c1, c2, me.env)
                && C::map_taken(c2, *c, me.map));
        }
    }
}

/// Parse one descriptor record; the error is a human-readable cause.
pub(crate) fn parse_module_info(line: &str) -> (r: Result<ModuleInfo, String>)
    ensures
        match r {
            Ok(m) => parse_record(line@) == Some(m.model()),
            Err(_) => parse_record(line@) is None,
        },
{
    match p_record(line) {
        None => Err("invalid module info: malformed stage descriptor record".to_owned()),
        Some((p, env, map)) => {
            let program_path = chars_to_string(p);
            let env_s = pairs_to_strings(env);
            let map_s = pairs_to_strings(map);
            let m = ModuleInfo { program_path, env: env_s, map: map_s };
            Ok(m)
        },
    }
}

/// Yields stage descriptors one at a time.
pub trait ModuleInfoSource {
    fn get(&mut self) -> Result<ModuleInfo, String>;
}

/// A descriptor source reading one record held as text.
pub struct JsonInfoSource {
    /// The text of one descriptor record.
    pub json: String,
}

impl From<String> for JsonInfoSource {
    fn from(json: String) -> (r: Self) {
        Self { json }
    }
}

impl vstd::std_specs::convert::FromSpecImpl<String> for JsonInfoSource {
    open spec fn obeys_from_spec() -> bool {
        true
    }

    open spec fn from_spec(json: String) -> Self {
        JsonInfoSource { json }
    }
}

impl ModuleInfoSource for JsonInfoSource {
    fn get(&mut self) -> (r: Result<ModuleInfo, String>)
        ensures
            *final(self) == *old(self),
            match r {
                Ok(mi) => parse_record(old(self).json@) == Some(mi.model()),
                Err(_) => parse_record(old(self).json@) is None,
            },
    {
        parse_module_info(self.json.as_str())
    }
}

/// Parse an ordered sequence of stage descriptors, one record per line.
/// Stops at the first invalid line: the error names that line's 1-based
/// number, every line before it parses, and no descriptor of a partly
/// parsed sequence is returned.
pub fn new_json_module_info_iter(lines: &Vec<String>) -> (r: Result<Vec<ModuleInfo>, ConfigError>)
    ensures
        match r {
            Ok(v) => v@.len() == lines@.len() && forall|i: int|
                0 <= i < lines@.len() ==> parse_record(lines.deep_view()[i]) == Some(
                    (#[trigger] v@[i]).model(),
                ),
            Err(e) => match e {
                ConfigError::Malformed(nline, _) => {
                    &&& 1 <= nline <= lines@.len()
                    &&& parse_record(lines.deep_view()[nline - 1]) is None
                    &&& forall|j: int|
                        0 <= j < nline - 1 ==> (#[trigger] parse_record(
                            lines.deep_view()[j],
                        )) is Some
                },
            },
        },
{
    let mut out: Vec<ModuleInfo> = Vec::new();
    let mut i: usize = 0;
    while i < lines.len()
        invariant
            i <= lines@.len(),
            out@.len() == i,
            lines.deep_view().len() == lines@.len(),
            forall|j: int|
                0 <= j < i ==> parse_record(lines.deep_view()[j]) == Some(
                    (#[trigger] out@[j]).model(),
                ),
        decreases lines@.len() - i,
    {
        assert(lines.deep_view()[i as int] == lines@[i as int]@);
        match parse_module_info(lines[i].as_str()) {
            Ok(m) => {
                out.push(m);
            },
            Err(msg) => {
                assert forall|j: int| 0 <= j < i implies (#[trigger] parse_record(
                    lines.deep_view()[j],
                )) is Some by {
                    assert(parse_record(lines.deep_view()[j]) == Some(out@[j].model()));
                }
                return Err(ConfigError::Malformed(i + 1, msg));
            },
        }
        i += 1;
    }
    Ok(out)
}

} // verus!
