use vstd::prelude::*;
use vstd::string::StrSliceExecFns;

verus! {

use crate::pairs::PairModel;

// ---------------------------------------------------------------------------
// The grammar of one stage-descriptor record, as functions over the
// record's characters. One record is a single object
//
//   {"module_path": <string>, "env": [{"key": <string>, "val": <string>}, ...],
//    "map": [{"host": <string>, "guest": <string>}, ...]}
//
// with `module_path` required, `env` and `map` optional (defaulting to
// empty), members in any order, no member repeated, and nothing but
// whitespace around tokens. Strings take the usual two-character escapes
// (quote, backslash, slash, backspace, form feed, newline, return, tab).
//
// The grammar is deliberately stricter than a general JSON reader, so
// that a configuration mistake is reported rather than silently dropped:
// unicode (`u`) escapes and raw control characters in strings are
// rejected, a member name outside the three above is an error rather
// than ignored, and an `env` or `map` item must hold exactly its two
// named fields.
// ---------------------------------------------------------------------------

/// The meaning of one well-formed record.
pub ghost struct RecordModel {
    /// The program path of the stage.
    pub path: Seq<char>,
    /// The environment entries, in descriptor order.
    pub env: Seq<PairModel>,
    /// The directory mappings `(host, guest)`, in descriptor order.
    pub map: Seq<PairModel>,
}

/// Record whitespace: blank, tab, newline, carriage return.
pub open spec fn is_ws(c: char) -> bool {
    c == ' ' || c == '\t' || c == '\n' || c == '\r'
}

/// The first position at or after `i` that holds no whitespace.
pub open spec fn ws_end(s: Seq<char>, i: int) -> int
    decreases s.len() - i,
{
    if 0 <= i < s.len() && is_ws(s[i]) {
        ws_end(s, i + 1)
    } else {
        i
    }
}

/// What a two-character escape stands for, if it is one.
pub open spec fn escape_char(c: char) -> Option<char> {
    if c == '"' {
        Some('"')
    } else if c == '\\' {
        Some('\\')
    } else if c == '/' {
        Some('/')
    } else if c == 'b' {
        Some('\u{0008}')
    } else if c == 'f' {
        Some('\u{000C}')
    } else if c == 'n' {
        Some('\n')
    } else if c == 'r' {
        Some('\r')
    } else if c == 't' {
        Some('\t')
    } else {
        None
    }
}

/// The body of a string literal starting at `i` (just after the opening
/// quote): the characters it denotes and the position after the closing
/// quote.
pub open spec fn parse_str_body(s: Seq<char>, i: int) -> Option<(Seq<char>, int)>
    decreases s.len() - i,
{
    if i < 0 || i >= s.len() {
        None
    } else if s[i] == '"' {
        Some((Seq::empty(), i + 1))
    } else if s[i] == '\\' {
        if i + 1 >= s.len() {
            None
        } else {
            match escape_char(s[i + 1]) {
                None => None,
                Some(d) => match parse_str_body(s, i + 2) {
                    None => None,
                    Some((rest, j)) => Some((seq![d] + rest, j)),
                },
            }
        }
    } else if (s[i] as u32) < 32 {
        None
    } else {
        match parse_str_body(s, i + 1) {
            None => None,
            Some((rest, j)) => Some((seq![s[i]] + rest, j)),
        }
    }
}

/// A string literal at `i`: opening quote, body, closing quote.
pub open spec fn parse_string(s: Seq<char>, i: int) -> Option<(Seq<char>, int)> {
    if 0 <= i < s.len() && s[i] == '"' {
        parse_str_body(s, i + 1)
    } else {
        None
    }
}

// ---------------------------------------------------------------------------
// Executable counterparts, each returning exactly what the grammar says.
// ---------------------------------------------------------------------------

/// First non-whitespace position at or after `i`.
fn skip_ws(s: &str, i: usize) -> (j: usize)
    requires
        i <= s@.len(),
    ensures
        j == ws_end(s@, i as int),
        i <= j <= s@.len(),
    decreases s@.len() - i,
{
    let n = s.unicode_len();
    if i < n {
        let c = s.get_char(i);
        if c == ' ' || c == '\t' || c == '\n' || c == '\r' {
            return skip_ws(s, i + 1);
        }
    }
    i
}

/// What a two-character escape stands for, if it is one.
fn escape_char_exec(c: char) -> (r: Option<char>)
    ensures
        r == escape_char(c),
{
    if c == '"' {
        Some('"')
    } else if c == '\\' {
        Some('\\')
    } else if c == '/' {
        Some('/')
    } else if c == 'b' {
        Some('\u{0008}')
    } else if c == 'f' {
        Some('\u{000C}')
    } else if c == 'n' {
        Some('\n')
    } else if c == 'r' {
        Some('\r')
    } else if c == 't' {
        Some('\t')
    } else {
        None
    }
}

/// Parse a string-literal body starting at `i` (just after the opening
/// quote).
fn p_str_body(s: &str, i: usize) -> (r: Option<(Vec<char>, usize)>)
    requires
        i <= s@.len(),
    ensures
        match parse_str_body(s@, i as int) {
            Some(q) => r matches Some(p) && p.0@ == q.0 && p.1 == q.1,
            None => r is None,
        },
        r matches Some(p) ==> i < p.1 <= s@.len(),
    decreases s@.len() - i,
{
    let n = s.unicode_len();
    if i >= n {
        return None;
    }
    let c = s.get_char(i);
    if c == '"' {
        let v: Vec<char> = Vec::new();
        assert(v@ =~= Seq::<char>::empty());
        return Some((v, i + 1));
    }
    if c == '\\' {
        if i + 1 >= n {
            return None;
        }
        match escape_char_exec(s.get_char(i + 1)) {
            None => None,
            Some(d) => {
                match p_str_body(s, i + 2) {
                    None => None,
                    Some((mut v, j)) => {
                        v.insert(0, d);
                        assert(v@ =~= seq![d] + v@.subrange(1, v@.len() as int));
                        Some((v, j))
                    },
                }
            },
        }
    } else if (c as u32) < 32 {
        None
    } else {
        match p_str_body(s, i + 1) {
            None => None,
            Some((mut v, j)) => {
                v.insert(0, c);
                assert(v@ =~= seq![c] + v@.subrange(1, v@.len() as int));
                Some((v, j))
            },
        }
    }
}

/// Parse a string literal at `i`.
fn p_string(s: &str, i: usize) -> (r: Option<(Vec<char>, usize)>)
    requires
        i <= s@.len(),
    ensures
        match parse_string(s@, i as int) {
            Some(q) => r matches Some(p) && p.0@ == q.0 && p.1 == q.1,
            None => r is None,
        },
        r matches Some(p) ==> i < p.1 <= s@.len(),
{
    let n = s.unicode_len();
    if i < n && s.get_char(i) == '"' {
        p_str_body(s, i + 1)
    } else {
        None
    }
}

/// An object of exactly two string members named `k1` and `k2`, in
/// either order: the values for `k1` and `k2`, and the position after
/// the closing brace.
pub open spec fn parse_obj2(s: Seq<char>, i: int, k1: Seq<char>, k2: Seq<char>) -> Option<
    ((Seq<char>, Seq<char>), int),
> {
    if !(0 <= i < s.len() && s[i] == '{') {
        None
    } else {
        match parse_string(s, ws_end(s, i + 1)) {
            None => None,
            Some((n1, a1)) => {
                let c1 = ws_end(s, a1);
                if !(c1 < s.len() && s[c1] == ':') {
                    None
                } else {
                    match parse_string(s, ws_end(s, c1 + 1)) {
                        None => None,
                        Some((v1, a2)) => {
                            let c2 = ws_end(s, a2);
                            if !(c2 < s.len() && s[c2] == ',') {
                                None
                            } else {
                                match parse_string(s, ws_end(s, c2 + 1)) {
                                    None => None,
                                    Some((n2, a3)) => {
                                        let c3 = ws_end(s, a3);
                                        if !(c3 < s.len() && s[c3] == ':') {
                                            None
                                        } else {
                                            match parse_string(s, ws_end(s, c3 + 1)) {
                                                None => None,
                                                Some((v2, a4)) => {
                                                    let c4 = ws_end(s, a4);
                                                    if !(c4 < s.len() && s[c4] == '}') {
                                                        None
                                                    } else if n1 == k1 && n2 == k2 {
                                                        Some(((v1, v2), c4 + 1))
                                                    } else if n1 == k2 && n2 == k1 {
                                                        Some(((v2, v1), c4 + 1))
                                                    } else {
                                                        None
                                                    }
                                                },
                                            }
                                        }
                                    },
                                }
                            }
                        },
                    }
                }
            },
        }
    }
}

/// The items of a non-empty array of two-member objects, starting at the
/// first object: the `(k1 value, k2 value)` pairs in array order, and the
/// position after the closing bracket.
pub open spec fn parse_arr2_items(s: Seq<char>, i: int, k1: Seq<char>, k2: Seq<char>) -> Option<
    (Seq<PairModel>, int),
>
    decreases s.len() - i,
{
    match parse_obj2(s, i, k1, k2) {
        None => None,
        Some((p, j)) => {
            let c = ws_end(s, j);
            if c < s.len() && s[c] == ']' {
                Some((seq![p], c + 1))
            } else if c < s.len() && s[c] == ',' {
                let j2 = ws_end(s, c + 1);
                if j2 <= i || j2 > s.len() {
                    None
                } else {
                    match parse_arr2_items(s, j2, k1, k2) {
                        None => None,
                        Some((rest, end)) => Some((seq![p] + rest, end)),
                    }
                }
            } else {
                None
            }
        },
    }
}

/// An array of two-member objects at `i`, possibly empty.
pub open spec fn parse_arr2(s: Seq<char>, i: int, k1: Seq<char>, k2: Seq<char>) -> Option<
    (Seq<PairModel>, int),
> {
    if !(0 <= i < s.len() && s[i] == '[') {
        None
    } else {
        let i1 = ws_end(s, i + 1);
        if i1 < s.len() && s[i1] == ']' {
            Some((Seq::empty(), i1 + 1))
        } else {
            parse_arr2_items(s, i1, k1, k2)
        }
    }
}

/// One record member and its value.
pub ghost enum MemberModel {
    Path(Seq<char>),
    Env(Seq<PairModel>),
    Dirs(Seq<PairModel>),
}

/// A record member at `i`: its name decides the shape of its value.
pub open spec fn parse_member(s: Seq<char>, i: int) -> Option<(MemberModel, int)> {
    match parse_string(s, i) {
        None => None,
        Some((name, j)) => {
            let c = ws_end(s, j);
            if !(c < s.len() && s[c] == ':') {
                None
            } else {
                let v = ws_end(s, c + 1);
                if name == "module_path"@ {
                    match parse_string(s, v) {
                        None => None,
                        Some((p, e)) => Some((MemberModel::Path(p), e)),
                    }
                } else if name == "env"@ {
                    match parse_arr2(s, v, "key"@, "val"@) {
                        None => None,
                        Some((items, e)) => Some((MemberModel::Env(items), e)),
                    }
                } else if name == "map"@ {
                    match parse_arr2(s, v, "host"@, "guest"@) {
                        None => None,
                        Some((items, e)) => Some((MemberModel::Dirs(items), e)),
                    }
                } else {
                    None
                }
            }
        },
    }
}

/// The members collected so far: each present at most once.
pub ghost struct AccModel {
    pub path: Option<Seq<char>>,
    pub env: Option<Seq<PairModel>>,
    pub map: Option<Seq<PairModel>>,
}

/// Adds one member to the collection; a repeated member is rejected.
pub open spec fn acc_add(acc: AccModel, m: MemberModel) -> Option<AccModel> {
    match m {
        MemberModel::Path(p) => if acc.path is Some {
            None
        } else {
            Some(AccModel { path: Some(p), ..acc })
        },
        MemberModel::Env(e) => if acc.env is Some {
            None
        } else {
            Some(AccModel { env: Some(e), ..acc })
        },
        MemberModel::Dirs(d) => if acc.map is Some {
            None
        } else {
            Some(AccModel { map: Some(d), ..acc })
        },
    }
}

/// The member list of a record, starting at the first member: the
/// collected members and the position after the closing brace.
pub open spec fn parse_members(s: Seq<char>, i: int, acc: AccModel) -> Option<(AccModel, int)>
    decreases s.len() - i,
{
    match parse_member(s, i) {
        None => None,
        Some((m, j)) => match acc_add(acc, m) {
            None => None,
            Some(acc2) => {
                let c = ws_end(s, j);
                if c < s.len() && s[c] == '}' {
                    Some((acc2, c + 1))
                } else if c < s.len() && s[c] == ',' {
                    let j2 = ws_end(s, c + 1);
                    if j2 <= i || j2 > s.len() {
                        None
                    } else {
                        parse_members(s, j2, acc2)
                    }
                } else {
                    None
                }
            },
        },
    }
}

/// The whole record: one object covering the entire line, `module_path`
/// required, `env` and `map` defaulting to empty. Unknown or repeated
/// members, unicode escapes and raw control characters in strings are
/// all rejected — a misspelled configuration key is an error here, never
/// silently ignored.
pub open spec fn parse_record(s: Seq<char>) -> Option<RecordModel> {
    let i0 = ws_end(s, 0);
    if !(i0 < s.len() && s[i0] == '{') {
        None
    } else {
        let i1 = ws_end(s, i0 + 1);
        match parse_members(s, i1, AccModel { path: None, env: None, map: None }) {
            None => None,
            Some((acc, end)) => {
                if ws_end(s, end) != s.len() {
                    None
                } else {
                    match acc.path {
                        None => None,
                        Some(p) => Some(
                            RecordModel {
                                path: p,
                                env: match acc.env {
                                    Some(e) => e,
                                    None => Seq::empty(),
                                },
                                map: match acc.map {
                                    Some(d) => d,
                                    None => Seq::empty(),
                                },
                            },
                        ),
                    }
                }
            },
        }
    }
}

/// Whether the characters of `v` spell exactly `s`.
fn eq_chars(v: &Vec<char>, s: &str) -> (b: bool)
    ensures
        b == (v@ == s@),
{
    let n = s.unicode_len();
    if v.len() != n {
        assert(v@ != s@) by {
            if v@ == s@ {
                assert(v@.len() == s@.len());
            }
        }
        return false;
    }
    let mut i: usize = 0;
    while i < n
        invariant
            0 <= i <= n,
            n == s@.len(),
            v@.len() == n,
            forall|m: int| 0 <= m < i ==> v@[m] == s@[m],
        decreases n - i,
    {
        if v[i] != s.get_char(i) {
            return false;
        }
        i += 1;
    }
    assert(v@ =~= s@);
    true
}

/// The pair a two-member object denotes, from its executable form.
pub open spec fn pair_model(p: (Vec<char>, Vec<char>)) -> PairModel {
    (p.0@, p.1@)
}

/// The pair sequence an array denotes, from its executable form.
pub open spec fn pairs_model(v: Seq<(Vec<char>, Vec<char>)>) -> Seq<PairModel> {
    Seq::new(v.len(), |i: int| pair_model(v[i]))
}

/// Parse an object of exactly the two string members `k1` and `k2`.
fn p_obj2(s: &str, i: usize, k1: &str, k2: &str) -> (r: Option<((Vec<char>, Vec<char>), usize)>)
    requires
        i <= s@.len(),
    ensures
        match parse_obj2(s@, i as int, k1@, k2@) {
            Some(q) => r matches Some(p) && pair_model(p.0) == q.0 && p.1 == q.1,
            None => r is None,
        },
        r matches Some(p) ==> i < p.1 <= s@.len(),
{
    let n = s.unicode_len();
    if !(i < n && s.get_char(i) == '{') {
        return None;
    }
    let i1 = skip_ws(s, i + 1);
    let (n1, a1) = match p_string(s, i1) {
        None => {
            return None;
        },
        Some(x) => x,
    };
    let c1 = skip_ws(s, a1);
    if !(c1 < n && s.get_char(c1) == ':') {
        return None;
    }
    let (v1, a2) = match p_string(s, skip_ws(s, c1 + 1)) {
        None => {
            return None;
        },
        Some(x) => x,
    };
    let c2 = skip_ws(s, a2);
    if !(c2 < n && s.get_char(c2) == ',') {
        return None;
    }
    let (n2, a3) = match p_string(s, skip_ws(s, c2 + 1)) {
        None => {
            return None;
        },
        Some(x) => x,
    };
    let c3 = skip_ws(s, a3);
    if !(c3 < n && s.get_char(c3) == ':') {
        return None;
    }
    let (v2, a4) = match p_string(s, skip_ws(s, c3 + 1)) {
        None => {
            return None;
        },
        Some(x) => x,
    };
    let c4 = skip_ws(s, a4);
    if !(c4 < n && s.get_char(c4) == '}') {
        return None;
    }
    if eq_chars(&n1, k1) && eq_chars(&n2, k2) {
        Some(((v1, v2), c4 + 1))
    } else if eq_chars(&n1, k2) && eq_chars(&n2, k1) {
        Some(((v2, v1), c4 + 1))
    } else {
        None
    }
}

/// Parse the items of a non-empty array of two-member objects.
fn p_arr2_items(s: &str, i: usize, k1: &str, k2: &str) -> (r: Option<
    (Vec<(Vec<char>, Vec<char>)>, usize),
>)
    requires
        i <= s@.len(),
    ensures
        match parse_arr2_items(s@, i as int, k1@, k2@) {
            Some(q) => r matches Some(p) && pairs_model(p.0@) == q.0 && p.1 == q.1,
            None => r is None,
        },
        r matches Some(p) ==> i < p.1 <= s@.len(),
    decreases s@.len() - i,
{
    let n = s.unicode_len();
    let (pair, j) = match p_obj2(s, i, k1, k2) {
        None => {
            return None;
        },
        Some(x) => x,
    };
    let ghost pm = pair_model(pair);
    let c = skip_ws(s, j);
    if c < n && s.get_char(c) == ']' {
        let mut v: Vec<(Vec<char>, Vec<char>)> = Vec::new();
        v.push(pair);
        assert(pairs_model(v@) =~= seq![pm]);
        return Some((v, c + 1));
    }
    if c < n && s.get_char(c) == ',' {
        let j2 = skip_ws(s, c + 1);
        let (mut rest, end) = match p_arr2_items(s, j2, k1, k2) {
            None => {
                return None;
            },
            Some(x) => x,
        };
        let ghost rest0 = rest@;
        rest.insert(0, pair);
        assert(pairs_model(rest@) =~= seq![pm] + pairs_model(rest0)) by {
            assert(rest@ == rest0.insert(0, pair));
            assert forall|m: int| 0 <= m < rest@.len() implies pairs_model(rest@)[m] == (seq![pm]
                + pairs_model(rest0))[m] by {
                if m > 0 {
                    assert(rest@[m] == rest0[m - 1]);
                }
            }
        }
        return Some((rest, end));
    }
    None
}

/// Parse an array of two-member objects, possibly empty.
fn p_arr2(s: &str, i: usize, k1: &str, k2: &str) -> (r: Option<
    (Vec<(Vec<char>, Vec<char>)>, usize),
>)
    requires
        i <= s@.len(),
    ensures
        match parse_arr2(s@, i as int, k1@, k2@) {
            Some(q) => r matches Some(p) && pairs_model(p.0@) == q.0 && p.1 == q.1,
            None => r is None,
        },
        r matches Some(p) ==> i < p.1 <= s@.len(),
{
    let n = s.unicode_len();
    if !(i < n && s.get_char(i) == '[') {
        return None;
    }
    let i1 = skip_ws(s, i + 1);
    if i1 < n && s.get_char(i1) == ']' {
        let v: Vec<(Vec<char>, Vec<char>)> = Vec::new();
        assert(pairs_model(v@) =~= Seq::<PairModel>::empty());
        return Some((v, i1 + 1));
    }
    p_arr2_items(s, i1, k1, k2)
}

/// One parsed record member, in executable form.
enum MemberExec {
    Path(Vec<char>),
    Env(Vec<(Vec<char>, Vec<char>)>),
    Dirs(Vec<(Vec<char>, Vec<char>)>),
}

/// The member a `MemberExec` denotes.
spec fn member_model(m: MemberExec) -> MemberModel {
    match m {
        MemberExec::Path(p) => MemberModel::Path(p@),
        MemberExec::Env(v) => MemberModel::Env(pairs_model(v@)),
        MemberExec::Dirs(v) => MemberModel::Dirs(pairs_model(v@)),
    }
}

/// Parse one record member.
fn p_member(s: &str, i: usize) -> (r: Option<(MemberExec, usize)>)
    requires
        i <= s@.len(),
    ensures
        match parse_member(s@, i as int) {
            Some(q) => r matches Some(p) && member_model(p.0) == q.0 && p.1 == q.1,
            None => r is None,
        },
        r matches Some(p) ==> i < p.1 <= s@.len(),
{
    let n = s.unicode_len();
    let (name, j) = match p_string(s, i) {
        None => {
            return None;
        },
        Some(x) => x,
    };
    let c = skip_ws(s, j);
    if !(c < n && s.get_char(c) == ':') {
        return None;
    }
    let v = skip_ws(s, c + 1);
    if eq_chars(&name, "module_path") {
        match p_string(s, v) {
            None => None,
            Some((p, e)) => Some((MemberExec::Path(p), e)),
        }
    } else if eq_chars(&name, "env") {
        match p_arr2(s, v, "key", "val") {
            None => None,
            Some((items, e)) => Some((MemberExec::Env(items), e)),
        }
    } else if eq_chars(&name, "map") {
        match p_arr2(s, v, "host", "guest") {
            None => None,
            Some((items, e)) => Some((MemberExec::Dirs(items), e)),
        }
    } else {
        None
    }
}

/// The members collected so far, in executable form.
struct AccExec {
    path: Option<Vec<char>>,
    env: Option<Vec<(Vec<char>, Vec<char>)>>,
    map: Option<Vec<(Vec<char>, Vec<char>)>>,
}

/// The collection an `AccExec` denotes.
spec fn acc_exec_model(a: AccExec) -> AccModel {
    AccModel {
        path: match a.path {
            Some(p) => Some(p@),
            None => None,
        },
        env: match a.env {
            Some(v) => Some(pairs_model(v@)),
            None => None,
        },
        map: match a.map {
            Some(v) => Some(pairs_model(v@)),
            None => None,
        },
    }
}

/// Add one member to the collection, rejecting repeats.
fn acc_add_exec(acc: AccExec, m: MemberExec) -> (r: Option<AccExec>)
    ensures
        match acc_add(acc_exec_model(acc), member_model(m)) {
            Some(q) => r matches Some(a) && acc_exec_model(a) == q,
            None => r is None,
        },
{
    match m {
        MemberExec::Path(p) => {
            if acc.path.is_some() {
                None
            } else {
                Some(AccExec { path: Some(p), env: acc.env, map: acc.map })
            }
        },
        MemberExec::Env(v) => {
            if acc.env.is_some() {
                None
            } else {
                Some(AccExec { path: acc.path, env: Some(v), map: acc.map })
            }
        },
        MemberExec::Dirs(v) => {
            if acc.map.is_some() {
                None
            } else {
                Some(AccExec { path: acc.path, env: acc.env, map: Some(v) })
            }
        },
    }
}

/// Parse a record's member list, starting at its first member.
fn p_members(s: &str, i: usize, acc: AccExec) -> (r: Option<(AccExec, usize)>)
    requires
        i <= s@.len(),
    ensures
        match parse_members(s@, i as int, acc_exec_model(acc)) {
            Some(q) => r matches Some(p) && acc_exec_model(p.0) == q.0 && p.1 == q.1,
            None => r is None,
        },
        r matches Some(p) ==> i < p.1 <= s@.len(),
    decreases s@.len() - i,
{
    let n = s.unicode_len();
    let (m, j) = match p_member(s, i) {
        None => {
            return None;
        },
        Some(x) => x,
    };
    let acc2 = match acc_add_exec(acc, m) {
        None => {
            return None;
        },
        Some(a) => a,
    };
    let c = skip_ws(s, j);
    if c < n && s.get_char(c) == '}' {
        return Some((acc2, c + 1));
    }
    if c < n && s.get_char(c) == ',' {
        let j2 = skip_ws(s, c + 1);
        return p_members(s, j2, acc2);
    }
    None
}

/// Parse one whole stage-descriptor record: the program path, the
/// environment entries, and the directory mappings it denotes.
pub(crate) fn p_record(s: &str) -> (r: Option<
    (Vec<char>, Vec<(Vec<char>, Vec<char>)>, Vec<(Vec<char>, Vec<char>)>),
>)
    ensures
        match parse_record(s@) {
            Some(q) => r matches Some(t) && t.0@ == q.path && pairs_model(t.1@) == q.env
                && pairs_model(t.2@) == q.map,
            None => r is None,
        },
{
    let n = s.unicode_len();
    let i0 = skip_ws(s, 0);
    if !(i0 < n && s.get_char(i0) == '{') {
        return None;
    }
    let i1 = skip_ws(s, i0 + 1);
    let acc0 = AccExec { path: None, env: None, map: None };
    let (acc, end) = match p_members(s, i1, acc0) {
        None => {
            return None;
        },
        Some(x) => x,
    };
    let t = skip_ws(s, end);
    if t != n {
        return None;
    }
    let AccExec { path, env, map } = acc;
    match path {
        None => None,
        Some(p) => {
            let env_v = match env {
                Some(e) => e,
                None => {
                    let v: Vec<(Vec<char>, Vec<char>)> = Vec::new();
                    assert(pairs_model(v@) =~= Seq::<PairModel>::empty());
                    v
                },
            };
            let map_v = match map {
                Some(d) => d,
                None => {
                    let v: Vec<(Vec<char>, Vec<char>)> = Vec::new();
                    assert(pairs_model(v@) =~= Seq::<PairModel>::empty());
                    v
                },
            };
            Some((p, env_v, map_v))
        },
    }
}

} // verus!
