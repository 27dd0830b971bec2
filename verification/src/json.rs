use vstd::prelude::*;
use vstd::string::StrSliceExecFns;

verus! {

// The platform speaks JSON. The wire envelopes this crate consumes are
// small, but their syntax is ordinary JSON, so this module holds a
// complete JSON document parser: a specification-level grammar (the
// `sp_` functions, over `Seq<char>`) and an executable parser proved to
// return exactly the value the grammar assigns to the text.
//
// Numbers are kept as their raw lexeme; a typed reading (`as_u64`)
// is offered where a caller needs one. Strings are decoded, including
// the `\uXXXX` escapes and surrogate pairs.

/// Mathematical model of a JSON document.
pub enum JsonV {
    Null,
    Bool(bool),
    Num(Seq<char>),
    Str(Seq<char>),
    Arr(Seq<JsonV>),
    Obj(Seq<(Seq<char>, JsonV)>),
}

/// A parsed JSON document. Object members keep the order and the
/// duplicates the text had; lookups take the first binding of a key.
pub enum Json {
    Null,
    Bool(bool),
    Num(String),
    Str(String),
    Arr(Vec<Json>),
    Obj(Vec<(String, Json)>),
}

pub open spec fn jview_seq(q: Seq<Json>) -> Seq<JsonV>
    decreases q,
{
    Seq::new(
        q.len(),
        |k: int|
            if 0 <= k < q.len() {
                jview(q[k])
            } else {
                JsonV::Null
            },
    )
}

pub open spec fn mview_seq(q: Seq<(String, Json)>) -> Seq<(Seq<char>, JsonV)>
    decreases q,
{
    Seq::new(
        q.len(),
        |k: int|
            if 0 <= k < q.len() {
                (q[k].0@, jview(q[k].1))
            } else {
                (Seq::<char>::empty(), JsonV::Null)
            },
    )
}

/// The model a parsed document stands for.
pub open spec fn jview(j: Json) -> JsonV
    decreases j,
{
    match j {
        Json::Null => JsonV::Null,
        Json::Bool(b) => JsonV::Bool(b),
        Json::Num(s) => JsonV::Num(s@),
        Json::Str(s) => JsonV::Str(s@),
        Json::Arr(v) => JsonV::Arr(jview_seq(v@)),
        Json::Obj(m) => JsonV::Obj(mview_seq(m@)),
    }
}

proof fn lemma_jview_seq_push(q: Seq<Json>, v: Json)
    ensures
        jview_seq(q.push(v)) == jview_seq(q).push(jview(v)),
{
    assert(jview_seq(q.push(v)) =~= jview_seq(q).push(jview(v)));
}

proof fn lemma_mview_seq_push(q: Seq<(String, Json)>, kv: (String, Json))
    ensures
        mview_seq(q.push(kv)) == mview_seq(q).push((kv.0@, jview(kv.1))),
{
    assert(mview_seq(q.push(kv)) =~= mview_seq(q).push((kv.0@, jview(kv.1))));
}

// ---------------------------------------------------------------------
// The grammar.

pub open spec fn is_ws_char(c: char) -> bool {
    c == ' ' || c == '\n' || c == '\r' || c == '\t'
}

pub open spec fn is_digit_char(c: char) -> bool {
    48 <= c as u32 && c as u32 <= 57
}

/// Characters that may continue a number lexeme.
pub open spec fn is_num_char(c: char) -> bool {
    is_digit_char(c) || c == '-' || c == '+' || c == '.' || c == 'e' || c == 'E'
}

pub open spec fn hex_digit_val(c: char) -> Option<u32> {
    if is_digit_char(c) {
        Some((c as u32 - 48) as u32)
    } else if 97 <= c as u32 && c as u32 <= 102 {
        Some((c as u32 - 87) as u32)
    } else if 65 <= c as u32 && c as u32 <= 70 {
        Some((c as u32 - 55) as u32)
    } else {
        None
    }
}

pub open spec fn hex4_val(s: Seq<char>, i: int) -> Option<u32> {
    match (hex_digit_val(s[i]), hex_digit_val(s[i + 1]), hex_digit_val(s[i + 2]), hex_digit_val(
        s[i + 3],
    )) {
        (Some(a), Some(b), Some(c), Some(d)) => Some((a * 4096 + b * 256 + c * 16 + d) as u32),
        _ => None,
    }
}

pub open spec fn simple_escape(c: char) -> Option<char> {
    if c == '"' {
        Some('"')
    } else if c == '\\' {
        Some('\\')
    } else if c == '/' {
        Some('/')
    } else if c == 'b' {
        Some('\u{8}')
    } else if c == 'f' {
        Some('\u{c}')
    } else if c == 'n' {
        Some('\n')
    } else if c == 'r' {
        Some('\r')
    } else if c == 't' {
        Some('\t')
    } else {
        None
    }
}

/// String body, after the opening quote; `acc` holds what is decoded so
/// far. Yields the decoded content and the position after the closing
/// quote.
pub open spec fn sp_string(s: Seq<char>, i: int, acc: Seq<char>) -> Option<(Seq<char>, int)>
    decreases s.len() - i,
{
    if i < 0 || i >= s.len() {
        None
    } else if s[i] == '"' {
        Some((acc, i + 1))
    } else if s[i] == '\\' {
        if i + 2 > s.len() {
            None
        } else {
            let c = s[i + 1];
            match simple_escape(c) {
                Some(e) => sp_string(s, i + 2, acc.push(e)),
                None => if c == 'u' {
                    if i + 6 > s.len() {
                        None
                    } else {
                        match hex4_val(s, i + 2) {
                            None => None,
                            Some(h) => if h < 0xD800 || h >= 0xE000 {
                                sp_string(s, i + 6, acc.push(h as char))
                            } else if h < 0xDC00 {
                                if i + 12 > s.len() || s[i + 6] != '\\' || s[i + 7] != 'u' {
                                    None
                                } else {
                                    match hex4_val(s, i + 8) {
                                        None => None,
                                        Some(lo) => if 0xDC00 <= lo < 0xE000 {
                                            sp_string(
                                                s,
                                                i + 12,
                                                acc.push(
                                                    ((0x10000 + (h - 0xD800) * 0x400 + (lo
                                                        - 0xDC00)) as u32) as char,
                                                ),
                                            )
                                        } else {
                                            None
                                        },
                                    }
                                }
                            } else {
                                None
                            },
                        }
                    }
                } else {
                    None
                },
            }
        }
    } else if (s[i] as u32) < 32 {
        None
    } else {
        sp_string(s, i + 1, acc.push(s[i]))
    }
}

/// Number lexeme starting at `i`; never fails, an empty lexeme is ruled
/// out by the caller's dispatch on the first character.
pub open spec fn sp_number(s: Seq<char>, i: int, acc: Seq<char>) -> (Seq<char>, int)
    decreases s.len() - i,
{
    if 0 <= i < s.len() && is_num_char(s[i]) {
        sp_number(s, i + 1, acc.push(s[i]))
    } else {
        (acc, i)
    }
}

/// A value, with leading whitespace allowed. Yields the value and the
/// position just after it.
pub open spec fn sp_value(s: Seq<char>, i: int) -> Option<(JsonV, int)>
    decreases s.len() - i, 0int,
{
    if i < 0 || i >= s.len() {
        None
    } else {
        let c = s[i];
        if is_ws_char(c) {
            sp_value(s, i + 1)
        } else if c == 'n' {
            if i + 4 <= s.len() && s[i + 1] == 'u' && s[i + 2] == 'l' && s[i + 3] == 'l' {
                Some((JsonV::Null, i + 4))
            } else {
                None
            }
        } else if c == 't' {
            if i + 4 <= s.len() && s[i + 1] == 'r' && s[i + 2] == 'u' && s[i + 3] == 'e' {
                Some((JsonV::Bool(true), i + 4))
            } else {
                None
            }
        } else if c == 'f' {
            if i + 5 <= s.len() && s[i + 1] == 'a' && s[i + 2] == 'l' && s[i + 3] == 's' && s[i + 4]
                == 'e' {
                Some((JsonV::Bool(false), i + 5))
            } else {
                None
            }
        } else if c == '"' {
            match sp_string(s, i + 1, Seq::empty()) {
                Some(r) => Some((JsonV::Str(r.0), r.1)),
                None => None,
            }
        } else if c == '[' {
            match sp_array(s, i + 1, Seq::empty(), true) {
                Some(r) => Some((JsonV::Arr(r.0), r.1)),
                None => None,
            }
        } else if c == '{' {
            match sp_object(s, i + 1, Seq::empty(), true) {
                Some(r) => Some((JsonV::Obj(r.0), r.1)),
                None => None,
            }
        } else if c == '-' || is_digit_char(c) {
            let r = sp_number(s, i, Seq::empty());
            Some((JsonV::Num(r.0), r.1))
        } else {
            None
        }
    }
}

/// Inside an array, expecting an element, or `]` when nothing has been
/// read since the opening bracket (`first`).
pub open spec fn sp_array(s: Seq<char>, i: int, acc: Seq<JsonV>, first: bool) -> Option<
    (Seq<JsonV>, int),
>
    decreases s.len() - i, 1int,
{
    if i < 0 || i >= s.len() {
        None
    } else if is_ws_char(s[i]) {
        sp_array(s, i + 1, acc, first)
    } else if s[i] == ']' {
        if first {
            Some((acc, i + 1))
        } else {
            None
        }
    } else {
        match sp_value(s, i) {
            None => None,
            Some(r) => if i < r.1 <= s.len() {
                sp_array_sep(s, r.1, acc.push(r.0))
            } else {
                None
            },
        }
    }
}

/// Inside an array, after an element: a comma or the closing bracket.
pub open spec fn sp_array_sep(s: Seq<char>, i: int, acc: Seq<JsonV>) -> Option<(Seq<JsonV>, int)>
    decreases s.len() - i, 1int,
{
    if i < 0 || i >= s.len() {
        None
    } else if is_ws_char(s[i]) {
        sp_array_sep(s, i + 1, acc)
    } else if s[i] == ',' {
        sp_array(s, i + 1, acc, false)
    } else if s[i] == ']' {
        Some((acc, i + 1))
    } else {
        None
    }
}

/// Inside an object, expecting a member key, or `}` when nothing has
/// been read since the opening brace (`first`).
pub open spec fn sp_object(s: Seq<char>, i: int, acc: Seq<(Seq<char>, JsonV)>, first: bool) -> Option<
    (Seq<(Seq<char>, JsonV)>, int),
>
    decreases s.len() - i, 1int,
{
    if i < 0 || i >= s.len() {
        None
    } else if is_ws_char(s[i]) {
        sp_object(s, i + 1, acc, first)
    } else if s[i] == '}' {
        if first {
            Some((acc, i + 1))
        } else {
            None
        }
    } else if s[i] == '"' {
        match sp_string(s, i + 1, Seq::empty()) {
            None => None,
            Some(r) => if i < r.1 <= s.len() {
                sp_obj_colon(s, r.1, acc, r.0)
            } else {
                None
            },
        }
    } else {
        None
    }
}

/// Inside an object, after a member key: the colon and the value.
pub open spec fn sp_obj_colon(s: Seq<char>, i: int, acc: Seq<(Seq<char>, JsonV)>, key: Seq<char>) -> Option<
    (Seq<(Seq<char>, JsonV)>, int),
>
    decreases s.len() - i, 1int,
{
    if i < 0 || i >= s.len() {
        None
    } else if is_ws_char(s[i]) {
        sp_obj_colon(s, i + 1, acc, key)
    } else if s[i] == ':' {
        match sp_value(s, i + 1) {
            None => None,
            Some(r) => if i < r.1 <= s.len() {
                sp_obj_sep(s, r.1, acc.push((key, r.0)))
            } else {
                None
            },
        }
    } else {
        None
    }
}

/// Inside an object, after a member: a comma or the closing brace.
pub open spec fn sp_obj_sep(s: Seq<char>, i: int, acc: Seq<(Seq<char>, JsonV)>) -> Option<
    (Seq<(Seq<char>, JsonV)>, int),
>
    decreases s.len() - i, 1int,
{
    if i < 0 || i >= s.len() {
        None
    } else if is_ws_char(s[i]) {
        sp_obj_sep(s, i + 1, acc)
    } else if s[i] == ',' {
        sp_object(s, i + 1, acc, false)
    } else if s[i] == '}' {
        Some((acc, i + 1))
    } else {
        None
    }
}

pub open spec fn sp_ws_only(s: Seq<char>, i: int) -> bool
    decreases s.len() - i,
{
    if i < 0 || i >= s.len() {
        true
    } else if is_ws_char(s[i]) {
        sp_ws_only(s, i + 1)
    } else {
        false
    }
}

/// What a whole text means as a JSON document: one value surrounded by
/// whitespace, or nothing.
pub open spec fn sp_json(s: Seq<char>) -> Option<JsonV> {
    match sp_value(s, 0) {
        None => None,
        Some(r) => if sp_ws_only(s, r.1) {
            Some(r.0)
        } else {
            None
        },
    }
}

// ---------------------------------------------------------------------
// The executable parser, proved against the grammar.

/// Relies on `String::push`: appends exactly the given character.
#[verifier::external_body]
fn push_char(s: &mut String, c: char)
    ensures
        final(s)@ == old(s)@.push(c),
{
    s.push(c)
}

/// Relies on `char::from_u32`: yields the character for any Unicode
/// scalar value (below the surrogate range, or above it and at most
/// 0x10FFFF), and nothing otherwise.
#[verifier::external_body]
fn char_from_u32(u: u32) -> (r: Option<char>)
    ensures
        (u < 0xD800 || (0xE000 <= u && u <= 0x10FFFF)) ==> r == Some(u as char),
        !(u < 0xD800 || (0xE000 <= u && u <= 0x10FFFF)) ==> r is None,
{
    char::from_u32(u)
}

fn ch_is_ws(c: char) -> (r: bool)
    ensures
        r == is_ws_char(c),
{
    c == ' ' || c == '\n' || c == '\r' || c == '\t'
}

fn ch_is_digit(c: char) -> (r: bool)
    ensures
        r == is_digit_char(c),
{
    let u = c as u32;
    48 <= u && u <= 57
}

fn ch_is_num(c: char) -> (r: bool)
    ensures
        r == is_num_char(c),
{
    ch_is_digit(c) || c == '-' || c == '+' || c == '.' || c == 'e' || c == 'E'
}

fn ch_hex_digit(c: char) -> (r: Option<u32>)
    ensures
        r == hex_digit_val(c),
        r matches Some(v) ==> v <= 15,
{
    let u = c as u32;
    if 48 <= u && u <= 57 {
        Some(u - 48)
    } else if 97 <= u && u <= 102 {
        Some(u - 87)
    } else if 65 <= u && u <= 70 {
        Some(u - 55)
    } else {
        None
    }
}

fn ch_simple_escape(c: char) -> (r: Option<char>)
    ensures
        r == simple_escape(c),
{
    if c == '"' {
        Some('"')
    } else if c == '\\' {
        Some('\\')
    } else if c == '/' {
        Some('/')
    } else if c == 'b' {
        Some('\u{8}')
    } else if c == 'f' {
        Some('\u{c}')
    } else if c == 'n' {
        Some('\n')
    } else if c == 'r' {
        Some('\r')
    } else if c == 't' {
        Some('\t')
    } else {
        None
    }
}

fn ex_hex4(s: &str, len: usize, i: usize) -> (r: Option<u32>)
    requires
        len == s@.len(),
        i + 4 <= len,
    ensures
        r == hex4_val(s@, i as int),
        r matches Some(v) ==> v <= 0xFFFF,
{
    let a = ch_hex_digit(s.get_char(i));
    let b = ch_hex_digit(s.get_char(i + 1));
    let c = ch_hex_digit(s.get_char(i + 2));
    let d = ch_hex_digit(s.get_char(i + 3));
    match (a, b, c, d) {
        (Some(a), Some(b), Some(c), Some(d)) => Some(a * 4096 + b * 256 + c * 16 + d),
        _ => None,
    }
}

pub open spec fn string_res_matches(
    res: Option<(String, usize)>,
    sp: Option<(Seq<char>, int)>,
) -> bool {
    match res {
        Some(r) => sp == Some((r.0@, r.1 as int)),
        None => sp is None,
    }
}

fn ex_string(s: &str, len: usize, i: usize, acc: String) -> (res: Option<(String, usize)>)
    requires
        len == s@.len(),
    ensures
        string_res_matches(res, sp_string(s@, i as int, acc@)),
    decreases len - i,
{
    if i >= len {
        return None;
    }
    let c = s.get_char(i);
    if c == '"' {
        Some((acc, i + 1))
    } else if c == '\\' {
        if len - i < 2 {
            return None;
        }
        let e = s.get_char(i + 1);
        match ch_simple_escape(e) {
            Some(d) => {
                let mut acc2 = acc;
                push_char(&mut acc2, d);
                ex_string(s, len, i + 2, acc2)
            },
            None => {
                if e == 'u' {
                    if len - i < 6 {
                        return None;
                    }
                    match ex_hex4(s, len, i + 2) {
                        None => None,
                        Some(h) => {
                            if h < 0xD800 || h >= 0xE000 {
                                match char_from_u32(h) {
                                    Some(d) => {
                                        let mut acc2 = acc;
                                        push_char(&mut acc2, d);
                                        ex_string(s, len, i + 6, acc2)
                                    },
                                    None => {
                                        assert(false);
                                        None
                                    },
                                }
                            } else if h < 0xDC00 {
                                if len - i < 12 || s.get_char(i + 6) != '\\' || s.get_char(i + 7)
                                    != 'u' {
                                    return None;
                                }
                                match ex_hex4(s, len, i + 8) {
                                    None => None,
                                    Some(lo) => {
                                        if 0xDC00 <= lo && lo < 0xE000 {
                                            let code = 0x10000 + (h - 0xD800) * 0x400 + (lo
                                                - 0xDC00);
                                            match char_from_u32(code) {
                                                Some(d) => {
                                                    let mut acc2 = acc;
                                                    push_char(&mut acc2, d);
                                                    ex_string(s, len, i + 12, acc2)
                                                },
                                                None => {
                                                    assert(false);
                                                    None
                                                },
                                            }
                                        } else {
                                            None
                                        }
                                    },
                                }
                            } else {
                                None
                            }
                        },
                    }
                } else {
                    None
                }
            },
        }
    } else if (c as u32) < 32 {
        None
    } else {
        let mut acc2 = acc;
        push_char(&mut acc2, c);
        ex_string(s, len, i + 1, acc2)
    }
}

fn ex_number(s: &str, len: usize, i: usize, acc: String) -> (res: (String, usize))
    requires
        len == s@.len(),
    ensures
        sp_number(s@, i as int, acc@) == (res.0@, res.1 as int),
    decreases len - i,
{
    if i < len {
        let c = s.get_char(i);
        if ch_is_num(c) {
            let mut acc2 = acc;
            push_char(&mut acc2, c);
            return ex_number(s, len, i + 1, acc2);
        }
    }
    (acc, i)
}

pub open spec fn value_res_matches(res: Option<(Json, usize)>, sp: Option<(JsonV, int)>) -> bool {
    match res {
        Some(r) => sp == Some((jview(r.0), r.1 as int)),
        None => sp is None,
    }
}

pub open spec fn arr_res_matches(
    res: Option<(Vec<Json>, usize)>,
    sp: Option<(Seq<JsonV>, int)>,
) -> bool {
    match res {
        Some(r) => sp == Some((jview_seq(r.0@), r.1 as int)),
        None => sp is None,
    }
}

pub open spec fn obj_res_matches(
    res: Option<(Vec<(String, Json)>, usize)>,
    sp: Option<(Seq<(Seq<char>, JsonV)>, int)>,
) -> bool {
    match res {
        Some(r) => sp == Some((mview_seq(r.0@), r.1 as int)),
        None => sp is None,
    }
}

fn ex_value(s: &str, len: usize, i: usize) -> (res: Option<(Json, usize)>)
    requires
        len == s@.len(),
    ensures
        value_res_matches(res, sp_value(s@, i as int)),
    decreases len - i, 0int,
{
    if i >= len {
        return None;
    }
    let c = s.get_char(i);
    if ch_is_ws(c) {
        ex_value(s, len, i + 1)
    } else if c == 'n' {
        if len - i >= 4 && s.get_char(i + 1) == 'u' && s.get_char(i + 2) == 'l' && s.get_char(i + 3)
            == 'l' {
            Some((Json::Null, i + 4))
        } else {
            None
        }
    } else if c == 't' {
        if len - i >= 4 && s.get_char(i + 1) == 'r' && s.get_char(i + 2) == 'u' && s.get_char(i + 3)
            == 'e' {
            Some((Json::Bool(true), i + 4))
        } else {
            None
        }
    } else if c == 'f' {
        if len - i >= 5 && s.get_char(i + 1) == 'a' && s.get_char(i + 2) == 'l' && s.get_char(i + 3)
            == 's' && s.get_char(i + 4) == 'e' {
            Some((Json::Bool(false), i + 5))
        } else {
            None
        }
    } else if c == '"' {
        match ex_string(s, len, i + 1, String::new()) {
            Some(r) => Some((Json::Str(r.0), r.1)),
            None => None,
        }
    } else if c == '[' {
        proof {
            assert(jview_seq(Seq::<Json>::empty()) =~= Seq::<JsonV>::empty());
        }
        match ex_array(s, len, i + 1, Vec::new(), true) {
            Some(r) => Some((Json::Arr(r.0), r.1)),
            None => None,
        }
    } else if c == '{' {
        proof {
            assert(mview_seq(Seq::<(String, Json)>::empty()) =~= Seq::<(Seq<char>, JsonV)>::empty());
        }
        match ex_object(s, len, i + 1, Vec::new(), true) {
            Some(r) => Some((Json::Obj(r.0), r.1)),
            None => None,
        }
    } else if c == '-' || ch_is_digit(c) {
        let r = ex_number(s, len, i, String::new());
        Some((Json::Num(r.0), r.1))
    } else {
        None
    }
}

fn ex_array(s: &str, len: usize, i: usize, acc: Vec<Json>, first: bool) -> (res: Option<
    (Vec<Json>, usize),
>)
    requires
        len == s@.len(),
    ensures
        arr_res_matches(res, sp_array(s@, i as int, jview_seq(acc@), first)),
    decreases len - i, 1int,
{
    if i >= len {
        return None;
    }
    let c = s.get_char(i);
    if ch_is_ws(c) {
        ex_array(s, len, i + 1, acc, first)
    } else if c == ']' {
        if first {
            Some((acc, i + 1))
        } else {
            None
        }
    } else {
        match ex_value(s, len, i) {
            None => None,
            Some((v, j)) => {
                if i < j && j <= len {
                    let ghost acc0 = acc@;
                    let ghost v0 = v;
                    let mut acc2 = acc;
                    acc2.push(v);
                    proof {
                        lemma_jview_seq_push(acc0, v0);
                    }
                    ex_array_sep(s, len, j, acc2)
                } else {
                    None
                }
            },
        }
    }
}

fn ex_array_sep(s: &str, len: usize, i: usize, acc: Vec<Json>) -> (res: Option<(Vec<Json>, usize)>)
    requires
        len == s@.len(),
    ensures
        arr_res_matches(res, sp_array_sep(s@, i as int, jview_seq(acc@))),
    decreases len - i, 1int,
{
    if i >= len {
        return None;
    }
    let c = s.get_char(i);
    if ch_is_ws(c) {
        ex_array_sep(s, len, i + 1, acc)
    } else if c == ',' {
        ex_array(s, len, i + 1, acc, false)
    } else if c == ']' {
        Some((acc, i + 1))
    } else {
        None
    }
}

fn ex_object(s: &str, len: usize, i: usize, acc: Vec<(String, Json)>, first: bool) -> (res: Option<
    (Vec<(String, Json)>, usize),
>)
    requires
        len == s@.len(),
    ensures
        obj_res_matches(res, sp_object(s@, i as int, mview_seq(acc@), first)),
    decreases len - i, 1int,
{
    if i >= len {
        return None;
    }
    let c = s.get_char(i);
    if ch_is_ws(c) {
        ex_object(s, len, i + 1, acc, first)
    } else if c == '}' {
        if first {
            Some((acc, i + 1))
        } else {
            None
        }
    } else if c == '"' {
        match ex_string(s, len, i + 1, String::new()) {
            None => None,
            Some((k, j)) => {
                if i < j && j <= len {
                    ex_obj_colon(s, len, j, acc, k)
                } else {
                    None
                }
            },
        }
    } else {
        None
    }
}

fn ex_obj_colon(s: &str, len: usize, i: usize, acc: Vec<(String, Json)>, key: String) -> (res:
    Option<(Vec<(String, Json)>, usize)>)
    requires
        len == s@.len(),
    ensures
        obj_res_matches(res, sp_obj_colon(s@, i as int, mview_seq(acc@), key@)),
    decreases len - i, 1int,
{
    if i >= len {
        return None;
    }
    let c = s.get_char(i);
    if ch_is_ws(c) {
        ex_obj_colon(s, len, i + 1, acc, key)
    } else if c == ':' {
        match ex_value(s, len, i + 1) {
            None => None,
            Some((v, j)) => {
                if i < j && j <= len {
                    let ghost acc0 = acc@;
                    let ghost kv0 = (key, v);
                    let mut acc2 = acc;
                    acc2.push((key, v));
                    proof {
                        lemma_mview_seq_push(acc0, kv0);
                    }
                    ex_obj_sep(s, len, j, acc2)
                } else {
                    None
                }
            },
        }
    } else {
        None
    }
}

fn ex_obj_sep(s: &str, len: usize, i: usize, acc: Vec<(String, Json)>) -> (res: Option<
    (Vec<(String, Json)>, usize),
>)
    requires
        len == s@.len(),
    ensures
        obj_res_matches(res, sp_obj_sep(s@, i as int, mview_seq(acc@))),
    decreases len - i, 1int,
{
    if i >= len {
        return None;
    }
    let c = s.get_char(i);
    if ch_is_ws(c) {
        ex_obj_sep(s, len, i + 1, acc)
    } else if c == ',' {
        ex_object(s, len, i + 1, acc, false)
    } else if c == '}' {
        Some((acc, i + 1))
    } else {
        None
    }
}

fn ex_ws_only(s: &str, len: usize, i: usize) -> (r: bool)
    requires
        len == s@.len(),
    ensures
        r == sp_ws_only(s@, i as int),
    decreases len - i,
{
    if i >= len {
        true
    } else if ch_is_ws(s.get_char(i)) {
        ex_ws_only(s, len, i + 1)
    } else {
        false
    }
}

pub open spec fn json_res_matches(res: Option<Json>, sp: Option<JsonV>) -> bool {
    match res {
        Some(j) => sp == Some(jview(j)),
        None => sp is None,
    }
}

/// Parses a complete JSON document: exactly the value the grammar
/// assigns to the text, or nothing when the text is not JSON.
pub fn parse_json(s: &str) -> (res: Option<Json>)
    ensures
        json_res_matches(res, sp_json(s@)),
{
    let len = s.unicode_len();
    match ex_value(s, len, 0) {
        None => None,
        Some((j, n)) => {
            if ex_ws_only(s, len, n) {
                Some(j)
            } else {
                None
            }
        },
    }
}

// ---------------------------------------------------------------------
// Reading parsed documents.

/// First binding of `key` among the members.
pub open spec fn sp_obj_get(ms: Seq<(Seq<char>, JsonV)>, key: Seq<char>) -> Option<JsonV>
    decreases ms.len(),
{
    if ms.len() == 0 {
        None
    } else if ms[0].0 == key {
        Some(ms[0].1)
    } else {
        sp_obj_get(ms.drop_first(), key)
    }
}

/// Member lookup on an object; nothing on any other kind of value.
pub open spec fn sp_get(v: JsonV, key: Seq<char>) -> Option<JsonV> {
    match v {
        JsonV::Obj(ms) => sp_obj_get(ms, key),
        _ => None,
    }
}

pub open spec fn sp_str_of(v: JsonV) -> Option<Seq<char>> {
    match v {
        JsonV::Str(s) => Some(s),
        _ => None,
    }
}

/// Digit string read in base ten.
pub open spec fn sp_dec_val(s: Seq<char>) -> int
    decreases s.len(),
{
    if s.len() == 0 {
        0
    } else {
        sp_dec_val(s.drop_last()) * 10 + (s.last() as u32 - 48)
    }
}

pub open spec fn all_digits(s: Seq<char>) -> bool {
    forall|k: int| 0 <= k < s.len() ==> is_digit_char(s[k])
}

/// The unsigned 64-bit reading of a number value: defined exactly for a
/// non-empty all-digit lexeme whose value fits.
pub open spec fn sp_u64_of(v: JsonV) -> Option<u64> {
    match v {
        JsonV::Num(s) => if s.len() > 0 && all_digits(s) && sp_dec_val(s) <= u64::MAX {
            Some(sp_dec_val(s) as u64)
        } else {
            None
        },
        _ => None,
    }
}

proof fn lemma_dec_val_nonneg(s: Seq<char>)
    requires
        all_digits(s),
    ensures
        sp_dec_val(s) >= 0,
    decreases s.len(),
{
    if s.len() > 0 {
        assert(all_digits(s.drop_last()));
        lemma_dec_val_nonneg(s.drop_last());
    }
}

proof fn lemma_dec_val_prefix_grows(s: Seq<char>, k: int)
    requires
        all_digits(s),
        0 <= k <= s.len(),
    ensures
        sp_dec_val(s.take(k)) <= sp_dec_val(s),
    decreases s.len() - k,
{
    if k < s.len() {
        assert(all_digits(s.take(k)));
        lemma_dec_val_nonneg(s.take(k));
        assert(s.take(k + 1).drop_last() =~= s.take(k));
        assert(sp_dec_val(s.take(k + 1)) == sp_dec_val(s.take(k)) * 10 + (s[k] as u32 - 48));
        lemma_dec_val_prefix_grows(s, k + 1);
    } else {
        assert(s.take(k) =~= s);
    }
}

impl Json {
    /// First member bound to `key`, on an object.
    pub fn get<'a>(&'a self, key: &String) -> (res: Option<&'a Json>)
        ensures
            res matches Some(j) ==> sp_get(jview(*self), key@) == Some(jview(*j)),
            res is None ==> sp_get(jview(*self), key@) is None,
    {
        match self {
            Json::Obj(m) => {
                let mut k: usize = 0;
                assert(mview_seq(m@).skip(0) =~= mview_seq(m@));
                while k < m.len()
                    invariant
                        k <= m.len(),
                        jview(*self) == JsonV::Obj(mview_seq(m@)),
                        sp_obj_get(mview_seq(m@), key@) == sp_obj_get(
                            mview_seq(m@).skip(k as int),
                            key@,
                        ),
                    decreases m.len() - k,
                {
                    proof {
                        assert(mview_seq(m@).skip(k as int)[0] == (
                            m@[k as int].0@,
                            jview(m@[k as int].1),
                        ));
                        assert(mview_seq(m@).skip(k as int).drop_first() =~= mview_seq(m@).skip(
                            k as int + 1,
                        ));
                    }
                    if m[k].0 == *key {
                        return Some(&m[k].1);
                    }
                    k += 1;
                }
                assert(mview_seq(m@).skip(k as int).len() == 0);
                None
            },
            _ => None,
        }
    }

    /// The content of a string value.
    pub fn as_string(&self) -> (res: Option<&String>)
        ensures
            res matches Some(t) ==> sp_str_of(jview(*self)) == Some(t@),
            res is None ==> sp_str_of(jview(*self)) is None,
    {
        match self {
            Json::Str(s) => Some(s),
            _ => None,
        }
    }

    /// The elements of an array value.
    pub fn as_array(&self) -> (res: Option<&Vec<Json>>)
        ensures
            res matches Some(a) ==> jview(*self) == JsonV::Arr(jview_seq(a@)),
            res is None ==> !(jview(*self) is Arr),
    {
        match self {
            Json::Arr(v) => Some(v),
            _ => None,
        }
    }

    /// The unsigned 64-bit reading of a number value.
    pub fn as_u64(&self) -> (res: Option<u64>)
        ensures
            res == sp_u64_of(jview(*self)),
    {
        match self {
            Json::Num(lex) => {
                let n = lex.as_str().unicode_len();
                if n == 0 {
                    return None;
                }
                let mut acc: u64 = 0;
                let mut k: usize = 0;
                assert(lex@.take(0) =~= Seq::<char>::empty());
                while k < n
                    invariant
                        n == lex@.len(),
                        n > 0,
                        k <= n,
                        jview(*self) == JsonV::Num(lex@),
                        all_digits(lex@.take(k as int)),
                        acc == sp_dec_val(lex@.take(k as int)),
                    decreases n - k,
                {
                    let c = lex.as_str().get_char(k);
                    if !ch_is_digit(c) {
                        proof {
                            assert(!all_digits(lex@)) by {
                                assert(0 <= k < lex@.len() && !is_digit_char(lex@[k as int]));
                            }
                        }
                        return None;
                    }
                    let d = (c as u32) - 48;
                    proof {
                        assert(lex@.take(k as int + 1).drop_last() =~= lex@.take(k as int));
                        assert(lex@.take(k as int + 1).last() == lex@[k as int]);
                    }
                    let next = acc.checked_mul(10);
                    match next {
                        None => {
                            proof {
                                assert(sp_dec_val(lex@.take(k as int + 1)) > u64::MAX);
                                if all_digits(lex@) {
                                    lemma_dec_val_prefix_grows(lex@, k as int + 1);
                                }
                            }
                            return None;
                        },
                        Some(m10) => {
                            match m10.checked_add(d as u64) {
                                None => {
                                    proof {
                                        assert(sp_dec_val(lex@.take(k as int + 1)) > u64::MAX);
                                        if all_digits(lex@) {
                                            lemma_dec_val_prefix_grows(lex@, k as int + 1);
                                        }
                                    }
                                    return None;
                                },
                                Some(v) => {
                                    acc = v;
                                    k += 1;
                                },
                            }
                        },
                    }
                }
                assert(lex@.take(n as int) =~= lex@);
                Some(acc)
            },
            _ => None,
        }
    }
}

} // verus!
